use vstd::prelude::*;

verus! {

/// A tag of the signature header: one of the four that are told apart, or
/// any other number.
#[derive(Debug, Clone, Copy, PartialEq, Eq, Structural)]
pub enum Tag {
    HeaderSignatures,
    HeaderImmutable,
    Headeri18Ntable,
    Size,
    Other(i32),
}

impl Tag {
    /// The tag that a number stands for.
    pub open spec fn of(tag: i32) -> Tag {
        if tag == 62 {
            Tag::HeaderSignatures
        } else if tag == 63 {
            Tag::HeaderImmutable
        } else if tag == 100 {
            Tag::Headeri18Ntable
        } else if tag == 1000 {
            Tag::Size
        } else {
            Tag::Other(tag)
        }
    }
}

impl From<i32> for Tag {
    fn from(tag: i32) -> (t: Tag) {
        match tag {
            62 => Tag::HeaderSignatures,
            63 => Tag::HeaderImmutable,
            100 => Tag::Headeri18Ntable,
            1000 => Tag::Size,
            x => Tag::Other(x),
        }
    }
}

impl vstd::std_specs::convert::FromSpecImpl<i32> for Tag {
    open spec fn obeys_from_spec() -> bool {
        true
    }

    open spec fn from_spec(tag: i32) -> Tag {
        Tag::of(tag)
    }
}

} // verus!
