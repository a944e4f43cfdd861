use vstd::prelude::*;

verus! {

/// The ways in which an operation of this library can fail.
#[derive(Clone, Copy, Debug, PartialEq, Eq, Structural)]
pub enum ErrorKind {
    /// The bytes on the wire violate the format.
    InvalidData,
    /// A value supplied by the caller cannot be used.
    InvalidInput,
    /// A case that the format tolerates and this library does not handle.
    Unsupported,
    /// A required parent path is missing and may not be created.
    NotFound,
    /// The byte source ended early or the sink refused bytes.
    Io,
    /// The host refused a change of owner or mode.
    PermissionDenied,
}

/// An error: its kind, which contracts speak of, and a message for people.
#[derive(Clone, Debug)]
pub struct Error {
    pub kind: ErrorKind,
    pub message: String,
}

impl Error {
    pub fn new(kind: ErrorKind, message: &str) -> (e: Error)
        ensures
            e.kind == kind,
            e.message@ == message@,
    {
        Error { kind, message: message.to_owned() }
    }

    pub fn kind(&self) -> (k: ErrorKind)
        ensures
            k == self.kind,
    {
        self.kind
    }

    /// The message, as text.
    pub fn to_string(&self) -> (s: String)
        ensures
            s@ == self.message@,
    {
        self.message.clone()
    }
}

} // verus!
