use crate::header::index::{option_text, option_texts, option_view, RType, RTypeView};
use crate::header::tags::{SignatureTag, Tag, TagNamespace};
use crate::header::Tags;
use vstd::pervasive::unreached;
use vstd::prelude::*;

verus! {

impl<T: TagNamespace> Tags<T> {
    /// The text of the value under `name`, which must be there and have one.
    pub fn get_as_string(&self, name: T) -> (s: String)
        requires
            self@.contains_key(name),
            self@[name].as_string() is Some,
        ensures
            s@ == self@[name].as_string()->0,
    {
        match self.get_value(name) {
            Some(value) => match value.as_string() {
                Some(s) => s,
                None => unreached(),
            },
            None => unreached(),
        }
    }

    /// The text of the value under `name`, or the empty text where the tag
    /// is missing. A value that is there must have a text.
    pub fn get_as_string_or(&self, name: T) -> (s: String)
        requires
            self@.contains_key(name) ==> self@[name].as_string() is Some,
        ensures
            s@ == (if self@.contains_key(name) {
                self@[name].as_string()->0
            } else {
                Seq::empty()
            }),
    {
        match self.get_value(name) {
            Some(value) => match value.as_string() {
                Some(s) => s,
                None => unreached(),
            },
            None => String::new(),
        }
    }

    /// The list of texts under `name`, or the empty list where the tag is
    /// missing. A value that is there must be a list of texts.
    pub fn get_as_string_array_or(&self, name: T) -> (v: Vec<String>)
        requires
            self@.contains_key(name) ==> self@[name].as_string_array() is Some,
        ensures
            v.deep_view() == (if self@.contains_key(name) {
                self@[name].as_string_array()->0
            } else {
                Seq::empty()
            }),
    {
        match self.get_value(name) {
            Some(value) => match value.as_string_array() {
                Some(v) => v,
                None => unreached(),
            },
            None => {
                let v: Vec<String> = Vec::new();
                assert(v.deep_view() =~= Seq::<Seq<char>>::empty());
                v
            },
        }
    }

    /// The number under `name`, or zero where the tag is missing. A value
    /// that is there must be an 8-bit number.
    pub fn get_as_u8_default(&self, name: T) -> (n: u8)
        requires
            self@.contains_key(name) ==> self@[name].as_u8() is Some,
        ensures
            n == (if self@.contains_key(name) {
                self@[name].as_u8()->0
            } else {
                0u8
            }),
    {
        match self.get_value(name) {
            Some(value) => match value.as_u8() {
                Some(n) => n,
                None => unreached(),
            },
            None => 0,
        }
    }

    /// The number under `name`, which must be there and fit.
    pub fn get_as_u8(&self, name: T) -> (n: u8)
        requires
            self@.contains_key(name),
            self@[name].as_u8() is Some,
        ensures
            n == self@[name].as_u8()->0,
    {
        match self.get_value(name) {
            Some(value) => match value.as_u8() {
                Some(n) => n,
                None => unreached(),
            },
            None => unreached(),
        }
    }

    /// The number under `name`, which must be there and fit.
    pub fn get_as_u16(&self, name: T) -> (n: u16)
        requires
            self@.contains_key(name),
            self@[name].as_u16() is Some,
        ensures
            n == self@[name].as_u16()->0,
    {
        match self.get_value(name) {
            Some(value) => match value.as_u16() {
                Some(n) => n,
                None => unreached(),
            },
            None => unreached(),
        }
    }

    /// The number under `name`, which must be there and fit.
    pub fn get_as_u32(&self, name: T) -> (n: u32)
        requires
            self@.contains_key(name),
            self@[name].as_u32() is Some,
        ensures
            n == self@[name].as_u32()->0,
    {
        match self.get_value(name) {
            Some(value) => match value.as_u32() {
                Some(n) => n,
                None => unreached(),
            },
            None => unreached(),
        }
    }

    /// The number under `name`, which must be there and fit.
    pub fn get_as_u64(&self, name: T) -> (n: u64)
        requires
            self@.contains_key(name),
            self@[name].as_u64() is Some,
        ensures
            n == self@[name].as_u64()->0,
    {
        match self.get_value(name) {
            Some(value) => match value.as_u64() {
                Some(n) => n,
                None => unreached(),
            },
            None => unreached(),
        }
    }

    /// The number under `name`, which must be there and fit.
    pub fn get_as_i64(&self, name: T) -> (n: i64)
        requires
            self@.contains_key(name),
            self@[name].as_i64() is Some,
        ensures
            n == self@[name].as_i64()->0,
    {
        match self.get_value(name) {
            Some(value) => match value.as_i64() {
                Some(n) => n,
                None => unreached(),
            },
            None => unreached(),
        }
    }

    /// The numbers under `name`, or none where the tag is missing. A value
    /// that is there must be an array that fits.
    pub fn get_as_u64_array_or(&self, name: T) -> (v: Vec<u64>)
        requires
            self@.contains_key(name) ==> self@[name].as_u64_array() is Some,
        ensures
            v@ == (if self@.contains_key(name) {
                self@[name].as_u64_array()->0
            } else {
                Seq::empty()
            }),
    {
        match self.get_value(name) {
            Some(value) => match value.as_u64_array() {
                Some(v) => v,
                None => unreached(),
            },
            None => Vec::new(),
        }
    }

    /// The numbers under `name`, or none where the tag is missing. A value
    /// that is there must be an array that fits.
    pub fn get_as_u32_array_or(&self, name: T) -> (v: Vec<u32>)
        requires
            self@.contains_key(name) ==> self@[name].as_u32_array() is Some,
        ensures
            v@ == (if self@.contains_key(name) {
                self@[name].as_u32_array()->0
            } else {
                Seq::empty()
            }),
    {
        match self.get_value(name) {
            Some(value) => match value.as_u32_array() {
                Some(v) => v,
                None => unreached(),
            },
            None => Vec::new(),
        }
    }

    /// The numbers under `name`, or none where the tag is missing. A value
    /// that is there must be an array that fits.
    pub fn get_as_u16_array_or(&self, name: T) -> (v: Vec<u16>)
        requires
            self@.contains_key(name) ==> self@[name].as_u16_array() is Some,
        ensures
            v@ == (if self@.contains_key(name) {
                self@[name].as_u16_array()->0
            } else {
                Seq::empty()
            }),
    {
        match self.get_value(name) {
            Some(value) => match value.as_u16_array() {
                Some(v) => v,
                None => unreached(),
            },
            None => Vec::new(),
        }
    }
}

impl Tags<Tag> {
    pub fn insert_name(&mut self, name: String) -> (ret: &mut Self)
        ensures
            ret@ == old(self)@.insert(Tag::Name, RTypeView::String(name@)),
            *final(self) == *final(ret),
    {
        self.insert(Tag::Name, RType::String(name))
    }

    pub fn insert_epoch(&mut self, epoch: u8) -> (ret: &mut Self)
        ensures
            ret@ == old(self)@.insert(Tag::Epoch, RTypeView::Int8(epoch)),
            *final(self) == *final(ret),
    {
        self.insert(Tag::Epoch, RType::Int8(epoch))
    }

    pub fn insert_version(&mut self, version: String) -> (ret: &mut Self)
        ensures
            ret@ == old(self)@.insert(Tag::Version, RTypeView::String(version@)),
            *final(self) == *final(ret),
    {
        self.insert(Tag::Version, RType::String(version))
    }

    pub fn insert_group(&mut self, group: String) -> (ret: &mut Self)
        ensures
            ret@ == old(self)@.insert(Tag::Group, RTypeView::String(group@)),
            *final(self) == *final(ret),
    {
        self.insert(Tag::Group, RType::String(group))
    }

    pub fn insert_arch(&mut self, arch: String) -> (ret: &mut Self)
        ensures
            ret@ == old(self)@.insert(Tag::Arch, RTypeView::String(arch@)),
            *final(self) == *final(ret),
    {
        self.insert(Tag::Arch, RType::String(arch))
    }

    pub fn insert_size(&mut self, size: u64) -> (ret: &mut Self)
        ensures
            ret@ == old(self)@.insert(Tag::Size, RTypeView::Int64(size)),
            *final(self) == *final(ret),
    {
        self.insert(Tag::Size, RType::Int64(size))
    }

    pub fn insert_license(&mut self, license: String) -> (ret: &mut Self)
        ensures
            ret@ == old(self)@.insert(Tag::License, RTypeView::String(license@)),
            *final(self) == *final(ret),
    {
        self.insert(Tag::License, RType::String(license))
    }

    pub fn insert_summary(&mut self, summary: String) -> (ret: &mut Self)
        ensures
            ret@ == old(self)@.insert(Tag::Summary, RTypeView::String(summary@)),
            *final(self) == *final(ret),
    {
        self.insert(Tag::Summary, RType::String(summary))
    }

    pub fn insert_description(&mut self, description: String) -> (ret: &mut Self)
        ensures
            ret@ == old(self)@.insert(Tag::Description, RTypeView::String(description@)),
            *final(self) == *final(ret),
    {
        self.insert(Tag::Description, RType::String(description))
    }

    pub fn insert_build_host(&mut self, host: String) -> (ret: &mut Self)
        ensures
            ret@ == old(self)@.insert(Tag::BuildHost, RTypeView::String(host@)),
            *final(self) == *final(ret),
    {
        self.insert(Tag::BuildHost, RType::String(host))
    }

    pub fn insert_payload_format(&mut self, compression: String) -> (ret: &mut Self)
        ensures
            ret@ == old(self)@.insert(Tag::PayloadFormat, RTypeView::String(compression@)),
            *final(self) == *final(ret),
    {
        self.insert(Tag::PayloadFormat, RType::String(compression))
    }

    pub fn insert_payload_compressor(&mut self, compressor: String) -> (ret: &mut Self)
        ensures
            ret@ == old(self)@.insert(Tag::PayloadCompressor, RTypeView::String(compressor@)),
            *final(self) == *final(ret),
    {
        self.insert(Tag::PayloadCompressor, RType::String(compressor))
    }

    pub fn insert_payload_flags(&mut self, flags: String) -> (ret: &mut Self)
        ensures
            ret@ == old(self)@.insert(Tag::PayloadFlags, RTypeView::String(flags@)),
            *final(self) == *final(ret),
    {
        self.insert(Tag::PayloadFlags, RType::String(flags))
    }

    pub fn insert_source_rpm(&mut self, source: String) -> (ret: &mut Self)
        ensures
            ret@ == old(self)@.insert(Tag::SourceRpm, RTypeView::String(source@)),
            *final(self) == *final(ret),
    {
        self.insert(Tag::SourceRpm, RType::String(source))
    }

    /// Stores the build time, which must not lie before 1970.
    pub fn insert_build_time(&mut self, time: i64) -> (ret: &mut Self)
        requires
            time >= 0,
        ensures
            ret@ == old(self)@.insert(Tag::BuildTime, RTypeView::Int64(time as u64)),
            *final(self) == *final(ret),
    {
        let time_u64 = time as u64;
        self.insert(Tag::BuildTime, RType::Int64(time_u64))
    }

    pub fn insert_pre_install(&mut self, script: String) -> (ret: &mut Self)
        ensures
            ret@ == old(self)@.insert(Tag::PreIn, RTypeView::String(script@)),
            *final(self) == *final(ret),
    {
        self.insert(Tag::PreIn, RType::String(script))
    }

    pub fn insert_post_install(&mut self, script: String) -> (ret: &mut Self)
        ensures
            ret@ == old(self)@.insert(Tag::PostIn, RTypeView::String(script@)),
            *final(self) == *final(ret),
    {
        self.insert(Tag::PostIn, RType::String(script))
    }

    pub fn insert_pre_uninstall(&mut self, script: String) -> (ret: &mut Self)
        ensures
            ret@ == old(self)@.insert(Tag::PreUn, RTypeView::String(script@)),
            *final(self) == *final(ret),
    {
        self.insert(Tag::PreUn, RType::String(script))
    }

    pub fn insert_post_uninstall(&mut self, script: String) -> (ret: &mut Self)
        ensures
            ret@ == old(self)@.insert(Tag::PostUn, RTypeView::String(script@)),
            *final(self) == *final(ret),
    {
        self.insert(Tag::PostUn, RType::String(script))
    }
}

impl Tags<SignatureTag> {
    pub fn insert_payload_size(&mut self, size: u64) -> (ret: &mut Self)
        ensures
            ret@ == old(self)@.insert(SignatureTag::PayloadSize, RTypeView::Int64(size)),
            *final(self) == *final(ret),
    {
        self.insert(SignatureTag::PayloadSize, RType::Int64(size))
    }
}

} // verus!
