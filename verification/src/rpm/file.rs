use crate::error::{Error, ErrorKind};
use crate::header::index::RTypeView;
use crate::header::lead::parse_header_lead;
use crate::header::tags::{SignatureTag, Tag, TagNamespace};
use crate::header::{parse_store, store_bytes, store_writable, Tags, TagsWrite};
use crate::lead::{lead_bytes, parse_lead, Lead, LeadView};
use crate::payload::archive::min_int;
use crate::reader::ByteReader;
use crate::utils::{align_n_bytes, spec_align_n_bytes, text_eq};
use vstd::prelude::*;

verus! {

/// The streaming codecs in which a payload may be packed.
#[derive(Debug, Clone, Copy, PartialEq, Eq, Structural)]
pub enum Compressor {
    Gzip,
    Bzip2,
    Zstd,
    Xz,
    Lzma,
}

/// The codec that a name in the metadata stands for, if it is one of the
/// five that are known.
pub open spec fn compressor_of(name: Seq<char>) -> Option<Compressor> {
    if name == "gzip"@ {
        Some(Compressor::Gzip)
    } else if name == "bzip2"@ {
        Some(Compressor::Bzip2)
    } else if name == "zstd"@ {
        Some(Compressor::Zstd)
    } else if name == "xz"@ {
        Some(Compressor::Xz)
    } else if name == "lzma"@ {
        Some(Compressor::Lzma)
    } else {
        None
    }
}

impl Compressor {
    /// The codec of this name; any other name is `Unsupported`.
    pub fn from_name(name: &str) -> (r: Result<Compressor, Error>)
        ensures
            match r {
                Ok(c) => compressor_of(name@) == Some(c),
                Err(e) => compressor_of(name@) is None && e.kind == ErrorKind::Unsupported,
            },
    {
        if text_eq(name, "gzip") {
            Ok(Compressor::Gzip)
        } else if text_eq(name, "bzip2") {
            Ok(Compressor::Bzip2)
        } else if text_eq(name, "zstd") {
            Ok(Compressor::Zstd)
        } else if text_eq(name, "xz") {
            Ok(Compressor::Xz)
        } else if text_eq(name, "lzma") {
            Ok(Compressor::Lzma)
        } else {
            Err(Error::new(ErrorKind::Unsupported, "Decompressor is not implemented"))
        }
    }

    /// The name under which the metadata record this codec.
    pub fn name(&self) -> (name: &'static str)
        ensures
            name@ == (match *self {
                Compressor::Gzip => "gzip"@,
                Compressor::Bzip2 => "bzip2"@,
                Compressor::Zstd => "zstd"@,
                Compressor::Xz => "xz"@,
                Compressor::Lzma => "lzma"@,
            }),
    {
        match self {
            Compressor::Gzip => "gzip",
            Compressor::Bzip2 => "bzip2",
            Compressor::Zstd => "zstd",
            Compressor::Xz => "xz",
            Compressor::Lzma => "lzma",
        }
    }
}

/// The codec that the metadata name for the payload: `gzip` where they
/// name none, `InvalidData` where the name is no text, `Unsupported` where
/// it is no known codec.
pub open spec fn compressor_in(header: Map<Tag, RTypeView>) -> Result<Compressor, ErrorKind> {
    if !header.contains_key(Tag::PayloadCompressor) {
        Ok(Compressor::Gzip)
    } else {
        match header[Tag::PayloadCompressor].as_string() {
            None => Err(ErrorKind::InvalidData),
            Some(name) => match compressor_of(name) {
                Some(c) => Ok(c),
                None => Err(ErrorKind::Unsupported),
            },
        }
    }
}

/// A package: its lead, its two tag stores, where its payload starts, and
/// the source or sink that goes with it.
#[derive(Debug)]
pub struct RPMFile<T> {
    pub lead: Lead,
    pub signature_tags: Tags<SignatureTag>,
    pub header_tags: Tags<Tag>,
    pub payload_offset: u64,
    pub file: T,
}

/// What the head of a package holds.
pub struct PackageView {
    pub lead: LeadView,
    pub signature: Map<SignatureTag, RTypeView>,
    pub header: Map<Tag, RTypeView>,
    pub payload_offset: int,
}

impl<T> RPMFile<T> {
    /// The head of the package.
    pub open spec fn head(&self) -> PackageView {
        PackageView {
            lead: self.lead@,
            signature: self.signature_tags@,
            header: self.header_tags@,
            payload_offset: self.payload_offset as int,
        }
    }
}

/// What reading the head of a package from `s` gives, for stores of any
/// two namespaces: the lead, the signature store, the padding behind it up
/// to a multiple of eight bytes of its data blob, the metadata store, and
/// the offset behind that, where the payload starts.
pub open spec fn parse_head<S: TagNamespace, H: TagNamespace>(s: Seq<u8>) -> Result<
    (LeadView, Map<S, RTypeView>, Map<H, RTypeView>, int),
    ErrorKind,
> {
    match parse_lead(s) {
        Err(e) => Err(e),
        Ok(lead) => {
            let s1 = s.skip(96);
            match parse_store::<S>(s1) {
                Err(e) => Err(e),
                Ok((signature, taken1)) => {
                    let hsize = parse_header_lead(s1)->Ok_0.2;
                    let pad = min_int(spec_align_n_bytes(hsize as int, 8), s1.len() - taken1);
                    let s2 = s1.skip(taken1 + pad);
                    match parse_store::<H>(s2) {
                        Err(e) => Err(e),
                        Ok((header, taken2)) => Ok(
                            (lead, signature, header, 96 + taken1 + pad + taken2),
                        ),
                    }
                },
            }
        },
    }
}

/// What reading the head of a package from `s` gives.
pub open spec fn parse_package(s: Seq<u8>) -> Result<PackageView, ErrorKind> {
    match parse_head::<SignatureTag, Tag>(s) {
        Err(e) => Err(e),
        Ok((lead, signature, header, payload_offset)) => Ok(
            PackageView { lead, signature, header, payload_offset },
        ),
    }
}

/// The bytes of the head of a package: lead, signature store, metadata store.
pub open spec fn head_bytes(
    lead: LeadView,
    signature: Seq<(SignatureTag, RTypeView)>,
    header: Seq<(Tag, RTypeView)>,
) -> Seq<u8> {
    lead_bytes(lead) + store_bytes(signature) + store_bytes(header)
}

impl<'a> RPMFile<ByteReader<'a>> {
    /// Reads the head of a package from the start of `reader` and keeps the
    /// reader, which then stands where the payload starts.
    pub fn read(reader: ByteReader<'a>) -> (r: Result<Self, Error>)
        ensures
            match r {
                Ok(rpm) => {
                    &&& parse_package(reader.buffer()) == Ok::<PackageView, ErrorKind>(rpm.head())
                    &&& rpm.file.buffer() == reader.buffer()
                    &&& rpm.file.spec_position() == rpm.payload_offset
                },
                Err(e) => parse_package(reader.buffer()) == Err::<PackageView, ErrorKind>(e.kind),
            },
    {
        let mut reader = reader;
        let ghost s = reader.buffer();
        let lead = Lead::read(&mut reader)?;
        let ghost s1 = reader.remaining();

        let (signature_tags, signature_hsize) = Tags::<SignatureTag>::read_store_sized(
            &mut reader,
        )?;
        let ghost taken1 = parse_store::<SignatureTag>(s1)->Ok_0.1;

        // The metadata store starts on a multiple of eight bytes.
        let pos = align_n_bytes(signature_hsize, 8);
        let skipped = reader.skip(pos as usize);
        let ghost s2 = reader.remaining();
        proof {
            assert(s2 =~= s1.skip(taken1 + skipped));
        }

        let header_tags = Tags::<Tag>::read_store(&mut reader)?;
        let payload_offset = reader.position() as u64;
        Ok(RPMFile { lead, signature_tags, header_tags, payload_offset, file: reader })
    }

    /// The codec of the payload and a reader that stands where the payload
    /// starts.
    pub fn into_payload_reader(self) -> (r: Result<(Compressor, ByteReader<'a>), Error>)
        ensures
            match r {
                Ok((compressor, reader)) => {
                    &&& compressor_in(self.header_tags@) == Ok::<Compressor, ErrorKind>(compressor)
                    &&& reader.buffer() == self.file.buffer()
                    &&& reader.spec_position() == min_int(
                        self.payload_offset as int,
                        self.file.buffer().len() as int,
                    )
                },
                Err(e) => compressor_in(self.header_tags@) == Err::<Compressor, ErrorKind>(e.kind),
            },
    {
        let compressor = self.payload_compressor()?;
        let mut reader = self.file;
        let offset: usize = if self.payload_offset > usize::MAX as u64 {
            usize::MAX
        } else {
            self.payload_offset as usize
        };
        let _length = reader.len();
        reader.seek(offset);
        Ok((compressor, reader))
    }
}

impl<T> RPMFile<T> {
    /// The codec in which the payload is packed, by the name that the
    /// metadata give; `gzip` where they give none.
    pub fn payload_compressor(&self) -> (r: Result<Compressor, Error>)
        ensures
            match r {
                Ok(c) => compressor_in(self.header_tags@) == Ok::<Compressor, ErrorKind>(c),
                Err(e) => compressor_in(self.header_tags@) == Err::<Compressor, ErrorKind>(e.kind),
            },
    {
        match self.header_tags.get_value(Tag::PayloadCompressor) {
            None => Ok(Compressor::Gzip),
            Some(value) => match value.as_string() {
                None => Err(Error::new(ErrorKind::InvalidData, "Compression is not defined")),
                Some(name) => Compressor::from_name(name.as_str()),
            },
        }
    }

    /// Appends the head of the package to `sink`: lead, signature store,
    /// metadata store, and records where the payload will start: at the
    /// end of the sink. A store that cannot be written is `InvalidInput`,
    /// and then nothing is appended or recorded.
    pub fn write_head(&mut self, sink: &mut Vec<u8>) -> (r: Result<(), Error>)
        ensures
            final(self).lead == old(self).lead,
            final(self).signature_tags == old(self).signature_tags,
            final(self).header_tags == old(self).header_tags,
            final(self).file == old(self).file,
            match r {
                Ok(_) => {
                    &&& store_writable(old(self).signature_tags.entries())
                    &&& store_writable(old(self).header_tags.entries())
                    &&& final(sink)@ == old(sink)@ + head_bytes(
                        old(self).lead@,
                        old(self).signature_tags.entries(),
                        old(self).header_tags.entries(),
                    )
                    &&& final(self).payload_offset == final(sink)@.len()
                },
                Err(e) => {
                    &&& !store_writable(old(self).signature_tags.entries()) || !store_writable(
                        old(self).header_tags.entries(),
                    )
                    &&& e.kind == ErrorKind::InvalidInput
                    &&& final(sink)@ == old(sink)@
                    &&& final(self).payload_offset == old(self).payload_offset
                },
            },
    {
        let mut head: Vec<u8> = Vec::new();
        match self.lead.write(&mut head) {
            Ok(_) => {},
            Err(e) => {
                return Err(e);
            },
        }
        head.write_header(&self.signature_tags)?;
        head.write_header(&self.header_tags)?;
        sink.extend_from_slice(head.as_slice());
        proof {
            assert(sink@ =~= old(sink)@ + head_bytes(
                self.lead@,
                self.signature_tags.entries(),
                self.header_tags.entries(),
            ));
        }
        self.payload_offset = sink.len() as u64;
        Ok(())
    }
}

} // verus!
