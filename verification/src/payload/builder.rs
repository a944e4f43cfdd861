use crate::error::{Error, ErrorKind};
use crate::payload::archive::{
    archive_bytes, parse_member, payload_step, read_entry, record_views, records_writable,
    skip_payload, CpioWriter,
};
use crate::payload::cpio::{major, minor, parse_entry, trailer_name, FileEntry, FileEntryView};
use crate::reader::ByteReader;
use vstd::prelude::*;

verus! {

/// What the host knows of a file: the numbers of its metadata, as the
/// host reports them.
pub struct FileMeta {
    pub ino: u64,
    pub mode: u32,
    pub uid: u32,
    pub gid: u32,
    pub nlink: u64,
    pub mtime: i64,
    pub size: u64,
    pub dev: u64,
    pub rdev: u64,
}

impl FileEntry {
    /// The entry for a file of this name and metadata. Numbers wider than
    /// 32 bits keep their low 32 bits, and device numbers are split as
    /// `major` and `minor` split them.
    pub fn from_metadata(name: String, meta: &FileMeta) -> (entry: FileEntry)
        ensures
            entry@ == (FileEntryView {
                name: name@,
                ino: meta.ino as u32,
                mode: meta.mode,
                uid: meta.uid,
                gid: meta.gid,
                nlink: meta.nlink as u32,
                mtime: meta.mtime as u32,
                file_size: meta.size as u32,
                dev_major: ((meta.dev as u32) >> 8) & 0x7F,
                dev_minor: (meta.dev as u32) & 0xFF,
                rdev_major: ((meta.rdev as u32) >> 8) & 0x7F,
                rdev_minor: (meta.rdev as u32) & 0xFF,
            }),
    {
        let dev = #[verifier::truncate]
        (meta.dev as u32);
        let rdev = #[verifier::truncate]
        (meta.rdev as u32);
        FileEntry {
            name,
            ino: #[verifier::truncate]
            (meta.ino as u32),
            mode: meta.mode,
            uid: meta.uid,
            gid: meta.gid,
            nlink: #[verifier::truncate]
            (meta.nlink as u32),
            mtime: #[verifier::truncate]
            (meta.mtime as u32),
            file_size: #[verifier::truncate]
            (meta.size as u32),
            dev_major: major(dev),
            dev_minor: minor(dev),
            rdev_major: major(rdev),
            rdev_minor: minor(rdev),
        }
    }
}

/// Collects members and writes them out as one archive.
pub struct CpioBuilder {
    writer: Vec<u8>,
    members: Vec<(FileEntry, Vec<u8>)>,
}

impl CpioBuilder {
    /// What the sink held when the builder was made.
    pub closed spec fn sink(&self) -> Seq<u8> {
        self.writer@
    }

    /// The members collected so far, in order.
    pub closed spec fn records(&self) -> Seq<(FileEntryView, Seq<u8>)> {
        record_views(self.members@)
    }

    /// A builder that appends to `writer`.
    pub fn new(writer: Vec<u8>) -> (builder: Self)
        ensures
            builder.sink() == writer@,
            builder.records() == Seq::<(FileEntryView, Seq<u8>)>::empty(),
    {
        let builder = CpioBuilder { writer, members: Vec::new() };
        assert(builder.records() =~= Seq::<(FileEntryView, Seq<u8>)>::empty());
        builder
    }

    /// Adds a member: its header and its content.
    pub fn add_record(self, record: FileEntry, data: Vec<u8>) -> (builder: Self)
        ensures
            builder.sink() == self.sink(),
            builder.records() == self.records().push((record@, data@)),
    {
        let ghost before = self.records();
        let CpioBuilder { writer, members } = self;
        let mut members = members;
        members.push((record, data));
        let builder = CpioBuilder { writer, members };
        assert(builder.records() =~= before.push((record@, data@)));
        builder
    }

    /// Writes every member, header then payload then padding, and the
    /// trailer, and hands out the sink. A member that cannot be written is
    /// `InvalidInput`: then no archive is handed out.
    pub fn build(self) -> (r: Result<Vec<u8>, Error>)
        ensures
            match r {
                Ok(bytes) => records_writable(self.records()) && bytes@ == self.sink()
                    + archive_bytes(self.records()),
                Err(e) => !records_writable(self.records()) && e.kind == ErrorKind::InvalidInput,
            },
    {
        let CpioBuilder { writer, members } = self;
        let mut writer = writer;
        match writer.write_cpio_records(members) {
            Ok(_) => Ok(writer),
            Err(e) => Err(e),
        }
    }
}

/// Goes through an archive member by member and hands out the headers.
pub struct CpioEntries<'a> {
    reader: ByteReader<'a>,
}

impl<'a> CpioEntries<'a> {
    /// The bytes of the archive that are still to be read.
    pub closed spec fn remaining(&self) -> Seq<u8> {
        self.reader.remaining()
    }

    pub fn new(reader: ByteReader<'a>) -> (entries: Self)
        ensures
            entries.remaining() == reader.remaining(),
    {
        CpioEntries { reader }
    }

    /// The header of the next member, whose payload is skipped; nothing at
    /// the trailer. The archive must hold a well-formed entry here.
    pub fn next(&mut self) -> (r: Option<FileEntry>)
        requires
            parse_entry(old(self).remaining()) is Ok,
        ensures
            parse_entry(old(self).remaining()) matches Ok((entry, taken)) && {
                &&& match r {
                    Some(e) => e@ == entry && entry.name != trailer_name(),
                    None => entry.name == trailer_name(),
                }
                &&& final(self).remaining() == old(self).remaining().skip(
                    taken + payload_step(
                        entry.file_size as int,
                        old(self).remaining().len() - taken,
                    ),
                )
            },
    {
        let ghost s = self.reader.remaining();
        match FileEntry::read(&mut self.reader) {
            Ok(entry) => {
                let ghost taken = parse_entry(s)->Ok_0.1;
                let skipped = skip_payload(&mut self.reader, entry.file_size);
                proof {
                    assert(self.reader.remaining() =~= s.skip(taken + skipped));
                }
                if !entry.is_trailer() {
                    Some(entry)
                } else {
                    None
                }
            },
            Err(_) => None,
        }
    }
}

/// Goes through an archive member by member and hands out the headers
/// with the contents.
pub struct CpioFiles<'a> {
    reader: ByteReader<'a>,
}

impl<'a> CpioFiles<'a> {
    /// The bytes of the archive that are still to be read.
    pub closed spec fn remaining(&self) -> Seq<u8> {
        self.reader.remaining()
    }

    pub fn new(reader: ByteReader<'a>) -> (files: Self)
        ensures
            files.remaining() == reader.remaining(),
    {
        CpioFiles { reader }
    }

    /// The next member with its content; nothing at the trailer. The
    /// archive must hold a well-formed member here, payload included.
    pub fn next(&mut self) -> (r: Option<(FileEntry, Vec<u8>)>)
        requires
            parse_member(old(self).remaining()) is Ok,
        ensures
            parse_member(old(self).remaining()) matches Ok((entry, payload, taken)) && {
                &&& match r {
                    Some((e, bytes)) => e@ == entry && bytes@ == payload && entry.name
                        != trailer_name(),
                    None => entry.name == trailer_name(),
                }
                &&& final(self).remaining() == old(self).remaining().skip(taken)
            },
    {
        let mut bytes: Vec<u8> = Vec::new();
        match read_entry(&mut self.reader, &mut bytes) {
            Ok((entry, _)) => {
                assert(bytes@ =~= parse_member(old(self).remaining())->Ok_0.1);
                if !entry.is_trailer() {
                    Some((entry, bytes))
                } else {
                    None
                }
            },
            Err(_) => None,
        }
    }
}

} // verus!
