use crate::error::{Error, ErrorKind};
use crate::payload::cpio::{
    entry_bytes, entry_writable, lemma_trailer_name_len, name_size_of, pad4, parse_entry,
    trailer_name,
    FileEntry, FileEntryView, MAX_CPIO_ENTRY_SIZE, MAX_NAME_SIZE,
};
use crate::reader::ByteReader;
use crate::utils::{align_n_bytes, align_pad, lemma_align_reaches_boundary, zero_bytes};
use vstd::prelude::*;

verus! {

/// The size of the buffer through which payloads are copied.
pub const BUFSIZE: usize = 8 * 1024;

/// The smaller of two numbers.
pub open spec fn min_int(a: int, b: int) -> int {
    if a <= b {
        a
    } else {
        b
    }
}

/// Copies exactly `count` bytes from `reader` to `writer`, in chunks of
/// `BUFSIZE` bytes and one last shorter chunk. Where the source holds fewer
/// bytes, the error is `Io`, nothing is consumed and nothing is written.
pub fn io_copy_exact(reader: &mut ByteReader, writer: &mut Vec<u8>, count: u32) -> (r: Result<
    u32,
    Error,
>)
    ensures
        match r {
            Ok(n) => {
                &&& n == count
                &&& count <= old(reader).remaining().len()
                &&& final(writer)@ == old(writer)@ + old(reader).remaining().take(count as int)
                &&& final(reader).advanced(old(reader), count as int)
            },
            Err(e) => {
                &&& count > old(reader).remaining().len()
                &&& e.kind == ErrorKind::Io
                &&& final(writer)@ == old(writer)@
                &&& final(reader).unmoved(old(reader))
            },
        },
{
    if reader.available() < count as usize {
        return Err(Error::new(ErrorKind::Io, "failed to fill whole buffer"));
    }
    let ghost s = reader.remaining();
    let buf_count = count as usize / BUFSIZE;
    let buf_left = count as usize % BUFSIZE;
    let mut i: usize = 0;
    proof {
        assert(s.skip(0) =~= s);
        assert(writer@ =~= old(writer)@ + s.take(0));
    }
    assert(BUFSIZE == 8192);
    while i < buf_count
        invariant
            i <= buf_count,
            BUFSIZE == 8192,
            buf_count == count as usize / 8192,
            buf_left == count as usize % 8192,
            count <= s.len(),
            s == old(reader).remaining(),
            reader.advanced(old(reader), i * 8192),
            writer@ == old(writer)@ + s.take(i * 8192),
        decreases buf_count - i,
    {
        assert((i + 1) * 8192 <= count);
        match reader.read_exact(BUFSIZE) {
            Ok(buf) => {
                writer.extend_from_slice(buf);
                proof {
                    assert(reader.remaining() =~= s.skip((i + 1) * 8192));
                    assert(writer@ =~= old(writer)@ + s.take((i + 1) * 8192));
                }
            },
            Err(e) => {
                assert(false);
                return Err(e);
            },
        }
        i = i + 1;
    }
    assert(i * 8192 + buf_left == count);
    if buf_left > 0 {
        match reader.read_exact(buf_left) {
            Ok(buf2) => {
                writer.extend_from_slice(buf2);
            },
            Err(e) => {
                assert(false);
                return Err(e);
            },
        }
    }
    proof {
        assert(reader.remaining() =~= s.skip(count as int));
        assert(writer@ =~= old(writer)@ + s.take(count as int));
    }
    Ok(count)
}

/// How far the source moves over a payload of `size` bytes and its padding
/// when `left` bytes are left: to the end of the padding, or to the end of
/// the source where it is shorter.
pub open spec fn payload_step(size: int, left: int) -> int {
    min_int(size + pad4(size), left)
}

/// The entries of an archive at the front of `s`, up to the trailer, which
/// is not among them.
pub open spec fn parse_entries(s: Seq<u8>) -> Result<Seq<FileEntryView>, ErrorKind>
    decreases s.len(),
{
    match parse_entry(s) {
        Err(e) => Err(e),
        Ok((entry, taken)) => {
            if entry.name == trailer_name() {
                Ok(Seq::empty())
            } else if 0 < taken <= s.len() {
                let rest = s.skip(taken);
                match parse_entries(rest.skip(payload_step(entry.file_size as int, rest.len() as int))) {
                    Err(e) => Err(e),
                    Ok(entries) => Ok(seq![entry] + entries),
                }
            } else {
                Err(ErrorKind::InvalidData)
            }
        },
    }
}

/// The views of a list of entries.
pub open spec fn entry_views(entries: Seq<FileEntry>) -> Seq<FileEntryView> {
    Seq::new(entries.len(), |i: int| entries[i]@)
}

/// Moves the source over a payload of `file_size` bytes and its padding.
pub(crate) fn skip_payload(reader: &mut ByteReader, file_size: u32) -> (skipped: usize)
    ensures
        skipped == payload_step(file_size as int, old(reader).remaining().len() as int),
        final(reader).advanced(old(reader), skipped as int),
{
    let pad = align_n_bytes(file_size, 4);
    let left = reader.available();
    // The sum fits 64 bits; where `usize` is narrower, the source is shorter anyway.
    let wanted: u64 = file_size as u64 + pad as u64;
    let step: usize = if wanted > left as u64 {
        left
    } else {
        wanted as usize
    };
    reader.skip(step)
}

/// Reads the headers of all members up to the trailer and skips their
/// payloads.
pub fn read_entries(reader: &mut ByteReader) -> (r: Result<Vec<FileEntry>, Error>)
    ensures
        final(reader).buffer() == old(reader).buffer(),
        match r {
            Ok(entries) => parse_entries(old(reader).remaining()) == Ok::<
                Seq<FileEntryView>,
                ErrorKind,
            >(entry_views(entries@)),
            Err(e) => parse_entries(old(reader).remaining()) == Err::<
                Seq<FileEntryView>,
                ErrorKind,
            >(e.kind),
        },
{
    let mut entries: Vec<FileEntry> = Vec::new();
    let ghost s0 = reader.remaining();
    proof {
        assert(entry_views(entries@) =~= Seq::<FileEntryView>::empty());
    }
    loop
        invariant_except_break
            parse_entries(s0) == match parse_entries(reader.remaining()) {
                Ok(rest) => Ok::<Seq<FileEntryView>, ErrorKind>(entry_views(entries@) + rest),
                Err(e) => Err::<Seq<FileEntryView>, ErrorKind>(e),
            },
        invariant
            reader.buffer() == old(reader).buffer(),
            s0 == old(reader).remaining(),
        ensures
            reader.buffer() == old(reader).buffer(),
            parse_entries(s0) == Ok::<Seq<FileEntryView>, ErrorKind>(entry_views(entries@)),
        decreases reader.remaining().len(),
    {
        let ghost s = reader.remaining();
        let entry = match FileEntry::read(reader) {
            Ok(entry) => entry,
            Err(e) => {
                return Err(e);
            },
        };
        let _skipped = skip_payload(reader, entry.file_size);
        if entry.is_trailer() {
            proof {
                assert(entry_views(entries@) + Seq::<FileEntryView>::empty() =~= entry_views(
                    entries@,
                ));
            }
            break ;
        }
        let ghost before = entry_views(entries@);
        let ghost view = entry@;
        entries.push(entry);
        proof {
            assert(entry_views(entries@) =~= before + seq![view]);
            let tail = parse_entries(reader.remaining());
            if tail is Ok {
                assert(before + (seq![view] + tail->Ok_0) =~= entry_views(entries@) + tail->Ok_0);
            }
        }
    }
    Ok(entries)
}

/// What reading one member gives: its header, its payload, and how far the
/// source moves, padding included.
pub open spec fn parse_member(s: Seq<u8>) -> Result<(FileEntryView, Seq<u8>, int), ErrorKind> {
    match parse_entry(s) {
        Err(e) => Err(e),
        Ok((entry, taken)) => {
            let size = entry.file_size as int;
            if s.len() < taken + size {
                Err(ErrorKind::Io)
            } else {
                Ok(
                    (
                        entry,
                        s.subrange(taken, taken + size),
                        taken + payload_step(size, s.len() - taken),
                    ),
                )
            }
        },
    }
}

/// Reads one member: its header, and its payload into `writer`.
pub fn read_entry(reader: &mut ByteReader, writer: &mut Vec<u8>) -> (r: Result<
    (FileEntry, u64),
    Error,
>)
    ensures
        final(reader).buffer() == old(reader).buffer(),
        match r {
            Ok((entry, number)) => {
                &&& parse_member(old(reader).remaining()) matches Ok((parsed, payload, taken))
                &&& parsed == entry@
                &&& number == entry.file_size
                &&& final(writer)@ == old(writer)@ + payload
                &&& final(reader).advanced(old(reader), taken)
            },
            Err(e) => {
                &&& parse_member(old(reader).remaining()) == Err::<
                    (FileEntryView, Seq<u8>, int),
                    ErrorKind,
                >(e.kind)
                &&& final(writer)@ == old(writer)@
            },
        },
{
    let ghost s = reader.remaining();
    let entry = FileEntry::read(reader)?;
    let ghost taken = parse_entry(s)->Ok_0.1;
    let number = io_copy_exact(reader, writer, entry.file_size)?;
    let position = align_n_bytes(entry.file_size, 4);
    let skipped = reader.skip(position as usize);
    proof {
        let size = entry.file_size as int;
        assert(s.skip(taken).take(size) =~= s.subrange(taken, taken + size));
        assert(reader.remaining() =~= s.skip(taken + size + skipped));
    }
    Ok((entry, number as u64))
}

/// A source of archive members.
pub trait CpioRead {
    fn read_cpio_entry(&mut self) -> Result<FileEntry, Error>;

    fn read_cpio_entry_payload(&mut self, entry: &FileEntry, write: &mut Vec<u8>) -> Result<
        (),
        Error,
    >;
}

impl<'a> CpioRead for ByteReader<'a> {
    fn read_cpio_entry(&mut self) -> (r: Result<FileEntry, Error>)
        ensures
            final(self).buffer() == old(self).buffer(),
            match r {
                Ok(entry) => {
                    &&& parse_entry(old(self).remaining()) matches Ok((parsed, taken))
                    &&& parsed == entry@
                    &&& final(self).advanced(old(self), taken)
                },
                Err(e) => parse_entry(old(self).remaining()) == Err::<
                    (FileEntryView, int),
                    ErrorKind,
                >(e.kind),
            },
    {
        FileEntry::read(self)
    }

    /// Copies the payload of `entry`, which the source stands at, and moves
    /// over the padding behind it.
    fn read_cpio_entry_payload(&mut self, entry: &FileEntry, writer: &mut Vec<u8>) -> (r: Result<
        (),
        Error,
    >)
        ensures
            match r {
                Ok(_) => {
                    &&& entry.file_size <= old(self).remaining().len()
                    &&& final(writer)@ == old(writer)@ + old(self).remaining().take(
                        entry.file_size as int,
                    )
                    &&& final(self).advanced(
                        old(self),
                        payload_step(
                            entry.file_size as int,
                            old(self).remaining().len() as int,
                        ),
                    )
                },
                Err(e) => {
                    &&& entry.file_size > old(self).remaining().len()
                    &&& e.kind == ErrorKind::Io
                    &&& final(writer)@ == old(writer)@
                    &&& final(self).unmoved(old(self))
                },
            },
    {
        let ghost s = self.remaining();
        let file_size = entry.file_size;
        io_copy_exact(self, writer, file_size)?;
        let position = align_n_bytes(entry.file_size, 4);
        let skipped = self.skip(position as usize);
        proof {
            assert(self.remaining() =~= s.skip(file_size + skipped));
        }
        Ok(())
    }
}

/// The bytes of a payload in an archive: the payload and zero bytes up to a
/// multiple of four.
pub open spec fn payload_bytes(data: Seq<u8>) -> Seq<u8> {
    data + zero_bytes(pad4(data.len() as int))
}

/// The bytes of one member: header and payload.
pub open spec fn record_bytes(entry: FileEntryView, data: Seq<u8>) -> Seq<u8> {
    entry_bytes(entry) + payload_bytes(data)
}

/// The trailer entry.
pub open spec fn trailer_entry() -> FileEntryView {
    FileEntryView {
        name: trailer_name(),
        ino: 0,
        mode: 0,
        uid: 0,
        gid: 0,
        nlink: 1,
        mtime: 0,
        file_size: 0,
        dev_major: 0,
        dev_minor: 0,
        rdev_major: 0,
        rdev_minor: 0,
    }
}

/// The length of a written payload is a multiple of four.
pub proof fn lemma_payload_bytes_len(data: Seq<u8>)
    ensures
        payload_bytes(data).len() == data.len() + pad4(data.len() as int),
        payload_bytes(data).len() % 4 == 0,
{
    lemma_align_reaches_boundary(data.len() as int, 4);
}

/// The bytes of the first `n` members of a list, one after another.
pub open spec fn records_bytes(records: Seq<(FileEntryView, Seq<u8>)>, n: nat) -> Seq<u8>
    decreases n,
{
    if n == 0 {
        Seq::empty()
    } else {
        records_bytes(records, (n - 1) as nat) + record_bytes(records[n - 1].0, records[n - 1].1)
    }
}

/// The bytes of an archive: its members, then the trailer.
pub open spec fn archive_bytes(records: Seq<(FileEntryView, Seq<u8>)>) -> Seq<u8> {
    records_bytes(records, records.len()) + entry_bytes(trailer_entry())
}

/// A member can be written: its header can, and its payload fits 32 bits.
pub open spec fn record_writable(record: (FileEntryView, Seq<u8>)) -> bool {
    entry_writable(record.0) && record.1.len() <= u32::MAX
}

/// Every member of the list can be written.
pub open spec fn records_writable(records: Seq<(FileEntryView, Seq<u8>)>) -> bool {
    forall|i: int| 0 <= i < records.len() ==> record_writable(#[trigger] records[i])
}

/// The first `n` members of the list can be written, and the next cannot.
pub open spec fn first_unwritable(records: Seq<(FileEntryView, Seq<u8>)>, n: int) -> bool {
    &&& 0 <= n < records.len()
    &&& !record_writable(records[n])
    &&& forall|i: int| 0 <= i < n ==> record_writable(#[trigger] records[i])
}

/// What a list of members holds: each header with its content.
pub open spec fn record_views(records: Seq<(FileEntry, Vec<u8>)>) -> Seq<(FileEntryView, Seq<u8>)> {
    Seq::new(records.len(), |i: int| (records[i].0@, records[i].1@))
}

/// A copy of an entry.
pub fn copy_of(entry: &FileEntry) -> (copy: FileEntry)
    ensures
        copy@ == entry@,
{
    FileEntry {
        name: entry.name.clone(),
        ino: entry.ino,
        mode: entry.mode,
        uid: entry.uid,
        gid: entry.gid,
        nlink: entry.nlink,
        mtime: entry.mtime,
        file_size: entry.file_size,
        dev_major: entry.dev_major,
        dev_minor: entry.dev_minor,
        rdev_major: entry.rdev_major,
        rdev_minor: entry.rdev_minor,
    }
}

/// A sink that takes archive members.
pub trait CpioWriter {
    fn write_cpio_entry(&mut self, entry: FileEntry) -> Result<(), Error>;

    fn write_cpio_entry_payload(&mut self, reader: &mut ByteReader) -> Result<(), Error>;

    fn write_cpio_record(&mut self, record: FileEntry, data: &mut ByteReader) -> Result<(), Error>;

    fn write_cpio_records(&mut self, records: Vec<(FileEntry, Vec<u8>)>) -> Result<(), Error>;

    fn cpio_close(&mut self) -> Result<(), Error>;
}

impl CpioWriter for Vec<u8> {
    fn write_cpio_entry(&mut self, entry: FileEntry) -> (r: Result<(), Error>)
        ensures
            match r {
                Ok(_) => {
                    &&& entry_writable(entry@)
                    &&& final(self)@ == old(self)@ + entry_bytes(entry@)
                    &&& entry_bytes(entry@).len() % 4 == 0
                },
                Err(e) => {
                    &&& !entry_writable(entry@)
                    &&& e.kind == ErrorKind::InvalidInput
                    &&& final(self)@ == old(self)@
                },
            },
    {
        entry.write(self)
    }

    /// Appends all that is left of `reader` as a payload, and zero bytes up
    /// to a multiple of four. A payload that does not fit 32 bits is
    /// `InvalidInput`, and then nothing is appended or consumed.
    fn write_cpio_entry_payload(&mut self, reader: &mut ByteReader) -> (r: Result<(), Error>)
        ensures
            match r {
                Ok(_) => {
                    &&& old(reader).remaining().len() <= u32::MAX
                    &&& final(self)@ == old(self)@ + payload_bytes(old(reader).remaining())
                    &&& payload_bytes(old(reader).remaining()).len() % 4 == 0
                    &&& final(reader).advanced(old(reader), old(reader).remaining().len() as int)
                },
                Err(e) => {
                    &&& old(reader).remaining().len() > u32::MAX
                    &&& e.kind == ErrorKind::InvalidInput
                    &&& final(self)@ == old(self)@
                    &&& final(reader).unmoved(old(reader))
                },
            },
    {
        let ghost data = reader.remaining();
        let left = reader.available();
        if left > u32::MAX as usize {
            return Err(Error::new(ErrorKind::InvalidInput, "Error: cpio payload is too large"));
        }
        let file_size = left as u32;
        match reader.read_exact(left) {
            Ok(bytes) => {
                assert(bytes@ =~= data);
                self.extend_from_slice(bytes);
            },
            Err(e) => {
                assert(false);
                return Err(e);
            },
        }
        align_pad(self, file_size, 4);
        proof {
            assert(self@ =~= old(self)@ + payload_bytes(data));
            lemma_payload_bytes_len(data);
        }
        Ok(())
    }

    /// Appends one member: the header, then all that is left of `data` as
    /// its payload. Where either cannot be written, nothing is appended.
    fn write_cpio_record(&mut self, record: FileEntry, data: &mut ByteReader) -> (r: Result<
        (),
        Error,
    >)
        ensures
            match r {
                Ok(_) => {
                    &&& entry_writable(record@)
                    &&& old(data).remaining().len() <= u32::MAX
                    &&& final(self)@ == old(self)@ + record_bytes(record@, old(data).remaining())
                    &&& record_bytes(record@, old(data).remaining()).len() % 4 == 0
                },
                Err(e) => {
                    &&& !entry_writable(record@) || old(data).remaining().len() > u32::MAX
                    &&& e.kind == ErrorKind::InvalidInput
                    &&& final(self)@ == old(self)@
                },
            },
    {
        if data.available() > u32::MAX as usize {
            return Err(Error::new(ErrorKind::InvalidInput, "Error: cpio payload is too large"));
        }
        let ghost payload = data.remaining();
        self.write_cpio_entry(record)?;
        match self.write_cpio_entry_payload(data) {
            Ok(_) => {},
            Err(e) => {
                assert(false);
                return Err(e);
            },
        }
        proof {
            assert(self@ =~= old(self)@ + record_bytes(record@, payload));
        }
        Ok(())
    }

    /// Appends every member in order, then the trailer. The first member
    /// that cannot be written is `InvalidInput`: the members before it have
    /// been appended then, and nothing after them.
    fn write_cpio_records(&mut self, records: Vec<(FileEntry, Vec<u8>)>) -> (r: Result<(), Error>)
        ensures
            match r {
                Ok(_) => {
                    &&& records_writable(record_views(records@))
                    &&& final(self)@ == old(self)@ + archive_bytes(record_views(records@))
                },
                Err(e) => {
                    &&& e.kind == ErrorKind::InvalidInput
                    &&& exists|n: int|
                        {
                            &&& #[trigger] first_unwritable(record_views(records@), n)
                            &&& final(self)@ == old(self)@ + records_bytes(
                                record_views(records@),
                                n as nat,
                            )
                        }
                },
            },
    {
        let ghost views = record_views(records@);
        let n = records.len();
        let mut i: usize = 0;
        proof {
            assert(self@ =~= old(self)@ + records_bytes(views, 0));
        }
        while i < n
            invariant
                i <= n,
                n == records@.len(),
                views == record_views(records@),
                self@ == old(self)@ + records_bytes(views, i as nat),
                forall|j: int| 0 <= j < i ==> record_writable(#[trigger] views[j]),
            decreases n - i,
        {
            let record = copy_of(&records[i].0);
            let mut data = ByteReader::new(records[i].1.as_slice());
            match self.write_cpio_record(record, &mut data) {
                Ok(_) => {},
                Err(e) => {
                    assert(first_unwritable(views, i as int));
                    return Err(e);
                },
            }
            proof {
                assert(self@ =~= old(self)@ + records_bytes(views, (i + 1) as nat));
            }
            i = i + 1;
        }
        match self.cpio_close() {
            Ok(_) => {},
            Err(e) => {
                assert(false);
                return Err(e);
            },
        }
        proof {
            assert(self@ =~= old(self)@ + archive_bytes(views));
        }
        Ok(())
    }

    /// Appends the trailer, which ends the archive.
    fn cpio_close(&mut self) -> (r: Result<(), Error>)
        ensures
            r is Ok,
            final(self)@ == old(self)@ + entry_bytes(trailer_entry()),
    {
        let trailer = FileEntry::default();
        proof {
            lemma_trailer_name_len();
        }
        match self.write_cpio_entry(trailer) {
            Ok(_) => Ok(()),
            Err(e) => {
                assert(false);
                Err(e)
            },
        }
    }
}

} // verus!
