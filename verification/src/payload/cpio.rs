use crate::error::{Error, ErrorKind};
use crate::reader::ByteReader;
use crate::utils::{
    align_n_bytes, align_pad, hex_bytes, lemma_align_reaches_boundary, lemma_hex_bytes_len,
    lemma_parse_hex_u32_of_bytes, parse_hex_u32, spec_align_n_bytes, string_from_utf8, text_eq,
    write_hex_u32, zero_bytes, HexReader,
};
use vstd::prelude::*;
use vstd::utf8::{decode_utf8, encode_utf8, valid_utf8};

verus! {

/// The six bytes that open an entry: the text `070701`.
pub const MAGIC: [u8; 6] = [0x30, 0x37, 0x30, 0x37, 0x30, 0x31];

/// The name of the entry that ends an archive.
pub const TRAILER: &'static str = "TRAILER!!!";

/// Largest name size that is read: a longer one could exhaust memory.
pub const MAX_NAME_SIZE: u32 = 4096;

/// Largest file size that is read: a larger one could exhaust memory.
pub const MAX_CPIO_ENTRY_SIZE: u32 = 1024 * 1024 * 1024;

/// The number of bytes before the name: magic, thirteen fields of eight.
pub const HEADER_SIZE: usize = 110;

/// The magic as a byte string.
pub open spec fn cpio_magic() -> Seq<u8> {
    seq![0x30u8, 0x37u8, 0x30u8, 0x37u8, 0x30u8, 0x31u8]
}

/// The name of the trailer as text.
pub open spec fn trailer_name() -> Seq<char> {
    seq!['T', 'R', 'A', 'I', 'L', 'E', 'R', '!', '!', '!']
}

/// The header of one archive member.
#[derive(Debug, PartialEq, Eq, Clone)]
pub struct FileEntry {
    pub name: String,
    pub ino: u32,
    pub mode: u32,
    pub uid: u32,
    pub gid: u32,
    pub nlink: u32,
    pub mtime: u32,
    pub file_size: u32,
    pub dev_major: u32,
    pub dev_minor: u32,
    pub rdev_major: u32,
    pub rdev_minor: u32,
}

/// What an entry holds.
pub struct FileEntryView {
    pub name: Seq<char>,
    pub ino: u32,
    pub mode: u32,
    pub uid: u32,
    pub gid: u32,
    pub nlink: u32,
    pub mtime: u32,
    pub file_size: u32,
    pub dev_major: u32,
    pub dev_minor: u32,
    pub rdev_major: u32,
    pub rdev_minor: u32,
}

impl View for FileEntry {
    type V = FileEntryView;

    open spec fn view(&self) -> FileEntryView {
        FileEntryView {
            name: self.name@,
            ino: self.ino,
            mode: self.mode,
            uid: self.uid,
            gid: self.gid,
            nlink: self.nlink,
            mtime: self.mtime,
            file_size: self.file_size,
            dev_major: self.dev_major,
            dev_minor: self.dev_minor,
            rdev_major: self.rdev_major,
            rdev_minor: self.rdev_minor,
        }
    }
}

/// Zero bytes that bring `len` bytes up to a multiple of four.
pub open spec fn pad4(len: int) -> int {
    spec_align_n_bytes(len, 4)
}

/// The size of the name field of an entry: the bytes of the name and the
/// zero byte that ends it.
pub open spec fn name_size_of(name: Seq<char>) -> int {
    encode_utf8(name).len() as int + 1
}

/// Field `k` of the header at the front of `s`, counted from zero.
pub open spec fn header_field(s: Seq<u8>, k: int) -> Option<u32> {
    parse_hex_u32(s.skip(6 + 8 * k))
}

/// The twelve numbers of a header are there and are hexadecimal.
pub open spec fn header_fields_ok(s: Seq<u8>) -> bool {
    forall|k: int| 0 <= k < 12 ==> (#[trigger] header_field(s, k)) is Some
}

/// The entry can be written: the size of its name field, and the six bytes
/// counted with it for the padding, fit 32 bits.
pub open spec fn entry_writable(entry: FileEntryView) -> bool {
    name_size_of(entry.name) + 6 <= u32::MAX
}

/// The bytes of an entry: magic, thirteen numbers of eight hexadecimal
/// digits each, of which the last is the checksum, always zero, then the
/// name and its zero byte, and zero bytes up to a multiple of four.
pub open spec fn entry_bytes(entry: FileEntryView) -> Seq<u8> {
    cpio_magic() + hex_bytes(entry.ino as nat, 8) + hex_bytes(entry.mode as nat, 8) + hex_bytes(
        entry.uid as nat,
        8,
    ) + hex_bytes(entry.gid as nat, 8) + hex_bytes(entry.nlink as nat, 8) + hex_bytes(
        entry.mtime as nat,
        8,
    ) + hex_bytes(entry.file_size as nat, 8) + hex_bytes(entry.dev_major as nat, 8) + hex_bytes(
        entry.dev_minor as nat,
        8,
    ) + hex_bytes(entry.rdev_major as nat, 8) + hex_bytes(entry.rdev_minor as nat, 8) + hex_bytes(
        name_size_of(entry.name) as nat,
        8,
    ) + hex_bytes(0, 8) + encode_utf8(entry.name) + seq![0u8] + zero_bytes(
        pad4(name_size_of(entry.name) + 6),
    )
}

/// What reading an entry from the front of `s` gives: the entry and the
/// number of bytes it took, padding included. A wrong magic, a field that is
/// not eight hexadecimal digits, a file size above 1 GiB, a name size above
/// 4096 or of zero, and a name that is not UTF-8 are `InvalidData`; a source
/// that ends within the magic, the checksum, the name or the padding is `Io`.
/// The eight bytes of the checksum are passed over, whatever they hold.
pub open spec fn parse_entry(s: Seq<u8>) -> Result<(FileEntryView, int), ErrorKind> {
    if s.len() < 6 {
        Err(ErrorKind::Io)
    } else if s.take(6) != cpio_magic() {
        Err(ErrorKind::InvalidData)
    } else if !header_fields_ok(s) {
        Err(ErrorKind::InvalidData)
    } else if header_field(s, 6)->0 > MAX_CPIO_ENTRY_SIZE || header_field(s, 11)->0
        > MAX_NAME_SIZE {
        Err(ErrorKind::InvalidData)
    } else {
        let name_size = header_field(s, 11)->0 as int;
        let padding = pad4(name_size + 6);
        if s.len() < 110 + name_size {
            Err(ErrorKind::Io)
        } else if name_size == 0 {
            Err(ErrorKind::InvalidData)
        } else if !valid_utf8(s.subrange(110, 110 + name_size - 1)) {
            Err(ErrorKind::InvalidData)
        } else if s.len() < 110 + name_size + padding {
            Err(ErrorKind::Io)
        } else {
            Ok(
                (
                    FileEntryView {
                        name: decode_utf8(s.subrange(110, 110 + name_size - 1)),
                        ino: header_field(s, 0)->0,
                        mode: header_field(s, 1)->0,
                        uid: header_field(s, 2)->0,
                        gid: header_field(s, 3)->0,
                        nlink: header_field(s, 4)->0,
                        mtime: header_field(s, 5)->0,
                        file_size: header_field(s, 6)->0,
                        dev_major: header_field(s, 7)->0,
                        dev_minor: header_field(s, 8)->0,
                        rdev_major: header_field(s, 9)->0,
                        rdev_minor: header_field(s, 10)->0,
                    },
                    110 + name_size + padding,
                ),
            )
        }
    }
}

/// The name of the trailer takes ten bytes.
pub proof fn lemma_trailer_name_len()
    ensures
        encode_utf8(trailer_name()).len() == 10,
{
    reveal_with_fuel(vstd::utf8::encode_utf8, 11);
}

/// The length of a written entry is a multiple of four.
pub proof fn lemma_entry_bytes_len(entry: FileEntryView)
    ensures
        entry_bytes(entry).len() == 110 + name_size_of(entry.name) + pad4(
            name_size_of(entry.name) + 6,
        ),
        entry_bytes(entry).len() % 4 == 0,
{
    let n = name_size_of(entry.name);
    lemma_hex_bytes_len(entry.ino as nat, 8);
    lemma_hex_bytes_len(entry.mode as nat, 8);
    lemma_hex_bytes_len(entry.uid as nat, 8);
    lemma_hex_bytes_len(entry.gid as nat, 8);
    lemma_hex_bytes_len(entry.nlink as nat, 8);
    lemma_hex_bytes_len(entry.mtime as nat, 8);
    lemma_hex_bytes_len(entry.file_size as nat, 8);
    lemma_hex_bytes_len(entry.dev_major as nat, 8);
    lemma_hex_bytes_len(entry.dev_minor as nat, 8);
    lemma_hex_bytes_len(entry.rdev_major as nat, 8);
    lemma_hex_bytes_len(entry.rdev_minor as nat, 8);
    lemma_hex_bytes_len(n as nat, 8);
    lemma_hex_bytes_len(0, 8);
    lemma_align_reaches_boundary(n + 6, 4);
}

/// One field of a written header reads back as the number written.
proof fn lemma_field_of(s: Seq<u8>, k: int, v: u32)
    requires
        0 <= k < 12,
        s.len() >= 6 + 8 * k + 8,
        s.subrange(6 + 8 * k, 6 + 8 * k + 8) == hex_bytes(v as nat, 8),
    ensures
        header_field(s, k) == Some(v),
{
    let rest = s.skip(6 + 8 * k + 8);
    lemma_hex_bytes_len(v as nat, 8);
    assert(s.skip(6 + 8 * k) =~= hex_bytes(v as nat, 8) + rest);
    lemma_parse_hex_u32_of_bytes(v, rest);
}

/// An entry within the limits that was written is read back as it was,
/// whatever follows it.
pub proof fn lemma_entry_round_trip(entry: FileEntryView, rest: Seq<u8>)
    requires
        name_size_of(entry.name) <= MAX_NAME_SIZE,
        entry.file_size <= MAX_CPIO_ENTRY_SIZE,
    ensures
        parse_entry(entry_bytes(entry) + rest) == Ok::<(FileEntryView, int), ErrorKind>(
            (entry, entry_bytes(entry).len() as int),
        ),
{
    let s = entry_bytes(entry) + rest;
    let n = name_size_of(entry.name);
    lemma_entry_bytes_len(entry);
    lemma_align_reaches_boundary(n + 6, 4);
    lemma_hex_bytes_len(entry.ino as nat, 8);
    lemma_hex_bytes_len(entry.mode as nat, 8);
    lemma_hex_bytes_len(entry.uid as nat, 8);
    lemma_hex_bytes_len(entry.gid as nat, 8);
    lemma_hex_bytes_len(entry.nlink as nat, 8);
    lemma_hex_bytes_len(entry.mtime as nat, 8);
    lemma_hex_bytes_len(entry.file_size as nat, 8);
    lemma_hex_bytes_len(entry.dev_major as nat, 8);
    lemma_hex_bytes_len(entry.dev_minor as nat, 8);
    lemma_hex_bytes_len(entry.rdev_major as nat, 8);
    lemma_hex_bytes_len(entry.rdev_minor as nat, 8);
    lemma_hex_bytes_len(n as nat, 8);
    lemma_hex_bytes_len(0, 8);
    assert(s.take(6) =~= cpio_magic());
    assert(s.subrange(6, 14) =~= hex_bytes(entry.ino as nat, 8));
    assert(s.subrange(14, 22) =~= hex_bytes(entry.mode as nat, 8));
    assert(s.subrange(22, 30) =~= hex_bytes(entry.uid as nat, 8));
    assert(s.subrange(30, 38) =~= hex_bytes(entry.gid as nat, 8));
    assert(s.subrange(38, 46) =~= hex_bytes(entry.nlink as nat, 8));
    assert(s.subrange(46, 54) =~= hex_bytes(entry.mtime as nat, 8));
    assert(s.subrange(54, 62) =~= hex_bytes(entry.file_size as nat, 8));
    assert(s.subrange(62, 70) =~= hex_bytes(entry.dev_major as nat, 8));
    assert(s.subrange(70, 78) =~= hex_bytes(entry.dev_minor as nat, 8));
    assert(s.subrange(78, 86) =~= hex_bytes(entry.rdev_major as nat, 8));
    assert(s.subrange(86, 94) =~= hex_bytes(entry.rdev_minor as nat, 8));
    assert(s.subrange(94, 102) =~= hex_bytes(n as nat, 8));
    lemma_field_of(s, 0, entry.ino);
    lemma_field_of(s, 1, entry.mode);
    lemma_field_of(s, 2, entry.uid);
    lemma_field_of(s, 3, entry.gid);
    lemma_field_of(s, 4, entry.nlink);
    lemma_field_of(s, 5, entry.mtime);
    lemma_field_of(s, 6, entry.file_size);
    lemma_field_of(s, 7, entry.dev_major);
    lemma_field_of(s, 8, entry.dev_minor);
    lemma_field_of(s, 9, entry.rdev_major);
    lemma_field_of(s, 10, entry.rdev_minor);
    lemma_field_of(s, 11, n as u32);
    assert(header_fields_ok(s)) by {
        assert forall|k: int| 0 <= k < 12 implies (#[trigger] header_field(s, k)) is Some by {
            if k == 0 {
            } else if k == 1 {
            } else if k == 2 {
            } else if k == 3 {
            } else if k == 4 {
            } else if k == 5 {
            } else if k == 6 {
            } else if k == 7 {
            } else if k == 8 {
            } else if k == 9 {
            } else if k == 10 {
            } else {
            }
        }
    }
    assert(s.subrange(110, 110 + n - 1) =~= encode_utf8(entry.name));
    vstd::utf8::encode_utf8_valid_utf8(entry.name);
    vstd::utf8::encode_utf8_decode_utf8(entry.name);
}

/// Reads field `k` of a header whose bytes from the start of the entry are `s`.
fn read_field(fh: &mut ByteReader, Ghost(s): Ghost<Seq<u8>>, Ghost(k): Ghost<int>) -> (r: Result<
    u32,
    Error,
>)
    requires
        0 <= k < 12,
        6 + 8 * k <= s.len(),
        old(fh).remaining() == s.skip(6 + 8 * k),
    ensures
        match r {
            Ok(v) => {
                &&& header_field(s, k) == Some(v)
                &&& 6 + 8 * k + 8 <= s.len()
                &&& final(fh).advanced(old(fh), 8)
                &&& final(fh).remaining() == s.skip(6 + 8 * k + 8)
            },
            Err(e) => {
                &&& header_field(s, k) is None
                &&& e.kind == ErrorKind::InvalidData
                &&& final(fh).unmoved(old(fh))
            },
        },
{
    let r = fh.read_hex_as_u32();
    proof {
        if r is Ok {
            assert(s.skip(6 + 8 * k).skip(8) =~= s.skip(6 + 8 * k + 8));
        }
    }
    r
}

impl FileEntry {
    /// Reads the header of one member: fixed part, name and padding. The
    /// sizes are checked against the limits before the name is read.
    pub fn read(reader: &mut ByteReader) -> (r: Result<FileEntry, Error>)
        ensures
            final(reader).buffer() == old(reader).buffer(),
            match r {
                Ok(entry) => {
                    &&& parse_entry(old(reader).remaining()) matches Ok((parsed, taken))
                    &&& parsed == entry@
                    &&& final(reader).advanced(old(reader), taken)
                    &&& entry.file_size <= MAX_CPIO_ENTRY_SIZE
                    &&& name_size_of(entry@.name) <= MAX_NAME_SIZE
                },
                Err(e) => parse_entry(old(reader).remaining()) == Err::<
                    (FileEntryView, int),
                    ErrorKind,
                >(e.kind),
            },
    {
        let ghost s = reader.remaining();
        let magic = reader.read_exact(6)?;
        if magic[0] != MAGIC[0] || magic[1] != MAGIC[1] || magic[2] != MAGIC[2] || magic[3]
            != MAGIC[3] || magic[4] != MAGIC[4] || magic[5] != MAGIC[5] {
            proof {
                if s.take(6) == cpio_magic() {
                    assert(s.take(6)[0] == 0x30 && s.take(6)[1] == 0x37 && s.take(6)[2] == 0x30
                        && s.take(6)[3] == 0x37 && s.take(6)[4] == 0x30 && s.take(6)[5] == 0x31);
                }
            }
            return Err(Error::new(ErrorKind::InvalidData, "Error: incorrect magic of cpio entry"));
        }
        assert(s.take(6) =~= cpio_magic());
        let ino = read_field(reader, Ghost(s), Ghost(0))?;
        let mode = read_field(reader, Ghost(s), Ghost(1))?;
        let uid = read_field(reader, Ghost(s), Ghost(2))?;
        let gid = read_field(reader, Ghost(s), Ghost(3))?;
        let nlink = read_field(reader, Ghost(s), Ghost(4))?;
        let mtime = read_field(reader, Ghost(s), Ghost(5))?;
        let file_size = read_field(reader, Ghost(s), Ghost(6))?;

        // The limits are tested before anything is set aside for the entry.
        if file_size > MAX_CPIO_ENTRY_SIZE {
            return Err(
                Error::new(
                    ErrorKind::InvalidData,
                    "CPIO entry file size exceeds maximum allowed size",
                ),
            );
        }
        let dev_major = read_field(reader, Ghost(s), Ghost(7))?;
        let dev_minor = read_field(reader, Ghost(s), Ghost(8))?;
        let rdev_major = read_field(reader, Ghost(s), Ghost(9))?;
        let rdev_minor = read_field(reader, Ghost(s), Ghost(10))?;
        let name_size = read_field(reader, Ghost(s), Ghost(11))?;
        proof {
            assert(header_fields_ok(s)) by {
                assert forall|k: int| 0 <= k < 12 implies (#[trigger] header_field(s, k)) is Some by {
                    if k == 0 {
                    } else if k == 1 {
                    } else if k == 2 {
                    } else if k == 3 {
                    } else if k == 4 {
                    } else if k == 5 {
                    } else if k == 6 {
                    } else if k == 7 {
                    } else if k == 8 {
                    } else if k == 9 {
                    } else if k == 10 {
                    } else {
                    }
                }
            }
        }

        if name_size > MAX_NAME_SIZE {
            return Err(
                Error::new(
                    ErrorKind::InvalidData,
                    "CPIO entry name size exceeds maximum allowed size",
                ),
            );
        }
        if reader.available() < 8 {
            return Err(Error::new(ErrorKind::Io, "failed to fill whole buffer"));
        }
        let _checksum = reader.read_exact(8)?;
        assert(reader.remaining() =~= s.skip(110));

        let name_bytes = reader.read_exact(name_size as usize)?;
        let name = if name_size > 0 {
            let size = (name_size - 1) as usize;
            let head = vstd::slice::slice_subrange(name_bytes, 0, size);
            assert(head@ =~= s.subrange(110, 110 + name_size - 1));
            match string_from_utf8(vstd::slice::slice_to_vec(head)) {
                Some(name) => name,
                None => {
                    return Err(
                        Error::new(ErrorKind::InvalidData, "Error: incorrect utf8 symbol"),
                    );
                },
            }
        } else {
            return Err(Error::new(ErrorKind::InvalidData, "incorrect cpio name"));
        };
        proof {
            vstd::utf8::decode_utf8_encode_utf8(s.subrange(110, 110 + name_size - 1));
        }

        // Header and name together end on a multiple of four bytes.
        let position = align_n_bytes(name_size + 6, 4);
        let _padding = reader.read_exact(position as usize)?;
        proof {
            assert(reader.remaining() =~= s.skip(110 + name_size + position));
        }
        Ok(
            FileEntry {
                name,
                ino,
                mode,
                uid,
                gid,
                nlink,
                mtime,
                file_size,
                dev_major,
                dev_minor,
                rdev_major,
                rdev_minor,
            },
        )
    }

    /// Appends the header of the member: fixed part, name and padding. A
    /// name too long for its size to be written is `InvalidInput`, and then
    /// nothing is appended.
    pub fn write(&self, writer: &mut Vec<u8>) -> (r: Result<(), Error>)
        ensures
            match r {
                Ok(_) => {
                    &&& entry_writable(self@)
                    &&& final(writer)@ == old(writer)@ + entry_bytes(self@)
                    &&& entry_bytes(self@).len() % 4 == 0
                },
                Err(e) => {
                    &&& !entry_writable(self@)
                    &&& e.kind == ErrorKind::InvalidInput
                    &&& final(writer)@ == old(writer)@
                },
            },
    {
        let name_bytes = self.name.as_str().as_bytes();
        if name_bytes.len() > (u32::MAX - 7) as usize {
            return Err(Error::new(ErrorKind::InvalidInput, "Error: cpio name is too long"));
        }
        writer.extend_from_slice(MAGIC.as_slice());
        write_hex_u32(writer, self.ino);
        write_hex_u32(writer, self.mode);
        write_hex_u32(writer, self.uid);
        write_hex_u32(writer, self.gid);
        write_hex_u32(writer, self.nlink);
        write_hex_u32(writer, self.mtime);
        write_hex_u32(writer, self.file_size);
        write_hex_u32(writer, self.dev_major);
        write_hex_u32(writer, self.dev_minor);
        write_hex_u32(writer, self.rdev_major);
        write_hex_u32(writer, self.rdev_minor);
        let name_size = (name_bytes.len() + 1) as u32;
        write_hex_u32(writer, name_size);
        // No checksum is computed in this format: the field holds the number zero.
        write_hex_u32(writer, 0);
        writer.extend_from_slice(name_bytes);
        writer.push(0_u8);

        // Header and name together end on a multiple of four bytes.
        align_pad(writer, name_size + 6, 4);
        proof {
            assert(MAGIC@ =~= cpio_magic());
            assert(writer@ =~= old(writer)@ + entry_bytes(self@));
            lemma_entry_bytes_len(self@);
        }
        Ok(())
    }

    /// Whether this is the entry that ends an archive.
    pub fn is_trailer(&self) -> (b: bool)
        ensures
            b == (self@.name == trailer_name()),
    {
        proof {
            reveal_strlit("TRAILER!!!");
            assert(TRAILER@ =~= trailer_name());
        }
        text_eq(self.name.as_str(), TRAILER)
    }
}

impl Default for FileEntry {
    /// The entry that ends an archive.
    fn default() -> (entry: FileEntry)
        ensures
            entry@ == (FileEntryView {
                name: trailer_name(),
                ino: 0,
                mode: 0,
                uid: 0,
                gid: 0,
                nlink: 1,
                mtime: 0,
                file_size: 0,
                dev_major: 0,
                dev_minor: 0,
                rdev_major: 0,
                rdev_minor: 0,
            }),
    {
        proof {
            reveal_strlit("TRAILER!!!");
            assert(TRAILER@ =~= trailer_name());
        }
        FileEntry {
            name: TRAILER.to_owned(),
            ino: 0,
            mode: 0,
            uid: 0,
            gid: 0,
            nlink: 1,
            mtime: 0,
            file_size: 0,
            dev_major: 0,
            dev_minor: 0,
            rdev_major: 0,
            rdev_minor: 0,
        }
    }
}

/// The major number that an entry records for a device number.
pub fn major(x: u32) -> (r: u32)
    ensures
        r == (x >> 8) & 0x7F,
{
    (x >> 8) & 0x7F
}

/// The minor number that an entry records for a device number.
pub fn minor(x: u32) -> (r: u32)
    ensures
        r == x & 0xFF,
{
    x & 0xFF
}

} // verus!
