use vstd::prelude::*;

verus! {

/// What the metadata header says of one packaged file.
#[derive(Debug, Clone)]
pub struct FileInfo {
    pub name: String,
    pub size: u64,
    pub user: String,
    pub group: String,
    pub flags: u32,
    pub mtime: u32,
    pub digest: String,
    pub mode: u16,
    pub linkname: String,
    pub device: u32,
    pub inode: u32,
}

/// What a file description holds.
pub struct FileInfoView {
    pub name: Seq<char>,
    pub size: u64,
    pub user: Seq<char>,
    pub group: Seq<char>,
    pub flags: u32,
    pub mtime: u32,
    pub digest: Seq<char>,
    pub mode: u16,
    pub linkname: Seq<char>,
    pub device: u32,
    pub inode: u32,
}

impl View for FileInfo {
    type V = FileInfoView;

    open spec fn view(&self) -> FileInfoView {
        FileInfoView {
            name: self.name@,
            size: self.size,
            user: self.user@,
            group: self.group@,
            flags: self.flags,
            mtime: self.mtime,
            digest: self.digest@,
            mode: self.mode,
            linkname: self.linkname@,
            device: self.device,
            inode: self.inode,
        }
    }
}

/// The mode of a regular file that its owner may write and all may read.
pub const DEFAULT_FILE_MODE: u16 = 33188;

impl Default for FileInfo {
    /// A regular file of no name and no content that belongs to `root`.
    fn default() -> (info: FileInfo)
        ensures
            info@ == (FileInfoView {
                name: Seq::empty(),
                size: 0,
                user: "root"@,
                group: "root"@,
                flags: 0,
                mtime: 0,
                digest: Seq::empty(),
                mode: DEFAULT_FILE_MODE,
                linkname: "root"@,
                device: 0,
                inode: 0,
            }),
    {
        FileInfo {
            name: String::new(),
            size: 0,
            user: "root".to_owned(),
            group: "root".to_owned(),
            flags: 0,
            mtime: 0,
            digest: String::new(),
            mode: DEFAULT_FILE_MODE,
            linkname: "root".to_owned(),
            device: 0,
            inode: 0,
        }
    }
}

/// What the headers say of the payload of a package.
#[derive(Debug)]
pub struct RPMPayload {
    pub size: u64,
    pub format: String,
    pub compressor: String,
    pub flags: String,
    pub files: Vec<FileInfo>,
}

impl Default for RPMPayload {
    fn default() -> (payload: RPMPayload)
        ensures
            payload.size == 0,
            payload.format@ == Seq::<char>::empty(),
            payload.compressor@ == Seq::<char>::empty(),
            payload.flags@ == Seq::<char>::empty(),
            payload.files@ == Seq::<FileInfo>::empty(),
    {
        RPMPayload {
            size: 0,
            format: String::new(),
            compressor: String::new(),
            flags: String::new(),
            files: Vec::new(),
        }
    }
}

/// The flags that the metadata header keeps for a file, as a set of bits.
#[derive(Debug, Clone, Copy, PartialEq, Eq, Structural)]
pub struct FileFlags {
    pub bits: u32,
}

/// From `%config`.
pub const CONFIGURATION: u32 = 1 << 0;

/// From `%doc`.
pub const DOC: u32 = 1 << 1;

/// From `%donotuse`.
pub const ICON: u32 = 1 << 2;

/// From `%config(missingok)`.
pub const MISSINGOK: u32 = 1 << 3;

/// From `%config(noreplace)`.
pub const NOREPLACE: u32 = 1 << 4;

/// From `%ghost`.
pub const GHOST: u32 = 1 << 6;

/// From `%license`.
pub const LICENSE: u32 = 1 << 7;

/// From `%readme`.
pub const README: u32 = 1 << 8;

/// From `%pubkey`.
pub const PUBKEY: u32 = 1 << 11;

/// From `%artifact`.
pub const ARTIFACT: u32 = 1 << 12;

/// Every flag at once: the bits that stand for a flag.
pub const ALL: u32 = CONFIGURATION | DOC | ICON | MISSINGOK | NOREPLACE | GHOST | LICENSE | README
    | PUBKEY | ARTIFACT;

impl FileFlags {
    /// The flags that the bits of `bits` stand for. A bit that stands for no
    /// flag is dropped.
    pub fn from_bits_truncate(bits: u32) -> (flags: FileFlags)
        ensures
            flags.bits == bits & ALL,
            flags.bits & ALL == flags.bits,
    {
        let kept = bits & ALL;
        assert(kept & ALL == kept) by (bit_vector)
            requires
                kept == bits & ALL,
        ;
        FileFlags { bits: kept }
    }

    /// The bits of the flags.
    pub fn bits(&self) -> (bits: u32)
        ensures
            bits == self.bits,
    {
        self.bits
    }

    /// Whether every bit of `flag` is set.
    pub fn contains(&self, flag: u32) -> (all: bool)
        ensures
            all == (self.bits & flag == flag),
    {
        self.bits & flag == flag
    }
}

} // verus!
