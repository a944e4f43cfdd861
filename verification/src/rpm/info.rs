use crate::error::{Error, ErrorKind};
use crate::header::index::RTypeView;
use crate::header::tags::{SignatureTag, Tag};
use crate::header::Tags;
use crate::lead::{named_lead, Lead, LeadView};
use crate::payload::info::{FileInfo, FileInfoView, RPMPayload};
use crate::rpm::file::RPMFile;
use vstd::pervasive::unreached;
use vstd::prelude::*;
use vstd::string::StringExecFns;

verus! {

/// What the headers say of a package.
#[derive(Debug)]
pub struct RPMInfo {
    pub name: String,
    pub epoch: u8,
    pub version: String,
    pub release: String,
    pub arch: String,
    pub group: String,
    pub size: u64,
    pub license: String,
    pub source_rpm: String,
    pub build_time: i64,
    pub build_host: String,
    pub summary: String,
    pub description: String,
    pub payload: RPMPayload,
}

/// What a package description holds.
pub struct RPMInfoView {
    pub name: Seq<char>,
    pub epoch: u8,
    pub version: Seq<char>,
    pub release: Seq<char>,
    pub arch: Seq<char>,
    pub group: Seq<char>,
    pub size: u64,
    pub license: Seq<char>,
    pub source_rpm: Seq<char>,
    pub build_time: i64,
    pub build_host: Seq<char>,
    pub summary: Seq<char>,
    pub description: Seq<char>,
    pub payload_size: u64,
    pub payload_format: Seq<char>,
    pub payload_compressor: Seq<char>,
    pub payload_flags: Seq<char>,
    pub files: Seq<FileInfoView>,
}

/// The views of a list of file descriptions.
pub open spec fn file_views(files: Seq<FileInfo>) -> Seq<FileInfoView> {
    Seq::new(files.len(), |i: int| files[i]@)
}

impl View for RPMInfo {
    type V = RPMInfoView;

    open spec fn view(&self) -> RPMInfoView {
        RPMInfoView {
            name: self.name@,
            epoch: self.epoch,
            version: self.version@,
            release: self.release@,
            arch: self.arch@,
            group: self.group@,
            size: self.size,
            license: self.license@,
            source_rpm: self.source_rpm@,
            build_time: self.build_time,
            build_host: self.build_host@,
            summary: self.summary@,
            description: self.description@,
            payload_size: self.payload.size,
            payload_format: self.payload.format@,
            payload_compressor: self.payload.compressor@,
            payload_flags: self.payload.flags@,
            files: file_views(self.payload.files@),
        }
    }
}

/// One row of the file table: base name, directory index, size, user,
/// group, link name and digest.
pub struct FileRow {
    pub name: String,
    pub index: u32,
    pub size: u64,
    pub user: String,
    pub group: String,
    pub linkname: String,
    pub digest: String,
}

/// The least of seven lengths.
pub open spec fn least_len(a: int, b: int, c: int, d: int, e: int, f: int, g: int) -> int {
    let ab = if a <= b {
        a
    } else {
        b
    };
    let cd = if c <= d {
        c
    } else {
        d
    };
    let ef = if e <= f {
        e
    } else {
        f
    };
    let abcd = if ab <= cd {
        ab
    } else {
        cd
    };
    let efg = if ef <= g {
        ef
    } else {
        g
    };
    if abcd <= efg {
        abcd
    } else {
        efg
    }
}

/// Walks seven columns in lockstep with `itertools::multizip`, which
/// yields tuples of the elements at equal positions until the shortest
/// column ends.
#[verifier::external_body]
fn zip_columns(
    names: Vec<String>,
    indexes: Vec<u32>,
    sizes: Vec<u64>,
    users: Vec<String>,
    groups: Vec<String>,
    linknames: Vec<String>,
    digests: Vec<String>,
) -> (rows: Vec<FileRow>)
    ensures
        rows@.len() == least_len(
            names@.len() as int,
            indexes@.len() as int,
            sizes@.len() as int,
            users@.len() as int,
            groups@.len() as int,
            linknames@.len() as int,
            digests@.len() as int,
        ),
        forall|i: int|
            0 <= i < rows@.len() ==> {
                &&& (#[trigger] rows@[i]).name@ == names@[i]@
                &&& rows@[i].index == indexes@[i]
                &&& rows@[i].size == sizes@[i]
                &&& rows@[i].user@ == users@[i]@
                &&& rows@[i].group@ == groups@[i]@
                &&& rows@[i].linkname@ == linknames@[i]@
                &&& rows@[i].digest@ == digests@[i]@
            },
{
    itertools::multizip((names, indexes, sizes, users, groups, linknames, digests)).map(
        |(name, index, size, user, group, linkname, digest)| FileRow {
            name,
            index,
            size,
            user,
            group,
            linkname,
            digest,
        },
    ).collect()
}

// ---------------------------------------------------------------------------
// What the tags hold
// ---------------------------------------------------------------------------

/// The text under `tag`, which must be there.
pub open spec fn required_text(tags: Map<Tag, RTypeView>, tag: Tag) -> Option<Seq<char>> {
    if tags.contains_key(tag) {
        tags[tag].as_string()
    } else {
        None
    }
}

/// The text under `tag`, or the empty text where the tag is missing.
pub open spec fn optional_text(tags: Map<Tag, RTypeView>, tag: Tag) -> Option<Seq<char>> {
    if tags.contains_key(tag) {
        tags[tag].as_string()
    } else {
        Some(Seq::empty())
    }
}

/// The texts under `tag`, or none where the tag is missing.
pub open spec fn optional_texts(tags: Map<Tag, RTypeView>, tag: Tag) -> Option<Seq<Seq<char>>> {
    if tags.contains_key(tag) {
        tags[tag].as_string_array()
    } else {
        Some(Seq::empty())
    }
}

pub open spec fn optional_u64s(tags: Map<Tag, RTypeView>, tag: Tag) -> Option<Seq<u64>> {
    if tags.contains_key(tag) {
        tags[tag].as_u64_array()
    } else {
        Some(Seq::empty())
    }
}

pub open spec fn optional_u32s(tags: Map<Tag, RTypeView>, tag: Tag) -> Option<Seq<u32>> {
    if tags.contains_key(tag) {
        tags[tag].as_u32_array()
    } else {
        Some(Seq::empty())
    }
}

pub open spec fn optional_u16s(tags: Map<Tag, RTypeView>, tag: Tag) -> Option<Seq<u16>> {
    if tags.contains_key(tag) {
        tags[tag].as_u16_array()
    } else {
        Some(Seq::empty())
    }
}

/// The columns of the file table.
pub struct FileColumns {
    pub dirs: Seq<Seq<char>>,
    pub dir_indexes: Seq<u32>,
    pub basenames: Seq<Seq<char>>,
    pub filesizes: Seq<u64>,
    pub users: Seq<Seq<char>>,
    pub groups: Seq<Seq<char>>,
    pub flags: Seq<u32>,
    pub mtimes: Seq<u32>,
    pub modes: Seq<u16>,
    pub devices: Seq<u32>,
    pub inodes: Seq<u32>,
    pub digests: Seq<Seq<char>>,
}

/// The columns of the file table that the metadata hold; nothing where a
/// column is there and is of another type.
pub open spec fn file_columns(header: Map<Tag, RTypeView>) -> Option<FileColumns> {
    if optional_texts(header, Tag::DirNames) is Some && optional_u32s(header, Tag::DirIndexes)
        is Some && optional_texts(header, Tag::BaseNames) is Some && optional_u64s(
        header,
        Tag::FileSizes,
    ) is Some && optional_texts(header, Tag::FileUserName) is Some && optional_texts(
        header,
        Tag::FileGroupName,
    ) is Some && optional_u32s(header, Tag::FileFlags) is Some && optional_u32s(
        header,
        Tag::FileMTimes,
    ) is Some && optional_u16s(header, Tag::FileModes) is Some && optional_u32s(
        header,
        Tag::FileDevices,
    ) is Some && optional_u32s(header, Tag::FileInodes) is Some && optional_texts(
        header,
        Tag::FileMD5s,
    ) is Some {
        Some(
            FileColumns {
                dirs: optional_texts(header, Tag::DirNames)->0,
                dir_indexes: optional_u32s(header, Tag::DirIndexes)->0,
                basenames: optional_texts(header, Tag::BaseNames)->0,
                filesizes: optional_u64s(header, Tag::FileSizes)->0,
                users: optional_texts(header, Tag::FileUserName)->0,
                groups: optional_texts(header, Tag::FileGroupName)->0,
                flags: optional_u32s(header, Tag::FileFlags)->0,
                mtimes: optional_u32s(header, Tag::FileMTimes)->0,
                modes: optional_u16s(header, Tag::FileModes)->0,
                devices: optional_u32s(header, Tag::FileDevices)->0,
                inodes: optional_u32s(header, Tag::FileInodes)->0,
                digests: optional_texts(header, Tag::FileMD5s)->0,
            },
        )
    } else {
        None
    }
}

/// How many files the table describes: as many as its shortest column of
/// base names, directory indexes, sizes, users, groups and digests has.
pub open spec fn file_count(c: FileColumns) -> int {
    least_len(
        c.basenames.len() as int,
        c.dir_indexes.len() as int,
        c.filesizes.len() as int,
        c.users.len() as int,
        c.groups.len() as int,
        c.groups.len() as int,
        c.digests.len() as int,
    )
}

/// Row `i` of the table can be made: its directory is there, and so are
/// its flags, time, mode, device and inode.
pub open spec fn row_complete(c: FileColumns, i: int) -> bool {
    &&& c.dir_indexes[i] < c.dirs.len()
    &&& i < c.flags.len()
    &&& i < c.mtimes.len()
    &&& i < c.modes.len()
    &&& i < c.devices.len()
    &&& i < c.inodes.len()
}

/// The description of file `i`: its name is its directory followed by its
/// base name, and its link name is taken from the column of groups.
pub open spec fn file_row(c: FileColumns, i: int) -> FileInfoView {
    FileInfoView {
        name: c.dirs[c.dir_indexes[i] as int] + c.basenames[i],
        size: c.filesizes[i],
        user: c.users[i],
        group: c.groups[i],
        flags: c.flags[i],
        mtime: c.mtimes[i],
        digest: c.digests[i],
        mode: c.modes[i],
        linkname: c.groups[i],
        device: c.devices[i],
        inode: c.inodes[i],
    }
}

/// The files that the table describes; nothing where a row is incomplete.
pub open spec fn files_of(c: FileColumns) -> Option<Seq<FileInfoView>> {
    if forall|i: int| 0 <= i < file_count(c) ==> #[trigger] row_complete(c, i) {
        Some(Seq::new(file_count(c) as nat, |i: int| file_row(c, i)))
    } else {
        None
    }
}

/// The scalars of the description are all there and of a fitting type.
pub open spec fn scalars_present(
    signature: Map<SignatureTag, RTypeView>,
    header: Map<Tag, RTypeView>,
) -> bool {
    &&& signature.contains_key(SignatureTag::PayloadSize)
    &&& signature[SignatureTag::PayloadSize].as_u64() is Some
    &&& required_text(header, Tag::PayloadFormat) is Some
    &&& required_text(header, Tag::PayloadCompressor) is Some
    &&& required_text(header, Tag::PayloadFlags) is Some
    &&& required_text(header, Tag::Name) is Some
    &&& (header.contains_key(Tag::Epoch) ==> header[Tag::Epoch].as_u8() is Some)
    &&& required_text(header, Tag::Version) is Some
    &&& required_text(header, Tag::Release) is Some
    &&& required_text(header, Tag::Arch) is Some
    &&& required_text(header, Tag::Group) is Some
    &&& header.contains_key(Tag::Size)
    &&& header[Tag::Size].as_u64() is Some
    &&& optional_text(header, Tag::License) is Some
    &&& optional_text(header, Tag::SourceRpm) is Some
    &&& header.contains_key(Tag::BuildTime)
    &&& header[Tag::BuildTime].as_i64() is Some
    &&& required_text(header, Tag::BuildHost) is Some
    &&& required_text(header, Tag::Summary) is Some
    &&& required_text(header, Tag::Description) is Some
}

/// What the two stores say of the package; nothing where a tag that is
/// needed is missing or of another type, or where the file table is
/// incomplete.
pub open spec fn info_of(
    signature: Map<SignatureTag, RTypeView>,
    header: Map<Tag, RTypeView>,
) -> Option<RPMInfoView> {
    if file_columns(header) is Some && files_of(file_columns(header)->0) is Some
        && scalars_present(signature, header) {
        Some(
            RPMInfoView {
                name: required_text(header, Tag::Name)->0,
                epoch: if header.contains_key(Tag::Epoch) {
                    header[Tag::Epoch].as_u8()->0
                } else {
                    0
                },
                version: required_text(header, Tag::Version)->0,
                release: required_text(header, Tag::Release)->0,
                arch: required_text(header, Tag::Arch)->0,
                group: required_text(header, Tag::Group)->0,
                size: header[Tag::Size].as_u64()->0,
                license: optional_text(header, Tag::License)->0,
                source_rpm: optional_text(header, Tag::SourceRpm)->0,
                build_time: header[Tag::BuildTime].as_i64()->0,
                build_host: required_text(header, Tag::BuildHost)->0,
                summary: required_text(header, Tag::Summary)->0,
                description: required_text(header, Tag::Description)->0,
                payload_size: signature[SignatureTag::PayloadSize].as_u64()->0,
                payload_format: required_text(header, Tag::PayloadFormat)->0,
                payload_compressor: required_text(header, Tag::PayloadCompressor)->0,
                payload_flags: required_text(header, Tag::PayloadFlags)->0,
                files: files_of(file_columns(header)->0)->0,
            },
        )
    } else {
        None
    }
}

// ---------------------------------------------------------------------------
// Reading the tags
// ---------------------------------------------------------------------------

/// The error for a tag that is needed and is missing or of another type:
/// `InvalidData`, with `what` as its message.
fn missing(what: &str) -> (e: Error)
    ensures
        e.kind == ErrorKind::InvalidData,
        e.message@ == what@,
{
    Error::new(ErrorKind::InvalidData, what)
}

fn text_required(tags: &Tags<Tag>, tag: Tag) -> (r: Option<String>)
    ensures
        crate::header::index::option_text(r) == required_text(tags@, tag),
{
    match tags.get_value(tag) {
        Some(value) => value.as_string(),
        None => None,
    }
}

fn text_optional(tags: &Tags<Tag>, tag: Tag) -> (r: Option<String>)
    ensures
        crate::header::index::option_text(r) == optional_text(tags@, tag),
{
    match tags.get_value(tag) {
        Some(value) => value.as_string(),
        None => Some(String::new()),
    }
}

fn texts_optional(tags: &Tags<Tag>, tag: Tag) -> (r: Option<Vec<String>>)
    ensures
        crate::header::index::option_texts(r) == optional_texts(tags@, tag),
{
    match tags.get_value(tag) {
        Some(value) => value.as_string_array(),
        None => {
            let v: Vec<String> = Vec::new();
            assert(v.deep_view() =~= Seq::<Seq<char>>::empty());
            Some(v)
        },
    }
}

fn u64s_optional(tags: &Tags<Tag>, tag: Tag) -> (r: Option<Vec<u64>>)
    ensures
        crate::header::index::option_view(r) == optional_u64s(tags@, tag),
{
    match tags.get_value(tag) {
        Some(value) => value.as_u64_array(),
        None => Some(Vec::new()),
    }
}

fn u32s_optional(tags: &Tags<Tag>, tag: Tag) -> (r: Option<Vec<u32>>)
    ensures
        crate::header::index::option_view(r) == optional_u32s(tags@, tag),
{
    match tags.get_value(tag) {
        Some(value) => value.as_u32_array(),
        None => Some(Vec::new()),
    }
}

fn u16s_optional(tags: &Tags<Tag>, tag: Tag) -> (r: Option<Vec<u16>>)
    ensures
        crate::header::index::option_view(r) == optional_u16s(tags@, tag),
{
    match tags.get_value(tag) {
        Some(value) => value.as_u16_array(),
        None => Some(Vec::new()),
    }
}

/// The file table of the metadata, row by row.
fn read_files(header: &Tags<Tag>) -> (r: Option<Vec<FileInfo>>)
    ensures
        match r {
            Some(files) => file_columns(header@) is Some && files_of(file_columns(header@)->0)
                == Some(file_views(files@)),
            None => file_columns(header@) is None || files_of(file_columns(header@)->0) is None,
        },
{
    let dirs = texts_optional(header, Tag::DirNames)?;
    let dir_indexes = u32s_optional(header, Tag::DirIndexes)?;
    let basenames = texts_optional(header, Tag::BaseNames)?;
    let filesizes = u64s_optional(header, Tag::FileSizes)?;
    let users = texts_optional(header, Tag::FileUserName)?;
    let groups = texts_optional(header, Tag::FileGroupName)?;
    let flags = u32s_optional(header, Tag::FileFlags)?;
    let mtimes = u32s_optional(header, Tag::FileMTimes)?;
    let linknames = texts_optional(header, Tag::FileGroupName)?;
    let modes = u16s_optional(header, Tag::FileModes)?;
    let devices = u32s_optional(header, Tag::FileDevices)?;
    let inodes = u32s_optional(header, Tag::FileInodes)?;
    let digests = texts_optional(header, Tag::FileMD5s)?;
    let ghost c = file_columns(header@)->0;
    proof {
        assert(c.dirs == dirs.deep_view());
        assert(c.basenames == basenames.deep_view());
        assert(c.users == users.deep_view());
        assert(c.groups == groups.deep_view());
        assert(c.groups == linknames.deep_view());
        assert(c.digests == digests.deep_view());
        assert(basenames.deep_view().len() == basenames@.len());
        assert(users.deep_view().len() == users@.len());
        assert(groups.deep_view().len() == groups@.len());
        assert(linknames.deep_view().len() == linknames@.len());
        assert(digests.deep_view().len() == digests@.len());
    }
    let ghost names_view = basenames.deep_view();
    let ghost users_view = users.deep_view();
    let ghost groups_view = groups.deep_view();
    let ghost digests_view = digests.deep_view();
    let rows = zip_columns(basenames, dir_indexes, filesizes, users, groups, linknames, digests);
    let n = rows.len();
    assert(n == file_count(c));
    let mut files: Vec<FileInfo> = Vec::new();
    let mut i: usize = 0;
    while i < n
        invariant
            i <= n,
            n == rows@.len(),
            n == file_count(c),
            file_columns(header@) == Some(c),
            c.dirs == dirs.deep_view(),
            c.flags == flags@,
            c.mtimes == mtimes@,
            c.modes == modes@,
            c.devices == devices@,
            c.inodes == inodes@,
            forall|k: int|
                0 <= k < n ==> {
                    &&& (#[trigger] rows@[k]).name@ == c.basenames[k]
                    &&& rows@[k].index == c.dir_indexes[k]
                    &&& rows@[k].size == c.filesizes[k]
                    &&& rows@[k].user@ == c.users[k]
                    &&& rows@[k].group@ == c.groups[k]
                    &&& rows@[k].linkname@ == c.groups[k]
                    &&& rows@[k].digest@ == c.digests[k]
                },
            files@.len() == i,
            forall|k: int| 0 <= k < i ==> #[trigger] row_complete(c, k),
            forall|k: int| 0 <= k < i ==> (#[trigger] files@[k])@ == file_row(c, k),
        decreases n - i,
    {
        let row = &rows[i];
        let index = row.index as usize;
        if index >= dirs.len() || i >= flags.len() || i >= mtimes.len() || i >= modes.len() || i
            >= devices.len() || i >= inodes.len() {
            proof {
                assert(dirs.deep_view().len() == dirs@.len());
                assert(!row_complete(c, i as int));
            }
            return None;
        }
        proof {
            assert(dirs.deep_view().len() == dirs@.len());
            assert(dirs.deep_view()[index as int] == dirs@[index as int]@);
        }
        let name = dirs[index].clone().concat(row.name.as_str());
        let info = FileInfo {
            name,
            size: row.size,
            user: row.user.clone(),
            group: row.group.clone(),
            flags: flags[i],
            mtime: mtimes[i],
            digest: row.digest.clone(),
            mode: modes[i],
            linkname: row.linkname.clone(),
            device: devices[i],
            inode: inodes[i],
        };
        proof {
            assert(row == rows@[i as int]);
            assert(row_complete(c, i as int));
            assert(info@.name == file_row(c, i as int).name);
            assert(info@ == file_row(c, i as int));
        }
        files.push(info);
        i = i + 1;
    }
    proof {
        assert(file_views(files@) =~= Seq::new(file_count(c) as nat, |k: int| file_row(c, k)));
    }
    Some(files)
}

impl RPMInfo {
    /// What the stores of `rpm` say of the package. A tag that is needed
    /// and is missing or of another type, and a file table with an
    /// incomplete row, are `InvalidData`.
    pub fn from_rpm<T>(rpm: &RPMFile<T>) -> (r: Result<RPMInfo, Error>)
        ensures
            match r {
                Ok(info) => info_of(rpm.signature_tags@, rpm.header_tags@) == Some(info@),
                Err(e) => info_of(rpm.signature_tags@, rpm.header_tags@) is None && e.kind
                    == ErrorKind::InvalidData,
            },
    {
        let signature_tags = &rpm.signature_tags;
        let header_tags = &rpm.header_tags;
        let files = match read_files(header_tags) {
            Some(files) => files,
            None => {
                return Err(missing("Tag: file table is not complete"));
            },
        };
        let payload_size = match signature_tags.get_value(SignatureTag::PayloadSize) {
            Some(value) => match value.as_u64() {
                Some(n) => n,
                None => {
                    return Err(missing("Tag: is not a integer"));
                },
            },
            None => {
                return Err(missing("Tag: not found"));
            },
        };
        let format = match text_required(header_tags, Tag::PayloadFormat) {
            Some(s) => s,
            None => {
                return Err(missing("Tag: is not a string"));
            },
        };
        let compressor = match text_required(header_tags, Tag::PayloadCompressor) {
            Some(s) => s,
            None => {
                return Err(missing("Tag: is not a string"));
            },
        };
        let flags = match text_required(header_tags, Tag::PayloadFlags) {
            Some(s) => s,
            None => {
                return Err(missing("Tag: is not a string"));
            },
        };
        let name = match text_required(header_tags, Tag::Name) {
            Some(s) => s,
            None => {
                return Err(missing("Tag: is not a string"));
            },
        };
        let epoch = match header_tags.get_value(Tag::Epoch) {
            Some(value) => match value.as_u8() {
                Some(n) => n,
                None => {
                    return Err(missing("Tag: is not a u8"));
                },
            },
            None => 0,
        };
        let version = match text_required(header_tags, Tag::Version) {
            Some(s) => s,
            None => {
                return Err(missing("Tag: is not a string"));
            },
        };
        let release = match text_required(header_tags, Tag::Release) {
            Some(s) => s,
            None => {
                return Err(missing("Tag: is not a string"));
            },
        };
        let arch = match text_required(header_tags, Tag::Arch) {
            Some(s) => s,
            None => {
                return Err(missing("Tag: is not a string"));
            },
        };
        let group = match text_required(header_tags, Tag::Group) {
            Some(s) => s,
            None => {
                return Err(missing("Tag: is not a string"));
            },
        };
        let size = match header_tags.get_value(Tag::Size) {
            Some(value) => match value.as_u64() {
                Some(n) => n,
                None => {
                    return Err(missing("Tag: is not a integer"));
                },
            },
            None => {
                return Err(missing("Tag: not found"));
            },
        };
        let license = match text_optional(header_tags, Tag::License) {
            Some(s) => s,
            None => {
                return Err(missing("Tag: is not a string"));
            },
        };
        let source_rpm = match text_optional(header_tags, Tag::SourceRpm) {
            Some(s) => s,
            None => {
                return Err(missing("Tag: is not a string"));
            },
        };
        let build_time = match header_tags.get_value(Tag::BuildTime) {
            Some(value) => match value.as_i64() {
                Some(n) => n,
                None => {
                    return Err(missing("Tag: is not a integer"));
                },
            },
            None => {
                return Err(missing("Tag: not found"));
            },
        };
        let build_host = match text_required(header_tags, Tag::BuildHost) {
            Some(s) => s,
            None => {
                return Err(missing("Tag: is not a string"));
            },
        };
        let summary = match text_required(header_tags, Tag::Summary) {
            Some(s) => s,
            None => {
                return Err(missing("Tag: is not a string"));
            },
        };
        let description = match text_required(header_tags, Tag::Description) {
            Some(s) => s,
            None => {
                return Err(missing("Tag: is not a string"));
            },
        };
        let payload = RPMPayload { size: payload_size, format, compressor, flags, files };
        Ok(
            RPMInfo {
                name,
                epoch,
                version,
                release,
                arch,
                group,
                size,
                license,
                source_rpm,
                build_time,
                build_host,
                summary,
                description,
                payload,
            },
        )
    }

    /// What the stores of `rpm` say of the package, which must hold every
    /// tag that is needed, of the type that is needed, and a complete file
    /// table.
    pub fn from<T>(rpm: &RPMFile<T>) -> (info: RPMInfo)
        requires
            info_of(rpm.signature_tags@, rpm.header_tags@) is Some,
        ensures
            info_of(rpm.signature_tags@, rpm.header_tags@) == Some(info@),
    {
        match Self::from_rpm(rpm) {
            Ok(info) => info,
            Err(_) => unreached(),
        }
    }

    /// The lead of a package of this description: version 3.1, binary,
    /// with the first 66 bytes of the name.
    pub fn lead(&self) -> (lead: Lead)
        ensures
            lead@ == named_lead(self.name@),
    {
        Lead::from_name(self.name.as_str())
    }

    /// The package of this description, with `writer` as its sink. The
    /// build time must not lie before 1970.
    pub fn into_rpm<T>(self, writer: T) -> (rpm: RPMFile<T>)
        requires
            self.build_time >= 0,
        ensures
            rpm.file == writer,
            rpm.payload_offset == 0,
            rpm.lead@ == self.lead_view(),
            rpm.signature_tags@ == Map::<SignatureTag, RTypeView>::empty().insert(
                SignatureTag::PayloadSize,
                RTypeView::Int64(self.payload.size),
            ),
            rpm.header_tags@ == self.header_view(),
    {
        let lead = self.lead();
        let mut signature_tags = Tags::<SignatureTag>::new();
        let mut header_tags = Tags::<Tag>::new();
        header_tags.insert_name(self.name);
        header_tags.insert_epoch(self.epoch);
        header_tags.insert_version(self.version);
        header_tags.insert_arch(self.arch);
        header_tags.insert_group(self.group);
        header_tags.insert_size(self.size);
        header_tags.insert_license(self.license);
        header_tags.insert_source_rpm(self.source_rpm);
        header_tags.insert_build_time(self.build_time);
        header_tags.insert_build_host(self.build_host);
        header_tags.insert_summary(self.summary);
        header_tags.insert_description(self.description);
        header_tags.insert_payload_format(self.payload.format);
        header_tags.insert_payload_compressor(self.payload.compressor);
        header_tags.insert_payload_flags(self.payload.flags);
        signature_tags.insert_payload_size(self.payload.size);
        RPMFile { lead, header_tags, signature_tags, payload_offset: 0, file: writer }
    }

    /// The lead that `into_rpm` gives the package.
    pub open spec fn lead_view(&self) -> LeadView {
        named_lead(self.name@)
    }

    /// The metadata that `into_rpm` gives the package. The release is not
    /// among them.
    pub open spec fn header_view(&self) -> Map<Tag, RTypeView> {
        Map::<Tag, RTypeView>::empty().insert(Tag::Name, RTypeView::String(self.name@)).insert(
            Tag::Epoch,
            RTypeView::Int8(self.epoch),
        ).insert(Tag::Version, RTypeView::String(self.version@)).insert(
            Tag::Arch,
            RTypeView::String(self.arch@),
        ).insert(Tag::Group, RTypeView::String(self.group@)).insert(
            Tag::Size,
            RTypeView::Int64(self.size),
        ).insert(Tag::License, RTypeView::String(self.license@)).insert(
            Tag::SourceRpm,
            RTypeView::String(self.source_rpm@),
        ).insert(Tag::BuildTime, RTypeView::Int64(self.build_time as u64)).insert(
            Tag::BuildHost,
            RTypeView::String(self.build_host@),
        ).insert(Tag::Summary, RTypeView::String(self.summary@)).insert(
            Tag::Description,
            RTypeView::String(self.description@),
        ).insert(Tag::PayloadFormat, RTypeView::String(self.payload.format@)).insert(
            Tag::PayloadCompressor,
            RTypeView::String(self.payload.compressor@),
        ).insert(Tag::PayloadFlags, RTypeView::String(self.payload.flags@))
    }
}

} // verus!
