use crate::error::{Error, ErrorKind};
use crate::payload::archive::payload_step;
use crate::payload::cpio::{parse_entry, trailer_name, FileEntry, FileEntryView};
use crate::reader::ByteReader;
use crate::utils::{align_n_bytes, text_eq};
use vstd::prelude::*;
use vstd::utf8::encode_utf8;

verus! {

/// The byte `/`.
pub const SLASH: u8 = 0x2f;

/// The byte `\`.
pub const BACKSLASH: u8 = 0x5c;

/// The byte `.`.
pub const DOT: u8 = 0x2e;

/// At `i` stands a component `..`: two dots between separators or the ends
/// of the name.
pub open spec fn parent_component_at(name: Seq<u8>, i: int) -> bool {
    &&& 0 <= i
    &&& i + 2 <= name.len()
    &&& name[i] == DOT
    &&& name[i + 1] == DOT
    &&& (i == 0 || name[i - 1] == SLASH)
    &&& (i + 2 == name.len() || name[i + 2] == SLASH)
}

/// Some component of the name is `..`.
pub open spec fn has_parent_component(name: Seq<u8>) -> bool {
    exists|i: int| #[trigger] parent_component_at(name, i)
}

/// The name starts with a separator, of either kind.
pub open spec fn starts_at_root(name: Seq<u8>) -> bool {
    name.len() > 0 && (name[0] == SLASH || name[0] == BACKSLASH)
}

/// The name, as bytes, stays below the directory it is joined to: no
/// component is `..`, and it does not start at a root.
pub open spec fn safe_bytes(name: Seq<u8>) -> bool {
    !has_parent_component(name) && !starts_at_root(name)
}

/// The name stays below the directory it is joined to.
pub open spec fn safe_name(name: Seq<char>) -> bool {
    safe_bytes(encode_utf8(name))
}

/// Whether a member of this name may be extracted: it has no component
/// `..` and does not start with `/` or `\`.
pub fn is_safe_path(path: &str) -> (safe: bool)
    ensures
        safe == safe_name(path@),
{
    let name = path.as_bytes();
    let n = name.len();
    if n > 0 && (name[0] == SLASH || name[0] == BACKSLASH) {
        return false;
    }
    let mut i: usize = 0;
    while i < n
        invariant
            i <= n,
            n == name@.len(),
            name@ == encode_utf8(path@),
            forall|j: int| 0 <= j < i ==> !parent_component_at(name@, j),
        decreases n - i,
    {
        if n - i >= 2 && name[i] == DOT && name[i + 1] == DOT && (i == 0 || name[i - 1] == SLASH)
            && (i + 2 == n || name[i + 2] == SLASH) {
            assert(parent_component_at(name@, i as int));
            return false;
        }
        i = i + 1;
    }
    true
}

/// What the host is asked to do for one member.
#[derive(Debug)]
pub enum ExtractStep<'a> {
    /// The trailer was read: the archive ends and nothing is created.
    Done,
    /// Create the directory of this name, and its missing ancestors.
    Directory,
    /// Create or truncate the file of this name and write the content.
    File { content: &'a [u8] },
}

/// What an extraction step holds.
pub enum ExtractStepView {
    Done,
    Directory,
    File { content: Seq<u8> },
}

impl<'a> View for ExtractStep<'a> {
    type V = ExtractStepView;

    open spec fn view(&self) -> ExtractStepView {
        match self {
            ExtractStep::Done => ExtractStepView::Done,
            ExtractStep::Directory => ExtractStepView::Directory,
            ExtractStep::File { content } => ExtractStepView::File { content: content@ },
        }
    }
}

/// One member to extract: its header and what to do for it.
#[derive(Debug)]
pub struct Extraction<'a> {
    pub entry: FileEntry,
    pub step: ExtractStep<'a>,
}

/// What extracting the member at the front of `s` asks for, and how far
/// the source moves. The trailer ends the archive. A name that is not safe
/// is `InvalidInput`, whatever the member holds. A member with two links is
/// a directory, and its payload is left where it is. Any other member is a
/// file of `file_size` bytes, behind which the padding is skipped.
pub open spec fn plan_member(s: Seq<u8>) -> Result<(FileEntryView, ExtractStepView, int), ErrorKind> {
    match parse_entry(s) {
        Err(e) => Err(e),
        Ok((entry, taken)) => {
            let size = entry.file_size as int;
            if entry.name == trailer_name() {
                Ok((entry, ExtractStepView::Done, taken))
            } else if !safe_name(entry.name) {
                Err(ErrorKind::InvalidInput)
            } else if entry.nlink == 2 {
                Ok((entry, ExtractStepView::Directory, taken))
            } else if s.len() < taken + size {
                Err(ErrorKind::Io)
            } else {
                Ok(
                    (
                        entry,
                        ExtractStepView::File { content: s.subrange(taken, taken + size) },
                        taken + payload_step(size, s.len() - taken),
                    ),
                )
            }
        },
    }
}

/// Reads one member and decides what is to be done for it. Nothing is
/// decided for a member whose name is not safe: that is an error before
/// its payload is looked at.
pub fn extract_entry<'a>(reader: &mut ByteReader<'a>) -> (r: Result<Extraction<'a>, Error>)
    ensures
        final(reader).buffer() == old(reader).buffer(),
        match r {
            Ok(extraction) => {
                &&& plan_member(old(reader).remaining()) matches Ok((entry, step, taken))
                &&& entry == extraction.entry@
                &&& step == extraction.step@
                &&& final(reader).advanced(old(reader), taken)
                &&& !(step is Done) ==> safe_name(entry.name)
            },
            Err(e) => plan_member(old(reader).remaining()) == Err::<
                (FileEntryView, ExtractStepView, int),
                ErrorKind,
            >(e.kind),
        },
{
    let ghost s = reader.remaining();
    let entry = FileEntry::read(reader)?;
    let ghost taken = parse_entry(s)->Ok_0.1;

    // The trailer ends the archive and asks for nothing.
    if entry.is_trailer() {
        return Ok(Extraction { entry, step: ExtractStep::Done });
    }
    // A name that could lead out of the root is refused before any content is read.
    if !is_safe_path(entry.name.as_str()) {
        return Err(
            Error::new(
                ErrorKind::InvalidInput,
                "Unsafe path in archive (potential path traversal)",
            ),
        );
    }
    if entry.nlink == 2 {
        // Two links mark a directory.
        return Ok(Extraction { entry, step: ExtractStep::Directory });
    }
    let content = reader.read_exact(entry.file_size as usize)?;
    let position = align_n_bytes(entry.file_size, 4);
    let skipped = reader.skip(position as usize);
    proof {
        let size = entry.file_size as int;
        assert(content@ =~= s.subrange(taken, taken + size));
        assert(reader.remaining() =~= s.skip(taken + size + skipped));
    }
    Ok(Extraction { entry, step: ExtractStep::File { content } })
}

/// What extracting a whole archive asks for: the steps for the members
/// up to the trailer, which is not among them, or up to the first member
/// that cannot be extracted, and with them the error that ended the
/// reading, where one did. What stands before the error is still asked for.
pub open spec fn plan_archive(s: Seq<u8>) -> (Seq<(FileEntryView, ExtractStepView)>, Option<ErrorKind>)
    decreases s.len(),
{
    match plan_member(s) {
        Err(e) => (Seq::empty(), Some(e)),
        Ok((entry, step, taken)) => {
            if step is Done {
                (Seq::empty(), None)
            } else if 0 < taken <= s.len() {
                let rest = plan_archive(s.skip(taken));
                (seq![(entry, step)] + rest.0, rest.1)
            } else {
                (Seq::empty(), Some(ErrorKind::InvalidData))
            }
        },
    }
}

/// The views of a list of extractions.
pub open spec fn extraction_views(list: Seq<Extraction>) -> Seq<(FileEntryView, ExtractStepView)> {
    Seq::new(list.len(), |i: int| (list[i].entry@, list[i].step@))
}

/// An extraction that an error ended: the steps for the members that were
/// read before it, in archive order, and the error.
#[derive(Debug)]
pub struct Interrupted<'a> {
    pub steps: Vec<Extraction<'a>>,
    pub error: Error,
}

/// Reads an archive up to its trailer and decides, member by member, what
/// is to be created. The first error ends the reading, and the steps for
/// the members before it are handed out with it, so that what was asked for
/// before the error can still be carried out. Every name that is handed
/// out is safe.
pub fn extract_entries<'a>(reader: &mut ByteReader<'a>) -> (r: Result<
    Vec<Extraction<'a>>,
    Interrupted<'a>,
>)
    ensures
        final(reader).buffer() == old(reader).buffer(),
        match r {
            Ok(list) => {
                &&& plan_archive(old(reader).remaining()) == (
                    extraction_views(list@),
                    None::<ErrorKind>,
                )
                &&& forall|i: int|
                    0 <= i < list@.len() ==> safe_name((#[trigger] list@[i]).entry@.name)
            },
            Err(stopped) => {
                &&& plan_archive(old(reader).remaining()) == (
                    extraction_views(stopped.steps@),
                    Some(stopped.error.kind),
                )
                &&& forall|i: int|
                    0 <= i < stopped.steps@.len() ==> safe_name(
                        (#[trigger] stopped.steps@[i]).entry@.name,
                    )
            },
        },
{
    let mut entries: Vec<Extraction<'a>> = Vec::new();
    let ghost s0 = reader.remaining();
    proof {
        assert(extraction_views(entries@) + plan_archive(s0).0 =~= plan_archive(s0).0);
    }
    loop
        invariant_except_break
            plan_archive(s0) == (
                extraction_views(entries@) + plan_archive(reader.remaining()).0,
                plan_archive(reader.remaining()).1,
            ),
        invariant
            reader.buffer() == old(reader).buffer(),
            s0 == old(reader).remaining(),
            forall|i: int|
                0 <= i < entries@.len() ==> safe_name((#[trigger] entries@[i]).entry@.name),
        ensures
            plan_archive(s0) == (extraction_views(entries@), None::<ErrorKind>),
        decreases reader.remaining().len(),
    {
        let extraction = match extract_entry(reader) {
            Ok(extraction) => extraction,
            Err(error) => {
                proof {
                    assert(extraction_views(entries@) + Seq::<
                        (FileEntryView, ExtractStepView),
                    >::empty() =~= extraction_views(entries@));
                }
                return Err(Interrupted { steps: entries, error });
            },
        };
        let stop = match extraction.step {
            ExtractStep::Done => true,
            _ => false,
        };
        if stop {
            proof {
                assert(extraction_views(entries@) + Seq::<
                    (FileEntryView, ExtractStepView),
                >::empty() =~= extraction_views(entries@));
            }
            break ;
        }
        let ghost before = extraction_views(entries@);
        let ghost view = (extraction.entry@, extraction.step@);
        entries.push(extraction);
        proof {
            let tail = plan_archive(reader.remaining()).0;
            assert(extraction_views(entries@) =~= before + seq![view]);
            assert(before + (seq![view] + tail) =~= extraction_views(entries@) + tail);
        }
    }
    Ok(entries)
}

/// Whether missing parent directories of a file are to be created: they
/// are where creation is allowed; where it is not, a missing parent is
/// `NotFound`.
pub fn parent_decision(parent_exists: bool, creates_dir: bool) -> (r: Result<bool, Error>)
    ensures
        match r {
            Ok(create) => create == !parent_exists && (parent_exists || creates_dir),
            Err(e) => !parent_exists && !creates_dir && e.kind == ErrorKind::NotFound,
        },
{
    if !parent_exists {
        if creates_dir {
            Ok(true)
        } else {
            // Parent doesn't exist and we're not allowed to create it
            Err(Error::new(ErrorKind::NotFound, "Parent directory does not exist"))
        }
    } else {
        Ok(false)
    }
}

/// `root` is the beginning of `path`, component for component.
pub open spec fn starts_with_components(path: Seq<Seq<char>>, root: Seq<Seq<char>>) -> bool {
    root.len() <= path.len() && path.take(root.len() as int) == root
}

/// Whether a resolved path lies in the resolved extraction root: both are
/// given as their components, and the root must begin the path. A path
/// that a link leads out of the root is `InvalidInput`.
pub fn check_within(root: &Vec<String>, path: &Vec<String>) -> (r: Result<(), Error>)
    ensures
        match r {
            Ok(_) => starts_with_components(path.deep_view(), root.deep_view()),
            Err(e) => !starts_with_components(path.deep_view(), root.deep_view()) && e.kind
                == ErrorKind::InvalidInput,
        },
{
    if root.len() > path.len() {
        return Err(Error::new(ErrorKind::InvalidInput, "Path escapes extraction directory"));
    }
    let mut i: usize = 0;
    while i < root.len()
        invariant
            i <= root@.len() <= path@.len(),
            forall|j: int| 0 <= j < i ==> root@[j]@ == path@[j]@,
        decreases root@.len() - i,
    {
        if !text_eq(root[i].as_str(), path[i].as_str()) {
            proof {
                assert(path.deep_view().take(root@.len() as int)[i as int] == path@[i as int]@);
                assert(root.deep_view()[i as int] == root@[i as int]@);
            }
            return Err(Error::new(ErrorKind::InvalidInput, "Path escapes extraction directory"));
        }
        i = i + 1;
    }
    assert(path.deep_view().take(root@.len() as int) =~= root.deep_view());
    Ok(())
}

/// The mode and owner to set on an extracted member, where the caller asks
/// for them.
pub struct Ownership {
    pub mode: u32,
    pub uid: u32,
    pub gid: u32,
}

/// What is to be set on the extracted member besides its modification
/// time: mode and owner where `change_owner` asks for them, else nothing.
pub fn ownership_to_set(entry: &FileEntry, change_owner: bool) -> (r: Option<Ownership>)
    ensures
        match r {
            Some(o) => change_owner && o.mode == entry.mode && o.uid == entry.uid && o.gid
                == entry.gid,
            None => !change_owner,
        },
{
    if change_owner {
        Some(Ownership { mode: entry.mode, uid: entry.uid, gid: entry.gid })
    } else {
        None
    }
}

} // verus!
