use crate::error::ErrorKind;
use crate::payload::archive::{
    archive_bytes, lemma_payload_bytes_len, parse_entries, payload_bytes, record_bytes,
    records_bytes, trailer_entry,
};
use crate::payload::cpio::{
    entry_bytes, lemma_entry_bytes_len, lemma_entry_round_trip, lemma_trailer_name_len,
    name_size_of, trailer_name, FileEntryView, MAX_CPIO_ENTRY_SIZE, MAX_NAME_SIZE,
};
use vstd::prelude::*;

verus! {

/// The headers of a list of members.
pub open spec fn headers_of(records: Seq<(FileEntryView, Seq<u8>)>) -> Seq<FileEntryView> {
    Seq::new(records.len(), |i: int| records[i].0)
}

/// A member that an archive gives back: its header is within the limits of
/// the format, is not the trailer, and states the length of its payload.
pub open spec fn member_round_trips(record: (FileEntryView, Seq<u8>)) -> bool {
    &&& name_size_of(record.0.name) <= MAX_NAME_SIZE
    &&& record.0.file_size <= MAX_CPIO_ENTRY_SIZE
    &&& record.0.file_size == record.1.len()
    &&& record.0.name != trailer_name()
}

/// The bytes of a list of members are those of the first member, then those
/// of the others.
pub proof fn lemma_records_bytes_front(records: Seq<(FileEntryView, Seq<u8>)>, n: nat)
    requires
        0 < n <= records.len(),
    ensures
        records_bytes(records, n) == record_bytes(records[0].0, records[0].1) + records_bytes(
            records.skip(1),
            (n - 1) as nat,
        ),
    decreases n,
{
    let tail = records.skip(1);
    let first = record_bytes(records[0].0, records[0].1);
    if n == 1 {
        assert(records_bytes(records, 0) =~= Seq::<u8>::empty());
        assert(records_bytes(tail, 0) =~= Seq::<u8>::empty());
        assert(records_bytes(records, 1) =~= first + records_bytes(tail, 0));
    } else {
        lemma_records_bytes_front(records, (n - 1) as nat);
        let last = record_bytes(records[n - 1].0, records[n - 1].1);
        assert(tail[n - 2] == records[n - 1]);
        assert(records_bytes(tail, (n - 1) as nat) == records_bytes(tail, (n - 2) as nat) + last);
        assert(records_bytes(records, n) =~= first + records_bytes(tail, (n - 1) as nat));
    }
}

/// The trailer ends an archive.
proof fn lemma_trailer_ends(rest: Seq<u8>)
    ensures
        parse_entries(entry_bytes(trailer_entry()) + rest) == Ok::<Seq<FileEntryView>, ErrorKind>(
            Seq::empty(),
        ),
{
    lemma_trailer_name_len();
    lemma_entry_round_trip(trailer_entry(), rest);
}

/// A member in front of an archive is read first, and the archive after it.
proof fn lemma_member_step(entry: FileEntryView, data: Seq<u8>, after: Seq<u8>)
    requires
        member_round_trips((entry, data)),
    ensures
        parse_entries(record_bytes(entry, data) + after) == match parse_entries(after) {
            Ok(entries) => Ok::<Seq<FileEntryView>, ErrorKind>(seq![entry] + entries),
            Err(e) => Err(e),
        },
{
    let s = record_bytes(entry, data) + after;
    let behind = payload_bytes(data) + after;
    let taken = entry_bytes(entry).len() as int;
    assert(s =~= entry_bytes(entry) + behind);
    lemma_entry_round_trip(entry, behind);
    lemma_entry_bytes_len(entry);
    lemma_payload_bytes_len(data);
    assert(s.skip(taken) =~= behind);
    assert(behind.skip(payload_bytes(data).len() as int) =~= after);
}

/// The bytes of an archive are those of its first member, then those of
/// the archive of the others.
proof fn lemma_archive_front(records: Seq<(FileEntryView, Seq<u8>)>, rest: Seq<u8>)
    requires
        records.len() > 0,
    ensures
        archive_bytes(records) + rest == record_bytes(records[0].0, records[0].1) + (archive_bytes(
            records.skip(1),
        ) + rest),
{
    let tail = records.skip(1);
    let first = record_bytes(records[0].0, records[0].1);
    let others = records_bytes(tail, tail.len());
    let trailer = entry_bytes(trailer_entry());
    lemma_records_bytes_front(records, records.len());
    assert(((first + others) + trailer) + rest =~= first + ((others + trailer) + rest));
}

/// An archive without members reads back as no entries.
proof fn lemma_empty_archive(records: Seq<(FileEntryView, Seq<u8>)>, rest: Seq<u8>)
    requires
        records.len() == 0,
    ensures
        parse_entries(archive_bytes(records) + rest) == Ok::<Seq<FileEntryView>, ErrorKind>(
            headers_of(records),
        ),
{
    let trailer = entry_bytes(trailer_entry());
    assert(records_bytes(records, 0) == Seq::<u8>::empty());
    assert(Seq::<u8>::empty() + trailer =~= trailer);
    lemma_trailer_ends(rest);
    assert(headers_of(records) =~= Seq::<FileEntryView>::empty());
}

/// The headers of a list are the first header, then those of the others.
proof fn lemma_headers_front(records: Seq<(FileEntryView, Seq<u8>)>)
    requires
        records.len() > 0,
    ensures
        seq![records[0].0] + headers_of(records.skip(1)) == headers_of(records),
{
    assert(seq![records[0].0] + headers_of(records.skip(1)) =~= headers_of(records));
}

/// An archive that was written reads back as the headers of its members,
/// in their order, whatever follows the trailer.
pub proof fn lemma_archive_round_trip(records: Seq<(FileEntryView, Seq<u8>)>, rest: Seq<u8>)
    requires
        forall|i: int| 0 <= i < records.len() ==> member_round_trips(#[trigger] records[i]),
    ensures
        parse_entries(archive_bytes(records) + rest) == Ok::<Seq<FileEntryView>, ErrorKind>(
            headers_of(records),
        ),
    decreases records.len(),
{
    if records.len() == 0 {
        lemma_empty_archive(records, rest);
    } else {
        let tail = records.skip(1);
        assert(member_round_trips(records[0]));
        lemma_archive_front(records, rest);
        lemma_member_step(records[0].0, records[0].1, archive_bytes(tail) + rest);
        assert forall|i: int| 0 <= i < tail.len() implies member_round_trips(
            #[trigger] tail[i],
        ) by {
            assert(tail[i] == records[i + 1]);
        }
        lemma_archive_round_trip(tail, rest);
        lemma_headers_front(records);
    }
}

} // verus!
