use crate::error::ErrorKind;
use crate::header::index::RTypeView;
use crate::header::lead::{header_lead_bytes, lemma_header_lead_round_trip, parse_header_lead};
use crate::header::roundtrip::{lemma_store_round_trip, round_trips};
use crate::header::tags::{SignatureTag, Tag, TagNamespace};
use crate::header::{
    data_blob, distinct_tags, entries_map, index_table, lemma_store_bytes_aligned, parse_store,
    store_bytes, store_writable,
};
use crate::lead::{
    canonical, lead_bytes, lemma_lead_round_trip, parse_lead, supported_version, LeadView,
};
use crate::rpm::file::{head_bytes, parse_head, parse_package, PackageView};
use crate::utils::{spec_align_n_bytes, zero_bytes};
use vstd::prelude::*;

verus! {

/// The header lead of a written store states the size of its data blob.
proof fn lemma_store_states_its_size<T: TagNamespace>(entries: Seq<(T, RTypeView)>, rest: Seq<u8>)
    requires
        store_writable(entries),
    ensures
        parse_header_lead(store_bytes(entries) + rest) is Ok,
        parse_header_lead(store_bytes(entries) + rest)->Ok_0.2 == data_blob(entries).len(),
{
    let hsize = data_blob(entries).len();
    let reserved = seq![0u8, 0u8, 0u8, 0u8];
    let behind = index_table(entries, entries.len()) + data_blob(entries) + zero_bytes(
        spec_align_n_bytes(hsize as int, 8),
    ) + rest;
    lemma_header_lead_round_trip(reserved, entries.len() as u32, hsize as u32, behind);
    assert(store_bytes(entries) + rest =~= header_lead_bytes(
        reserved,
        entries.len() as u32,
        hsize as u32,
    ) + behind);
}

/// The store that `bytes` were written as is read back from `bytes` and
/// what follows them as `store`, and `bytes` end with the padding that the
/// header lead calls for.
#[verifier::opaque]
spec fn reads_as<T: TagNamespace>(
    bytes: Seq<u8>,
    rest: Seq<u8>,
    store: Map<T, RTypeView>,
    taken: int,
) -> bool {
    let s = bytes + rest;
    &&& parse_store::<T>(s) == Ok::<(Map<T, RTypeView>, int), ErrorKind>((store, taken))
    &&& parse_header_lead(s) is Ok
    &&& taken + spec_align_n_bytes(parse_header_lead(s)->Ok_0.2 as int, 8) == bytes.len()
}

/// How far reading a written store goes: to the end of its data blob.
pub open spec fn store_taken<T: TagNamespace>(entries: Seq<(T, RTypeView)>) -> int {
    16 + 16 * entries.len() as int + data_blob(entries).len() as int
}

/// A writable store without repeated tags that round-trips is read back.
proof fn lemma_store_reads_back<T: TagNamespace>(entries: Seq<(T, RTypeView)>, rest: Seq<u8>)
    requires
        distinct_tags(entries),
        store_writable(entries),
        round_trips(entries),
    ensures
        reads_as(store_bytes(entries), rest, entries_map(entries), store_taken(entries)),
{
    reveal(reads_as);
    lemma_store_round_trip(entries, rest);
    lemma_store_states_its_size(entries, rest);
    lemma_store_bytes_aligned(entries);
}

/// A head is read part by part: the lead in its 96 bytes, the signature
/// store with the padding that its header lead calls for, the metadata
/// store.
proof fn lemma_head_of_parts<S: TagNamespace, H: TagNamespace>(
    a: Seq<u8>,
    b: Seq<u8>,
    c: Seq<u8>,
    rest: Seq<u8>,
    lead: LeadView,
    signature: Map<S, RTypeView>,
    taken1: int,
    header: Map<H, RTypeView>,
    taken2: int,
)
    requires
        a.len() == 96,
        parse_lead(a + (b + (c + rest))) == Ok::<LeadView, ErrorKind>(lead),
        reads_as(b, c + rest, signature, taken1),
        reads_as(c, rest, header, taken2),
    ensures
        parse_head::<S, H>(a + b + c + rest) == Ok::<
            (LeadView, Map<S, RTypeView>, Map<H, RTypeView>, int),
            ErrorKind,
        >((lead, signature, header, 96 + b.len() + taken2)),
{
    reveal(reads_as);
    let s = a + (b + (c + rest));
    assert(((a + b) + c) + rest =~= s);
    assert(s.skip(96) =~= b + (c + rest));
    assert((b + (c + rest)).skip(b.len() as int) =~= c + rest);
}

/// The head of a package that was written, with stores of any two
/// namespaces, is read back as it was.
proof fn lemma_head_round_trip<S: TagNamespace, H: TagNamespace>(
    lead: LeadView,
    signature: Seq<(S, RTypeView)>,
    header: Seq<(H, RTypeView)>,
    rest: Seq<u8>,
)
    requires
        canonical(lead),
        supported_version(lead.major, lead.minor),
        distinct_tags(signature),
        store_writable(signature),
        round_trips(signature),
        distinct_tags(header),
        store_writable(header),
        round_trips(header),
    ensures
        parse_head::<S, H>(
            lead_bytes(lead) + store_bytes(signature) + store_bytes(header) + rest,
        ) == Ok::<(LeadView, Map<S, RTypeView>, Map<H, RTypeView>, int), ErrorKind>(
            (
                lead,
                entries_map(signature),
                entries_map(header),
                96 + store_bytes(signature).len() as int + store_taken(header),
            ),
        ),
{
    let b = store_bytes(signature);
    let c = store_bytes(header);
    lemma_lead_round_trip(lead, b + (c + rest));
    lemma_store_reads_back(signature, c + rest);
    lemma_store_reads_back(header, rest);
    lemma_head_of_parts::<S, H>(
        lead_bytes(lead),
        b,
        c,
        rest,
        lead,
        entries_map(signature),
        store_taken(signature),
        entries_map(header),
        store_taken(header),
    );
}

/// Where the payload of a written package is found: behind the lead, the
/// signature store with its padding, and the metadata store up to the end
/// of its data blob.
pub open spec fn written_payload_offset(
    signature: Seq<(SignatureTag, RTypeView)>,
    header: Seq<(Tag, RTypeView)>,
) -> int {
    96 + store_bytes(signature).len() as int + store_taken(header)
}

/// The head of a package that was written is read back as it was, whatever
/// follows it: a canonical lead of a supported version, and two writable
/// stores without repeated tags that round-trip.
pub proof fn lemma_package_round_trip(
    lead: LeadView,
    signature: Seq<(SignatureTag, RTypeView)>,
    header: Seq<(Tag, RTypeView)>,
    rest: Seq<u8>,
)
    requires
        canonical(lead),
        supported_version(lead.major, lead.minor),
        distinct_tags(signature),
        store_writable(signature),
        round_trips(signature),
        distinct_tags(header),
        store_writable(header),
        round_trips(header),
    ensures
        parse_package(head_bytes(lead, signature, header) + rest) == Ok::<PackageView, ErrorKind>(
            PackageView {
                lead,
                signature: entries_map(signature),
                header: entries_map(header),
                payload_offset: written_payload_offset(signature, header),
            },
        ),
{
    lemma_head_round_trip(lead, signature, header, rest);
}

} // verus!
