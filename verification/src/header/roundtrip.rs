use crate::error::ErrorKind;
use crate::header::codec::{decode_value, value_bytes, value_count};
use crate::header::faithful::{
    faithful, is_text, lemma_decode_written_value, lemma_decode_without_room, needs_room,
};
use crate::header::index::{
    lemma_sorted_by_offset_len, parse_index_table, sorted_by_offset, type_of_value, Index,
    RTypeView,
};
use crate::header::lead::{header_lead_bytes, lemma_header_lead_round_trip, parse_header_lead};
use crate::header::order::{lemma_sorted_is_stable, stable_sorting};
use crate::header::tags::TagNamespace;
use crate::header::{
    data_blob, decodable, decode_at, decoded_entries, distinct_tags, entries_map, entry_offset,
    index_entries, index_of_entry, index_table, lemma_data_blob_prefix, lemma_entries_map_domain,
    lemma_entries_map_lookup, lemma_index_of_entry_writable, lemma_index_table_len, parse_store,
    spec_tags_from_raw, store_bytes, store_writable, terminator,
};
use crate::utils::{lemma_align_reaches_boundary, spec_align_n_bytes, zero_bytes};
use vstd::prelude::*;

verus! {

/// Entry `later` is a `Null` that stands behind the text entry `first`,
/// which starts the data blob and needs room. A `Null` is recorded at offset
/// zero, so in the order of offsets it comes right behind such a text and
/// ends it where it starts.
pub open spec fn cuts<T>(entries: Seq<(T, RTypeView)>, first: int, later: int) -> bool {
    &&& 0 <= first < later < entries.len()
    &&& entries[later].1 is Null
    &&& needs_room(entries[first].1)
    &&& entry_offset(entries, first) == 0
}

/// Some text at the start of the data blob is cut short by a later `Null`.
pub open spec fn cut_short<T>(entries: Seq<(T, RTypeView)>) -> bool {
    exists|first: int, later: int| #[trigger] cuts(entries, first, later)
}

/// A store that reading gives back as it was written: every value is
/// faithful and no text is cut short.
pub open spec fn round_trips<T>(entries: Seq<(T, RTypeView)>) -> bool {
    &&& forall|i: int| 0 <= i < entries.len() ==> faithful((#[trigger] entries[i]).1)
    &&& !cut_short(entries)
}

/// Entry `i` of the index table stands at sixteen times `i`.
proof fn lemma_index_table_slot<T: TagNamespace>(entries: Seq<(T, RTypeView)>, n: nat, i: int)
    requires
        store_writable(entries),
        0 <= i < n <= entries.len(),
    ensures
        index_table(entries, n).len() == 16 * n,
        index_table(entries, n).subrange(16 * i, 16 * i + 16) == index_of_entry(
            entries,
            i,
        ).encoding(),
    decreases n,
{
    lemma_index_table_len(entries, n);
    lemma_index_table_len(entries, (n - 1) as nat);
    let last = index_of_entry(entries, n - 1).encoding();
    lemma_index_of_entry_writable(entries, n - 1);
    Index::<T>::lemma_round_trip(index_of_entry(entries, n - 1), Seq::empty());
    if i == n - 1 {
        assert(index_table(entries, n).subrange(16 * i, 16 * i + 16) =~= last);
    } else {
        lemma_index_table_slot(entries, (n - 1) as nat, i);
        assert(index_table(entries, n).subrange(16 * i, 16 * i + 16) =~= index_table(
            entries,
            (n - 1) as nat,
        ).subrange(16 * i, 16 * i + 16));
    }
}

/// A written index table reads back as the index entries of the store.
proof fn lemma_index_table_parse<T: TagNamespace>(entries: Seq<(T, RTypeView)>, rest: Seq<u8>)
    requires
        store_writable(entries),
    ensures
        parse_index_table::<T>(index_table(entries, entries.len()) + rest, entries.len())
            == Some(index_entries(entries, entries.len())),
{
    let n = entries.len();
    let table = index_table(entries, n);
    let s = table + rest;
    lemma_index_table_len(entries, n);
    let got = parse_index_table::<T>(s, n)->0;
    let want = index_entries(entries, n);
    assert forall|i: int| 0 <= i < n implies got[i] == want[i] by {
        lemma_index_table_slot(entries, n, i);
        lemma_index_of_entry_writable(entries, i);
        let index = index_of_entry(entries, i);
        Index::<T>::lemma_round_trip(index, Seq::empty());
        assert(s.subrange(16 * i, 16 * i + 16) =~= index.encoding() + Seq::<u8>::empty());
    }
    assert(got =~= want);
}

/// The value of entry `i` stands in the blob where the blob of the entries
/// before it ends.
proof fn lemma_blob_slot<T>(entries: Seq<(T, RTypeView)>, i: int)
    requires
        0 <= i < entries.len(),
    ensures
        data_blob(entries.take(i)).len() + value_bytes(entries[i].1).len() <= data_blob(
            entries,
        ).len(),
        data_blob(entries).subrange(
            data_blob(entries.take(i)).len() as int,
            data_blob(entries.take(i)).len() as int + value_bytes(entries[i].1).len(),
        ) == value_bytes(entries[i].1),
{
    let next = entries.take(i + 1);
    lemma_data_blob_prefix(entries, i + 1);
    assert(next.drop_last() =~= entries.take(i));
    assert(next.last() == entries[i]);
    let before = data_blob(entries.take(i));
    let bytes = value_bytes(entries[i].1);
    assert(data_blob(next) == before + bytes);
    let whole = data_blob(entries);
    let lo = before.len() as int;
    let hi = lo + bytes.len();
    assert(whole.subrange(lo, hi) =~= whole.take(data_blob(next).len() as int).subrange(lo, hi));
    assert((before + bytes).subrange(lo, hi) =~= bytes);
}

/// The value of a later entry starts behind the end of an earlier one.
proof fn lemma_blob_order<T>(entries: Seq<(T, RTypeView)>, i: int, m: int)
    requires
        0 <= i < m <= entries.len(),
    ensures
        data_blob(entries.take(i)).len() + value_bytes(entries[i].1).len() <= data_blob(
            entries.take(m),
        ).len(),
{
    let upto = entries.take(m);
    lemma_blob_slot(upto, i);
    assert(upto.take(i) =~= entries.take(i));
    assert(upto[i] == entries[i]);
}

/// In a writable store that round-trips, the value behind position `j` of
/// the sorted table starts behind the end of the text at `j`, unless the
/// text needs no room.
proof fn lemma_text_has_room<T: TagNamespace>(
    entries: Seq<(T, RTypeView)>,
    from: Seq<int>,
    to: Seq<int>,
    j: int,
)
    requires
        store_writable(entries),
        !cut_short(entries),
        stable_sorting(
            index_entries(entries, entries.len()),
            sorted_by_offset(index_entries(entries, entries.len())),
            from,
            to,
        ),
        0 <= j < entries.len(),
        is_text(entries[from[j]].1),
    ensures
        ({
            let sorted = sorted_by_offset(index_entries(entries, entries.len()));
            let k = from[j];
            let start = entry_offset(entries, k) as int;
            let end = terminator(sorted, j, data_blob(entries).len() as int);
            let size = value_bytes(entries[k].1).len() as int;
            &&& sorted[j].offset == start
            &&& (start + size <= end <= data_blob(entries).len() || (end == start && !needs_room(
                entries[k].1,
            )))
        }),
{
    let n = entries.len() as int;
    let table = index_entries(entries, entries.len());
    let sorted = sorted_by_offset(table);
    let k = from[j];
    let hsize = data_blob(entries).len() as int;
    let start = entry_offset(entries, k) as int;
    let size = value_bytes(entries[k].1).len() as int;
    assert(sorted[j] == table[k]);
    lemma_index_of_entry_writable(entries, k);
    lemma_blob_slot(entries, k);
    if j + 1 < n {
        let m = from[j + 1];
        assert(sorted[j + 1] == table[m]);
        lemma_index_of_entry_writable(entries, m);
        let end = entry_offset(entries, m) as int;
        assert(sorted[j].offset <= sorted[j + 1].offset);
        assert(to[k] == j && to[m] == j + 1);
        assert(k != m);
        if entries[m].1 is Null {
            assert(end == 0 && start == 0);
            assert(sorted[j].offset == sorted[j + 1].offset);
            assert(from[j] < from[j + 1]);
            if needs_room(entries[k].1) {
                assert(cuts(entries, k, m));
            }
        } else {
            lemma_data_blob_prefix(entries, m);
            if k < m {
                lemma_blob_order(entries, k, m);
            } else {
                lemma_blob_order(entries, m, k);
                assert(end <= start);
                assert(sorted[j].offset == sorted[j + 1].offset);
                assert(from[j] < from[j + 1]);
            }
        }
    }
}

/// In a writable store that round-trips, every position of the sorted
/// table points at the value that was stored under its tag.
proof fn lemma_decode_sorted<T: TagNamespace>(
    entries: Seq<(T, RTypeView)>,
    from: Seq<int>,
    to: Seq<int>,
    j: int,
)
    requires
        store_writable(entries),
        round_trips(entries),
        stable_sorting(
            index_entries(entries, entries.len()),
            sorted_by_offset(index_entries(entries, entries.len())),
            from,
            to,
        ),
        0 <= j < entries.len(),
    ensures
        decode_at(
            sorted_by_offset(index_entries(entries, entries.len())),
            data_blob(entries),
            j,
        ) == Some(entries[from[j]].1),
        sorted_by_offset(index_entries(entries, entries.len()))[j].tag == entries[from[j]].0,
{
    let table = index_entries(entries, entries.len());
    let sorted = sorted_by_offset(table);
    let blob = data_blob(entries);
    let k = from[j];
    let v = entries[k].1;
    assert(sorted[j] == table[k]);
    lemma_index_of_entry_writable(entries, k);
    lemma_blob_slot(entries, k);
    assert(faithful(entries[k].1));
    let end = terminator(sorted, j, blob.len() as int);
    if v is Null {
    } else if is_text(v) {
        lemma_text_has_room(entries, from, to, j);
        let start = entry_offset(entries, k) as int;
        let size = value_bytes(v).len() as int;
        if start + size <= end <= blob.len() {
            lemma_decode_written_value(v, blob, start, end);
        } else {
            lemma_decode_without_room(v, blob, start);
        }
    } else {
        lemma_decode_written_value(v, blob, entry_offset(entries, k) as int, end);
    }
}

/// A list of tagged values without repeated tags denotes the same map in
/// any order.
proof fn lemma_entries_map_permutation<T>(
    a: Seq<(T, RTypeView)>,
    b: Seq<(T, RTypeView)>,
    from: Seq<int>,
    to: Seq<int>,
)
    requires
        distinct_tags(a),
        b.len() == a.len(),
        from.len() == a.len(),
        to.len() == a.len(),
        forall|j: int|
            0 <= j < b.len() ==> 0 <= #[trigger] from[j] < a.len() && b[j] == a[from[j]]
                && to[from[j]] == j,
        forall|k: int| 0 <= k < a.len() ==> 0 <= #[trigger] to[k] < b.len() && from[to[k]] == k,
    ensures
        entries_map(b) == entries_map(a),
{
    assert(distinct_tags(b)) by {
        assert forall|i: int, j: int| 0 <= i < j < b.len() implies b[i].0 != b[j].0 by {
            assert(to[from[i]] == i && to[from[j]] == j);
            assert(from[i] != from[j]);
            if from[i] < from[j] {
                assert(a[from[i]].0 != a[from[j]].0);
            } else {
                assert(a[from[j]].0 != a[from[i]].0);
            }
        }
    }
    let ma = entries_map(a);
    let mb = entries_map(b);
    assert forall|t: T|
        #![trigger ma.dom().contains(t)]
        #![trigger mb.dom().contains(t)]
        ma.dom().contains(t) == mb.dom().contains(t) && (ma.dom().contains(t) ==> ma[t]
            == mb[t]) by {
        lemma_entries_map_domain(a, t);
        lemma_entries_map_domain(b, t);
        if ma.contains_key(t) {
            let i = choose|i: int| 0 <= i < a.len() && (#[trigger] a[i]).0 == t;
            let j = to[i];
            assert(from[j] == i);
            assert(b[j] == a[i]);
            assert(b[j].0 == t);
            lemma_entries_map_lookup(a, i);
            lemma_entries_map_lookup(b, j);
        }
        if mb.contains_key(t) {
            let j = choose|j: int| 0 <= j < b.len() && (#[trigger] b[j]).0 == t;
            let i = from[j];
            assert(a[i].0 == t);
        }
    }
    assert(ma.dom() =~= mb.dom());
    assert(ma =~= mb);
}

/// A writable store without repeated tags that round-trips is read back,
/// from the bytes it was written as, as the store it was, whatever follows
/// those bytes; the reading ends at the end of the data blob.
pub proof fn lemma_store_round_trip<T: TagNamespace>(entries: Seq<(T, RTypeView)>, rest: Seq<u8>)
    requires
        distinct_tags(entries),
        store_writable(entries),
        round_trips(entries),
    ensures
        parse_store::<T>(store_bytes(entries) + rest) == Ok::<(Map<T, RTypeView>, int), ErrorKind>(
            (entries_map(entries), 16 + 16 * entries.len() as int + data_blob(entries).len()),
        ),
{
    let n = entries.len();
    let blob = data_blob(entries);
    let hsize = blob.len();
    let reserved = seq![0u8, 0u8, 0u8, 0u8];
    let lead = header_lead_bytes(reserved, n as u32, hsize as u32);
    let table_bytes = index_table(entries, n);
    let pad = zero_bytes(spec_align_n_bytes(hsize as int, 8));
    let s = store_bytes(entries) + rest;
    let start = 16 + 16 * n as int;
    lemma_align_reaches_boundary(hsize as int, 8);
    lemma_index_table_len(entries, n);
    lemma_header_lead_round_trip(reserved, n as u32, hsize as u32, table_bytes + blob + pad + rest);
    assert(s =~= lead + (table_bytes + blob + pad + rest));
    assert(s.skip(16) =~= table_bytes + (blob + pad + rest));
    lemma_index_table_parse(entries, blob + pad + rest);
    assert(s.subrange(start, start + hsize) =~= blob);

    let table = index_entries(entries, n);
    let sorted = sorted_by_offset(table);
    lemma_sorted_by_offset_len(table);
    let (from, to) = lemma_sorted_is_stable(table);
    assert forall|j: int| 0 <= j < sorted.len() implies (#[trigger] decode_at(sorted, blob, j))
        is Some by {
        lemma_decode_sorted(entries, from, to, j);
    }
    assert(decodable(sorted, blob));
    let decoded = decoded_entries(sorted, blob);
    assert forall|j: int| 0 <= j < decoded.len() implies 0 <= #[trigger] from[j] < entries.len()
        && decoded[j] == entries[from[j]] && to[from[j]] == j by {
        lemma_decode_sorted(entries, from, to, j);
    }
    lemma_entries_map_permutation(entries, decoded, from, to);
    assert(spec_tags_from_raw(sorted, blob) == Some(entries_map(entries)));
}

} // verus!
