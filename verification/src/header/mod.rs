pub mod access;
pub mod codec;
pub mod conversions;
pub mod faithful;
pub mod index;
pub mod lead;
pub mod order;
pub mod roundtrip;
pub mod sigtags;
pub mod tags;

pub use index::{Index, IndexArray, IndexWriter, RType, RTypeView, Type};
pub use lead::{HeaderLead, MAGIC_HEADER};
pub use sigtags::SigTag;
pub use tags::{SignatureTag, Tag, TagNamespace};

use crate::error::{Error, ErrorKind};
use crate::reader::ByteReader;
use crate::utils::{align_pad, spec_align_n_bytes, zero_bytes};
use codec::{count_of, decode_value, read_value, value_bytes, value_count, write_value};
use index::{clone_strings, parse_index_table, sorted_by_offset, type_of_value};
use lead::{header_lead_bytes, parse_header_lead};
use vstd::prelude::*;
use vstd::std_specs::convert::FromSpec;

verus! {

/// The map that a list of tagged values denotes: of two values under one
/// tag, the later one stands.
pub open spec fn entries_map<T>(entries: Seq<(T, RTypeView)>) -> Map<T, RTypeView>
    decreases entries.len(),
{
    if entries.len() == 0 {
        Map::empty()
    } else {
        entries_map(entries.drop_last()).insert(entries.last().0, entries.last().1)
    }
}

/// No tag occurs twice.
pub open spec fn distinct_tags<T>(entries: Seq<(T, RTypeView)>) -> bool {
    forall|i: int, j: int| 0 <= i < j < entries.len() ==> entries[i].0 != entries[j].0
}

/// The tags of the map are the tags of the list.
pub proof fn lemma_entries_map_domain<T>(entries: Seq<(T, RTypeView)>, tag: T)
    ensures
        entries_map(entries).contains_key(tag) <==> exists|i: int|
            0 <= i < entries.len() && (#[trigger] entries[i]).0 == tag,
    decreases entries.len(),
{
    if entries.len() > 0 {
        let head = entries.drop_last();
        lemma_entries_map_domain(head, tag);
        if entries_map(entries).contains_key(tag) {
            if entries.last().0 == tag {
                assert(entries[entries.len() - 1].0 == tag);
            } else {
                let i = choose|i: int| 0 <= i < head.len() && (#[trigger] head[i]).0 == tag;
                assert(entries[i].0 == tag);
            }
        }
        if exists|i: int| 0 <= i < entries.len() && (#[trigger] entries[i]).0 == tag {
            let i = choose|i: int| 0 <= i < entries.len() && (#[trigger] entries[i]).0 == tag;
            if i < entries.len() - 1 {
                assert(head[i].0 == tag);
            }
        }
    }
}

/// Where no tag occurs twice, the map holds each value under its tag.
pub proof fn lemma_entries_map_lookup<T>(entries: Seq<(T, RTypeView)>, i: int)
    requires
        distinct_tags(entries),
        0 <= i < entries.len(),
    ensures
        entries_map(entries).contains_key(entries[i].0),
        entries_map(entries)[entries[i].0] == entries[i].1,
    decreases entries.len(),
{
    let head = entries.drop_last();
    if i < entries.len() - 1 {
        assert(distinct_tags(head)) by {
            assert forall|a: int, b: int| 0 <= a < b < head.len() implies head[a].0 != head[b].0 by {
                assert(entries[a].0 != entries[b].0);
            }
        }
        lemma_entries_map_lookup(head, i);
        assert(entries[i].0 != entries[entries.len() - 1].0);
    }
}

/// Replacing the value of an entry replaces the value in the map.
pub proof fn lemma_entries_map_update<T>(entries: Seq<(T, RTypeView)>, k: int, value: RTypeView)
    requires
        distinct_tags(entries),
        0 <= k < entries.len(),
    ensures
        entries_map(entries.update(k, (entries[k].0, value))) == entries_map(entries).insert(
            entries[k].0,
            value,
        ),
    decreases entries.len(),
{
    let tag = entries[k].0;
    let updated = entries.update(k, (tag, value));
    let head = entries.drop_last();
    if k == entries.len() - 1 {
        assert(updated.drop_last() =~= head);
        assert(entries_map(updated) =~= entries_map(entries).insert(tag, value));
    } else {
        assert(distinct_tags(head)) by {
            assert forall|a: int, b: int| 0 <= a < b < head.len() implies head[a].0 != head[b].0 by {
                assert(entries[a].0 != entries[b].0);
            }
        }
        lemma_entries_map_update(head, k, value);
        assert(updated.drop_last() =~= head.update(k, (tag, value)));
        assert(updated.last() == entries.last());
        assert(entries[k].0 != entries[entries.len() - 1].0);
        assert(entries_map(updated) =~= entries_map(entries).insert(tag, value));
    }
}

/// Where `key` stands in the list, if it does.
pub open spec fn tag_position<T>(entries: Seq<(T, RTypeView)>, key: T) -> Option<int> {
    if exists|i: int| 0 <= i < entries.len() && (#[trigger] entries[i]).0 == key {
        Some(choose|i: int| 0 <= i < entries.len() && (#[trigger] entries[i]).0 == key)
    } else {
        None
    }
}

/// The list with `value` under `key`: in the place of the value that stood
/// under the key, or at the end where the key is new.
pub open spec fn entries_with<T>(entries: Seq<(T, RTypeView)>, key: T, value: RTypeView) -> Seq<
    (T, RTypeView),
> {
    match tag_position(entries, key) {
        Some(i) => entries.update(i, (key, value)),
        None => entries.push((key, value)),
    }
}

/// A copy of a stored value.
pub fn clone_value(value: &RType) -> (copy: RType)
    ensures
        copy@ == value@,
{
    match value {
        RType::Null => RType::Null,
        RType::Char(c) => RType::Char(*c),
        RType::Int8(n) => RType::Int8(*n),
        RType::Int8Array(a) => RType::Int8Array(a.clone()),
        RType::Int16(n) => RType::Int16(*n),
        RType::Int16Array(a) => RType::Int16Array(a.clone()),
        RType::Int32(n) => RType::Int32(*n),
        RType::Int32Array(a) => RType::Int32Array(a.clone()),
        RType::Int64(n) => RType::Int64(*n),
        RType::Int64Array(a) => RType::Int64Array(a.clone()),
        RType::String(s) => RType::String(s.clone()),
        RType::Bin(b) => RType::Bin(b.clone()),
        RType::StringArray(a) => RType::StringArray(clone_strings(a)),
        RType::I18nstring(s) => RType::I18nstring(s.clone()),
    }
}

/// A tag store: a map from the tags of one namespace to typed values. The
/// values are kept in the order in which their tags came in, and no tag
/// stands twice, so that the bytes of a written store are a function of the
/// store.
#[derive(Debug)]
pub struct Tags<T> {
    keys: Vec<T>,
    values: Vec<RType>,
}

impl<T: TagNamespace> View for Tags<T> {
    type V = Map<T, RTypeView>;

    open spec fn view(&self) -> Map<T, RTypeView> {
        entries_map(self.entries())
    }
}

impl<T> Tags<T> {
    #[verifier::type_invariant]
    spec fn inv(self) -> bool {
        &&& self.keys@.len() == self.values@.len()
        &&& forall|i: int, j: int|
            0 <= i < j < self.keys@.len() ==> self.keys@[i] != self.keys@[j]
    }
}

impl<T: TagNamespace> Tags<T> {
    /// The tagged values in the order in which they are written out.
    pub closed spec fn entries(&self) -> Seq<(T, RTypeView)> {
        Seq::new(self.keys@.len(), |i: int| (self.keys@[i], self.values@[i]@))
    }

    pub fn new() -> (tags: Self)
        ensures
            tags.entries() == Seq::<(T, RTypeView)>::empty(),
            tags@ == Map::<T, RTypeView>::empty(),
    {
        let tags = Tags { keys: Vec::new(), values: Vec::new() };
        assert(tags.entries() =~= Seq::<(T, RTypeView)>::empty());
        tags
    }

    /// How many tags the store holds.
    pub fn len(&self) -> (n: usize)
        ensures
            n == self.entries().len(),
            distinct_tags(self.entries()),
    {
        proof {
            use_type_invariant(self);
        }
        self.keys.len()
    }

    /// Where `name` stands among the entries, if it does.
    fn position(&self, name: T) -> (found: Option<usize>)
        ensures
            distinct_tags(self.entries()),
            self.keys@.len() == self.values@.len(),
            match found {
                Some(k) => k < self.entries().len() && self.entries()[k as int].0 == name
                    && self@.contains_key(name) && self@[name] == self.values@[k as int]@,
                None => !self@.contains_key(name) && forall|j: int|
                    0 <= j < self.keys@.len() ==> self.keys@[j] != name,
            },
    {
        proof {
            use_type_invariant(self);
        }
        let mut i: usize = 0;
        while i < self.keys.len()
            invariant
                i <= self.keys@.len(),
                self.keys@.len() == self.values@.len(),
                distinct_tags(self.entries()),
                forall|j: int| 0 <= j < i ==> self.keys@[j] != name,
            decreases self.keys@.len() - i,
        {
            if self.keys[i].same(&name) {
                proof {
                    lemma_entries_map_lookup(self.entries(), i as int);
                }
                return Some(i);
            }
            i = i + 1;
        }
        proof {
            lemma_entries_map_domain(self.entries(), name);
        }
        None
    }

    /// The value under `name`, if there is one.
    pub fn get_value(&self, name: T) -> (value: Option<RType>)
        ensures
            match value {
                Some(v) => self@.contains_key(name) && v@ == self@[name],
                None => !self@.contains_key(name),
            },
    {
        match self.position(name) {
            Some(k) => Some(clone_value(&self.values[k])),
            None => None,
        }
    }

    /// The value under `name`, converted as `O` converts a stored value, or
    /// the default of `O` where the store holds nothing under `name`.
    pub fn get<O>(&self, name: T) -> (ret: O) where O: Default + From<RType>
        ensures
            self@.contains_key(name) && O::obeys_from_spec() ==> exists|v: RType|
                v@ == self@[name] && ret == O::from_spec(v),
    {
        match self.get_value(name) {
            Some(value) => O::from(value),
            None => O::default(),
        }
    }

    /// Puts `value` under `key`: in the place of the value that stood
    /// there, or behind all others where the key is new.
    pub fn insert(&mut self, key: T, value: RType) -> (ret: &mut Self)
        ensures
            ret@ == old(self)@.insert(key, value@),
            ret.entries() == entries_with(old(self).entries(), key, value@),
            *final(self) == *final(ret),
    {
        let found = self.position(key);
        let ghost before = self.entries();
        proof {
            match found {
                Some(k) => {
                    assert(before[k as int].0 == key);
                    let i = tag_position(before, key)->0;
                    if i < k {
                        assert(before[i].0 != before[k as int].0);
                    } else if k < i {
                        assert(before[k as int].0 != before[i].0);
                    }
                },
                None => {
                    assert forall|i: int| 0 <= i < before.len() implies (#[trigger] before[i]).0
                        != key by {
                        assert(before[i].0 == self.keys@[i]);
                    }
                },
            }
        }
        let mut taken = Tags { keys: Vec::new(), values: Vec::new() };
        core::mem::swap(self, &mut taken);
        proof {
            use_type_invariant(&taken);
        }
        let Tags { keys, values } = taken;
        let mut keys = keys;
        let mut values = values;
        match found {
            Some(k) => {
                proof {
                    lemma_entries_map_update(before, k as int, value@);
                }
                values.set(k, value);
            },
            None => {
                keys.push(key);
                values.push(value);
            },
        }
        *self = Tags { keys, values };
        proof {
            match found {
                Some(k) => {
                    assert(self.entries() =~= before.update(k as int, (key, value@)));
                },
                None => {
                    assert(self.entries() =~= before.push((key, value@)));
                    assert(self.entries().drop_last() =~= before);
                },
            }
        }
        self
    }
}

// ---------------------------------------------------------------------------
// The store on the wire
// ---------------------------------------------------------------------------

/// The data blob of a store: the bytes of its values, in order.
pub open spec fn data_blob<T>(entries: Seq<(T, RTypeView)>) -> Seq<u8>
    decreases entries.len(),
{
    if entries.len() == 0 {
        Seq::empty()
    } else {
        data_blob(entries.drop_last()) + value_bytes(entries.last().1)
    }
}

/// Where the value of entry `i` starts in the data blob. A `Null` value takes
/// no room and is recorded at offset zero.
pub open spec fn entry_offset<T>(entries: Seq<(T, RTypeView)>, i: int) -> nat {
    if entries[i].1 is Null {
        0
    } else {
        data_blob(entries.take(i)).len()
    }
}

/// The index entry of entry `i`.
pub open spec fn index_of_entry<T>(entries: Seq<(T, RTypeView)>, i: int) -> Index<T> {
    Index {
        tag: entries[i].0,
        itype: type_of_value(entries[i].1),
        offset: entry_offset(entries, i) as usize,
        count: value_count(entries[i].1) as usize,
    }
}

/// The index entries of the first `n` entries, in order.
pub open spec fn index_entries<T>(entries: Seq<(T, RTypeView)>, n: nat) -> Seq<Index<T>> {
    Seq::new(n, |i: int| index_of_entry(entries, i))
}

/// The bytes of the index entries of the first `n` entries.
pub open spec fn index_table<T: TagNamespace>(entries: Seq<(T, RTypeView)>, n: nat) -> Seq<u8>
    decreases n,
{
    if n == 0 {
        Seq::empty()
    } else {
        index_table(entries, (n - 1) as nat) + index_of_entry(entries, n - 1).encoding()
    }
}

/// The store can be written: no tag is the sentinel, and the number of
/// entries, the size of the data blob and every element count fit 32 bits.
pub open spec fn store_writable<T: TagNamespace>(entries: Seq<(T, RTypeView)>) -> bool {
    &&& entries.len() <= u32::MAX
    &&& data_blob(entries).len() <= u32::MAX
    &&& forall|i: int|
        0 <= i < entries.len() ==> (#[trigger] entries[i]).0.spec_to_u32() is Some && value_count(
            entries[i].1,
        ) <= u32::MAX
}

/// The bytes of a store: header lead, index table, data blob, and zero bytes
/// up to the next multiple of eight.
pub open spec fn store_bytes<T: TagNamespace>(entries: Seq<(T, RTypeView)>) -> Seq<u8> {
    let hsize = data_blob(entries).len();
    header_lead_bytes(seq![0u8, 0u8, 0u8, 0u8], entries.len() as u32, hsize as u32) + index_table(
        entries,
        entries.len(),
    ) + data_blob(entries) + zero_bytes(spec_align_n_bytes(hsize as int, 8))
}

/// The blob of the first entries is the front of the blob of all of them.
pub proof fn lemma_data_blob_prefix<T>(entries: Seq<(T, RTypeView)>, i: int)
    requires
        0 <= i <= entries.len(),
    ensures
        data_blob(entries.take(i)).len() <= data_blob(entries).len(),
        data_blob(entries.take(i)) == data_blob(entries).take(data_blob(entries.take(i)).len() as int),
    decreases entries.len() - i,
{
    if i == entries.len() {
        assert(entries.take(i) =~= entries);
        assert(data_blob(entries).take(data_blob(entries).len() as int) =~= data_blob(entries));
    } else {
        lemma_data_blob_prefix(entries, i + 1);
        let next = entries.take(i + 1);
        assert(next.drop_last() =~= entries.take(i));
        assert(data_blob(next) == data_blob(entries.take(i)) + value_bytes(next.last().1));
        assert(data_blob(entries.take(i)) =~= data_blob(entries).take(
            data_blob(entries.take(i)).len() as int,
        ));
    }
}

/// The index table of a writable store takes sixteen bytes for each entry.
pub proof fn lemma_index_table_len<T: TagNamespace>(entries: Seq<(T, RTypeView)>, n: nat)
    requires
        n <= entries.len(),
        store_writable(entries),
    ensures
        index_table(entries, n).len() == 16 * n,
    decreases n,
{
    if n > 0 {
        lemma_index_table_len(entries, (n - 1) as nat);
        lemma_index_of_entry_writable(entries, n - 1);
        Index::<T>::lemma_round_trip(index_of_entry(entries, n - 1), Seq::empty());
    }
}

/// In a writable store every index entry is writable, and holds the true
/// offset and count.
pub proof fn lemma_index_of_entry_writable<T: TagNamespace>(entries: Seq<(T, RTypeView)>, i: int)
    requires
        0 <= i < entries.len(),
        store_writable(entries),
    ensures
        index_of_entry(entries, i).writable(),
        index_of_entry(entries, i).offset == entry_offset(entries, i),
        index_of_entry(entries, i).count == value_count(entries[i].1),
{
    lemma_data_blob_prefix(entries, i);
    assert(entries[i].0.spec_to_u32() is Some);
}

/// The length of a written store is a multiple of eight.
pub proof fn lemma_store_bytes_aligned<T: TagNamespace>(entries: Seq<(T, RTypeView)>)
    requires
        store_writable(entries),
    ensures
        store_bytes(entries).len() % 8 == 0,
        store_bytes(entries).len() == 16 + 16 * entries.len() + data_blob(entries).len()
            + spec_align_n_bytes(data_blob(entries).len() as int, 8),
{
    let hsize = data_blob(entries).len() as int;
    lemma_index_table_len(entries, entries.len());
    crate::utils::lemma_align_reaches_boundary(hsize, 8);
    crate::header::lead::lemma_header_lead_round_trip(
        seq![0u8, 0u8, 0u8, 0u8],
        entries.len() as u32,
        hsize as u32,
        Seq::empty(),
    );
}

/// A sink that takes whole tag stores.
pub trait TagsWrite {
    fn write_header<T: TagNamespace>(&mut self, tags: &Tags<T>) -> Result<(), Error>;
}

impl TagsWrite for Vec<u8> {
    /// Appends the store: header lead, index table, data blob and padding to
    /// a multiple of eight bytes. A store that cannot be written is
    /// `InvalidInput`, and then nothing is appended.
    fn write_header<T: TagNamespace>(&mut self, tags: &Tags<T>) -> (r: Result<(), Error>)
        ensures
            match r {
                Ok(_) => {
                    &&& store_writable(tags.entries())
                    &&& final(self)@ == old(self)@ + store_bytes(tags.entries())
                    &&& store_bytes(tags.entries()).len() % 8 == 0
                },
                Err(e) => {
                    &&& !store_writable(tags.entries())
                    &&& e.kind == ErrorKind::InvalidInput
                    &&& final(self)@ == old(self)@
                },
            },
    {
        proof {
            use_type_invariant(tags);
        }
        let ghost entries = tags.entries();
        let mut address: Vec<u8> = Vec::new();
        let mut data: Vec<u8> = Vec::new();
        let n = tags.keys.len();
        let mut i: usize = 0;
        proof {
            assert(data@ =~= data_blob(entries.take(0)));
        }
        while i < n
            invariant
                i <= n,
                n == entries.len(),
                entries == tags.entries(),
                tags.keys@.len() == tags.values@.len(),
                address@ == index_table(entries, i as nat),
                data@ == data_blob(entries.take(i as int)),
                forall|j: int|
                    0 <= j < i ==> (#[trigger] entries[j]).0.spec_to_u32() is Some && value_count(
                        entries[j].1,
                    ) <= u32::MAX,
                forall|j: int|
                    0 <= j < i ==> (#[trigger] index_of_entry(entries, j)).offset == entry_offset(
                        entries,
                        j,
                    ) && index_of_entry(entries, j).count == value_count(entries[j].1),
            decreases n - i,
        {
            let value = &tags.values[i];
            let current = data.len();
            let offset = match value {
                RType::Null => 0,
                _ => current,
            };
            let count = count_of(value);
            let index = Index::from(&tags.keys[i], value, offset, count);
            proof {
                lemma_data_blob_prefix(entries, i as int);
                assert(entries[i as int] == (tags.keys@[i as int], tags.values@[i as int]@));
                assert(index == index_of_entry(entries, i as int));
            }
            match address.write_index(index) {
                Ok(_) => {},
                Err(e) => {
                    proof {
                        if entries[i as int].0.spec_to_u32() is Some && value_count(
                            entries[i as int].1,
                        ) <= u32::MAX {
                            assert(data_blob(entries).len() > u32::MAX);
                        }
                    }
                    return Err(e);
                },
            }
            write_value(&mut data, value);
            proof {
                assert(entries.take(i + 1).drop_last() =~= entries.take(i as int));
                assert(entries.take(i + 1).last() == entries[i as int]);
            }
            i = i + 1;
        }
        proof {
            assert(entries.take(n as int) =~= entries);
        }
        if n > u32::MAX as usize || data.len() > u32::MAX as usize {
            return Err(Error::new(ErrorKind::InvalidInput, "Error: header is too large"));
        }
        let size = data.len() as u32;
        let lead = HeaderLead::from(n, size);
        match lead.write(self) {
            Ok(_) => {},
            Err(e) => {
                return Err(e);
            },
        }
        self.extend_from_slice(address.as_slice());
        self.extend_from_slice(data.as_slice());
        // The store ends on a multiple of eight bytes.
        align_pad(self, size, 8);
        proof {
            assert(self@ =~= old(self)@ + store_bytes(entries));
            lemma_store_bytes_aligned(entries);
        }
        Ok(())
    }
}

// ---------------------------------------------------------------------------
// Reading a store
// ---------------------------------------------------------------------------

/// The offset at which the value after entry `i` starts: the offset of the
/// next entry, or the size of the blob for the last one.
pub open spec fn terminator<T>(indexes: Seq<Index<T>>, i: int, size: int) -> int {
    if i + 1 < indexes.len() {
        indexes[i + 1].offset as int
    } else {
        size
    }
}

/// The value that entry `i` of the table points at in the blob.
pub open spec fn decode_at<T>(indexes: Seq<Index<T>>, data: Seq<u8>, i: int) -> Option<RTypeView> {
    decode_value(
        indexes[i].itype,
        indexes[i].count as nat,
        data,
        indexes[i].offset as int,
        terminator(indexes, i, data.len() as int),
    )
}

/// Every entry of the table points at a value within the blob.
pub open spec fn decodable<T>(indexes: Seq<Index<T>>, data: Seq<u8>) -> bool {
    forall|i: int| 0 <= i < indexes.len() ==> (#[trigger] decode_at(indexes, data, i)) is Some
}

/// The tagged values that the table and the blob hold, in table order.
pub open spec fn decoded_entries<T>(indexes: Seq<Index<T>>, data: Seq<u8>) -> Seq<(T, RTypeView)> {
    Seq::new(indexes.len(), |i: int| (indexes[i].tag, decode_at(indexes, data, i)->0))
}

/// The store that the table and the blob hold; nothing where an entry
/// points beyond the blob.
pub open spec fn spec_tags_from_raw<T>(indexes: Seq<Index<T>>, data: Seq<u8>) -> Option<
    Map<T, RTypeView>,
> {
    if decodable(indexes, data) {
        Some(entries_map(decoded_entries(indexes, data)))
    } else {
        None
    }
}

/// What reading a whole store from the front of `s` gives: the store and
/// the number of bytes it took, up to the end of the data blob.
pub open spec fn parse_store<T: TagNamespace>(s: Seq<u8>) -> Result<(Map<T, RTypeView>, int), ErrorKind> {
    match parse_header_lead(s) {
        Err(e) => Err(e),
        Ok((_, nindex, hsize)) => match parse_index_table::<T>(s.skip(16), nindex as nat) {
            None => Err(ErrorKind::Io),
            Some(table) => {
                let start = 16 + 16 * nindex;
                if s.len() < start + hsize {
                    Err(ErrorKind::Io)
                } else {
                    match spec_tags_from_raw(
                        sorted_by_offset(table),
                        s.subrange(start, start + hsize),
                    ) {
                        None => Err(ErrorKind::InvalidData),
                        Some(map) => Ok((map, start + hsize)),
                    }
                }
            },
        },
    }
}

impl<T: TagNamespace> Tags<T> {
    /// Decodes the values that the index entries point at in `data`. A text
    /// ends where the next entry starts, so `indexes` is taken in the order
    /// of its offsets. Of two entries with one tag, the later stands.
    pub fn tags_from_raw(indexes: &[Index<T>], data: &[u8]) -> (r: Result<Self, Error>)
        ensures
            match r {
                Ok(tags) => spec_tags_from_raw(indexes@, data@) == Some(tags@),
                Err(e) => spec_tags_from_raw(indexes@, data@) is None && e.kind
                    == ErrorKind::InvalidData,
            },
    {
        let mut tags: Tags<T> = Tags::new();
        let n = indexes.len();
        let size = data.len();
        let ghost entries = decoded_entries(indexes@, data@);
        let mut i: usize = 0;
        proof {
            assert(entries.take(0) =~= Seq::<(T, RTypeView)>::empty());
        }
        while i < n
            invariant
                i <= n,
                n == indexes@.len(),
                size == data@.len(),
                entries == decoded_entries(indexes@, data@),
                forall|j: int| 0 <= j < i ==> (#[trigger] decode_at(indexes@, data@, j)) is Some,
                tags@ == entries_map(entries.take(i as int)),
            decreases n - i,
        {
            let item = &indexes[i];
            let end = if i + 1 < n {
                indexes[i + 1].offset
            } else {
                size
            };
            match read_value(item.itype, item.count, data, item.offset, end) {
                Some(value) => {
                    proof {
                        assert(decode_at(indexes@, data@, i as int) == Some(value@));
                        assert(entries.take(i + 1).drop_last() =~= entries.take(i as int));
                        assert(entries.take(i + 1).last() == (item.tag, value@));
                    }
                    tags.insert(item.tag, value);
                },
                None => {
                    proof {
                        assert(decode_at(indexes@, data@, i as int) is None);
                    }
                    return Err(
                        Error::new(ErrorKind::InvalidData, "Error: tag value is out of the header"),
                    );
                },
            }
            i = i + 1;
        }
        proof {
            assert(entries.take(n as int) =~= entries);
        }
        Ok(tags)
    }

    /// Reads a data blob of `size` bytes and decodes the values that
    /// `indexes` points at in it. A source with fewer bytes is `Io`.
    pub fn read(fh: &mut ByteReader, indexes: &[Index<T>], size: usize) -> (r: Result<Self, Error>)
        ensures
            match r {
                Ok(tags) => {
                    &&& size <= old(fh).remaining().len()
                    &&& spec_tags_from_raw(indexes@, old(fh).remaining().take(size as int)) == Some(
                        tags@,
                    )
                    &&& final(fh).advanced(old(fh), size as int)
                },
                Err(e) => {
                    &&& final(fh).buffer() == old(fh).buffer()
                    &&& if size > old(fh).remaining().len() {
                        e.kind == ErrorKind::Io
                    } else {
                        e.kind == ErrorKind::InvalidData && spec_tags_from_raw(
                            indexes@,
                            old(fh).remaining().take(size as int),
                        ) is None
                    }
                },
            },
    {
        let s_data = fh.read_exact(size)?;
        Self::tags_from_raw(indexes, s_data)
    }

    /// Reads a whole store: header lead, index table and data blob.
    pub fn read_store(fh: &mut ByteReader) -> (r: Result<Self, Error>)
        ensures
            match r {
                Ok(tags) => {
                    &&& parse_store::<T>(old(fh).remaining()) matches Ok((map, taken))
                    &&& map == tags@
                    &&& final(fh).advanced(old(fh), taken)
                },
                Err(e) => {
                    &&& parse_store::<T>(old(fh).remaining()) == Err::<
                        (Map<T, RTypeView>, int),
                        ErrorKind,
                    >(e.kind)
                    &&& final(fh).buffer() == old(fh).buffer()
                },
            },
    {
        match Self::read_store_sized(fh) {
            Ok((tags, _)) => Ok(tags),
            Err(e) => Err(e),
        }
    }

    /// Reads a whole store and hands out, with it, the size of its data
    /// blob as the header lead gives it.
    pub fn read_store_sized(fh: &mut ByteReader) -> (r: Result<(Self, u32), Error>)
        ensures
            match r {
                Ok((tags, hsize)) => {
                    &&& parse_store::<T>(old(fh).remaining()) matches Ok((map, taken))
                    &&& map == tags@
                    &&& final(fh).advanced(old(fh), taken)
                    &&& parse_header_lead(old(fh).remaining()) matches Ok((_, _, size))
                    &&& size == hsize
                },
                Err(e) => {
                    &&& parse_store::<T>(old(fh).remaining()) == Err::<
                        (Map<T, RTypeView>, int),
                        ErrorKind,
                    >(e.kind)
                    &&& final(fh).buffer() == old(fh).buffer()
                },
            },
    {
        let ghost s = fh.remaining();
        let lead = HeaderLead::read(fh)?;
        let indexes: Vec<Index<T>> = IndexArray::read(fh, lead.nindex)?;
        let ghost start = 16 + 16 * lead.nindex;
        proof {
            assert(fh.remaining() =~= s.skip(start));
            if start + lead.hsize <= s.len() {
                assert(s.skip(start).take(lead.hsize as int) =~= s.subrange(
                    start,
                    start + lead.hsize,
                ));
            }
        }
        match Self::read(fh, indexes.as_slice(), lead.hsize as usize) {
            Ok(tags) => {
                proof {
                    assert(fh.remaining() =~= s.skip(start + lead.hsize));
                }
                Ok((tags, lead.hsize))
            },
            Err(e) => Err(e),
        }
    }
}

} // verus!
