use crate::header::codec::{
    be_array, char_of_u32, decode_value, int_at, nul_terminated, value_bytes, value_count,
};
use crate::header::index::{type_of_value, RTypeView, Type};
use crate::utils::{
    be_bytes, be_value, lemma_be_bytes_len, lemma_be_value_of_bytes, lemma_nul_position_from,
    lemma_pow256_values, lossy_text, nul_position, nul_position_from, pow256, spec_parse_string,
    spec_parse_strings, split_on_nul, until_nul,
};
use vstd::prelude::*;
use vstd::utf8::{decode_utf8, encode_utf8, valid_utf8};

verus! {

/// The text holds no character U+0000: its bytes hold no zero byte.
pub open spec fn nul_free(text: Seq<char>) -> bool {
    forall|i: int| 0 <= i < encode_utf8(text).len() ==> #[trigger] encode_utf8(text)[i] != 0
}

/// A value that the data blob gives back as it was stored, given room: a
/// text without U+0000, an array of numbers with at least two elements, and
/// any value of another kind. (An array of fewer than two numbers is read
/// as a single number, and a text is read up to its first zero byte.)
pub open spec fn faithful(v: RTypeView) -> bool {
    match v {
        RTypeView::Int8Array(a) => a.len() >= 2,
        RTypeView::Int16Array(a) => a.len() >= 2,
        RTypeView::Int32Array(a) => a.len() >= 2,
        RTypeView::Int64Array(a) => a.len() >= 2,
        RTypeView::String(s) => nul_free(s),
        RTypeView::I18nstring(s) => nul_free(s),
        RTypeView::StringArray(a) => forall|i: int| 0 <= i < a.len() ==> nul_free(#[trigger] a[i]),
        _ => true,
    }
}

/// A value whose end is found by where the next value starts.
pub open spec fn is_text(v: RTypeView) -> bool {
    v is String || v is I18nstring || v is StringArray
}

/// A text value that is lost when the next value is taken to start where
/// it starts itself: a text that is not empty, and a list of texts other
/// than the empty list and the list of one empty text.
pub open spec fn needs_room(v: RTypeView) -> bool {
    match v {
        RTypeView::String(s) => s.len() > 0,
        RTypeView::I18nstring(s) => s.len() > 0,
        RTypeView::StringArray(a) => a.len() >= 1 && a != seq![Seq::<char>::empty()],
        _ => false,
    }
}

// ---------------------------------------------------------------------------
// Numbers
// ---------------------------------------------------------------------------

/// An array of numbers of `width` bytes each takes `width` bytes for each.
pub proof fn lemma_be_array_len(values: Seq<nat>, width: nat)
    ensures
        be_array(values, width).len() == values.len() * width,
    decreases values.len(),
{
    if values.len() > 0 {
        lemma_be_array_len(values.drop_last(), width);
        lemma_be_bytes_len(values.last(), width);
        let n = values.len() as int;
        assert((n - 1) * width + width == n * width) by (nonlinear_arith);
    } else {
        assert(0 * width == 0) by (nonlinear_arith);
    }
}

/// Element `i` of a written array stands at `i` times the width.
pub proof fn lemma_be_array_element(values: Seq<nat>, width: nat, i: int)
    requires
        0 <= i < values.len(),
    ensures
        i * width + width <= be_array(values, width).len(),
        be_array(values, width).subrange(i * width, i * width + width) == be_bytes(
            values[i],
            width,
        ),
    decreases values.len(),
{
    let n = values.len() as int;
    let head = values.drop_last();
    lemma_be_array_len(values, width);
    lemma_be_array_len(head, width);
    lemma_be_bytes_len(values.last(), width);
    assert((n - 1) * width + width == n * width) by (nonlinear_arith);
    if i == n - 1 {
        assert(be_array(values, width).subrange(i * width, i * width + width) =~= be_bytes(
            values[i],
            width,
        ));
    } else {
        lemma_be_array_element(head, width, i);
        assert(i * width + width <= (n - 1) * width) by (nonlinear_arith)
            requires
                i < n - 1,
                width >= 0,
        ;
        assert(be_array(values, width).subrange(i * width, i * width + width) =~= be_array(
            head,
            width,
        ).subrange(i * width, i * width + width));
    }
}

/// Element `i` of an array written at `start` reads back as it was.
proof fn lemma_int_at(data: Seq<u8>, start: int, values: Seq<nat>, width: nat, i: int)
    requires
        0 <= start,
        0 <= i < values.len(),
        start + be_array(values, width).len() <= data.len(),
        data.subrange(start, start + be_array(values, width).len()) == be_array(values, width),
        values[i] < pow256(width),
    ensures
        int_at(data, start, i, width as int) == values[i],
{
    lemma_be_array_element(values, width, i);
    let whole = be_array(values, width);
    assert(i * width >= 0) by (nonlinear_arith)
        requires
            i >= 0,
            width >= 0,
    ;
    let base = i * width;
    let source = data.subrange(start, start + whole.len());
    assert(data.subrange(start + base, start + base + width) =~= source.subrange(
        base,
        base + width,
    ));
    lemma_be_value_of_bytes(values[i], width);
}

/// One number written at `start` reads back as it was.
proof fn lemma_single_at(data: Seq<u8>, start: int, v: nat, width: nat)
    requires
        0 <= start,
        start + width <= data.len(),
        data.subrange(start, start + width) == be_bytes(v, width),
        v < pow256(width),
    ensures
        int_at(data, start, 0, width as int) == v,
{
    assert(0 * width == 0) by (nonlinear_arith);
    lemma_be_value_of_bytes(v, width);
}

// ---------------------------------------------------------------------------
// Texts
// ---------------------------------------------------------------------------

/// A text that was written reads back, leniently, as it was.
pub proof fn lemma_lossy_text_of_encoding(text: Seq<char>)
    ensures
        lossy_text(encode_utf8(text)) == text,
{
    vstd::utf8::encode_utf8_valid_utf8(text);
    vstd::utf8::encode_utf8_decode_utf8(text);
}

/// The first zero byte behind a text without zero bytes is the one that
/// ends it.
pub proof fn lemma_until_nul_of_text(bytes: Seq<u8>, rest: Seq<u8>)
    requires
        forall|i: int| 0 <= i < bytes.len() ==> bytes[i] != 0,
    ensures
        nul_position(bytes + seq![0u8] + rest) == Some(bytes.len() as int),
        until_nul(bytes + seq![0u8] + rest) == bytes,
{
    let b = bytes + seq![0u8] + rest;
    let n = bytes.len() as int;
    lemma_nul_position_from(b, 0);
    assert(b[n] == 0);
    match nul_position_from(b, 0) {
        Some(i) => {
            if i < n {
                assert(b[i] == bytes[i]);
            }
        },
        None => {},
    }
    assert(b.take(n) =~= bytes);
}

/// The written form of a list of texts, taken from the front.
pub proof fn lemma_nul_terminated_front(texts: Seq<Seq<char>>)
    requires
        texts.len() > 0,
    ensures
        nul_terminated(texts) == encode_utf8(texts[0]) + seq![0u8] + nul_terminated(texts.skip(1)),
    decreases texts.len(),
{
    if texts.len() == 1 {
        assert(texts.drop_last() =~= Seq::<Seq<char>>::empty());
        assert(texts.skip(1) =~= Seq::<Seq<char>>::empty());
        assert(nul_terminated(texts) =~= encode_utf8(texts[0]) + seq![0u8] + nul_terminated(
            texts.skip(1),
        ));
    } else {
        let head = texts.drop_last();
        lemma_nul_terminated_front(head);
        assert(head.skip(1) =~= texts.skip(1).drop_last());
        assert(texts.skip(1).last() == texts.last());
        assert(head[0] == texts[0]);
        assert(nul_terminated(texts) =~= encode_utf8(texts[0]) + seq![0u8] + nul_terminated(
            texts.skip(1),
        ));
    }
}

/// The pieces of a written list of texts are the texts, whatever follows.
pub proof fn lemma_split_written_texts(texts: Seq<Seq<char>>, rest: Seq<u8>, i: int)
    requires
        forall|j: int| 0 <= j < texts.len() ==> nul_free(#[trigger] texts[j]),
        0 <= i < texts.len(),
    ensures
        split_on_nul(nul_terminated(texts) + rest).len() > i,
        split_on_nul(nul_terminated(texts) + rest)[i] == encode_utf8(texts[i]),
    decreases texts.len(),
{
    let first = encode_utf8(texts[0]);
    let tail = texts.skip(1);
    let b = nul_terminated(texts) + rest;
    lemma_nul_terminated_front(texts);
    let after = nul_terminated(tail) + rest;
    assert(b =~= first + seq![0u8] + after);
    assert(nul_free(texts[0]));
    lemma_until_nul_of_text(first, after);
    let n = first.len() as int;
    assert(b.take(n) =~= first);
    assert(b.skip(n + 1) =~= after);
    assert(split_on_nul(b) == seq![b.take(n)] + split_on_nul(b.skip(n + 1)));
    if i > 0 {
        assert forall|j: int| 0 <= j < tail.len() implies nul_free(#[trigger] tail[j]) by {
            assert(tail[j] == texts[j + 1]);
        }
        lemma_split_written_texts(tail, rest, i - 1);
        assert(tail[i - 1] == texts[i]);
    }
}

/// A written list of texts reads back as it was, whatever follows it.
pub proof fn lemma_parse_written_texts(texts: Seq<Seq<char>>, rest: Seq<u8>)
    requires
        forall|j: int| 0 <= j < texts.len() ==> nul_free(#[trigger] texts[j]),
    ensures
        spec_parse_strings(nul_terminated(texts) + rest, texts.len()) == texts,
{
    let b = nul_terminated(texts) + rest;
    let pieces = split_on_nul(b);
    if texts.len() > 0 {
        lemma_split_written_texts(texts, rest, texts.len() - 1);
    }
    let got = spec_parse_strings(b, texts.len());
    assert(got.len() == texts.len());
    assert forall|i: int| 0 <= i < texts.len() implies got[i] == texts[i] by {
        lemma_split_written_texts(texts, rest, i);
        lemma_lossy_text_of_encoding(texts[i]);
    }
    assert(got =~= texts);
}

// ---------------------------------------------------------------------------
// Values
// ---------------------------------------------------------------------------

/// A faithful value that stands in the blob at `start` is read back as it
/// was, provided that for a text the next value starts behind its end.
pub proof fn lemma_decode_written_value(v: RTypeView, data: Seq<u8>, start: int, end: int)
    requires
        faithful(v),
        0 <= start,
        start + value_bytes(v).len() <= data.len(),
        data.subrange(start, start + value_bytes(v).len()) == value_bytes(v),
        is_text(v) ==> start + value_bytes(v).len() <= end <= data.len(),
    ensures
        decode_value(type_of_value(v), value_count(v), data, start, end) == Some(v),
{
    lemma_pow256_values();
    let size = value_bytes(v).len() as int;
    match v {
        RTypeView::Null => {},
        RTypeView::Char(c) => {
            lemma_be_bytes_len(c as nat, 4);
            lemma_single_at(data, start, c as nat, 4);
            vstd::utf8::char_is_scalar(c);
            vstd::utf8::char_u32_cast(c, c as u32);
        },
        RTypeView::Int8(n) => {
            lemma_be_bytes_len(n as nat, 1);
            lemma_single_at(data, start, n as nat, 1);
        },
        RTypeView::Int16(n) => {
            lemma_be_bytes_len(n as nat, 2);
            lemma_single_at(data, start, n as nat, 2);
        },
        RTypeView::Int32(n) => {
            lemma_be_bytes_len(n as nat, 4);
            lemma_single_at(data, start, n as nat, 4);
        },
        RTypeView::Int64(n) => {
            lemma_be_bytes_len(n as nat, 8);
            lemma_single_at(data, start, n as nat, 8);
        },
        RTypeView::Int8Array(a) => {
            let values = a.map_values(|x: u8| x as nat);
            lemma_be_array_len(values, 1);
            let got = Seq::new(a.len(), |i: int| int_at(data, start, i, 1) as u8);
            assert forall|i: int| 0 <= i < a.len() implies got[i] == a[i] by {
                lemma_int_at(data, start, values, 1, i);
            }
            assert(got =~= a);
        },
        RTypeView::Int16Array(a) => {
            let values = a.map_values(|x: u16| x as nat);
            lemma_be_array_len(values, 2);
            let got = Seq::new(a.len(), |i: int| int_at(data, start, i, 2) as u16);
            assert forall|i: int| 0 <= i < a.len() implies got[i] == a[i] by {
                lemma_int_at(data, start, values, 2, i);
            }
            assert(got =~= a);
        },
        RTypeView::Int32Array(a) => {
            let values = a.map_values(|x: u32| x as nat);
            lemma_be_array_len(values, 4);
            let got = Seq::new(a.len(), |i: int| int_at(data, start, i, 4) as u32);
            assert forall|i: int| 0 <= i < a.len() implies got[i] == a[i] by {
                lemma_int_at(data, start, values, 4, i);
            }
            assert(got =~= a);
        },
        RTypeView::Int64Array(a) => {
            let values = a.map_values(|x: u64| x as nat);
            lemma_be_array_len(values, 8);
            let got = Seq::new(a.len(), |i: int| int_at(data, start, i, 8) as u64);
            assert forall|i: int| 0 <= i < a.len() implies got[i] == a[i] by {
                lemma_int_at(data, start, values, 8, i);
            }
            assert(got =~= a);
        },
        RTypeView::String(s) => {
            lemma_written_text_at(s, data, start, end);
        },
        RTypeView::I18nstring(s) => {
            lemma_written_text_at(s, data, start, end);
        },
        RTypeView::Bin(b) => {},
        RTypeView::StringArray(a) => {
            let rest = data.subrange(start + size, end);
            assert(data.subrange(start, end) =~= nul_terminated(a) + rest);
            lemma_parse_written_texts(a, rest);
        },
    }
}

/// A text without U+0000 that stands in the blob at `start` is read back
/// as it was, provided the next value starts behind its end.
proof fn lemma_written_text_at(s: Seq<char>, data: Seq<u8>, start: int, end: int)
    requires
        nul_free(s),
        0 <= start,
        start + encode_utf8(s).len() + 1 <= end <= data.len(),
        data.subrange(start, start + encode_utf8(s).len() + 1) == encode_utf8(s) + seq![0u8],
    ensures
        spec_parse_string(data.subrange(start, end)) == s,
{
    let bytes = encode_utf8(s);
    let rest = data.subrange(start + bytes.len() + 1, end);
    let source = data.subrange(start, start + bytes.len() + 1);
    assert(data.subrange(start, end) =~= source + rest);
    lemma_until_nul_of_text(bytes, rest);
    lemma_lossy_text_of_encoding(s);
}

/// A text value that needs no room is read back as it was even where the
/// next value is taken to start at its own offset.
pub proof fn lemma_decode_without_room(v: RTypeView, data: Seq<u8>, start: int)
    requires
        is_text(v),
        !needs_room(v),
        0 <= start <= data.len(),
    ensures
        decode_value(type_of_value(v), value_count(v), data, start, start) == Some(v),
{
    let empty = data.subrange(start, start);
    assert(empty =~= Seq::<u8>::empty());
    lemma_nul_position_from(empty, 0);
    assert(until_nul(empty) =~= Seq::<u8>::empty());
    assert(valid_utf8(Seq::<u8>::empty()));
    assert(decode_utf8(Seq::<u8>::empty()) =~= Seq::<char>::empty());
    assert(lossy_text(Seq::<u8>::empty()) =~= Seq::<char>::empty());
    match v {
        RTypeView::String(s) => {
            assert(s =~= Seq::<char>::empty());
        },
        RTypeView::I18nstring(s) => {
            assert(s =~= Seq::<char>::empty());
        },
        RTypeView::StringArray(a) => {
            assert(split_on_nul(empty) == seq![empty]);
            let got = spec_parse_strings(empty, a.len());
            if a.len() == 0 {
                assert(got =~= a);
            } else {
                assert(a == seq![Seq::<char>::empty()]);
                assert(got =~= a);
            }
        },
        _ => {},
    }
}

} // verus!
