use crate::header::index::{RType, RTypeView, Type};
use crate::utils::{
    be_bytes, be_value, parse_string, parse_strings, read_be_u16, read_be_u32, read_be_u64,
    read_be_u8, spec_parse_string, spec_parse_strings, write_be_u16, write_be_u32, write_be_u64,
    write_be_u8,
};
use vstd::prelude::*;
use vstd::utf8::{encode_utf8, is_scalar};

verus! {

// ---------------------------------------------------------------------------
// What a value looks like in the data blob
// ---------------------------------------------------------------------------

/// The numbers one after another, each in `width` bytes, most significant
/// byte first.
pub open spec fn be_array(values: Seq<nat>, width: nat) -> Seq<u8>
    decreases values.len(),
{
    if values.len() == 0 {
        Seq::empty()
    } else {
        be_array(values.drop_last(), width) + be_bytes(values.last(), width)
    }
}

/// The texts one after another, each followed by a zero byte.
pub open spec fn nul_terminated(texts: Seq<Seq<char>>) -> Seq<u8>
    decreases texts.len(),
{
    if texts.len() == 0 {
        Seq::empty()
    } else {
        nul_terminated(texts.drop_last()) + encode_utf8(texts.last()) + seq![0u8]
    }
}

/// The bytes that a value occupies in the data blob.
pub open spec fn value_bytes(v: RTypeView) -> Seq<u8> {
    match v {
        RTypeView::Null => Seq::empty(),
        RTypeView::Char(c) => be_bytes(c as nat, 4),
        RTypeView::Int8(n) => be_bytes(n as nat, 1),
        RTypeView::Int8Array(a) => be_array(a.map_values(|x: u8| x as nat), 1),
        RTypeView::Int16(n) => be_bytes(n as nat, 2),
        RTypeView::Int16Array(a) => be_array(a.map_values(|x: u16| x as nat), 2),
        RTypeView::Int32(n) => be_bytes(n as nat, 4),
        RTypeView::Int32Array(a) => be_array(a.map_values(|x: u32| x as nat), 4),
        RTypeView::Int64(n) => be_bytes(n as nat, 8),
        RTypeView::Int64Array(a) => be_array(a.map_values(|x: u64| x as nat), 8),
        RTypeView::String(s) => encode_utf8(s) + seq![0u8],
        RTypeView::Bin(b) => b,
        RTypeView::StringArray(a) => nul_terminated(a),
        RTypeView::I18nstring(s) => encode_utf8(s) + seq![0u8],
    }
}

/// The element count that the index entry of a value carries: the length of
/// an array, of a list of texts and of a byte string, and one for any other.
pub open spec fn value_count(v: RTypeView) -> nat {
    match v {
        RTypeView::Int8Array(a) => a.len(),
        RTypeView::Int16Array(a) => a.len(),
        RTypeView::Int32Array(a) => a.len(),
        RTypeView::Int64Array(a) => a.len(),
        RTypeView::Bin(b) => b.len(),
        RTypeView::StringArray(a) => a.len(),
        _ => 1,
    }
}

/// The element count of `value`.
pub fn count_of(value: &RType) -> (n: usize)
    ensures
        n == value_count(value@),
{
    match value {
        RType::Int8Array(a) => a.len(),
        RType::Int16Array(a) => a.len(),
        RType::Int32Array(a) => a.len(),
        RType::Int64Array(a) => a.len(),
        RType::Bin(b) => b.len(),
        RType::StringArray(a) => {
            assert(a.deep_view().len() == a@.len());
            a.len()
        },
        _ => 1,
    }
}

/// Appends a text and the zero byte that ends it.
fn write_text(data: &mut Vec<u8>, text: &String)
    ensures
        final(data)@ == old(data)@ + encode_utf8(text@) + seq![0u8],
{
    let bytes = text.as_str().as_bytes();
    data.extend_from_slice(bytes);
    data.push(0);
    assert(data@ =~= old(data)@ + encode_utf8(text@) + seq![0u8]);
}

/// Appends the bytes of `value` as the data blob holds them.
pub fn write_value(data: &mut Vec<u8>, value: &RType)
    ensures
        final(data)@ == old(data)@ + value_bytes(value@),
{
    match value {
        RType::Null => {
            assert(data@ =~= old(data)@ + value_bytes(value@));
        },
        RType::Char(c) => {
            write_be_u32(data, *c as u32);
        },
        RType::Int8(i) => {
            write_be_u8(data, *i);
        },
        RType::Int16(i) => {
            write_be_u16(data, *i);
        },
        RType::Int32(i) => {
            write_be_u32(data, *i);
        },
        RType::Int64(i) => {
            write_be_u64(data, *i);
        },
        RType::String(s) => {
            write_text(data, s);
        },
        RType::I18nstring(s) => {
            write_text(data, s);
        },
        RType::Bin(b) => {
            data.extend_from_slice(b.as_slice());
        },
        RType::StringArray(vector) => {
            let ghost texts = vector.deep_view();
            let mut i: usize = 0;
            assert(data@ =~= old(data)@ + nul_terminated(texts.take(0)));
            while i < vector.len()
                invariant
                    i <= vector.len(),
                    texts == vector.deep_view(),
                    data@ == old(data)@ + nul_terminated(texts.take(i as int)),
                decreases vector.len() - i,
            {
                proof {
                    assert(texts.take(i + 1).drop_last() =~= texts.take(i as int));
                    assert(texts.take(i + 1).last() == vector[i as int]@);
                }
                write_text(data, &vector[i]);
                i = i + 1;
                assert(data@ =~= old(data)@ + nul_terminated(texts.take(i as int)));
            }
            assert(texts.take(vector.len() as int) =~= texts);
        },
        RType::Int8Array(vector) => {
            let ghost values = vector@.map_values(|x: u8| x as nat);
            let mut i: usize = 0;
            assert(data@ =~= old(data)@ + be_array(values.take(0), 1));
            while i < vector.len()
                invariant
                    i <= vector.len(),
                    values == vector@.map_values(|x: u8| x as nat),
                    data@ == old(data)@ + be_array(values.take(i as int), 1),
                decreases vector.len() - i,
            {
                proof {
                    assert(values.take(i + 1).drop_last() =~= values.take(i as int));
                    assert(values.take(i + 1).last() == vector[i as int] as nat);
                }
                write_be_u8(data, vector[i]);
                i = i + 1;
                assert(data@ =~= old(data)@ + be_array(values.take(i as int), 1));
            }
            assert(values.take(vector.len() as int) =~= values);
        },
        RType::Int16Array(vector) => {
            let ghost values = vector@.map_values(|x: u16| x as nat);
            let mut i: usize = 0;
            assert(data@ =~= old(data)@ + be_array(values.take(0), 2));
            while i < vector.len()
                invariant
                    i <= vector.len(),
                    values == vector@.map_values(|x: u16| x as nat),
                    data@ == old(data)@ + be_array(values.take(i as int), 2),
                decreases vector.len() - i,
            {
                proof {
                    assert(values.take(i + 1).drop_last() =~= values.take(i as int));
                    assert(values.take(i + 1).last() == vector[i as int] as nat);
                }
                write_be_u16(data, vector[i]);
                i = i + 1;
                assert(data@ =~= old(data)@ + be_array(values.take(i as int), 2));
            }
            assert(values.take(vector.len() as int) =~= values);
        },
        RType::Int32Array(vector) => {
            let ghost values = vector@.map_values(|x: u32| x as nat);
            let mut i: usize = 0;
            assert(data@ =~= old(data)@ + be_array(values.take(0), 4));
            while i < vector.len()
                invariant
                    i <= vector.len(),
                    values == vector@.map_values(|x: u32| x as nat),
                    data@ == old(data)@ + be_array(values.take(i as int), 4),
                decreases vector.len() - i,
            {
                proof {
                    assert(values.take(i + 1).drop_last() =~= values.take(i as int));
                    assert(values.take(i + 1).last() == vector[i as int] as nat);
                }
                write_be_u32(data, vector[i]);
                i = i + 1;
                assert(data@ =~= old(data)@ + be_array(values.take(i as int), 4));
            }
            assert(values.take(vector.len() as int) =~= values);
        },
        RType::Int64Array(vector) => {
            let ghost values = vector@.map_values(|x: u64| x as nat);
            let mut i: usize = 0;
            assert(data@ =~= old(data)@ + be_array(values.take(0), 8));
            while i < vector.len()
                invariant
                    i <= vector.len(),
                    values == vector@.map_values(|x: u64| x as nat),
                    data@ == old(data)@ + be_array(values.take(i as int), 8),
                decreases vector.len() - i,
            {
                proof {
                    assert(values.take(i + 1).drop_last() =~= values.take(i as int));
                    assert(values.take(i + 1).last() == vector[i as int] as nat);
                }
                write_be_u64(data, vector[i]);
                i = i + 1;
                assert(data@ =~= old(data)@ + be_array(values.take(i as int), 8));
            }
            assert(values.take(vector.len() as int) =~= values);
        },
    }
}

// ---------------------------------------------------------------------------
// What the data blob holds at an offset
// ---------------------------------------------------------------------------

/// The number in the `width` bytes of element `i` of an array at `start`.
pub open spec fn int_at(data: Seq<u8>, start: int, i: int, width: int) -> nat {
    be_value(data.subrange(start + i * width, start + i * width + width))
}

/// The character that a 32-bit number stands for; U+0000 where it is not a
/// Unicode scalar value.
pub open spec fn char_of_u32(v: u32) -> char {
    if is_scalar(v) {
        v as char
    } else {
        '\0'
    }
}

/// The value of type `itype` with `count` elements that the blob `data`
/// holds at `start`, where `end` is the offset at which the next value
/// starts. Nothing, where the value would reach beyond the blob.
pub open spec fn decode_value(itype: Type, count: nat, data: Seq<u8>, start: int, end: int) -> Option<
    RTypeView,
> {
    match itype {
        Type::Null => Some(RTypeView::Null),
        Type::Char => if 0 <= start && start + 4 <= data.len() {
            Some(RTypeView::Char(char_of_u32(int_at(data, start, 0, 4) as u32)))
        } else {
            None
        },
        Type::Int8 => if count > 1 {
            if 0 <= start && start + count * 1 <= data.len() {
                Some(RTypeView::Int8Array(Seq::new(count, |i: int| int_at(data, start, i, 1) as u8)))
            } else {
                None
            }
        } else if 0 <= start && start + 1 <= data.len() {
            Some(RTypeView::Int8(int_at(data, start, 0, 1) as u8))
        } else {
            None
        },
        Type::Int16 => if count > 1 {
            if 0 <= start && start + count * 2 <= data.len() {
                Some(
                    RTypeView::Int16Array(Seq::new(count, |i: int| int_at(data, start, i, 2) as u16)),
                )
            } else {
                None
            }
        } else if 0 <= start && start + 2 <= data.len() {
            Some(RTypeView::Int16(int_at(data, start, 0, 2) as u16))
        } else {
            None
        },
        Type::Int32 => if count > 1 {
            if 0 <= start && start + count * 4 <= data.len() {
                Some(
                    RTypeView::Int32Array(Seq::new(count, |i: int| int_at(data, start, i, 4) as u32)),
                )
            } else {
                None
            }
        } else if 0 <= start && start + 4 <= data.len() {
            Some(RTypeView::Int32(int_at(data, start, 0, 4) as u32))
        } else {
            None
        },
        Type::Int64 => if count > 1 {
            if 0 <= start && start + count * 8 <= data.len() {
                Some(
                    RTypeView::Int64Array(Seq::new(count, |i: int| int_at(data, start, i, 8) as u64)),
                )
            } else {
                None
            }
        } else if 0 <= start && start + 8 <= data.len() {
            Some(RTypeView::Int64(int_at(data, start, 0, 8) as u64))
        } else {
            None
        },
        Type::String => if 0 <= start <= end <= data.len() {
            Some(RTypeView::String(spec_parse_string(data.subrange(start, end))))
        } else {
            None
        },
        Type::Bin => if 0 <= start && start + count <= data.len() {
            Some(RTypeView::Bin(data.subrange(start, start + count)))
        } else {
            None
        },
        Type::StringArray => if 0 <= start <= end <= data.len() {
            Some(RTypeView::StringArray(spec_parse_strings(data.subrange(start, end), count)))
        } else {
            None
        },
        Type::I18nstring => if 0 <= start <= end <= data.len() {
            Some(RTypeView::I18nstring(spec_parse_string(data.subrange(start, end))))
        } else {
            None
        },
    }
}

/// Makes a character of a number with `char::from_u32`, which accepts the
/// Unicode scalar values and nothing else.
#[verifier::external_body]
pub(crate) fn char_from_u32(v: u32) -> (r: Option<char>)
    ensures
        r is Some <==> is_scalar(v),
        r matches Some(c) ==> c == v as char,
{
    char::from_u32(v)
}

/// Whether `count` elements of `width` bytes each lie within the blob from
/// `position` on.
fn fits(data: &[u8], position: usize, count: usize, width: usize) -> (ok: bool)
    requires
        1 <= width <= 8,
    ensures
        ok == (position + count * width <= data@.len()),
        data@.len() <= usize::MAX,
{
    let total = data.len();
    if position > data.len() {
        assert(position + count * width > data@.len()) by (nonlinear_arith)
            requires
                position > data@.len(),
                count >= 0,
                width >= 1,
        ;
        return false;
    }
    let room = data.len() - position;
    let ok = count <= room / width;
    proof {
        let c = count as int;
        let w = width as int;
        let r = room as int;
        assert((c <= r / w) == (c * w <= r)) by (nonlinear_arith)
            requires
                w >= 1,
                c >= 0,
                r >= 0,
        ;
    }
    ok
}

/// One 8-bit number or, where `count` exceeds one, an array of them.
fn extract_u8(data: &[u8], position: usize, count: usize) -> (r: Option<RType>)
    ensures
        match r {
            Some(v) => decode_value(Type::Int8, count as nat, data@, position as int, 0) == Some(v@),
            None => decode_value(Type::Int8, count as nat, data@, position as int, 0) is None,
        },
{
    if count > 1 {
        if !fits(data, position, count, 1) {
            return None;
        }
        let mut values: Vec<u8> = Vec::new();
        let mut i: usize = 0;
        while i < count
            invariant
                i <= count,
                position + count * 1 <= data@.len(),
                data@.len() <= usize::MAX,
                values@.len() == i,
                forall|j: int| 0 <= j < i ==> values@[j] == int_at(data@, position as int, j, 1) as u8,
            decreases count - i,
        {
            let start = position + i;
            let piece = vstd::slice::slice_subrange(data, start, start + 1);
            assert(piece@.take(1) =~= piece@);
            match read_be_u8(piece) {
                Some(v) => values.push(v),
                None => {
                    return None;
                },
            }
            i = i + 1;
        }
        assert(values@ =~= Seq::new(
            count as nat,
            |j: int| int_at(data@, position as int, j, 1) as u8,
        ));
        Some(RType::Int8Array(values))
    } else {
        if !fits(data, position, 1, 1) {
            return None;
        }
        let piece = vstd::slice::slice_subrange(data, position, position + 1);
        assert(piece@.take(1) =~= piece@);
        match read_be_u8(piece) {
            Some(v) => Some(RType::Int8(v)),
            None => None,
        }
    }
}

/// One 16-bit number or, where `count` exceeds one, an array of them.
fn extract_u16(data: &[u8], position: usize, count: usize) -> (r: Option<RType>)
    ensures
        match r {
            Some(v) => decode_value(Type::Int16, count as nat, data@, position as int, 0) == Some(
                v@,
            ),
            None => decode_value(Type::Int16, count as nat, data@, position as int, 0) is None,
        },
{
    if count > 1 {
        if !fits(data, position, count, 2) {
            return None;
        }
        let mut values: Vec<u16> = Vec::new();
        let mut i: usize = 0;
        while i < count
            invariant
                i <= count,
                position + count * 2 <= data@.len(),
                data@.len() <= usize::MAX,
                values@.len() == i,
                forall|j: int|
                    0 <= j < i ==> values@[j] == int_at(data@, position as int, j, 2) as u16,
            decreases count - i,
        {
            let start = position + i * 2;
            let piece = vstd::slice::slice_subrange(data, start, start + 2);
            assert(piece@.take(2) =~= piece@);
            match read_be_u16(piece) {
                Some(v) => values.push(v),
                None => {
                    return None;
                },
            }
            i = i + 1;
        }
        assert(values@ =~= Seq::new(
            count as nat,
            |j: int| int_at(data@, position as int, j, 2) as u16,
        ));
        Some(RType::Int16Array(values))
    } else {
        if !fits(data, position, 1, 2) {
            return None;
        }
        let piece = vstd::slice::slice_subrange(data, position, position + 2);
        assert(piece@.take(2) =~= piece@);
        match read_be_u16(piece) {
            Some(v) => Some(RType::Int16(v)),
            None => None,
        }
    }
}

/// One 32-bit number or, where `count` exceeds one, an array of them.
fn extract_u32(data: &[u8], position: usize, count: usize) -> (r: Option<RType>)
    ensures
        match r {
            Some(v) => decode_value(Type::Int32, count as nat, data@, position as int, 0) == Some(
                v@,
            ),
            None => decode_value(Type::Int32, count as nat, data@, position as int, 0) is None,
        },
{
    if count > 1 {
        if !fits(data, position, count, 4) {
            return None;
        }
        let mut values: Vec<u32> = Vec::new();
        let mut i: usize = 0;
        while i < count
            invariant
                i <= count,
                position + count * 4 <= data@.len(),
                data@.len() <= usize::MAX,
                values@.len() == i,
                forall|j: int|
                    0 <= j < i ==> values@[j] == int_at(data@, position as int, j, 4) as u32,
            decreases count - i,
        {
            let start = position + i * 4;
            let piece = vstd::slice::slice_subrange(data, start, start + 4);
            assert(piece@.take(4) =~= piece@);
            match read_be_u32(piece) {
                Some(v) => values.push(v),
                None => {
                    return None;
                },
            }
            i = i + 1;
        }
        assert(values@ =~= Seq::new(
            count as nat,
            |j: int| int_at(data@, position as int, j, 4) as u32,
        ));
        Some(RType::Int32Array(values))
    } else {
        if !fits(data, position, 1, 4) {
            return None;
        }
        let piece = vstd::slice::slice_subrange(data, position, position + 4);
        assert(piece@.take(4) =~= piece@);
        match read_be_u32(piece) {
            Some(v) => Some(RType::Int32(v)),
            None => None,
        }
    }
}

/// One 64-bit number or, where `count` exceeds one, an array of them.
fn extract_u64(data: &[u8], position: usize, count: usize) -> (r: Option<RType>)
    ensures
        match r {
            Some(v) => decode_value(Type::Int64, count as nat, data@, position as int, 0) == Some(
                v@,
            ),
            None => decode_value(Type::Int64, count as nat, data@, position as int, 0) is None,
        },
{
    if count > 1 {
        if !fits(data, position, count, 8) {
            return None;
        }
        let mut values: Vec<u64> = Vec::new();
        let mut i: usize = 0;
        while i < count
            invariant
                i <= count,
                position + count * 8 <= data@.len(),
                data@.len() <= usize::MAX,
                values@.len() == i,
                forall|j: int|
                    0 <= j < i ==> values@[j] == int_at(data@, position as int, j, 8) as u64,
            decreases count - i,
        {
            let start = position + i * 8;
            let piece = vstd::slice::slice_subrange(data, start, start + 8);
            assert(piece@.take(8) =~= piece@);
            match read_be_u64(piece) {
                Some(v) => values.push(v),
                None => {
                    return None;
                },
            }
            i = i + 1;
        }
        assert(values@ =~= Seq::new(
            count as nat,
            |j: int| int_at(data@, position as int, j, 8) as u64,
        ));
        Some(RType::Int64Array(values))
    } else {
        if !fits(data, position, 1, 8) {
            return None;
        }
        let piece = vstd::slice::slice_subrange(data, position, position + 8);
        assert(piece@.take(8) =~= piece@);
        match read_be_u64(piece) {
            Some(v) => Some(RType::Int64(v)),
            None => None,
        }
    }
}

/// Reads from the blob the value that an index entry points at. `end` is
/// the offset of the next value, which ends a text.
pub fn read_value(itype: Type, count: usize, data: &[u8], start: usize, end: usize) -> (r: Option<
    RType,
>)
    ensures
        match r {
            Some(v) => decode_value(itype, count as nat, data@, start as int, end as int) == Some(
                v@,
            ),
            None => decode_value(itype, count as nat, data@, start as int, end as int) is None,
        },
{
    match itype {
        Type::Null => Some(RType::Null),
        Type::Char => {
            if !fits(data, start, 1, 4) {
                return None;
            }
            let piece = vstd::slice::slice_subrange(data, start, start + 4);
            assert(piece@.take(4) =~= piece@);
            match read_be_u32(piece) {
                Some(v) => {
                    let c = match char_from_u32(v) {
                        Some(c) => c,
                        None => '\0',
                    };
                    Some(RType::Char(c))
                },
                None => None,
            }
        },
        Type::Int8 => extract_u8(data, start, count),
        Type::Int16 => extract_u16(data, start, count),
        Type::Int32 => extract_u32(data, start, count),
        Type::Int64 => extract_u64(data, start, count),
        Type::String => {
            if start > end || end > data.len() {
                return None;
            }
            let piece = vstd::slice::slice_subrange(data, start, end);
            Some(RType::String(parse_string(piece)))
        },
        Type::Bin => {
            if !fits(data, start, count, 1) {
                return None;
            }
            let piece = vstd::slice::slice_subrange(data, start, start + count);
            Some(RType::Bin(vstd::slice::slice_to_vec(piece)))
        },
        Type::StringArray => {
            if start > end || end > data.len() {
                return None;
            }
            let piece = vstd::slice::slice_subrange(data, start, end);
            Some(RType::StringArray(parse_strings(piece, count)))
        },
        Type::I18nstring => {
            if start > end || end > data.len() {
                return None;
            }
            let piece = vstd::slice::slice_subrange(data, start, end);
            Some(RType::I18nstring(parse_string(piece)))
        },
    }
}

} // verus!
