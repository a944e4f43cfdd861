use crate::error::{Error, ErrorKind};
use crate::header::tags::TagNamespace;
use crate::reader::ByteReader;
use crate::utils::{
    be_bytes, be_value, char_to_string, debug_hex, decimal_digits, join_strings, joined,
    lemma_be_bytes_len, lemma_be_value_of_bytes, lemma_pow256_values, spec_debug_hex,
    u64_to_decimal, write_be_u32,
};
use vstd::prelude::*;

verus! {

/// The type of a stored value, as the index table names it.
#[derive(Debug, PartialEq, Eq, Clone, Copy, Structural)]
pub enum Type {
    Null,
    Char,
    Int8,
    Int16,
    Int32,
    Int64,
    String,
    Bin,
    StringArray,
    I18nstring,
}

impl Type {
    /// The number that stands for this type on the wire.
    pub open spec fn spec_to_u32(self) -> u32 {
        match self {
            Type::Null => 0,
            Type::Char => 1,
            Type::Int8 => 2,
            Type::Int16 => 3,
            Type::Int32 => 4,
            Type::Int64 => 5,
            Type::String => 6,
            Type::Bin => 7,
            Type::StringArray => 8,
            Type::I18nstring => 9,
        }
    }

    /// The type that a number on the wire stands for, if it is a known one.
    pub open spec fn spec_from_u32(id: u32) -> Option<Type> {
        if id == 0 {
            Some(Type::Null)
        } else if id == 1 {
            Some(Type::Char)
        } else if id == 2 {
            Some(Type::Int8)
        } else if id == 3 {
            Some(Type::Int16)
        } else if id == 4 {
            Some(Type::Int32)
        } else if id == 5 {
            Some(Type::Int64)
        } else if id == 6 {
            Some(Type::String)
        } else if id == 7 {
            Some(Type::Bin)
        } else if id == 8 {
            Some(Type::StringArray)
        } else if id == 9 {
            Some(Type::I18nstring)
        } else {
            None
        }
    }

    pub fn to_u32(&self) -> (id: u32)
        ensures
            id == self.spec_to_u32(),
            Type::spec_from_u32(id) == Some(*self),
    {
        match self {
            Type::Null => 0,
            Type::Char => 1,
            Type::Int8 => 2,
            Type::Int16 => 3,
            Type::Int32 => 4,
            Type::Int64 => 5,
            Type::String => 6,
            Type::Bin => 7,
            Type::StringArray => 8,
            Type::I18nstring => 9,
        }
    }

    pub fn from_u32(id: u32) -> (r: Option<Type>)
        ensures
            r == Type::spec_from_u32(id),
    {
        match id {
            0 => Some(Type::Null),
            1 => Some(Type::Char),
            2 => Some(Type::Int8),
            3 => Some(Type::Int16),
            4 => Some(Type::Int32),
            5 => Some(Type::Int64),
            6 => Some(Type::String),
            7 => Some(Type::Bin),
            8 => Some(Type::StringArray),
            9 => Some(Type::I18nstring),
            _ => None,
        }
    }
}

impl Default for Type {
    fn default() -> (t: Type)
        ensures
            t == Type::Null,
    {
        Type::Null
    }
}

/// A stored value: one of the typed scalars and arrays of the tag store.
#[derive(Debug, PartialEq, Clone)]
pub enum RType {
    Null,
    Char(char),
    Int8(u8),
    Int8Array(Vec<u8>),
    Int16(u16),
    Int16Array(Vec<u16>),
    Int32(u32),
    Int32Array(Vec<u32>),
    Int64(u64),
    Int64Array(Vec<u64>),
    String(String),
    Bin(Vec<u8>),
    StringArray(Vec<String>),
    I18nstring(String),
}

/// What a stored value is, mathematically.
pub enum RTypeView {
    Null,
    Char(char),
    Int8(u8),
    Int8Array(Seq<u8>),
    Int16(u16),
    Int16Array(Seq<u16>),
    Int32(u32),
    Int32Array(Seq<u32>),
    Int64(u64),
    Int64Array(Seq<u64>),
    String(Seq<char>),
    Bin(Seq<u8>),
    StringArray(Seq<Seq<char>>),
    I18nstring(Seq<char>),
}

impl View for RType {
    type V = RTypeView;

    open spec fn view(&self) -> RTypeView {
        match self {
            RType::Null => RTypeView::Null,
            RType::Char(c) => RTypeView::Char(*c),
            RType::Int8(n) => RTypeView::Int8(*n),
            RType::Int8Array(a) => RTypeView::Int8Array(a@),
            RType::Int16(n) => RTypeView::Int16(*n),
            RType::Int16Array(a) => RTypeView::Int16Array(a@),
            RType::Int32(n) => RTypeView::Int32(*n),
            RType::Int32Array(a) => RTypeView::Int32Array(a@),
            RType::Int64(n) => RTypeView::Int64(*n),
            RType::Int64Array(a) => RTypeView::Int64Array(a@),
            RType::String(s) => RTypeView::String(s@),
            RType::Bin(b) => RTypeView::Bin(b@),
            RType::StringArray(a) => RTypeView::StringArray(a.deep_view()),
            RType::I18nstring(s) => RTypeView::I18nstring(s@),
        }
    }
}

impl RTypeView {
    /// The value as an unsigned number of at most 64 bits: every integer scalar.
    pub open spec fn as_u64(self) -> Option<u64> {
        match self {
            RTypeView::Int8(n) => Some(n as u64),
            RTypeView::Int16(n) => Some(n as u64),
            RTypeView::Int32(n) => Some(n as u64),
            RTypeView::Int64(n) => Some(n),
            _ => None,
        }
    }

    /// The value as a number of at most 32 bits: no 64-bit scalar, whatever it holds.
    pub open spec fn as_u32(self) -> Option<u32> {
        match self {
            RTypeView::Int8(n) => Some(n as u32),
            RTypeView::Int16(n) => Some(n as u32),
            RTypeView::Int32(n) => Some(n),
            _ => None,
        }
    }

    /// The value as a signed 64-bit number: the scalars of at most 32 bits.
    pub open spec fn as_i64(self) -> Option<i64> {
        match self {
            RTypeView::Int8(n) => Some(n as i64),
            RTypeView::Int16(n) => Some(n as i64),
            RTypeView::Int32(n) => Some(n as i64),
            _ => None,
        }
    }

    pub open spec fn as_u16(self) -> Option<u16> {
        match self {
            RTypeView::Int8(n) => Some(n as u16),
            RTypeView::Int16(n) => Some(n),
            _ => None,
        }
    }

    pub open spec fn as_u8(self) -> Option<u8> {
        match self {
            RTypeView::Int8(n) => Some(n),
            _ => None,
        }
    }

    pub open spec fn as_char(self) -> Option<char> {
        match self {
            RTypeView::Char(c) => Some(c),
            _ => None,
        }
    }

    pub open spec fn as_u64_array(self) -> Option<Seq<u64>> {
        match self {
            RTypeView::Int8Array(a) => Some(a.map_values(|x: u8| x as u64)),
            RTypeView::Int16Array(a) => Some(a.map_values(|x: u16| x as u64)),
            RTypeView::Int32Array(a) => Some(a.map_values(|x: u32| x as u64)),
            RTypeView::Int64Array(a) => Some(a),
            _ => None,
        }
    }

    pub open spec fn as_u32_array(self) -> Option<Seq<u32>> {
        match self {
            RTypeView::Int8Array(a) => Some(a.map_values(|x: u8| x as u32)),
            RTypeView::Int16Array(a) => Some(a.map_values(|x: u16| x as u32)),
            RTypeView::Int32Array(a) => Some(a),
            _ => None,
        }
    }

    pub open spec fn as_u16_array(self) -> Option<Seq<u16>> {
        match self {
            RTypeView::Int8Array(a) => Some(a.map_values(|x: u8| x as u16)),
            RTypeView::Int16Array(a) => Some(a),
            _ => None,
        }
    }

    pub open spec fn as_u8_array(self) -> Option<Seq<u8>> {
        match self {
            RTypeView::Int8Array(a) => Some(a),
            _ => None,
        }
    }

    pub open spec fn as_string_array(self) -> Option<Seq<Seq<char>>> {
        match self {
            RTypeView::StringArray(a) => Some(a),
            _ => None,
        }
    }

    /// The value as text: texts as they are, a character alone, nothing for
    /// `Null`, numbers in decimal, a list of texts joined by commas, bytes as
    /// a hexadecimal dump. An array of numbers has no text.
    pub open spec fn as_string(self) -> Option<Seq<char>> {
        match self {
            RTypeView::Null => Some(Seq::empty()),
            RTypeView::Bin(b) => Some(spec_debug_hex(b)),
            RTypeView::Char(c) => Some(seq![c]),
            RTypeView::String(s) => Some(s),
            RTypeView::I18nstring(s) => Some(s),
            RTypeView::Int8(n) => Some(decimal_digits(n as nat)),
            RTypeView::Int16(n) => Some(decimal_digits(n as nat)),
            RTypeView::Int32(n) => Some(decimal_digits(n as nat)),
            RTypeView::Int64(n) => Some(decimal_digits(n as nat)),
            RTypeView::StringArray(a) => Some(joined(a, seq![','])),
            _ => None,
        }
    }
}

impl RTypeView {
    /// The number that an integer scalar holds, and the width of its type
    /// in bits; nothing for any other value.
    pub open spec fn scalar(self) -> Option<(int, int)> {
        match self {
            RTypeView::Int8(n) => Some((n as int, 8)),
            RTypeView::Int16(n) => Some((n as int, 16)),
            RTypeView::Int32(n) => Some((n as int, 32)),
            RTypeView::Int64(n) => Some((n as int, 64)),
            _ => None,
        }
    }

    /// The numbers that an array of integers holds, and the width of its
    /// element type in bits; nothing for any other value.
    pub open spec fn numbers(self) -> Option<(Seq<int>, int)> {
        match self {
            RTypeView::Int8Array(a) => Some((a.map_values(|x: u8| x as int), 8)),
            RTypeView::Int16Array(a) => Some((a.map_values(|x: u16| x as int), 16)),
            RTypeView::Int32Array(a) => Some((a.map_values(|x: u32| x as int), 32)),
            RTypeView::Int64Array(a) => Some((a.map_values(|x: u64| x as int), 64)),
            _ => None,
        }
    }
}

/// A conversion of a scalar to a number type gives the number that the
/// scalar holds where the target is as wide as the scalar's type, or
/// wider: as `i64`, where the scalar's type has at most 32 bits. Every other
/// conversion gives nothing, so a number that does not fit its target is
/// never cut down to it.
pub proof fn lemma_scalar_conversions_are_exact(v: RTypeView)
    ensures
        match v.scalar() {
            Some((x, bits)) => {
                &&& v.as_u64() == Some(x as u64) && x as u64 == x
                &&& v.as_u32() == if bits <= 32 {
                    Some(x as u32)
                } else {
                    None
                }
                &&& v.as_u16() == if bits <= 16 {
                    Some(x as u16)
                } else {
                    None
                }
                &&& v.as_u8() == if bits <= 8 {
                    Some(x as u8)
                } else {
                    None
                }
                &&& v.as_i64() == if bits <= 32 {
                    Some(x as i64)
                } else {
                    None
                }
                &&& bits <= 32 ==> x as u32 == x && x as i64 == x
                &&& bits <= 16 ==> x as u16 == x
                &&& bits <= 8 ==> x as u8 == x
                &&& x > u32::MAX ==> v.as_u32() is None && v.as_u16() is None && v.as_u8() is None
                &&& x > u16::MAX ==> v.as_u16() is None && v.as_u8() is None
                &&& x > u8::MAX ==> v.as_u8() is None
                &&& x > i64::MAX ==> v.as_i64() is None
            },
            None => {
                &&& v.as_u64() is None
                &&& v.as_u32() is None
                &&& v.as_u16() is None
                &&& v.as_u8() is None
                &&& v.as_i64() is None
            },
        },
{
}

/// A conversion of an array to an array of numbers gives, element by
/// element, the numbers that the array holds where the target is as wide as
/// the array's element type, or wider, and nothing otherwise.
pub proof fn lemma_array_conversions_are_exact(v: RTypeView)
    ensures
        match v.numbers() {
            Some((xs, bits)) => {
                &&& v.as_u64_array() matches Some(a) && a.map_values(|x: u64| x as int) == xs
                &&& if bits <= 32 {
                    v.as_u32_array() matches Some(a) && a.map_values(|x: u32| x as int) == xs
                } else {
                    v.as_u32_array() is None
                }
                &&& if bits <= 16 {
                    v.as_u16_array() matches Some(a) && a.map_values(|x: u16| x as int) == xs
                } else {
                    v.as_u16_array() is None
                }
                &&& if bits <= 8 {
                    v.as_u8_array() matches Some(a) && a.map_values(|x: u8| x as int) == xs
                } else {
                    v.as_u8_array() is None
                }
            },
            None => {
                &&& v.as_u64_array() is None
                &&& v.as_u32_array() is None
                &&& v.as_u16_array() is None
                &&& v.as_u8_array() is None
            },
        },
{
    match v {
        RTypeView::Int8Array(a) => {
            let xs = a.map_values(|x: u8| x as int);
            assert(a.map_values(|x: u8| x as u64).map_values(|x: u64| x as int) =~= xs);
            assert(a.map_values(|x: u8| x as u32).map_values(|x: u32| x as int) =~= xs);
            assert(a.map_values(|x: u8| x as u16).map_values(|x: u16| x as int) =~= xs);
        },
        RTypeView::Int16Array(a) => {
            let xs = a.map_values(|x: u16| x as int);
            assert(a.map_values(|x: u16| x as u64).map_values(|x: u64| x as int) =~= xs);
            assert(a.map_values(|x: u16| x as u32).map_values(|x: u32| x as int) =~= xs);
        },
        RTypeView::Int32Array(a) => {
            let xs = a.map_values(|x: u32| x as int);
            assert(a.map_values(|x: u32| x as u64).map_values(|x: u64| x as int) =~= xs);
        },
        _ => {},
    }
}

/// The view of an optional vector of plain values.
pub open spec fn option_view<T>(o: Option<Vec<T>>) -> Option<Seq<T>> {
    match o {
        Some(v) => Some(v@),
        None => None,
    }
}

/// The view of an optional text.
pub open spec fn option_text(o: Option<String>) -> Option<Seq<char>> {
    match o {
        Some(s) => Some(s@),
        None => None,
    }
}

/// The view of an optional list of texts.
pub open spec fn option_texts(o: Option<Vec<String>>) -> Option<Seq<Seq<char>>> {
    match o {
        Some(v) => Some(v.deep_view()),
        None => None,
    }
}

fn widen_u8_to_u16(a: &Vec<u8>) -> (r: Vec<u16>)
    ensures
        r@ == a@.map_values(|x: u8| x as u16),
{
    let mut r: Vec<u16> = Vec::new();
    let mut i: usize = 0;
    while i < a.len()
        invariant
            i <= a.len(),
            r@ == a@.take(i as int).map_values(|x: u8| x as u16),
        decreases a.len() - i,
    {
        r.push(a[i] as u16);
        i = i + 1;
        assert(r@ =~= a@.take(i as int).map_values(|x: u8| x as u16));
    }
    assert(a@.take(a.len() as int) =~= a@);
    r
}

fn widen_u8_to_u32(a: &Vec<u8>) -> (r: Vec<u32>)
    ensures
        r@ == a@.map_values(|x: u8| x as u32),
{
    let mut r: Vec<u32> = Vec::new();
    let mut i: usize = 0;
    while i < a.len()
        invariant
            i <= a.len(),
            r@ == a@.take(i as int).map_values(|x: u8| x as u32),
        decreases a.len() - i,
    {
        r.push(a[i] as u32);
        i = i + 1;
        assert(r@ =~= a@.take(i as int).map_values(|x: u8| x as u32));
    }
    assert(a@.take(a.len() as int) =~= a@);
    r
}

fn widen_u8_to_u64(a: &Vec<u8>) -> (r: Vec<u64>)
    ensures
        r@ == a@.map_values(|x: u8| x as u64),
{
    let mut r: Vec<u64> = Vec::new();
    let mut i: usize = 0;
    while i < a.len()
        invariant
            i <= a.len(),
            r@ == a@.take(i as int).map_values(|x: u8| x as u64),
        decreases a.len() - i,
    {
        r.push(a[i] as u64);
        i = i + 1;
        assert(r@ =~= a@.take(i as int).map_values(|x: u8| x as u64));
    }
    assert(a@.take(a.len() as int) =~= a@);
    r
}

fn widen_u16_to_u32(a: &Vec<u16>) -> (r: Vec<u32>)
    ensures
        r@ == a@.map_values(|x: u16| x as u32),
{
    let mut r: Vec<u32> = Vec::new();
    let mut i: usize = 0;
    while i < a.len()
        invariant
            i <= a.len(),
            r@ == a@.take(i as int).map_values(|x: u16| x as u32),
        decreases a.len() - i,
    {
        r.push(a[i] as u32);
        i = i + 1;
        assert(r@ =~= a@.take(i as int).map_values(|x: u16| x as u32));
    }
    assert(a@.take(a.len() as int) =~= a@);
    r
}

fn widen_u16_to_u64(a: &Vec<u16>) -> (r: Vec<u64>)
    ensures
        r@ == a@.map_values(|x: u16| x as u64),
{
    let mut r: Vec<u64> = Vec::new();
    let mut i: usize = 0;
    while i < a.len()
        invariant
            i <= a.len(),
            r@ == a@.take(i as int).map_values(|x: u16| x as u64),
        decreases a.len() - i,
    {
        r.push(a[i] as u64);
        i = i + 1;
        assert(r@ =~= a@.take(i as int).map_values(|x: u16| x as u64));
    }
    assert(a@.take(a.len() as int) =~= a@);
    r
}

fn widen_u32_to_u64(a: &Vec<u32>) -> (r: Vec<u64>)
    ensures
        r@ == a@.map_values(|x: u32| x as u64),
{
    let mut r: Vec<u64> = Vec::new();
    let mut i: usize = 0;
    while i < a.len()
        invariant
            i <= a.len(),
            r@ == a@.take(i as int).map_values(|x: u32| x as u64),
        decreases a.len() - i,
    {
        r.push(a[i] as u64);
        i = i + 1;
        assert(r@ =~= a@.take(i as int).map_values(|x: u32| x as u64));
    }
    assert(a@.take(a.len() as int) =~= a@);
    r
}

/// A copy of a list of texts.
pub fn clone_strings(a: &Vec<String>) -> (r: Vec<String>)
    ensures
        r.deep_view() == a.deep_view(),
{
    let mut r: Vec<String> = Vec::new();
    let mut i: usize = 0;
    while i < a.len()
        invariant
            i <= a.len(),
            r@.len() == i,
            forall|j: int| 0 <= j < i ==> (#[trigger] r@[j])@ == a@[j]@,
        decreases a.len() - i,
    {
        r.push(a[i].clone());
        i = i + 1;
    }
    assert(r.deep_view() =~= a.deep_view());
    r
}

impl RType {
    pub fn as_u64(&self) -> (r: Option<u64>)
        ensures
            r == self@.as_u64(),
    {
        match self {
            RType::Int8(n) => Some(*n as u64),
            RType::Int16(n) => Some(*n as u64),
            RType::Int32(n) => Some(*n as u64),
            RType::Int64(n) => Some(*n),
            _ => None,
        }
    }

    pub fn as_u32(&self) -> (r: Option<u32>)
        ensures
            r == self@.as_u32(),
    {
        match self {
            RType::Int8(n) => Some(*n as u32),
            RType::Int16(n) => Some(*n as u32),
            RType::Int32(n) => Some(*n),
            _ => None,
        }
    }

    pub fn as_i64(&self) -> (r: Option<i64>)
        ensures
            r == self@.as_i64(),
    {
        match self {
            RType::Int8(n) => Some(*n as i64),
            RType::Int16(n) => Some(*n as i64),
            RType::Int32(n) => Some(*n as i64),
            _ => None,
        }
    }

    pub fn as_u16(&self) -> (r: Option<u16>)
        ensures
            r == self@.as_u16(),
    {
        match self {
            RType::Int8(n) => Some(*n as u16),
            RType::Int16(n) => Some(*n),
            _ => None,
        }
    }

    pub fn as_u8(&self) -> (r: Option<u8>)
        ensures
            r == self@.as_u8(),
    {
        match self {
            RType::Int8(n) => Some(*n),
            _ => None,
        }
    }

    pub fn as_char(&self) -> (r: Option<char>)
        ensures
            r == self@.as_char(),
    {
        match self {
            RType::Char(n) => Some(*n),
            _ => None,
        }
    }

    pub fn as_string(&self) -> (r: Option<String>)
        ensures
            option_text(r) == self@.as_string(),
    {
        match self {
            RType::Null => Some(String::new()),
            RType::Bin(b) => Some(debug_hex(b)),
            RType::Char(s) => Some(char_to_string(*s)),
            RType::String(s) => Some(s.clone()),
            RType::I18nstring(s) => Some(s.clone()),
            RType::Int8(n) => Some(u64_to_decimal(*n as u64)),
            RType::Int16(n) => Some(u64_to_decimal(*n as u64)),
            RType::Int32(n) => Some(u64_to_decimal(*n as u64)),
            RType::Int64(n) => Some(u64_to_decimal(*n)),
            RType::StringArray(a) => {
                proof {
                    reveal_strlit(",");
                    assert(","@ =~= seq![',']);
                }
                Some(join_strings(a, ","))
            },
            _ => None,
        }
    }

    pub fn as_string_array(&self) -> (r: Option<Vec<String>>)
        ensures
            option_texts(r) == self@.as_string_array(),
    {
        match self {
            RType::StringArray(a) => Some(clone_strings(a)),
            _ => None,
        }
    }

    pub fn as_u64_array(&self) -> (r: Option<Vec<u64>>)
        ensures
            option_view(r) == self@.as_u64_array(),
    {
        match self {
            RType::Int8Array(a) => Some(widen_u8_to_u64(a)),
            RType::Int16Array(a) => Some(widen_u16_to_u64(a)),
            RType::Int32Array(a) => Some(widen_u32_to_u64(a)),
            RType::Int64Array(a) => Some(a.clone()),
            _ => None,
        }
    }

    pub fn as_u32_array(&self) -> (r: Option<Vec<u32>>)
        ensures
            option_view(r) == self@.as_u32_array(),
    {
        match self {
            RType::Int8Array(a) => Some(widen_u8_to_u32(a)),
            RType::Int16Array(a) => Some(widen_u16_to_u32(a)),
            RType::Int32Array(a) => Some(a.clone()),
            _ => None,
        }
    }

    pub fn as_u16_array(&self) -> (r: Option<Vec<u16>>)
        ensures
            option_view(r) == self@.as_u16_array(),
    {
        match self {
            RType::Int8Array(a) => Some(widen_u8_to_u16(a)),
            RType::Int16Array(a) => Some(a.clone()),
            _ => None,
        }
    }

    pub fn as_u8_array(&self) -> (r: Option<Vec<u8>>)
        ensures
            option_view(r) == self@.as_u8_array(),
    {
        match self {
            RType::Int8Array(a) => Some(a.clone()),
            _ => None,
        }
    }
}


/// One entry of the index table: which tag, of what type, where its value
/// starts in the data blob, and how many elements it has.
#[derive(Debug, PartialEq, Clone)]
pub struct Index<T> {
    pub tag: T,
    pub itype: Type,
    pub offset: usize,
    pub count: usize,
}

/// The tag that a number read from the wire becomes: the tag it stands for,
/// or the sentinel.
pub open spec fn tag_of_id<T: TagNamespace>(id: u32) -> T {
    match T::spec_from_u32(id) {
        Some(tag) => tag,
        None => T::unknown(),
    }
}

/// The type that a number read from the wire becomes: the type it stands
/// for, or `Null`.
pub open spec fn type_of_id(id: u32) -> Type {
    match Type::spec_from_u32(id) {
        Some(t) => t,
        None => Type::Null,
    }
}

/// The type under which a value is stored.
pub open spec fn type_of_value(v: RTypeView) -> Type {
    match v {
        RTypeView::Null => Type::Null,
        RTypeView::Char(_) => Type::Char,
        RTypeView::Int8(_) => Type::Int8,
        RTypeView::Int8Array(_) => Type::Int8,
        RTypeView::Int16(_) => Type::Int16,
        RTypeView::Int16Array(_) => Type::Int16,
        RTypeView::Int32(_) => Type::Int32,
        RTypeView::Int32Array(_) => Type::Int32,
        RTypeView::Int64(_) => Type::Int64,
        RTypeView::Int64Array(_) => Type::Int64,
        RTypeView::String(_) => Type::String,
        RTypeView::Bin(_) => Type::Bin,
        RTypeView::StringArray(_) => Type::StringArray,
        RTypeView::I18nstring(_) => Type::I18nstring,
    }
}

impl<T: TagNamespace> Index<T> {
    /// The entry can be written: its tag is not the sentinel, and its offset
    /// and count fit 32 bits.
    pub open spec fn writable(self) -> bool {
        &&& self.tag.spec_to_u32() is Some
        &&& self.offset <= u32::MAX
        &&& self.count <= u32::MAX
    }

    /// The sixteen bytes of the entry.
    pub open spec fn encoding(self) -> Seq<u8> {
        be_bytes(self.tag.spec_to_u32()->0 as nat, 4) + be_bytes(
            self.itype.spec_to_u32() as nat,
            4,
        ) + be_bytes(self.offset as nat, 4) + be_bytes(self.count as nat, 4)
    }

    /// What reading an entry from the front of `s` gives; nothing when `s`
    /// has fewer than sixteen bytes.
    pub open spec fn parse(s: Seq<u8>) -> Option<Index<T>> {
        if s.len() < 16 {
            None
        } else {
            Some(
                Index {
                    tag: tag_of_id::<T>(be_value(s.subrange(0, 4)) as u32),
                    itype: type_of_id(be_value(s.subrange(4, 8)) as u32),
                    offset: be_value(s.subrange(8, 12)) as usize,
                    count: be_value(s.subrange(12, 16)) as usize,
                },
            )
        }
    }

    /// An entry that was written is read back as it was, whatever follows it.
    pub proof fn lemma_round_trip(index: Index<T>, rest: Seq<u8>)
        requires
            index.writable(),
        ensures
            index.encoding().len() == 16,
            Self::parse(index.encoding() + rest) == Some(index),
    {
        let id = index.tag.spec_to_u32()->0;
        let s = index.encoding() + rest;
        T::lemma_ids_round_trip(index.tag);
        lemma_pow256_values();
        lemma_be_bytes_len(id as nat, 4);
        lemma_be_bytes_len(index.itype.spec_to_u32() as nat, 4);
        lemma_be_bytes_len(index.offset as nat, 4);
        lemma_be_bytes_len(index.count as nat, 4);
        lemma_be_value_of_bytes(id as nat, 4);
        lemma_be_value_of_bytes(index.itype.spec_to_u32() as nat, 4);
        lemma_be_value_of_bytes(index.offset as nat, 4);
        lemma_be_value_of_bytes(index.count as nat, 4);
        assert(s.subrange(0, 4) =~= be_bytes(id as nat, 4));
        assert(s.subrange(4, 8) =~= be_bytes(index.itype.spec_to_u32() as nat, 4));
        assert(s.subrange(8, 12) =~= be_bytes(index.offset as nat, 4));
        assert(s.subrange(12, 16) =~= be_bytes(index.count as nat, 4));
    }

    /// Reads one entry. An unknown tag number becomes the sentinel and an
    /// unknown type number becomes `Null`; only a short source fails.
    pub fn read(fh: &mut ByteReader) -> (r: Result<Index<T>, Error>)
        ensures
            match r {
                Ok(index) => {
                    &&& Self::parse(old(fh).remaining()) == Some(index)
                    &&& final(fh).advanced(old(fh), 16)
                },
                Err(e) => {
                    &&& Self::parse(old(fh).remaining()) is None
                    &&& e.kind == ErrorKind::Io
                    &&& final(fh).buffer() == old(fh).buffer()
                },
            },
    {
        let ghost s = fh.remaining();
        if fh.available() < 16 {
            return Err(Error::new(ErrorKind::Io, "failed to fill whole buffer"));
        }
        let ghost s0 = fh.remaining();
        let tag_id: u32 = fh.read_be_u32()?;
        let tag = match T::from_u32(tag_id) {
            Some(tag) => tag,
            None => T::other(),
        };
        let ghost s4 = fh.remaining();
        let type_id: u32 = fh.read_be_u32()?;
        let itype = match Type::from_u32(type_id) {
            Some(t) => t,
            None => Type::Null,
        };
        let ghost s8 = fh.remaining();
        let offset: u32 = fh.read_be_u32()?;
        let ghost s12 = fh.remaining();
        let count: u32 = fh.read_be_u32()?;
        proof {
            assert(s0.take(4) =~= s.subrange(0, 4));
            assert(s4.take(4) =~= s.subrange(4, 8));
            assert(s8.take(4) =~= s.subrange(8, 12));
            assert(s12.take(4) =~= s.subrange(12, 16));
            assert(fh.remaining() =~= s.skip(16));
        }
        Ok(Index { tag, itype, offset: offset as usize, count: count as usize })
    }

    /// The entry for `rtype` stored under `tag` at `offset` with `count` elements.
    pub fn from(tag: &T, rtype: &RType, offset: usize, count: usize) -> (index: Index<T>)
        ensures
            index == (Index { tag: *tag, itype: type_of_value(rtype@), offset, count }),
    {
        let itype = match rtype {
            RType::Null => Type::Null,
            RType::Char(_) => Type::Char,
            RType::Int8(_) => Type::Int8,
            RType::Int8Array(_) => Type::Int8,
            RType::Int16(_) => Type::Int16,
            RType::Int16Array(_) => Type::Int16,
            RType::Int32(_) => Type::Int32,
            RType::Int32Array(_) => Type::Int32,
            RType::Int64(_) => Type::Int64,
            RType::Int64Array(_) => Type::Int64,
            RType::String(_) => Type::String,
            RType::Bin(_) => Type::Bin,
            RType::StringArray(_) => Type::StringArray,
            RType::I18nstring(_) => Type::I18nstring,
        };
        Index { itype, tag: *tag, offset, count }
    }
}

/// A sink that takes index entries.
pub trait IndexWriter {
    fn write_index<T: TagNamespace>(&mut self, index: Index<T>) -> Result<(), Error>;
}

impl IndexWriter for Vec<u8> {
    /// Appends the sixteen bytes of `index`. The sentinel tag, and an offset
    /// or count beyond 32 bits, are `InvalidInput`, and then nothing is written.
    fn write_index<T: TagNamespace>(&mut self, index: Index<T>) -> (r: Result<(), Error>)
        ensures
            match r {
                Ok(_) => index.writable() && final(self)@ == old(self)@ + index.encoding(),
                Err(e) => !index.writable() && e.kind == ErrorKind::InvalidInput && final(self)@
                    == old(self)@,
            },
    {
        let tag_id = match index.tag.to_u32() {
            Some(id) => id,
            None => {
                return Err(Error::new(ErrorKind::InvalidInput, "Error: tag id is not correct"));
            },
        };
        if index.offset > u32::MAX as usize || index.count > u32::MAX as usize {
            return Err(
                Error::new(ErrorKind::InvalidInput, "Error: offset or count is out of range"),
            );
        }
        write_be_u32(self, tag_id);
        write_be_u32(self, index.itype.to_u32());
        write_be_u32(self, index.offset as u32);
        write_be_u32(self, index.count as u32);
        proof {
            assert(self@ =~= old(self)@ + index.encoding());
        }
        Ok(())
    }
}


/// Where an entry of offset `offset` goes in `sorted`: behind every entry
/// whose offset is not greater.
pub open spec fn insert_position<T>(sorted: Seq<Index<T>>, offset: usize) -> int
    decreases sorted.len(),
{
    if sorted.len() == 0 {
        0
    } else if sorted.last().offset <= offset {
        sorted.len() as int
    } else {
        insert_position(sorted.drop_last(), offset)
    }
}

/// The entries in ascending order of offset, entries of equal offset in the
/// order in which they were given.
pub open spec fn sorted_by_offset<T>(entries: Seq<Index<T>>) -> Seq<Index<T>>
    decreases entries.len(),
{
    if entries.len() == 0 {
        entries
    } else {
        let head = sorted_by_offset(entries.drop_last());
        head.insert(insert_position(head, entries.last().offset), entries.last())
    }
}

/// The place of insertion lies within the list or at its end.
pub proof fn lemma_insert_position_bounds<T>(sorted: Seq<Index<T>>, offset: usize)
    ensures
        0 <= insert_position(sorted, offset) <= sorted.len(),
    decreases sorted.len(),
{
    if sorted.len() > 0 && sorted.last().offset > offset {
        lemma_insert_position_bounds(sorted.drop_last(), offset);
    }
}

/// Sorting keeps the number of entries.
pub proof fn lemma_sorted_by_offset_len<T>(entries: Seq<Index<T>>)
    ensures
        sorted_by_offset(entries).len() == entries.len(),
    decreases entries.len(),
{
    if entries.len() > 0 {
        lemma_sorted_by_offset_len(entries.drop_last());
        lemma_insert_position_bounds(
            sorted_by_offset(entries.drop_last()),
            entries.last().offset,
        );
    }
}

/// Puts the entries in ascending order of offset and keeps entries of equal
/// offset in their order.
pub fn sort_by_offset<T: TagNamespace>(entries: Vec<Index<T>>) -> (sorted: Vec<Index<T>>)
    ensures
        sorted@ == sorted_by_offset(entries@),
{
    let mut out: Vec<Index<T>> = Vec::new();
    let mut i: usize = 0;
    while i < entries.len()
        invariant
            i <= entries.len(),
            out@ == sorted_by_offset(entries@.take(i as int)),
        decreases entries.len() - i,
    {
        let x = Index {
            tag: entries[i].tag,
            itype: entries[i].itype,
            offset: entries[i].offset,
            count: entries[i].count,
        };
        assert(x == entries@[i as int]);
        let mut pos: usize = out.len();
        proof {
            assert(out@.take(out@.len() as int) =~= out@);
        }
        while pos > 0 && out[pos - 1].offset > x.offset
            invariant
                pos <= out@.len(),
                insert_position(out@, x.offset) == insert_position(out@.take(pos as int), x.offset),
            decreases pos,
        {
            proof {
                assert(out@.take(pos as int).drop_last() =~= out@.take(pos - 1));
            }
            pos = pos - 1;
        }
        proof {
            assert(out@.take(out@.len() as int) =~= out@);
            if pos > 0 {
                assert(out@.take(pos as int).last() == out@[pos - 1]);
            }
            assert(insert_position(out@, x.offset) == pos);
            let next = entries@.take(i + 1);
            assert(next.drop_last() =~= entries@.take(i as int));
            assert(next.last() == x);
        }
        out.insert(pos, x);
        i = i + 1;
    }
    proof {
        assert(entries@.take(entries.len() as int) =~= entries@);
    }
    out
}

/// What the first `n` entries of an index table at the front of `s` are, in
/// the order of the table; nothing when `s` is shorter than the table.
pub open spec fn parse_index_table<T: TagNamespace>(s: Seq<u8>, n: nat) -> Option<Seq<Index<T>>> {
    if s.len() < 16 * n {
        None
    } else {
        Some(Seq::new(n, |i: int| Index::<T>::parse(s.subrange(16 * i, 16 * i + 16))->0))
    }
}

/// The index table of a header.
pub struct IndexArray;

impl IndexArray {
    /// Reads `nindex` entries and sorts them by offset. A source that is
    /// shorter than the table is `Io`, found before anything is allocated.
    pub fn read<T: TagNamespace>(fh: &mut ByteReader, nindex: usize) -> (r: Result<
        Vec<Index<T>>,
        Error,
    >)
        ensures
            match r {
                Ok(indexes) => {
                    &&& parse_index_table::<T>(old(fh).remaining(), nindex as nat) matches Some(table)
                    &&& indexes@ == sorted_by_offset(table)
                    &&& final(fh).advanced(old(fh), 16 * nindex)
                },
                Err(e) => {
                    &&& parse_index_table::<T>(old(fh).remaining(), nindex as nat) is None
                    &&& e.kind == ErrorKind::Io
                    &&& final(fh).unmoved(old(fh))
                },
            },
    {
        let ghost s = fh.remaining();
        if fh.available() / 16 < nindex {
            return Err(Error::new(ErrorKind::Io, "failed to fill whole buffer"));
        }
        let ghost table = parse_index_table::<T>(s, nindex as nat)->0;
        let mut indexes: Vec<Index<T>> = Vec::new();
        let mut i: usize = 0;
        proof {
            assert(fh.remaining().skip(0) =~= fh.remaining());
        }
        while i < nindex
            invariant
                i <= nindex,
                16 * nindex <= s.len(),
                table == parse_index_table::<T>(s, nindex as nat)->0,
                table.len() == nindex,
                fh.advanced(old(fh), 16 * i),
                s == old(fh).remaining(),
                indexes@ == table.take(i as int),
            decreases nindex - i,
        {
            let ghost before = fh.remaining();
            proof {
                assert(before.len() >= 16);
                assert(s.subrange(16 * i, 16 * i + 16) =~= before.subrange(0, 16));
                assert(before.subrange(0, 4) =~= s.subrange(16 * i, 16 * i + 16).subrange(0, 4));
                assert(before.subrange(4, 8) =~= s.subrange(16 * i, 16 * i + 16).subrange(4, 8));
                assert(before.subrange(8, 12) =~= s.subrange(16 * i, 16 * i + 16).subrange(8, 12));
                assert(before.subrange(12, 16) =~= s.subrange(16 * i, 16 * i + 16).subrange(
                    12,
                    16,
                ));
            }
            match Index::<T>::read(fh) {
                Ok(index) => {
                    assert(index == table[i as int]);
                    indexes.push(index);
                },
                Err(e) => {
                    assert(false);
                    return Err(e);
                },
            }
            proof {
                assert(fh.remaining() =~= s.skip(16 * (i + 1)));
                assert(indexes@ =~= table.take(i + 1));
            }
            i = i + 1;
        }
        proof {
            assert(table.take(nindex as int) =~= table);
        }
        Ok(sort_by_offset(indexes))
    }
}

} // verus!
