use crate::error::{Error, ErrorKind};
use crate::reader::ByteReader;
use vstd::prelude::*;
use vstd::string::StringExecFns;

verus! {

/// Number of zero bytes needed after `from` bytes to reach the next multiple of `n`.
pub open spec fn spec_align_n_bytes(from: int, n: int) -> int {
    (n - from % n) % n
}

/// Padding that brings a length of `from` bytes up to a multiple of `n`.
pub fn align_n_bytes(from: u32, n: u32) -> (pad: u32)
    requires
        n > 0,
    ensures
        pad == spec_align_n_bytes(from as int, n as int),
        0 <= pad < n,
        (from + pad) % (n as int) == 0,
{
    proof {
        lemma_align_reaches_boundary(from as int, n as int);
    }
    (n - from % n) % n
}

/// After the padding, the length is a multiple of `n`, and the padding is the
/// least one that achieves it.
pub proof fn lemma_align_reaches_boundary(from: int, n: int)
    requires
        from >= 0,
        n > 0,
    ensures
        0 <= spec_align_n_bytes(from, n) < n,
        (from + spec_align_n_bytes(from, n)) % n == 0,
        from % n == 0 ==> spec_align_n_bytes(from, n) == 0,
{
    let r = from % n;
    let q = from / n;
    assert(from == n * q + r) by {
        vstd::arithmetic::div_mod::lemma_fundamental_div_mod(from, n);
    }
    if r == 0 {
        assert((n - r) % n == 0) by {
            vstd::arithmetic::div_mod::lemma_mod_self_0(n);
        }
    } else {
        assert((n - r) % n == n - r) by {
            vstd::arithmetic::div_mod::lemma_small_mod((n - r) as nat, n as nat);
        }
        assert(from + (n - r) == n * (q + 1)) by (nonlinear_arith)
            requires
                from == n * q + r,
        ;
        assert((n * (q + 1)) % n == 0) by {
            vstd::arithmetic::div_mod::lemma_mod_multiples_basic(q + 1, n);
            assert(n * (q + 1) == (q + 1) * n) by (nonlinear_arith);
        }
    }
}

/// `n` zero bytes.
pub open spec fn zero_bytes(n: int) -> Seq<u8> {
    Seq::new(n as nat, |i: int| 0u8)
}

/// Appends the zero bytes that bring a length of `from` bytes up to a
/// multiple of `n`.
pub fn align_pad(out: &mut Vec<u8>, from: u32, n: u32)
    requires
        n > 0,
    ensures
        final(out)@ == old(out)@ + zero_bytes(spec_align_n_bytes(from as int, n as int)),
{
    let number = align_n_bytes(from, n);
    let mut k: u32 = 0;
    assert(out@ =~= old(out)@ + zero_bytes(0));
    while k < number
        invariant
            k <= number,
            out@ == old(out)@ + zero_bytes(k as int),
        decreases number - k,
    {
        out.push(0_u8);
        k = k + 1;
        assert(out@ =~= old(out)@ + zero_bytes(k as int));
    }
}

/// Moves `reader` over the padding that follows `from` bytes up to a
/// multiple of `n`, or to its end where the padding is cut short.
pub fn align_skip(reader: &mut ByteReader, from: u32, n: u32) -> (skipped: usize)
    requires
        n > 0,
    ensures
        skipped == (if spec_align_n_bytes(from as int, n as int) <= old(reader).remaining().len() {
            spec_align_n_bytes(from as int, n as int)
        } else {
            old(reader).remaining().len() as int
        }),
        final(reader).advanced(old(reader), skipped as int),
{
    let pad = align_n_bytes(from, n);
    reader.skip(pad as usize)
}

// ---------------------------------------------------------------------------
// Big-endian integers
// ---------------------------------------------------------------------------

/// The number that a byte string denotes when read most significant byte first.
pub open spec fn be_value(s: Seq<u8>) -> nat
    decreases s.len(),
{
    if s.len() == 0 {
        0
    } else {
        be_value(s.drop_last()) * 256 + s.last() as nat
    }
}

/// The `width` low-order bytes of `v`, most significant first.
pub open spec fn be_bytes(v: nat, width: nat) -> Seq<u8>
    decreases width,
{
    if width == 0 {
        Seq::empty()
    } else {
        be_bytes(v / 256, (width - 1) as nat).push((v % 256) as u8)
    }
}

/// 256 to the power `width`.
pub open spec fn pow256(width: nat) -> nat
    decreases width,
{
    if width == 0 {
        1
    } else {
        256 * pow256((width - 1) as nat)
    }
}

/// The powers of 256 that the widths of the integer types call for.
pub proof fn lemma_pow256_values()
    ensures
        pow256(0) == 1,
        pow256(1) == 0x100,
        pow256(2) == 0x1_0000,
        pow256(4) == 0x1_0000_0000,
        pow256(8) == 0x1_0000_0000_0000_0000,
{
    reveal_with_fuel(pow256, 9);
}

/// A number written in `width` bytes takes `width` bytes.
pub proof fn lemma_be_bytes_len(v: nat, width: nat)
    ensures
        be_bytes(v, width).len() == width,
    decreases width,
{
    if width > 0 {
        lemma_be_bytes_len(v / 256, (width - 1) as nat);
    }
}

/// A byte string of length `n` denotes a number below 256^n.
pub proof fn lemma_be_value_bound(s: Seq<u8>)
    ensures
        be_value(s) < pow256(s.len()),
    decreases s.len(),
{
    if s.len() > 0 {
        lemma_be_value_bound(s.drop_last());
        let hi = be_value(s.drop_last());
        let p = pow256((s.len() - 1) as nat);
        assert(hi * 256 + 255 < 256 * p) by (nonlinear_arith)
            requires
                hi < p,
        ;
    }
}

/// Writing a number in `width` bytes and reading it back gives the number,
/// provided it fits.
pub proof fn lemma_be_value_of_bytes(v: nat, width: nat)
    requires
        v < pow256(width),
    ensures
        be_value(be_bytes(v, width)) == v,
    decreases width,
{
    if width > 0 {
        let w1 = (width - 1) as nat;
        assert(v / 256 < pow256(w1)) by (nonlinear_arith)
            requires
                v < 256 * pow256(w1),
        ;
        lemma_be_value_of_bytes(v / 256, w1);
        let s = be_bytes(v, width);
        assert(s.drop_last() =~= be_bytes(v / 256, w1));
        assert(s.last() == (v % 256) as u8);
        assert((v / 256) * 256 + v % 256 == v) by (nonlinear_arith);
    }
}

/// Reads one byte from the front of `src` through `omnom::ReadExt::read_be`.
/// The outside function fills a one-byte buffer with `read_exact` and hands
/// back `u8::from_be_bytes` of it; on a slice that fails only when the slice
/// is empty.
#[verifier::external_body]
pub(crate) fn read_be_u8(src: &[u8]) -> (r: Option<u8>)
    ensures
        r is Some <==> src@.len() >= 1,
        r matches Some(v) ==> v as nat == be_value(src@.take(1)),
{
    let mut from = src;
    omnom::ReadExt::read_be::<u8>(&mut from).ok()
}

/// Reads two bytes from the front of `src` through `omnom::ReadExt::read_be`:
/// `u16::from_be_bytes` of the first two bytes, or nothing when fewer are there.
#[verifier::external_body]
pub(crate) fn read_be_u16(src: &[u8]) -> (r: Option<u16>)
    ensures
        r is Some <==> src@.len() >= 2,
        r matches Some(v) ==> v as nat == be_value(src@.take(2)),
{
    let mut from = src;
    omnom::ReadExt::read_be::<u16>(&mut from).ok()
}

/// Reads four bytes from the front of `src` through `omnom::ReadExt::read_be`:
/// `u32::from_be_bytes` of the first four bytes, or nothing when fewer are there.
#[verifier::external_body]
pub(crate) fn read_be_u32(src: &[u8]) -> (r: Option<u32>)
    ensures
        r is Some <==> src@.len() >= 4,
        r matches Some(v) ==> v as nat == be_value(src@.take(4)),
{
    let mut from = src;
    omnom::ReadExt::read_be::<u32>(&mut from).ok()
}

/// Reads eight bytes from the front of `src` through `omnom::ReadExt::read_be`:
/// `u64::from_be_bytes` of the first eight bytes, or nothing when fewer are there.
#[verifier::external_body]
pub(crate) fn read_be_u64(src: &[u8]) -> (r: Option<u64>)
    ensures
        r is Some <==> src@.len() >= 8,
        r matches Some(v) ==> v as nat == be_value(src@.take(8)),
{
    let mut from = src;
    omnom::ReadExt::read_be::<u64>(&mut from).ok()
}

/// Appends `v` to `out` through `omnom::WriteExt::write_be`, which hands
/// `v.to_be_bytes()` to `write_all`; on a `Vec<u8>` that appends and cannot fail.
#[verifier::external_body]
pub(crate) fn write_be_u8(out: &mut Vec<u8>, v: u8)
    ensures
        final(out)@ == old(out)@ + be_bytes(v as nat, 1),
{
    let _ = omnom::WriteExt::write_be(out, v);
}

/// Appends the two bytes of `v`, most significant first, through
/// `omnom::WriteExt::write_be`.
#[verifier::external_body]
pub(crate) fn write_be_u16(out: &mut Vec<u8>, v: u16)
    ensures
        final(out)@ == old(out)@ + be_bytes(v as nat, 2),
{
    let _ = omnom::WriteExt::write_be(out, v);
}

/// Appends the four bytes of `v`, most significant first, through
/// `omnom::WriteExt::write_be`.
#[verifier::external_body]
pub(crate) fn write_be_u32(out: &mut Vec<u8>, v: u32)
    ensures
        final(out)@ == old(out)@ + be_bytes(v as nat, 4),
{
    let _ = omnom::WriteExt::write_be(out, v);
}

/// Appends the eight bytes of `v`, most significant first, through
/// `omnom::WriteExt::write_be`.
#[verifier::external_body]
pub(crate) fn write_be_u64(out: &mut Vec<u8>, v: u64)
    ensures
        final(out)@ == old(out)@ + be_bytes(v as nat, 8),
{
    let _ = omnom::WriteExt::write_be(out, v);
}


// ---------------------------------------------------------------------------
// Hexadecimal text
// ---------------------------------------------------------------------------

/// What an ASCII hexadecimal digit, of either case, stands for.
pub open spec fn hex_digit_value(c: u8) -> Option<nat> {
    if 0x30 <= c <= 0x39 {
        Some((c - 0x30) as nat)
    } else if 0x61 <= c <= 0x66 {
        Some((c - 0x61 + 10) as nat)
    } else if 0x41 <= c <= 0x46 {
        Some((c - 0x41 + 10) as nat)
    } else {
        None
    }
}

/// Every byte is an ASCII hexadecimal digit.
pub open spec fn is_hex_string(s: Seq<u8>) -> bool {
    forall|i: int| 0 <= i < s.len() ==> (#[trigger] hex_digit_value(s[i])) is Some
}

/// An even number of hexadecimal digits: what spells whole bytes.
pub open spec fn is_hex_text(s: Seq<u8>) -> bool {
    s.len() % 2 == 0 && is_hex_string(s)
}

/// The number that a string of hexadecimal digits denotes.
pub open spec fn hex_value(s: Seq<u8>) -> nat
    decreases s.len(),
{
    if s.len() == 0 {
        0
    } else {
        hex_value(s.drop_last()) * 16 + match hex_digit_value(s.last()) {
            Some(d) => d,
            None => 0,
        }
    }
}

/// The bytes that a string of hexadecimal digits spells, two digits a byte.
pub open spec fn hex_decoded(s: Seq<u8>) -> Seq<u8> {
    Seq::new(
        (s.len() / 2) as nat,
        |i: int| (hex_digit_value(s[2 * i])->0 * 16 + hex_digit_value(s[2 * i + 1])->0) as u8,
    )
}

/// The lower-case ASCII digit for a value below sixteen.
pub open spec fn hex_digit(d: nat) -> u8 {
    if d < 10 {
        (0x30 + d) as u8
    } else {
        (0x61 + d - 10) as u8
    }
}

/// The `width` low-order hexadecimal digits of `v`, in lower case, most
/// significant first.
pub open spec fn hex_bytes(v: nat, width: nat) -> Seq<u8>
    decreases width,
{
    if width == 0 {
        Seq::empty()
    } else {
        hex_bytes(v / 16, (width - 1) as nat).push(hex_digit(v % 16))
    }
}

/// 16 to the power `width`.
pub open spec fn pow16(width: nat) -> nat
    decreases width,
{
    if width == 0 {
        1
    } else {
        16 * pow16((width - 1) as nat)
    }
}

/// The powers of 16 that a field of eight digits calls for.
pub proof fn lemma_pow16_values()
    ensures
        pow16(0) == 1,
        pow16(1) == 0x10,
        pow16(8) == 0x1_0000_0000,
{
    reveal_with_fuel(pow16, 9);
}

/// A number written in `width` digits takes `width` bytes.
pub proof fn lemma_hex_bytes_len(v: nat, width: nat)
    ensures
        hex_bytes(v, width).len() == width,
    decreases width,
{
    if width > 0 {
        lemma_hex_bytes_len(v / 16, (width - 1) as nat);
    }
}

/// What `hex_bytes` writes is made of hexadecimal digits and denotes the
/// number written, provided the number fits the width.
pub proof fn lemma_hex_value_of_bytes(v: nat, width: nat)
    requires
        v < pow16(width),
    ensures
        is_hex_string(hex_bytes(v, width)),
        hex_value(hex_bytes(v, width)) == v,
    decreases width,
{
    if width > 0 {
        let w1 = (width - 1) as nat;
        assert(v / 16 < pow16(w1)) by (nonlinear_arith)
            requires
                v < 16 * pow16(w1),
        ;
        lemma_hex_value_of_bytes(v / 16, w1);
        lemma_hex_bytes_len(v / 16, w1);
        let s = hex_bytes(v, width);
        let d = v % 16;
        assert(s.drop_last() =~= hex_bytes(v / 16, w1));
        assert(s.last() == hex_digit(d));
        assert(hex_digit_value(hex_digit(d)) == Some(d));
        assert((v / 16) * 16 + v % 16 == v) by (nonlinear_arith);
        assert forall|i: int| 0 <= i < s.len() implies (#[trigger] hex_digit_value(s[i])) is Some by {
            if i < s.len() - 1 {
                assert(s[i] == hex_bytes(v / 16, w1)[i]);
            }
        }
    }
}

/// The bytes that an even number of hexadecimal digits spells denote, read
/// most significant first, the number that the digits denote.
pub proof fn lemma_hex_decoded_value(s: Seq<u8>)
    requires
        s.len() % 2 == 0,
        is_hex_string(s),
    ensures
        be_value(hex_decoded(s)) == hex_value(s),
    decreases s.len(),
{
    if s.len() > 0 {
        let n = s.len() as int;
        let s1 = s.drop_last();
        let s2 = s1.drop_last();
        assert(s2.len() % 2 == 0);
        assert(is_hex_string(s2)) by {
            assert forall|i: int| 0 <= i < s2.len() implies (#[trigger] hex_digit_value(s2[i])) is Some by {
                assert(s2[i] == s[i]);
            }
        }
        lemma_hex_decoded_value(s2);
        let a = hex_digit_value(s[n - 2])->0;
        let b = hex_digit_value(s[n - 1])->0;
        assert(hex_digit_value(s[n - 2]) is Some);
        assert(hex_digit_value(s[n - 1]) is Some);
        assert(a < 16 && b < 16);
        assert(s1.last() == s[n - 2]);
        assert(s.last() == s[n - 1]);
        let d = hex_decoded(s);
        assert(d.len() == n / 2);
        assert(d.last() == (a * 16 + b) as u8);
        assert(d.drop_last() =~= hex_decoded(s2));
        assert(hex_value(s1) == hex_value(s2) * 16 + a);
        assert(hex_value(s) == hex_value(s1) * 16 + b);
    } else {
        assert(hex_decoded(s) =~= Seq::<u8>::empty());
    }
}

/// Decodes hexadecimal text through `hex::FromHex::from_hex` for `Vec<u8>`.
/// The outside function refuses a text of odd length and any byte that is
/// not one of `0-9`, `a-f`, `A-F`; otherwise each pair of digits gives one
/// byte, the first digit being the high half.
#[verifier::external_body]
pub(crate) fn hex_decode(src: &[u8]) -> (r: Option<Vec<u8>>)
    ensures
        r is Some <==> is_hex_text(src@),
        r matches Some(v) ==> v@ == hex_decoded(src@),
{
    <Vec<u8> as hex::FromHex>::from_hex(src).ok()
}

/// What reading a hexadecimal field of eight digits from the front of `s`
/// gives: the number, or nothing when `s` is short or holds another byte.
pub open spec fn parse_hex_u32(s: Seq<u8>) -> Option<u32> {
    if s.len() >= 8 && is_hex_string(s.take(8)) {
        Some(hex_value(s.take(8)) as u32)
    } else {
        None
    }
}

/// Eight hexadecimal digits denote a number that fits 32 bits.
pub proof fn lemma_hex_value_fits_u32(s: Seq<u8>)
    requires
        s.len() == 8,
        is_hex_string(s),
    ensures
        hex_value(s) <= u32::MAX,
{
    lemma_hex_decoded_value(s);
    lemma_be_value_bound(hex_decoded(s));
    lemma_pow256_values();
}

/// Reading back the eight digits written for `v` gives `v`, whatever follows.
pub proof fn lemma_parse_hex_u32_of_bytes(v: u32, rest: Seq<u8>)
    ensures
        parse_hex_u32(hex_bytes(v as nat, 8) + rest) == Some(v),
{
    lemma_pow16_values();
    lemma_hex_bytes_len(v as nat, 8);
    lemma_hex_value_of_bytes(v as nat, 8);
    assert((hex_bytes(v as nat, 8) + rest).take(8) =~= hex_bytes(v as nat, 8));
}

/// The digit character for `d`, which is below sixteen.
fn hex_char(d: u32) -> (c: u8)
    requires
        d < 16,
    ensures
        c == hex_digit(d as nat),
{
    if d < 10 {
        0x30 + d as u8
    } else {
        0x61 + (d - 10) as u8
    }
}

/// The eight digits of a 32-bit number, one by one.
proof fn lemma_hex_bytes_u32(v: u32)
    ensures
        hex_bytes(v as nat, 8) == seq![
            hex_digit(((v / 0x1000_0000) % 16) as nat),
            hex_digit(((v / 0x100_0000) % 16) as nat),
            hex_digit(((v / 0x10_0000) % 16) as nat),
            hex_digit(((v / 0x1_0000) % 16) as nat),
            hex_digit(((v / 0x1000) % 16) as nat),
            hex_digit(((v / 0x100) % 16) as nat),
            hex_digit(((v / 0x10) % 16) as nat),
            hex_digit((v % 16) as nat),
        ],
{
    let n = v as nat;
    let n1 = n / 16;
    let n2 = n1 / 16;
    let n3 = n2 / 16;
    let n4 = n3 / 16;
    let n5 = n4 / 16;
    let n6 = n5 / 16;
    let n7 = n6 / 16;
    assert(n1 == v / 0x10);
    assert(n2 == v / 0x100);
    assert(n3 == v / 0x1000);
    assert(n4 == v / 0x1_0000);
    assert(n5 == v / 0x10_0000);
    assert(n6 == v / 0x100_0000);
    assert(n7 == v / 0x1000_0000);
    assert(hex_bytes(n7 / 16, 0) =~= Seq::<u8>::empty());
    assert(hex_bytes(n7, 1) =~= seq![hex_digit(n7 % 16)]);
    assert(hex_bytes(n6, 2) =~= seq![hex_digit(n7 % 16), hex_digit(n6 % 16)]);
    assert(hex_bytes(n5, 3) =~= seq![hex_digit(n7 % 16), hex_digit(n6 % 16), hex_digit(n5 % 16)]);
    assert(hex_bytes(n4, 4) =~= seq![
        hex_digit(n7 % 16),
        hex_digit(n6 % 16),
        hex_digit(n5 % 16),
        hex_digit(n4 % 16),
    ]);
    assert(hex_bytes(n3, 5) =~= seq![
        hex_digit(n7 % 16),
        hex_digit(n6 % 16),
        hex_digit(n5 % 16),
        hex_digit(n4 % 16),
        hex_digit(n3 % 16),
    ]);
    assert(hex_bytes(n2, 6) =~= seq![
        hex_digit(n7 % 16),
        hex_digit(n6 % 16),
        hex_digit(n5 % 16),
        hex_digit(n4 % 16),
        hex_digit(n3 % 16),
        hex_digit(n2 % 16),
    ]);
    assert(hex_bytes(n1, 7) =~= seq![
        hex_digit(n7 % 16),
        hex_digit(n6 % 16),
        hex_digit(n5 % 16),
        hex_digit(n4 % 16),
        hex_digit(n3 % 16),
        hex_digit(n2 % 16),
        hex_digit(n1 % 16),
    ]);
    assert(hex_bytes(n, 8) =~= seq![
        hex_digit(n7 % 16),
        hex_digit(n6 % 16),
        hex_digit(n5 % 16),
        hex_digit(n4 % 16),
        hex_digit(n3 % 16),
        hex_digit(n2 % 16),
        hex_digit(n1 % 16),
        hex_digit(n % 16),
    ]);
}

/// Appends `v` as eight lower-case hexadecimal digits.
pub fn write_hex_u32(out: &mut Vec<u8>, v: u32)
    ensures
        final(out)@ == old(out)@ + hex_bytes(v as nat, 8),
{
    out.push(hex_char((v / 0x1000_0000) % 16));
    out.push(hex_char((v / 0x100_0000) % 16));
    out.push(hex_char((v / 0x10_0000) % 16));
    out.push(hex_char((v / 0x1_0000) % 16));
    out.push(hex_char((v / 0x1000) % 16));
    out.push(hex_char((v / 0x100) % 16));
    out.push(hex_char((v / 0x10) % 16));
    out.push(hex_char(v % 16));
    proof {
        lemma_hex_bytes_u32(v);
        assert(out@ =~= old(out)@ + hex_bytes(v as nat, 8));
    }
}


// ---------------------------------------------------------------------------
// Text
// ---------------------------------------------------------------------------

/// The text that `String::from_utf8_lossy` makes of a byte string: its
/// decoding where it is UTF-8, and otherwise a text in which each ill-formed
/// part is replaced by U+FFFD.
pub uninterp spec fn utf8_lossy(bytes: Seq<u8>) -> Seq<char>;

/// Converts bytes to text with `String::from_utf8_lossy`. Well-formed UTF-8
/// is decoded as it stands; of other input only the name above is known.
#[verifier::external_body]
pub(crate) fn string_from_utf8_lossy(bytes: &[u8]) -> (s: String)
    ensures
        s@ == utf8_lossy(bytes@),
        vstd::utf8::valid_utf8(bytes@) ==> s@ == vstd::utf8::decode_utf8(bytes@),
{
    String::from_utf8_lossy(bytes).into_owned()
}

/// The text that a lenient reading makes of a byte string: its decoding
/// where it is well-formed UTF-8, and what `utf8_lossy` names otherwise.
pub open spec fn lossy_text(bytes: Seq<u8>) -> Seq<char> {
    if vstd::utf8::valid_utf8(bytes) {
        vstd::utf8::decode_utf8(bytes)
    } else {
        utf8_lossy(bytes)
    }
}

/// Reads bytes as text, leniently.
pub fn text_of(bytes: &[u8]) -> (s: String)
    ensures
        s@ == lossy_text(bytes@),
{
    string_from_utf8_lossy(bytes)
}

/// Converts bytes to text with `String::from_utf8`, which accepts exactly
/// the well-formed UTF-8 byte strings.
#[verifier::external_body]
pub(crate) fn string_from_utf8(bytes: Vec<u8>) -> (r: Option<String>)
    ensures
        r is Some <==> vstd::utf8::valid_utf8(bytes@),
        r matches Some(s) ==> s@ == vstd::utf8::decode_utf8(bytes@),
{
    String::from_utf8(bytes).ok()
}

/// The decimal digit for a value below ten.
pub open spec fn decimal_digit(d: nat) -> char {
    (0x30 + d) as char
}

/// The decimal numeral of `n`, without leading zeros.
pub open spec fn decimal_digits(n: nat) -> Seq<char>
    decreases n,
{
    if n < 10 {
        seq![decimal_digit(n)]
    } else {
        decimal_digits(n / 10).push(decimal_digit(n % 10))
    }
}

/// Formats `n` with `ToString::to_string`, which for an unsigned integer
/// gives its decimal numeral.
#[verifier::external_body]
pub(crate) fn u64_to_decimal(n: u64) -> (s: String)
    ensures
        s@ == decimal_digits(n as nat),
{
    n.to_string()
}

/// The text of one character, made with `ToString::to_string`.
#[verifier::external_body]
pub(crate) fn char_to_string(c: char) -> (s: String)
    ensures
        s@ == seq![c],
{
    c.to_string()
}

/// The hexadecimal numeral of `n` in lower case, without leading zeros.
pub open spec fn hex_numeral(n: nat) -> Seq<char>
    decreases n,
{
    if n < 16 {
        seq![hex_digit(n) as char]
    } else {
        hex_numeral(n / 16).push(hex_digit(n % 16) as char)
    }
}

/// The items one after another, with `sep` between each two.
pub open spec fn joined(items: Seq<Seq<char>>, sep: Seq<char>) -> Seq<char>
    decreases items.len(),
{
    if items.len() == 0 {
        Seq::empty()
    } else if items.len() == 1 {
        items[0]
    } else {
        joined(items.drop_last(), sep) + sep + items.last()
    }
}

/// A list of bytes as the debug format with the hexadecimal flag prints it:
/// the numerals between square brackets, separated by a comma and a space.
pub open spec fn spec_debug_hex(b: Seq<u8>) -> Seq<char> {
    seq!['['] + joined(b.map_values(|x: u8| hex_numeral(x as nat)), seq![',', ' ']) + seq![']']
}

/// Formats bytes with `format!("{:x?}", ..)`: the debug form of a list, each
/// byte in lower-case hexadecimal without leading zeros.
#[verifier::external_body]
pub(crate) fn debug_hex(bytes: &Vec<u8>) -> (s: String)
    ensures
        s@ == spec_debug_hex(bytes@),
{
    format!("{:x?}", bytes)
}

/// The texts of `items` joined by `sep`.
pub fn join_strings(items: &Vec<String>, sep: &str) -> (s: String)
    ensures
        s@ == joined(items.deep_view(), sep@),
{
    let mut out = String::new();
    let mut i: usize = 0;
    let ghost texts = items.deep_view();
    while i < items.len()
        invariant
            i <= items.len(),
            texts == items.deep_view(),
            out@ == joined(texts.take(i as int), sep@),
        decreases items.len() - i,
    {
        proof {
            let next = texts.take(i + 1);
            assert(next.drop_last() =~= texts.take(i as int));
            assert(next.last() == items[i as int]@);
            if i == 0 {
                assert(joined(next, sep@) =~= items[i as int]@);
                assert(joined(texts.take(0), sep@) =~= Seq::<char>::empty());
            }
        }
        if i > 0 {
            out.append(sep);
        }
        out.append(items[i].as_str());
        i = i + 1;
        proof {
            assert(out@ =~= joined(texts.take(i as int), sep@));
        }
    }
    proof {
        assert(texts.take(items.len() as int) =~= texts);
    }
    out
}

/// Index of the first zero byte at or after `start`, if there is one.
pub open spec fn nul_position_from(b: Seq<u8>, start: int) -> Option<int>
    decreases b.len() - start,
{
    if start < 0 || start >= b.len() {
        None
    } else if b[start] == 0 {
        Some(start)
    } else {
        nul_position_from(b, start + 1)
    }
}

/// Index of the first zero byte, if there is one.
pub open spec fn nul_position(b: Seq<u8>) -> Option<int> {
    nul_position_from(b, 0)
}

/// The bytes before the first zero byte; nothing at all when no byte is zero.
pub open spec fn until_nul(b: Seq<u8>) -> Seq<u8> {
    match nul_position(b) {
        Some(i) => b.take(i),
        None => Seq::empty(),
    }
}

/// The text of a NUL-terminated field.
pub open spec fn spec_parse_string(b: Seq<u8>) -> Seq<char> {
    lossy_text(until_nul(b))
}

/// The pieces between zero bytes: one more piece than there are zero bytes.
pub open spec fn split_on_nul(b: Seq<u8>) -> Seq<Seq<u8>>
    decreases b.len(),
{
    match nul_position(b) {
        Some(i) => if 0 <= i < b.len() {
            seq![b.take(i)] + split_on_nul(b.skip(i + 1))
        } else {
            seq![b]
        },
        None => seq![b],
    }
}

/// The texts of the first `count` NUL-separated pieces, or of all the pieces
/// when there are fewer.
pub open spec fn spec_parse_strings(b: Seq<u8>, count: nat) -> Seq<Seq<char>> {
    let pieces = split_on_nul(b);
    let n = if count <= pieces.len() {
        count
    } else {
        pieces.len()
    };
    Seq::new(n, |i: int| lossy_text(pieces[i]))
}

/// The position found is that of the first zero byte from `start` on;
/// where none is found, there is none.
pub proof fn lemma_nul_position_from(b: Seq<u8>, start: int)
    requires
        0 <= start,
    ensures
        match nul_position_from(b, start) {
            Some(i) => start <= i < b.len() && b[i] == 0 && forall|j: int|
                start <= j < i ==> b[j] != 0,
            None => forall|j: int| start <= j < b.len() ==> b[j] != 0,
        },
    decreases b.len() - start,
{
    if start < b.len() && b[start] != 0 {
        lemma_nul_position_from(b, start + 1);
    }
}

/// The first zero byte of a suffix is the first zero byte of the whole at or
/// after the start of the suffix.
pub proof fn lemma_nul_position_skip(b: Seq<u8>, start: int)
    requires
        0 <= start <= b.len(),
    ensures
        nul_position(b.skip(start)) == match nul_position_from(b, start) {
            Some(i) => Some(i - start),
            None => None,
        },
{
    lemma_nul_position_from(b, start);
    lemma_nul_position_from(b.skip(start), 0);
    let t = b.skip(start);
    match nul_position_from(b, start) {
        Some(i) => {
            assert(t[i - start] == b[i]);
            match nul_position(t) {
                Some(k) => {
                    assert(t[k] == b[k + start]);
                    if k < i - start {
                        assert(b[k + start] != 0);
                    }
                    if k > i - start {
                        assert(t[i - start] != 0);
                    }
                },
                None => {},
            }
        },
        None => {
            match nul_position(t) {
                Some(k) => {
                    assert(t[k] == b[k + start]);
                },
                None => {},
            }
        },
    }
}

/// Finds the first zero byte at or after `start`.
pub fn find_nul(bytes: &[u8], start: usize) -> (r: Option<usize>)
    ensures
        match r {
            Some(i) => nul_position_from(bytes@, start as int) == Some(i as int),
            None => nul_position_from(bytes@, start as int) is None,
        },
{
    let mut i: usize = start;
    while i < bytes.len()
        invariant
            start <= i,
            nul_position_from(bytes@, start as int) == nul_position_from(bytes@, i as int),
        decreases bytes.len() - i,
    {
        if bytes[i] == 0 {
            return Some(i);
        }
        i = i + 1;
    }
    None
}

/// Reads a NUL-terminated text: the bytes before the first zero byte,
/// decoded leniently. A field without a zero byte reads as the empty text.
pub fn parse_string(bytes: &[u8]) -> (s: String)
    ensures
        s@ == spec_parse_string(bytes@),
{
    let position = match find_nul(bytes, 0) {
        Some(i) => i,
        None => 0,
    };
    proof {
        lemma_nul_position_from(bytes@, 0);
    }
    let head = vstd::slice::slice_subrange(bytes, 0, position);
    assert(head@ =~= until_nul(bytes@));
    text_of(head)
}

/// Reads up to `count` NUL-separated texts, each decoded leniently.
pub fn parse_strings(bytes: &[u8], count: usize) -> (v: Vec<String>)
    ensures
        v.deep_view() == spec_parse_strings(bytes@, count as nat),
{
    let mut out: Vec<String> = Vec::new();
    let mut pos: usize = 0;
    let mut done: bool = false;
    let total: usize = bytes.len();
    let ghost pieces = split_on_nul(bytes@);
    proof {
        assert(bytes@.skip(0) =~= bytes@);
    }
    while !done && out.len() < count
        invariant
            pos <= bytes@.len(),
            total == bytes@.len(),
            pieces == split_on_nul(bytes@),
            out@.len() <= count,
            out@.len() <= pieces.len(),
            !done ==> pieces =~= pieces.take(out@.len() as int) + split_on_nul(bytes@.skip(pos as int)),
            done ==> out@.len() == pieces.len(),
            forall|i: int| 0 <= i < out@.len() ==> (#[trigger] out@[i])@ == lossy_text(pieces[i]),
        decreases (if done { 0int } else { 1int }), bytes@.len() - pos,
    {
        let ghost rest = bytes@.skip(pos as int);
        let ghost k = out@.len() as int;
        proof {
            lemma_nul_position_skip(bytes@, pos as int);
            lemma_nul_position_from(bytes@, pos as int);
        }
        match find_nul(bytes, pos) {
            Some(j) => {
                let piece = vstd::slice::slice_subrange(bytes, pos, j);
                proof {
                    assert(piece@ =~= rest.take(j - pos));
                    assert(rest.skip(j - pos + 1) =~= bytes@.skip(j + 1));
                    assert(split_on_nul(rest) == seq![rest.take(j - pos)] + split_on_nul(
                        rest.skip(j - pos + 1),
                    ));
                    assert(pieces[k] == (pieces.take(k) + split_on_nul(rest))[k]);
                    assert(pieces[k] == piece@);
                    assert(pieces =~= pieces.take(k + 1) + split_on_nul(bytes@.skip(j + 1)));
                }
                out.push(text_of(piece));
                assert(j < bytes@.len());
                pos = j + 1;
            },
            None => {
                let piece = vstd::slice::slice_subrange(bytes, pos, total);
                proof {
                    assert(piece@ =~= rest);
                    assert(split_on_nul(rest) == seq![rest]);
                    assert(pieces[k] == (pieces.take(k) + split_on_nul(rest))[k]);
                    assert(pieces.len() == k + 1);
                }
                out.push(text_of(piece));
                done = true;
            },
        }
    }
    proof {
        if !done {
            // The requested number of pieces has been read; it remains to see
            // that at least that many exist, which the invariant states.
            assert(out@.len() == count);
        }
        assert(out.deep_view() =~= spec_parse_strings(bytes@, count as nat));
    }
    out
}


// ---------------------------------------------------------------------------
// Hexadecimal fields on sources and sinks
// ---------------------------------------------------------------------------

/// A sink that takes 32-bit numbers as eight hexadecimal digits.
pub trait HexWriter {
    fn write_u32_as_hex(&mut self, from: u32) -> Result<(), Error>;
}

impl HexWriter for Vec<u8> {
    /// Appends eight lower-case digits; a vector never refuses them.
    fn write_u32_as_hex(&mut self, from: u32) -> (r: Result<(), Error>)
        ensures
            r is Ok,
            final(self)@ == old(self)@ + hex_bytes(from as nat, 8),
    {
        write_hex_u32(self, from);
        Ok(())
    }
}

/// A source that gives 32-bit numbers written as eight hexadecimal digits.
pub trait HexReader {
    fn read_hex_as_u32(&mut self) -> Result<u32, Error>;
}

impl<'a> HexReader for ByteReader<'a> {
    /// Reads exactly eight digits of either case. A short source and a byte
    /// that is no digit are both `InvalidData`, and then nothing is consumed.
    fn read_hex_as_u32(&mut self) -> (r: Result<u32, Error>)
        ensures
            match r {
                Ok(v) => {
                    &&& parse_hex_u32(old(self).remaining()) == Some(v)
                    &&& final(self).advanced(old(self), 8)
                },
                Err(e) => {
                    &&& parse_hex_u32(old(self).remaining()) is None
                    &&& e.kind == ErrorKind::InvalidData
                    &&& final(self).unmoved(old(self))
                },
            },
    {
        let start = self.position();
        let raw = match self.read_exact(8) {
            Ok(raw) => raw,
            Err(_) => {
                return Err(Error::new(ErrorKind::InvalidData, "Error: can not parse hex: short field"));
            },
        };
        match hex_decode(raw) {
            Some(bytes) => {
                proof {
                    lemma_hex_decoded_value(raw@);
                    lemma_hex_value_fits_u32(raw@);
                    assert(bytes@.take(4) =~= bytes@);
                }
                match read_be_u32(bytes.as_slice()) {
                    Some(v) => Ok(v),
                    None => {
                        self.seek(start);
                        Err(Error::new(ErrorKind::InvalidData, "Error: can not parse hex"))
                    },
                }
            },
            None => {
                self.seek(start);
                assert(self.remaining() =~= old(self).remaining());
                Err(Error::new(ErrorKind::InvalidData, "Error: can not parse hex"))
            },
        }
    }
}


/// Whether two byte strings are the same.
pub fn bytes_eq(a: &[u8], b: &[u8]) -> (same: bool)
    ensures
        same == (a@ == b@),
{
    if a.len() != b.len() {
        return false;
    }
    let mut i: usize = 0;
    while i < a.len()
        invariant
            i <= a@.len(),
            a@.len() == b@.len(),
            forall|j: int| 0 <= j < i ==> a@[j] == b@[j],
        decreases a@.len() - i,
    {
        if a[i] != b[i] {
            return false;
        }
        i = i + 1;
    }
    assert(a@ =~= b@);
    true
}

/// Whether two texts are the same.
pub fn text_eq(a: &str, b: &str) -> (same: bool)
    ensures
        same == (a@ == b@),
{
    proof {
        vstd::utf8::encode_utf8_decode_utf8(a@);
        vstd::utf8::encode_utf8_decode_utf8(b@);
    }
    bytes_eq(a.as_bytes(), b.as_bytes())
}

} // verus!
