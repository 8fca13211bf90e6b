//! Text forms of message fields: integers as decimal strings, 32-byte
//! values as lowercase hex with a `0x` prefix.
use vstd::prelude::*;
use vstd::string::StringSliceAdditionalSpecFns;
use vstd::utf8::{
    decode_utf8, encode_utf8, encode_utf8_decode_utf8, encode_utf8_valid_utf8,
    is_ascii_chars, is_ascii_chars_encode_utf8, valid_utf8,
};

use crate::error::CodecError;

verus! {

/// Whether `c` is the byte of a decimal digit.
pub open spec fn is_digit(c: u8) -> bool {
    48 <= c <= 57
}

/// Whether every byte of `s` is a decimal digit.
pub open spec fn all_digits(s: Seq<u8>) -> bool {
    forall|i: int| 0 <= i < s.len() ==> is_digit(#[trigger] s[i])
}

/// The number that a run of decimal digits writes.
pub open spec fn digits_value(s: Seq<u8>) -> nat
    decreases s.len(),
{
    if s.len() == 0 {
        0
    } else {
        digits_value(s.drop_last()) * 10 + (s.last() - 48) as nat
    }
}

/// The decimal digits of `v`, without leading zeros.
pub open spec fn decimal_bytes(v: nat) -> Seq<u8>
    decreases v,
{
    if v < 10 {
        seq![(48 + v) as u8]
    } else {
        decimal_bytes(v / 10).push((48 + v % 10) as u8)
    }
}

/// The characters of an ASCII byte string.
pub open spec fn ascii_chars(b: Seq<u8>) -> Seq<char> {
    Seq::new(b.len(), |i: int| b[i] as char)
}

/// The lowercase hex digit of a value below 16.
pub open spec fn hex_digit(v: u8) -> u8 {
    if v < 10 {
        (48 + v) as u8
    } else {
        (87 + v) as u8
    }
}

/// Two lowercase hex digits for each byte of `b`.
pub open spec fn hex_bytes(b: Seq<u8>) -> Seq<u8>
    decreases b.len(),
{
    if b.len() == 0 {
        seq![]
    } else {
        hex_bytes(b.drop_last()) + seq![hex_digit(b.last() / 16), hex_digit(b.last() % 16)]
    }
}

/// Whether `c` is a hex digit, in either case.
pub open spec fn is_hex_digit(c: u8) -> bool {
    (48 <= c <= 57) || (97 <= c <= 102) || (65 <= c <= 70)
}

/// The value of a hex digit.
pub open spec fn hex_value(c: u8) -> u8 {
    if 48 <= c <= 57 {
        (c - 48) as u8
    } else if 97 <= c <= 102 {
        (c - 87) as u8
    } else {
        (c - 55) as u8
    }
}

/// `s` without a leading `0x`, if it has one.
pub open spec fn strip_hex_prefix(s: Seq<u8>) -> Seq<u8> {
    if s.len() >= 2 && s[0] == 48 && s[1] == 120 {
        s.subrange(2, s.len() as int)
    } else {
        s
    }
}

/// Whether `s` is a `0x` prefix, if any, and then 64 hex digits.
pub open spec fn is_hex32(s: Seq<u8>) -> bool {
    strip_hex_prefix(s).len() == 64 && forall|i: int|
        0 <= i < 64 ==> is_hex_digit(#[trigger] strip_hex_prefix(s)[i])
}

/// The 32 bytes that the hex digits of `s` write, two digits to a byte.
pub open spec fn hex32_value(s: Seq<u8>) -> Seq<u8> {
    Seq::new(
        32,
        |i: int|
            (hex_value(strip_hex_prefix(s)[2 * i]) * 16 + hex_value(strip_hex_prefix(s)[2 * i + 1])) as u8,
    )
}

/// Relies on `String::from_utf8`: it succeeds exactly on valid UTF-8, and
/// the string then holds the characters that the bytes encode.
#[verifier::external_body]
pub(crate) fn string_from_utf8(bytes: Vec<u8>) -> (r: Option<String>)
    ensures
        r is Some <==> valid_utf8(bytes@),
        r is Some ==> r->0@ == decode_utf8(bytes@),
{
    String::from_utf8(bytes).ok()
}

/// ASCII bytes are valid UTF-8 and decode to one character each.
proof fn lemma_ascii_decode(b: Seq<u8>)
    requires
        forall|i: int| 0 <= i < b.len() ==> #[trigger] b[i] < 128,
    ensures
        valid_utf8(b),
        decode_utf8(b) == ascii_chars(b),
{
    let c = ascii_chars(b);
    assert forall|i: int| 0 <= i < c.len() implies '\0' <= #[trigger] c[i] <= '\u{7f}' by {
        assert(b[i] < 128);
    }
    assert(is_ascii_chars(c));
    is_ascii_chars_encode_utf8(c);
    assert forall|i: int| 0 <= i < b.len() implies #[trigger] encode_utf8(c)[i] == b[i] by {
        assert(c[i] as u8 == encode_utf8(c)[i]);
    }
    assert(encode_utf8(c) =~= b);
    encode_utf8_valid_utf8(c);
    encode_utf8_decode_utf8(c);
}

/// The string of ASCII bytes.
fn ascii_string(bytes: Vec<u8>) -> (r: String)
    requires
        forall|i: int| 0 <= i < bytes@.len() ==> #[trigger] bytes@[i] < 128,
    ensures
        r@ == ascii_chars(bytes@),
{
    proof {
        lemma_ascii_decode(bytes@);
    }
    match string_from_utf8(bytes) {
        Some(s) => s,
        None => {
            proof {
                assert(false);
            }
            String::new()
        },
    }
}

/// Every byte of a decimal rendering is a digit.
proof fn lemma_decimal_digits(v: nat)
    ensures
        decimal_bytes(v).len() > 0,
        all_digits(decimal_bytes(v)),
        digits_value(decimal_bytes(v)) == v,
    decreases v,
{
    if v < 10 {
        let d = decimal_bytes(v);
        assert(d.drop_last() =~= Seq::<u8>::empty());
        assert(d.last() == (48 + v) as u8);
        assert(digits_value(d) == digits_value(d.drop_last()) * 10 + (d.last() - 48) as nat);
        assert(is_digit(d[0]));
    } else {
        lemma_decimal_digits(v / 10);
        let d = decimal_bytes(v);
        assert(d.drop_last() =~= decimal_bytes(v / 10));
        assert(d.last() == (48 + v % 10) as u8);
        assert(digits_value(d.drop_last()) == v / 10);
        assert(digits_value(d) == digits_value(d.drop_last()) * 10 + (d.last() - 48) as nat);
        assert((d.last() - 48) as nat == v % 10);
        assert(v == (v / 10) * 10 + v % 10);
        assert forall|i: int| 0 <= i < d.len() implies is_digit(#[trigger] d[i]) by {
            if i < d.len() - 1 {
                assert(d[i] == decimal_bytes(v / 10)[i]);
            }
        }
    }
}

/// A run of digits is worth at least as much as any of its prefixes.
proof fn lemma_digits_value_prefix(t: Seq<u8>, k: int)
    requires
        all_digits(t),
        0 <= k <= t.len(),
    ensures
        digits_value(t.subrange(0, k)) <= digits_value(t),
    decreases t.len(),
{
    if k < t.len() {
        let u = t.drop_last();
        assert(all_digits(u)) by {
            assert forall|i: int| 0 <= i < u.len() implies is_digit(#[trigger] u[i]) by {
                assert(u[i] == t[i]);
            }
        }
        lemma_digits_value_prefix(u, k);
        assert(u.subrange(0, k) =~= t.subrange(0, k));
    } else {
        assert(t.subrange(0, k) =~= t);
    }
}

/// Appends the decimal digits of `v`.
fn write_decimal(v: u128, out: &mut Vec<u8>)
    ensures
        final(out)@ == old(out)@ + decimal_bytes(v as nat),
    decreases v,
{
    if v >= 10 {
        write_decimal(v / 10, out);
    }
    let d: u8 = (v % 10) as u8;
    out.push(48 + d);
    assert(final(out)@ =~= old(out)@ + decimal_bytes(v as nat));
}

/// The decimal string of `v`.
pub fn serialize_u128(v: u128) -> (r: String)
    ensures
        r@ == ascii_chars(decimal_bytes(v as nat)),
{
    let mut out: Vec<u8> = Vec::new();
    write_decimal(v, &mut out);
    proof {
        lemma_decimal_digits(v as nat);
        assert(out@ =~= decimal_bytes(v as nat));
        assert forall|i: int| 0 <= i < out@.len() implies #[trigger] out@[i] < 128 by {
            assert(is_digit(out@[i]));
        }
    }
    ascii_string(out)
}

/// The decimal string of `v`.
pub fn serialize_u64(v: u64) -> (r: String)
    ensures
        r@ == ascii_chars(decimal_bytes(v as nat)),
{
    serialize_u128(v as u128)
}

/// The decimal string of `v`, with a `-` before a negative value.
pub fn serialize_i128(v: i128) -> (r: String)
    ensures
        v >= 0 ==> r@ == ascii_chars(decimal_bytes(v as nat)),
        v < 0 ==> r@ == ascii_chars(seq![45u8] + decimal_bytes((-v) as nat)),
{
    let mut out: Vec<u8> = Vec::new();
    let magnitude: u128 = if v >= 0 {
        v as u128
    } else {
        out.push(45);
        (-(v + 1)) as u128 + 1
    };
    let ghost start = out@;
    write_decimal(magnitude, &mut out);
    proof {
        lemma_decimal_digits(magnitude as nat);
        assert forall|i: int| 0 <= i < out@.len() implies #[trigger] out@[i] < 128 by {
            if i >= start.len() {
                assert(is_digit(decimal_bytes(magnitude as nat)[i - start.len()]));
            }
        }
        if v >= 0 {
            assert(out@ =~= decimal_bytes(v as nat));
        } else {
            assert(out@ =~= seq![45u8] + decimal_bytes((-v) as nat));
        }
    }
    ascii_string(out)
}

/// Reads a run of decimal digits whose value is at most `max`.
fn parse_digits(b: &[u8], from: usize, max: u128) -> (r: Result<u128, CodecError>)
    requires
        from <= b@.len(),
        max >= 9,
    ensures
        ({
            let t = b@.subrange(from as int, b@.len() as int);
            &&& (t.len() > 0 && all_digits(t) && digits_value(t) <= max) ==> r == Ok::<u128, CodecError>(
                digits_value(t) as u128,
            )
            &&& !(t.len() > 0 && all_digits(t) && digits_value(t) <= max) ==> r == Err::<u128, CodecError>(
                CodecError::DecodeError,
            )
        }),
{
    let ghost t = b@.subrange(from as int, b@.len() as int);
    if from == b.len() {
        return Err(CodecError::DecodeError);
    }
    let mut v: u128 = 0;
    let mut i: usize = from;
    while i < b.len()
        invariant
            from <= i <= b@.len(),
            t == b@.subrange(from as int, b@.len() as int),
            all_digits(b@.subrange(from as int, i as int)),
            v as nat == digits_value(b@.subrange(from as int, i as int)),
            v <= max,
            max >= 9,
        decreases b@.len() - i,
    {
        let ghost prefix = b@.subrange(from as int, i + 1);
        assert(prefix.drop_last() =~= b@.subrange(from as int, i as int));
        let c = b[i];
        if c < 48 || c > 57 {
            proof {
                assert(t[i - from] == c);
            }
            return Err(CodecError::DecodeError);
        }
        let d: u128 = (c - 48) as u128;
        assert(d <= 9);
        if v > (max - d) / 10 {
            proof {
                assert(t.subrange(0, i + 1 - from) =~= prefix);
                if all_digits(t) {
                    lemma_digits_value_prefix(t, i + 1 - from);
                }
                assert(v * 10 + d > max) by (nonlinear_arith)
                    requires
                        v > (max - d) / 10,
                        d <= max,
                ;
            }
            return Err(CodecError::DecodeError);
        }
        assert(v * 10 + d <= max) by (nonlinear_arith)
            requires
                v <= (max - d) / 10,
                d <= max,
        ;
        v = v * 10 + d;
        i = i + 1;
    }
    assert(b@.subrange(from as int, i as int) =~= t);
    Ok(v)
}

/// The value of a decimal string of at most `u128::MAX`; anything else is refused.
pub fn deserialize_u128(s: &str) -> (r: Result<u128, CodecError>)
    ensures
        ({
            let b = s.spec_bytes();
            &&& (b.len() > 0 && all_digits(b) && digits_value(b) <= u128::MAX) ==> r == Ok::<u128, CodecError>(
                digits_value(b) as u128,
            )
            &&& !(b.len() > 0 && all_digits(b) && digits_value(b) <= u128::MAX) ==> r == Err::<u128, CodecError>(
                CodecError::DecodeError,
            )
        }),
{
    let b = s.as_bytes();
    assert(b@.subrange(0, b@.len() as int) =~= b@);
    parse_digits(b, 0, u128::MAX)
}

/// The value of a decimal string of at most `u64::MAX`; anything else is refused.
pub fn deserialize_u64(s: &str) -> (r: Result<u64, CodecError>)
    ensures
        ({
            let b = s.spec_bytes();
            &&& (b.len() > 0 && all_digits(b) && digits_value(b) <= u64::MAX) ==> r == Ok::<u64, CodecError>(
                digits_value(b) as u64,
            )
            &&& !(b.len() > 0 && all_digits(b) && digits_value(b) <= u64::MAX) ==> r == Err::<u64, CodecError>(
                CodecError::DecodeError,
            )
        }),
{
    let b = s.as_bytes();
    assert(b@.subrange(0, b@.len() as int) =~= b@);
    let v = parse_digits(b, 0, u64::MAX as u128)?;
    Ok(v as u64)
}

/// The value of a decimal string with an optional leading `-`, within the
/// range of `i128`; anything else is refused.
pub fn deserialize_i128(s: &str) -> (r: Result<i128, CodecError>)
    ensures
        ({
            let b = s.spec_bytes();
            let neg = b.len() > 0 && b[0] == 45;
            let t = if neg { b.subrange(1, b.len() as int) } else { b };
            let v: int = if neg { -digits_value(t) } else { digits_value(t) as int };
            &&& (t.len() > 0 && all_digits(t) && i128::MIN <= v <= i128::MAX) ==> r == Ok::<i128, CodecError>(
                v as i128,
            )
            &&& !(t.len() > 0 && all_digits(t) && i128::MIN <= v <= i128::MAX) ==> r == Err::<i128, CodecError>(
                CodecError::DecodeError,
            )
        }),
{
    let b = s.as_bytes();
    if b.len() > 0 && b[0] == 45 {
        let m = parse_digits(b, 1, 0x8000_0000_0000_0000_0000_0000_0000_0000)?;
        if m == 0x8000_0000_0000_0000_0000_0000_0000_0000 {
            Ok(i128::MIN)
        } else {
            Ok(-(m as i128))
        }
    } else {
        assert(b@.subrange(0, b@.len() as int) =~= b@);
        let m = parse_digits(b, 0, 0x7fff_ffff_ffff_ffff_ffff_ffff_ffff_ffff)?;
        Ok(m as i128)
    }
}

/// `0x` and then two lowercase hex digits for each of the 32 bytes.
pub fn serialize_bytes32(b: [u8; 32]) -> (r: String)
    ensures
        r@ == ascii_chars(seq![48u8, 120u8] + hex_bytes(b@)),
{
    let mut out: Vec<u8> = Vec::new();
    out.push(48);
    out.push(120);
    let mut i: usize = 0;
    while i < 32
        invariant
            i <= 32,
            out@ == seq![48u8, 120u8] + hex_bytes(b@.subrange(0, i as int)),
            forall|j: int| 0 <= j < out@.len() ==> #[trigger] out@[j] < 128,
        decreases 32 - i,
    {
        let x = b[i];
        let hi: u8 = x / 16;
        let lo: u8 = x % 16;
        let h: u8 = if hi < 10 { 48 + hi } else { 87 + hi };
        let l: u8 = if lo < 10 { 48 + lo } else { 87 + lo };
        out.push(h);
        out.push(l);
        proof {
            let p = b@.subrange(0, i + 1);
            assert(p.drop_last() =~= b@.subrange(0, i as int));
            assert(out@ =~= seq![48u8, 120u8] + hex_bytes(p));
        }
        i = i + 1;
    }
    assert(b@.subrange(0, 32) =~= b@);
    ascii_string(out)
}

/// The value of a hex digit, or `None` for any other byte.
fn hex_digit_value(c: u8) -> (r: Option<u8>)
    ensures
        is_hex_digit(c) ==> r == Some(hex_value(c)),
        !is_hex_digit(c) ==> r is None,
{
    if 48 <= c && c <= 57 {
        Some(c - 48)
    } else if 97 <= c && c <= 102 {
        Some(c - 87)
    } else if 65 <= c && c <= 70 {
        Some(c - 55)
    } else {
        None
    }
}

/// The 32 bytes written as 64 hex digits, after an optional `0x`; any other
/// text is refused.
pub fn deserialize_bytes32(s: &str) -> (r: Result<[u8; 32], CodecError>)
    ensures
        is_hex32(s.spec_bytes()) ==> r is Ok && r->Ok_0@ == hex32_value(s.spec_bytes()),
        !is_hex32(s.spec_bytes()) ==> r == Err::<[u8; 32], CodecError>(CodecError::DecodeError),
{
    let b = s.as_bytes();
    let ghost t = strip_hex_prefix(b@);
    let from: usize = if b.len() >= 2 && b[0] == 48 && b[1] == 120 { 2 } else { 0 };
    assert(t =~= b@.subrange(from as int, b@.len() as int));
    if b.len() - from != 64 {
        return Err(CodecError::DecodeError);
    }
    let mut out = [0u8; 32];
    let mut i: usize = 0;
    while i < 32
        invariant
            i <= 32,
            from <= 2,
            from + 64 == b@.len(),
            t == strip_hex_prefix(b@),
            b@ == s.spec_bytes(),
            t =~= b@.subrange(from as int, b@.len() as int),
            forall|j: int| 0 <= j < 2 * i ==> is_hex_digit(#[trigger] t[j]),
            forall|j: int| 0 <= j < i ==> #[trigger] out@[j] == hex32_value(b@)[j],
        decreases 32 - i,
    {
        assert(t[2 * i as int] == b@[from + 2 * i]);
        assert(t[2 * i + 1] == b@[from + 2 * i + 1]);
        let hi = hex_digit_value(b[from + 2 * i]);
        let lo = hex_digit_value(b[from + 2 * i + 1]);
        match (hi, lo) {
            (Some(h), Some(l)) => {
                assert(h < 16 && l < 16);
                let ghost before = out@;
                out[i] = h * 16 + l;
                assert(hex32_value(b@)[i as int] == (h * 16 + l) as u8);
                assert forall|j: int| 0 <= j < i + 1 implies #[trigger] out@[j] == hex32_value(b@)[j] by {
                    if j < i {
                        assert(out@[j] == before[j]);
                    }
                }
            },
            _ => {
                proof {
                    if hi is None {
                        assert(!is_hex_digit(strip_hex_prefix(b@)[2 * i as int]));
                    } else {
                        assert(!is_hex_digit(strip_hex_prefix(b@)[2 * i + 1]));
                    }
                    assert(!is_hex32(b@));
                }
                return Err(CodecError::DecodeError);
            },
        }
        i = i + 1;
    }
    assert(out@ =~= hex32_value(b@));
    Ok(out)
}

/// The text form of each 32-byte value, in order.
pub fn serialize_vec_bytes32(v: &Vec<[u8; 32]>) -> (r: Vec<String>)
    ensures
        r@.len() == v@.len(),
        forall|i: int|
            0 <= i < v@.len() ==> (#[trigger] r@[i])@ == ascii_chars(seq![48u8, 120u8] + hex_bytes(v@[i]@)),
{
    let mut r: Vec<String> = Vec::new();
    let mut i: usize = 0;
    while i < v.len()
        invariant
            i <= v@.len(),
            r@.len() == i,
            forall|j: int|
                0 <= j < i ==> (#[trigger] r@[j])@ == ascii_chars(seq![48u8, 120u8] + hex_bytes(v@[j]@)),
        decreases v@.len() - i,
    {
        r.push(serialize_bytes32(v[i]));
        i = i + 1;
    }
    r
}

/// The 32-byte values that a list of text forms writes; the whole list is
/// refused if any of its entries is.
pub fn deserialize_vec_bytes32(v: &Vec<String>) -> (r: Result<Vec<[u8; 32]>, CodecError>)
    ensures
        (forall|i: int| 0 <= i < v@.len() ==> is_hex32(encode_utf8(#[trigger] v@[i]@))) ==> r is Ok
            && r->Ok_0@.len() == v@.len() && forall|i: int|
            0 <= i < v@.len() ==> (#[trigger] r->Ok_0@[i])@ == hex32_value(encode_utf8(v@[i]@)),
        !(forall|i: int| 0 <= i < v@.len() ==> is_hex32(encode_utf8(#[trigger] v@[i]@))) ==> r
            == Err::<Vec<[u8; 32]>, CodecError>(CodecError::DecodeError),
{
    let mut out: Vec<[u8; 32]> = Vec::new();
    let mut i: usize = 0;
    while i < v.len()
        invariant
            i <= v@.len(),
            out@.len() == i,
            forall|j: int| 0 <= j < i ==> is_hex32(encode_utf8(#[trigger] v@[j]@)),
            forall|j: int| 0 <= j < i ==> (#[trigger] out@[j])@ == hex32_value(encode_utf8(v@[j]@)),
        decreases v@.len() - i,
    {
        let b = deserialize_bytes32(v[i].as_str())?;
        out.push(b);
        i = i + 1;
    }
    Ok(out)
}

} // verus!
