//! UTF-16 and UTF-32 in both byte orders, with and without a byte-order mark.

use crate::error::{chars_result, ErrorView, NkfError};
use crate::names::{lemma_canonical_names_fixed, normalize_encoding, spec_normalize};
use crate::text::{chars_eq_str, encode_chars, extend_bytes, str_chars, utf8_decode};
use vstd::utf8::{decode_utf8, encode_utf8, valid_utf8};
use vstd::prelude::*;
use vstd::utf8::{char_is_scalar, is_scalar};

verus! {

broadcast use vstd::seq::group_seq_axioms;

/// `char::from_u32`: the character with the given code point, if it is a Unicode scalar.
#[verifier::external_body]
pub(crate) fn char_from_u32(v: u32) -> (r: Option<char>)
    ensures
        r == (if is_scalar(v) {
            Some(v as char)
        } else {
            None
        }),
        r matches Some(c) ==> c as u32 == v,
{
    char::from_u32(v)
}

/// Byte order of a multi-byte code unit.
#[derive(Clone, Copy, PartialEq, Eq, Structural)]
pub enum Endian {
    Big,
    Little,
}

/// The 16-bit unit held by two bytes.
pub open spec fn spec_unit16(b0: u8, b1: u8, endian: Endian) -> u32 {
    match endian {
        Endian::Big => ((b0 as u32) * 256 + (b1 as u32)) as u32,
        Endian::Little => ((b1 as u32) * 256 + (b0 as u32)) as u32,
    }
}

/// The 16-bit units of a byte string of even length.
pub open spec fn spec_units16(bytes: Seq<u8>, endian: Endian) -> Seq<u32> {
    Seq::new(bytes.len() / 2, |i: int| spec_unit16(bytes[2 * i], bytes[2 * i + 1], endian))
}

/// Whether a unit is a high (leading) surrogate.
pub open spec fn is_high_surrogate(u: u32) -> bool {
    0xD800 <= u <= 0xDBFF
}

/// Whether a unit is a low (trailing) surrogate.
pub open spec fn is_low_surrogate(u: u32) -> bool {
    0xDC00 <= u <= 0xDFFF
}

/// The scalar a surrogate pair stands for.
pub open spec fn spec_pair_scalar(hi: u32, lo: u32) -> u32 {
    (0x10000 + (hi - 0xD800) * 0x400 + (lo - 0xDC00)) as u32
}

/// Prepends a decoded character unless it is a byte-order mark (U+FEFF), which decoding drops.
pub open spec fn spec_keep(c: char, rest: Seq<char>) -> Seq<char> {
    if c as u32 == 0xFEFF {
        rest
    } else {
        seq![c] + rest
    }
}

/// UTF-16 decoding of code units (as `char::decode_utf16`), byte-order marks dropped; `None` at an
/// unpaired surrogate.
pub open spec fn spec_decode_units16(units: Seq<u32>) -> Option<Seq<char>>
    decreases units.len(),
{
    if units.len() == 0 {
        Some(seq![])
    } else {
        let u = units[0];
        if !is_high_surrogate(u) && !is_low_surrogate(u) {
            match spec_decode_units16(units.drop_first()) {
                Some(rest) => Some(spec_keep(u as char, rest)),
                None => None,
            }
        } else if is_high_surrogate(u) && units.len() >= 2 && is_low_surrogate(units[1]) {
            match spec_decode_units16(units.skip(2)) {
                Some(rest) => Some(spec_keep(spec_pair_scalar(u, units[1]) as char, rest)),
                None => None,
            }
        } else {
            None
        }
    }
}

/// UTF-16 decoding of bytes in a fixed byte order.
pub open spec fn spec_decode_utf16(bytes: Seq<u8>, endian: Endian) -> Result<Seq<char>, ErrorView> {
    if bytes.len() % 2 != 0 {
        Err(ErrorView::Utf16OddLength)
    } else {
        match spec_decode_units16(spec_units16(bytes, endian)) {
            Some(s) => Ok(s),
            None => Err(ErrorView::Utf16Surrogate),
        }
    }
}

/// The scalar formed by a surrogate pair is a non-BMP scalar.
proof fn lemma_pair_scalar(hi: u32, lo: u32)
    requires
        is_high_surrogate(hi),
        is_low_surrogate(lo),
    ensures
        0x10000 <= spec_pair_scalar(hi, lo) <= 0x10FFFF,
        is_scalar(spec_pair_scalar(hi, lo)),
{
}

/// Decodes UTF-16 in a fixed byte order.
pub fn decode_utf16(input: &[u8], endian: Endian) -> (r: Result<Vec<char>, NkfError>)
    ensures
        chars_result(r) == spec_decode_utf16(input@, endian),
{
    if input.len() % 2 != 0 {
        return Err(NkfError::Utf16OddLength);
    }
    let ghost units = spec_units16(input@, endian);
    let n = input.len() / 2;
    let mut out: Vec<char> = Vec::new();
    let mut i: usize = 0;
    assert(units.skip(0) =~= units);
    while i < n
        invariant
            n == units.len(),
            input@.len() == 2 * n,
            units == spec_units16(input@, endian),
            i <= n,
            spec_decode_units16(units) == (match spec_decode_units16(units.skip(i as int)) {
                Some(rest) => Some(out@ + rest),
                None => None,
            }),
        decreases n - i,
    {
        let u = read_unit16(input, i, endian);
        let ghost tail = units.skip(i as int);
        assert(tail[0] == u);
        if u < 0xD800 || u > 0xDFFF {
            let c_opt = char_from_u32(u);
            let c = match c_opt {
                Some(c) => c,
                None => {
                    assert(false);
                    return Err(NkfError::Utf16Surrogate);
                },
            };
            assert(tail.drop_first() =~= units.skip(i + 1));
            if u != 0xFEFF {
                out.push(c);
            }
            i += 1;
        } else if u <= 0xDBFF && i + 1 < n {
            let lo = read_unit16(input, i + 1, endian);
            assert(tail[1] == lo);
            if lo >= 0xDC00 && lo <= 0xDFFF {
                let v: u32 = 0x10000 + (u - 0xD800) * 0x400 + (lo - 0xDC00);
                proof {
                    lemma_pair_scalar(u, lo);
                }
                let c = match char_from_u32(v) {
                    Some(c) => c,
                    None => {
                        return Err(NkfError::Utf16Surrogate);
                    },
                };
                assert(tail.skip(2) =~= units.skip(i + 2));
                out.push(c);
                i += 2;
            } else {
                return Err(NkfError::Utf16Surrogate);
            }
        } else {
            return Err(NkfError::Utf16Surrogate);
        }
    }
    assert(units.skip(i as int) =~= Seq::<u32>::empty());
    assert(out@ + Seq::<char>::empty() =~= out@);
    Ok(out)
}

/// Reads the `i`-th 16-bit unit.
fn read_unit16(input: &[u8], i: usize, endian: Endian) -> (u: u32)
    requires
        2 * i + 1 < input@.len(),
        input@.len() % 2 == 0,
    ensures
        u == spec_units16(input@, endian)[i as int],
        u <= 0xFFFF,
{
    assert(input@.len() == input.len());
    let j = 2 * i;
    let b0 = input[j];
    let b1 = input[j + 1];
    match endian {
        Endian::Big => (b0 as u32) * 256 + (b1 as u32),
        Endian::Little => (b1 as u32) * 256 + (b0 as u32),
    }
}

/// UTF-16 decoding that honours a leading byte-order mark and reads big-endian without one.
pub open spec fn spec_decode_utf16_auto(bytes: Seq<u8>) -> Result<Seq<char>, ErrorView> {
    if bytes.len() >= 2 && bytes[0] == 0xfe && bytes[1] == 0xff {
        spec_decode_utf16(bytes.skip(2), Endian::Big)
    } else if bytes.len() >= 2 && bytes[0] == 0xff && bytes[1] == 0xfe {
        spec_decode_utf16(bytes.skip(2), Endian::Little)
    } else {
        spec_decode_utf16(bytes, Endian::Big)
    }
}

/// Decodes UTF-16, choosing the byte order from a leading byte-order mark.
pub fn decode_utf16_auto(input: &[u8]) -> (r: Result<Vec<char>, NkfError>)
    ensures
        chars_result(r) == spec_decode_utf16_auto(input@),
{
    if input.len() >= 2 && input[0] == 0xfe && input[1] == 0xff {
        let rest = crate::text::bytes_range(input, 2, input.len());
        decode_utf16(rest.as_slice(), Endian::Big)
    } else if input.len() >= 2 && input[0] == 0xff && input[1] == 0xfe {
        let rest = crate::text::bytes_range(input, 2, input.len());
        decode_utf16(rest.as_slice(), Endian::Little)
    } else {
        decode_utf16(input, Endian::Big)
    }
}

/// The two bytes of a 16-bit unit.
pub open spec fn spec_unit16_bytes(u: u32, endian: Endian) -> Seq<u8> {
    match endian {
        Endian::Big => seq![(u / 256) as u8, (u % 256) as u8],
        Endian::Little => seq![(u % 256) as u8, (u / 256) as u8],
    }
}

/// The UTF-16 units of one character.
pub open spec fn spec_char_units16(c: char) -> Seq<u32> {
    let v = c as u32;
    if v < 0x10000 {
        seq![v]
    } else {
        seq![(0xD800 + (v - 0x10000) / 0x400) as u32, (0xDC00 + (v - 0x10000) % 0x400) as u32]
    }
}

/// The UTF-16 bytes of one character.
pub open spec fn spec_char_utf16(c: char, endian: Endian) -> Seq<u8> {
    let units = spec_char_units16(c);
    if units.len() == 1 {
        spec_unit16_bytes(units[0], endian)
    } else {
        spec_unit16_bytes(units[0], endian) + spec_unit16_bytes(units[1], endian)
    }
}

/// UTF-16 encoding of a text in a fixed byte order, with no byte-order mark.
pub open spec fn spec_encode_utf16(text: Seq<char>, endian: Endian) -> Seq<u8>
    decreases text.len(),
{
    if text.len() == 0 {
        seq![]
    } else {
        spec_encode_utf16(text.drop_last(), endian) + spec_char_utf16(text.last(), endian)
    }
}

/// Appends the two bytes of a 16-bit unit.
fn push_unit16(out: &mut Vec<u8>, u: u32, endian: Endian)
    requires
        u <= 0xFFFF,
    ensures
        final(out)@ == old(out)@ + spec_unit16_bytes(u, endian),
{
    let hi: u8 = (u / 256) as u8;
    let lo: u8 = (u % 256) as u8;
    match endian {
        Endian::Big => {
            out.push(hi);
            out.push(lo);
        },
        Endian::Little => {
            out.push(lo);
            out.push(hi);
        },
    }
    assert(out@ =~= old(out)@ + spec_unit16_bytes(u, endian));
}

/// Appends the UTF-16 encoding of `text` (no byte-order mark).
pub fn encode_utf16(text: &[char], endian: Endian, out: &mut Vec<u8>)
    ensures
        final(out)@ == old(out)@ + spec_encode_utf16(text@, endian),
{
    let mut i: usize = 0;
    while i < text.len()
        invariant
            i <= text@.len(),
            out@ == old(out)@ + spec_encode_utf16(text@.take(i as int), endian),
        decreases text@.len() - i,
    {
        let c = text[i];
        let v: u32 = c as u32;
        proof {
            char_is_scalar(c);
            assert(text@.take(i + 1).drop_last() =~= text@.take(i as int));
        }
        if v < 0x10000 {
            push_unit16(out, v, endian);
        } else {
            let w: u32 = v - 0x10000;
            push_unit16(out, 0xD800 + w / 0x400, endian);
            push_unit16(out, 0xDC00 + w % 0x400, endian);
        }
        i += 1;
        assert(out@ =~= old(out)@ + spec_encode_utf16(text@.take(i as int), endian));
    }
    assert(text@.take(i as int) =~= text@);
}

/// The 32-bit unit held by four bytes.
#[verifier::opaque]
pub open spec fn spec_unit32(b: Seq<u8>, endian: Endian) -> int {
    match endian {
        Endian::Big => b[0] * 0x1000000 + b[1] * 0x10000 + b[2] * 0x100 + b[3],
        Endian::Little => b[3] * 0x1000000 + b[2] * 0x10000 + b[1] * 0x100 + b[0],
    }
}

/// UTF-32 decoding of bytes whose length is a multiple of four; byte-order marks dropped; `None` at a
/// value that is no scalar.
pub open spec fn spec_decode_units32(bytes: Seq<u8>, endian: Endian) -> Option<Seq<char>>
    decreases bytes.len(),
{
    if bytes.len() < 4 {
        Some(seq![])
    } else {
        let v = spec_unit32(bytes, endian);
        match spec_decode_units32(bytes.skip(4), endian) {
            Some(rest) => if v == 0xFEFF {
                Some(rest)
            } else if 0 <= v <= 0xFFFF_FFFF && is_scalar(v as u32) {
                Some(seq![(v as u32) as char] + rest)
            } else {
                None
            },
            None => None,
        }
    }
}

/// UTF-32 decoding in a fixed byte order.
pub open spec fn spec_decode_utf32(bytes: Seq<u8>, endian: Endian) -> Result<Seq<char>, ErrorView> {
    if bytes.len() % 4 != 0 {
        Err(ErrorView::Utf32Length)
    } else {
        match spec_decode_units32(bytes, endian) {
            Some(s) => Ok(s),
            None => Err(ErrorView::Utf32CodePoint),
        }
    }
}

/// Reads the 32-bit unit at byte offset `i`.
fn read_unit32(input: &[u8], i: usize, endian: Endian) -> (v: u32)
    requires
        i + 4 <= input@.len(),
    ensures
        v as int == spec_unit32(input@.skip(i as int), endian),
{
    let b0 = input[i] as u32;
    let b1 = input[i + 1] as u32;
    let b2 = input[i + 2] as u32;
    let b3 = input[i + 3] as u32;
    assert(input@.skip(i as int)[0] == input@[i as int]);
    assert(input@.skip(i as int)[1] == input@[i + 1]);
    assert(input@.skip(i as int)[2] == input@[i + 2]);
    assert(input@.skip(i as int)[3] == input@[i + 3]);
    reveal(spec_unit32);
    match endian {
        Endian::Big => b0 * 0x1000000 + b1 * 0x10000 + b2 * 0x100 + b3,
        Endian::Little => b3 * 0x1000000 + b2 * 0x10000 + b1 * 0x100 + b0,
    }
}

/// Decodes UTF-32 in a fixed byte order.
pub fn decode_utf32(input: &[u8], endian: Endian) -> (r: Result<Vec<char>, NkfError>)
    ensures
        chars_result(r) == spec_decode_utf32(input@, endian),
{
    if input.len() % 4 != 0 {
        return Err(NkfError::Utf32Length);
    }
    let mut out: Vec<char> = Vec::new();
    let mut i: usize = 0;
    assert(input@.skip(0) =~= input@);
    while i < input.len()
        invariant
            input@.len() % 4 == 0,
            i <= input@.len(),
            i % 4 == 0,
            spec_decode_units32(input@, endian) == (match spec_decode_units32(
                input@.skip(i as int),
                endian,
            ) {
                Some(rest) => Some(out@ + rest),
                None => None,
            }),
        decreases input@.len() - i,
    {
        let v = read_unit32(input, i, endian);
        assert(input@.skip(i as int).skip(4) =~= input@.skip(i + 4));
        if v != 0xFEFF {
            match char_from_u32(v) {
                Some(c) => {
                    out.push(c);
                    proof {
                        match spec_decode_units32(input@.skip(i + 4), endian) {
                            Some(rest) => {
                                assert(out@ + rest =~= old_plus(out@.drop_last(), c, rest));
                            },
                            None => {},
                        }
                    }
                },
                None => {
                    return Err(NkfError::Utf32CodePoint);
                },
            }
        }
        i += 4;
    }
    assert(input@.skip(i as int).len() == 0);
    assert(out@ + Seq::<char>::empty() =~= out@);
    Ok(out)
}

spec fn old_plus(a: Seq<char>, c: char, rest: Seq<char>) -> Seq<char> {
    a + (seq![c] + rest)
}

/// UTF-32 decoding that honours a leading byte-order mark and reads big-endian without one.
pub open spec fn spec_decode_utf32_auto(bytes: Seq<u8>) -> Result<Seq<char>, ErrorView> {
    if bytes.len() >= 4 && bytes[0] == 0 && bytes[1] == 0 && bytes[2] == 0xfe && bytes[3] == 0xff {
        spec_decode_utf32(bytes.skip(4), Endian::Big)
    } else if bytes.len() >= 4 && bytes[0] == 0xff && bytes[1] == 0xfe && bytes[2] == 0 && bytes[3]
        == 0 {
        spec_decode_utf32(bytes.skip(4), Endian::Little)
    } else {
        spec_decode_utf32(bytes, Endian::Big)
    }
}

/// Decodes UTF-32, choosing the byte order from a leading byte-order mark.
pub fn decode_utf32_auto(input: &[u8]) -> (r: Result<Vec<char>, NkfError>)
    ensures
        chars_result(r) == spec_decode_utf32_auto(input@),
{
    if input.len() >= 4 && input[0] == 0 && input[1] == 0 && input[2] == 0xfe && input[3] == 0xff {
        let rest = crate::text::bytes_range(input, 4, input.len());
        decode_utf32(rest.as_slice(), Endian::Big)
    } else if input.len() >= 4 && input[0] == 0xff && input[1] == 0xfe && input[2] == 0 && input[3]
        == 0 {
        let rest = crate::text::bytes_range(input, 4, input.len());
        decode_utf32(rest.as_slice(), Endian::Little)
    } else {
        decode_utf32(input, Endian::Big)
    }
}

/// The four bytes of one character's code point.
pub open spec fn spec_char_utf32(c: char, endian: Endian) -> Seq<u8> {
    let v = c as u32;
    let b0 = (v / 0x1000000) as u8;
    let b1 = ((v / 0x10000) % 0x100) as u8;
    let b2 = ((v / 0x100) % 0x100) as u8;
    let b3 = (v % 0x100) as u8;
    match endian {
        Endian::Big => seq![b0, b1, b2, b3],
        Endian::Little => seq![b3, b2, b1, b0],
    }
}

/// UTF-32 encoding of a text in a fixed byte order, with no byte-order mark.
pub open spec fn spec_encode_utf32(text: Seq<char>, endian: Endian) -> Seq<u8>
    decreases text.len(),
{
    if text.len() == 0 {
        seq![]
    } else {
        spec_encode_utf32(text.drop_last(), endian) + spec_char_utf32(text.last(), endian)
    }
}

/// Appends the UTF-32 encoding of `text` (no byte-order mark).
pub fn encode_utf32(text: &[char], endian: Endian, out: &mut Vec<u8>)
    ensures
        final(out)@ == old(out)@ + spec_encode_utf32(text@, endian),
{
    let mut i: usize = 0;
    while i < text.len()
        invariant
            i <= text@.len(),
            out@ == old(out)@ + spec_encode_utf32(text@.take(i as int), endian),
        decreases text@.len() - i,
    {
        let v: u32 = text[i] as u32;
        let b0 = (v / 0x1000000) as u8;
        let b1 = ((v / 0x10000) % 0x100) as u8;
        let b2 = ((v / 0x100) % 0x100) as u8;
        let b3 = (v % 0x100) as u8;
        match endian {
            Endian::Big => {
                out.push(b0);
                out.push(b1);
                out.push(b2);
                out.push(b3);
            },
            Endian::Little => {
                out.push(b3);
                out.push(b2);
                out.push(b1);
                out.push(b0);
            },
        }
        proof {
            assert(text@.take(i + 1).drop_last() =~= text@.take(i as int));
        }
        i += 1;
        assert(out@ =~= old(out)@ + spec_encode_utf32(text@.take(i as int), endian));
    }
    assert(text@.take(i as int) =~= text@);
}

/// Decoding in a Unicode transformation format named by `encoding`.
pub open spec fn spec_decode_unicode(encoding: Seq<char>, input: Seq<u8>) -> Result<Seq<char>, ErrorView> {
    let n = spec_normalize(encoding);
    if n == "UTF-8"@ {
        if valid_utf8(input) {
            Ok(decode_utf8(input))
        } else {
            Err(ErrorView::Undecodable("UTF-8"@))
        }
    } else if n == "UTF-16"@ {
        spec_decode_utf16_auto(input)
    } else if n == "UTF-16BE"@ {
        spec_decode_utf16(input, Endian::Big)
    } else if n == "UTF-16BE-BOM"@ {
        spec_decode_utf16(input, Endian::Big)
    } else if n == "UTF-16LE"@ {
        spec_decode_utf16(input, Endian::Little)
    } else if n == "UTF-16LE-BOM"@ {
        spec_decode_utf16(input, Endian::Little)
    } else if n == "UTF-32"@ {
        spec_decode_utf32_auto(input)
    } else if n == "UTF-32BE"@ {
        spec_decode_utf32(input, Endian::Big)
    } else if n == "UTF-32BE-BOM"@ {
        spec_decode_utf32(input, Endian::Big)
    } else if n == "UTF-32LE"@ {
        spec_decode_utf32(input, Endian::Little)
    } else if n == "UTF-32LE-BOM"@ {
        spec_decode_utf32(input, Endian::Little)
    } else {
        Err(ErrorView::UnsupportedUnicode(n))
    }
}

/// Decodes bytes in the named Unicode transformation format.
pub fn decode_unicode_bytes(encoding: &str, input: &[u8]) -> (r: Result<Vec<char>, NkfError>)
    ensures
        chars_result(r) == spec_decode_unicode(encoding@, input@),
{
    let norm = normalize_encoding(encoding);
    let v = str_chars(norm.as_str());
    let n = v.as_slice();
    if chars_eq_str(n, "UTF-8") {
        match utf8_decode(input) {
            Some(t) => Ok(t),
            None => Err(NkfError::Undecodable(String::from_str("UTF-8"))),
        }
    } else if chars_eq_str(n, "UTF-16") {
        decode_utf16_auto(input)
    } else if chars_eq_str(n, "UTF-16BE") {
        decode_utf16(input, Endian::Big)
    } else if chars_eq_str(n, "UTF-16BE-BOM") {
        decode_utf16(input, Endian::Big)
    } else if chars_eq_str(n, "UTF-16LE") {
        decode_utf16(input, Endian::Little)
    } else if chars_eq_str(n, "UTF-16LE-BOM") {
        decode_utf16(input, Endian::Little)
    } else if chars_eq_str(n, "UTF-32") {
        decode_utf32_auto(input)
    } else if chars_eq_str(n, "UTF-32BE") {
        decode_utf32(input, Endian::Big)
    } else if chars_eq_str(n, "UTF-32BE-BOM") {
        decode_utf32(input, Endian::Big)
    } else if chars_eq_str(n, "UTF-32LE") {
        decode_utf32(input, Endian::Little)
    } else if chars_eq_str(n, "UTF-32LE-BOM") {
        decode_utf32(input, Endian::Little)
    } else {
        Err(NkfError::UnsupportedUnicode(norm))
    }
}

/// Encoding in a Unicode transformation format named by `encoding`, with the byte-order mark
/// that the name asks for.
pub open spec fn spec_encode_unicode(encoding: Seq<char>, text: Seq<char>) -> Result<Seq<u8>, ErrorView> {
    let n = spec_normalize(encoding);
    if n == "UTF-8"@ {
        Ok(encode_utf8(text))
    } else if n == "UTF-8-BOM"@ {
        Ok(seq![0xef, 0xbb, 0xbf] + encode_utf8(text))
    } else if n == "UTF-16"@ {
        Ok(seq![0xfe, 0xff] + spec_encode_utf16(text, Endian::Big))
    } else if n == "UTF-16BE-BOM"@ {
        Ok(seq![0xfe, 0xff] + spec_encode_utf16(text, Endian::Big))
    } else if n == "UTF-16BE"@ {
        Ok(spec_encode_utf16(text, Endian::Big))
    } else if n == "UTF-16LE-BOM"@ {
        Ok(seq![0xff, 0xfe] + spec_encode_utf16(text, Endian::Little))
    } else if n == "UTF-16LE"@ {
        Ok(spec_encode_utf16(text, Endian::Little))
    } else if n == "UTF-32"@ {
        Ok(seq![0x00, 0x00, 0xfe, 0xff] + spec_encode_utf32(text, Endian::Big))
    } else if n == "UTF-32BE-BOM"@ {
        Ok(seq![0x00, 0x00, 0xfe, 0xff] + spec_encode_utf32(text, Endian::Big))
    } else if n == "UTF-32BE"@ {
        Ok(spec_encode_utf32(text, Endian::Big))
    } else if n == "UTF-32LE-BOM"@ {
        Ok(seq![0xff, 0xfe, 0x00, 0x00] + spec_encode_utf32(text, Endian::Little))
    } else if n == "UTF-32LE"@ {
        Ok(spec_encode_utf32(text, Endian::Little))
    } else {
        Err(ErrorView::UnsupportedUnicode(n))
    }
}

/// Encodes a text in the named Unicode transformation format.
pub fn encode_unicode_bytes(encoding: &str, text: &[char]) -> (r: Result<Vec<u8>, NkfError>)
    ensures
        crate::error::bytes_result(r) == spec_encode_unicode(encoding@, text@),
{
    let norm = normalize_encoding(encoding);
    let v = str_chars(norm.as_str());
    let n = v.as_slice();
    let mut out: Vec<u8> = Vec::new();
    if chars_eq_str(n, "UTF-8") {
        let e = encode_chars(text);
        extend_bytes(&mut out, e.as_slice());
    } else if chars_eq_str(n, "UTF-8-BOM") {
        out.push(0xef);
        out.push(0xbb);
        out.push(0xbf);
        let e = encode_chars(text);
        extend_bytes(&mut out, e.as_slice());
        assert(out@ =~= seq![0xefu8, 0xbbu8, 0xbfu8] + encode_utf8(text@));
    } else if chars_eq_str(n, "UTF-16") {
        out.push(0xfe);
        out.push(0xff);
        encode_utf16(text, Endian::Big, &mut out);
        assert(out@ =~= seq![0xfeu8, 0xffu8] + spec_encode_utf16(text@, Endian::Big));
    } else if chars_eq_str(n, "UTF-16BE-BOM") {
        out.push(0xfe);
        out.push(0xff);
        encode_utf16(text, Endian::Big, &mut out);
        assert(out@ =~= seq![0xfeu8, 0xffu8] + spec_encode_utf16(text@, Endian::Big));
    } else if chars_eq_str(n, "UTF-16BE") {
        encode_utf16(text, Endian::Big, &mut out);
    } else if chars_eq_str(n, "UTF-16LE-BOM") {
        out.push(0xff);
        out.push(0xfe);
        encode_utf16(text, Endian::Little, &mut out);
        assert(out@ =~= seq![0xffu8, 0xfeu8] + spec_encode_utf16(text@, Endian::Little));
    } else if chars_eq_str(n, "UTF-16LE") {
        encode_utf16(text, Endian::Little, &mut out);
    } else if chars_eq_str(n, "UTF-32") {
        out.push(0x00);
        out.push(0x00);
        out.push(0xfe);
        out.push(0xff);
        encode_utf32(text, Endian::Big, &mut out);
        assert(out@ =~= seq![0x00u8, 0x00u8, 0xfeu8, 0xffu8] + spec_encode_utf32(text@, Endian::Big));
    } else if chars_eq_str(n, "UTF-32BE-BOM") {
        out.push(0x00);
        out.push(0x00);
        out.push(0xfe);
        out.push(0xff);
        encode_utf32(text, Endian::Big, &mut out);
        assert(out@ =~= seq![0x00u8, 0x00u8, 0xfeu8, 0xffu8] + spec_encode_utf32(text@, Endian::Big));
    } else if chars_eq_str(n, "UTF-32BE") {
        encode_utf32(text, Endian::Big, &mut out);
    } else if chars_eq_str(n, "UTF-32LE-BOM") {
        out.push(0xff);
        out.push(0xfe);
        out.push(0x00);
        out.push(0x00);
        encode_utf32(text, Endian::Little, &mut out);
        assert(out@ =~= seq![0xffu8, 0xfeu8, 0x00u8, 0x00u8] + spec_encode_utf32(text@, Endian::Little));
    } else if chars_eq_str(n, "UTF-32LE") {
        encode_utf32(text, Endian::Little, &mut out);
    } else {
        return Err(NkfError::UnsupportedUnicode(norm));
    }
    Ok(out)
}

/// Whether a text holds no byte-order mark (U+FEFF), which decoding drops.
pub open spec fn no_bom(t: Seq<char>) -> bool {
    forall|k: int| 0 <= k < t.len() ==> t[k] as u32 != 0xFEFF
}

/// The UTF-32 encoding of a concatenation is the concatenation of the encodings.
pub proof fn lemma_encode_utf32_concat(a: Seq<char>, b: Seq<char>, endian: Endian)
    ensures
        spec_encode_utf32(a + b, endian) == spec_encode_utf32(a, endian) + spec_encode_utf32(b, endian),
        spec_encode_utf32(b, endian).len() == 4 * b.len(),
    decreases b.len(),
{
    if b.len() == 0 {
        assert(a + b =~= a);
        assert(spec_encode_utf32(a, endian) + spec_encode_utf32(b, endian) =~= spec_encode_utf32(a, endian));
    } else {
        lemma_encode_utf32_concat(a, b.drop_last(), endian);
        assert((a + b).drop_last() =~= a + b.drop_last());
        assert((a + b).last() == b.last());
        assert(spec_encode_utf32(a, endian) + spec_encode_utf32(b, endian) =~= spec_encode_utf32(a, endian) + spec_encode_utf32(b.drop_last(), endian) + spec_char_utf32(b.last(), endian));
    }
}

/// The four bytes of a character read back as its code point.
pub proof fn lemma_unit32_of_char(c: char, rest: Seq<u8>, endian: Endian)
    ensures
        spec_unit32(spec_char_utf32(c, endian) + rest, endian) == c as u32,
{
    reveal(spec_unit32);
    let v = c as u32;
    let b = spec_char_utf32(c, endian) + rest;
    let x0: u32 = v / 0x1000000;
    let x1: u32 = (v / 0x10000) % 0x100;
    let x2: u32 = (v / 0x100) % 0x100;
    let x3: u32 = v % 0x100;
    assert(x0 * 0x1000000 + x1 * 0x10000 + x2 * 0x100 + x3 == v && x0 < 0x100 && x1 < 0x100 && x2 < 0x100 && x3 < 0x100) by (bit_vector)
        requires
            x0 == v / 0x1000000,
            x1 == (v / 0x10000) % 0x100,
            x2 == (v / 0x100) % 0x100,
            x3 == v % 0x100,
    ;
    let b0 = x0 as u8;
    let b1 = x1 as u8;
    let b2 = x2 as u8;
    let b3 = x3 as u8;
    assert(b0 == x0 && b1 == x1 && b2 == x2 && b3 == x3);
    match endian {
        Endian::Big => {
            assert(b[0] == b0 && b[1] == b1 && b[2] == b2 && b[3] == b3);
        },
        Endian::Little => {
            assert(b[0] == b3 && b[1] == b2 && b[2] == b1 && b[3] == b0);
        },
    }
}

/// UTF-32 decoding undoes UTF-32 encoding in the same byte order, for a text without U+FEFF
/// (which decoding drops as a byte-order mark).
pub proof fn lemma_utf32_round_trip(t: Seq<char>, endian: Endian)
    requires
        no_bom(t),
    ensures
        spec_decode_utf32(spec_encode_utf32(t, endian), endian) == Ok::<Seq<char>, ErrorView>(t),
    decreases t.len(),
{
    lemma_encode_utf32_concat(Seq::empty(), t, endian);
    assert(Seq::<char>::empty() + t =~= t);
    assert(spec_encode_utf32(t, endian).len() % 4 == 0);
    lemma_decode_units32_of_encode(t, endian);
}

proof fn lemma_decode_units32_of_encode(t: Seq<char>, endian: Endian)
    requires
        no_bom(t),
    ensures
        spec_decode_units32(spec_encode_utf32(t, endian), endian) == Some(t),
    decreases t.len(),
{
    if t.len() == 0 {
        assert(spec_encode_utf32(t, endian) =~= Seq::<u8>::empty());
    } else {
        let c = t[0];
        let rest = t.drop_first();
        assert(t =~= seq![c] + rest);
        lemma_encode_utf32_concat(seq![c], rest, endian);
        assert(seq![c].drop_last() =~= Seq::<char>::empty());
        assert(spec_encode_utf32(Seq::<char>::empty(), endian) =~= Seq::<u8>::empty());
        assert(spec_encode_utf32(seq![c], endian) =~= spec_char_utf32(c, endian));
        let bytes = spec_encode_utf32(t, endian);
        assert(bytes =~= spec_char_utf32(c, endian) + spec_encode_utf32(rest, endian));
        lemma_unit32_of_char(c, spec_encode_utf32(rest, endian), endian);
        assert(bytes.skip(4) =~= spec_encode_utf32(rest, endian));
        lemma_encode_utf32_concat(Seq::empty(), rest, endian);
        lemma_decode_units32_of_encode(rest, endian);
        char_is_scalar(c);
        vstd::utf8::char_u32_cast(c, c as u32);
        assert(seq![((c as u32) as int as u32) as char] + rest =~= t);
    }
}

/// The UTF-16 encoding of a concatenation is the concatenation of the encodings, and the
/// encoding of a text has even length.
pub proof fn lemma_encode_utf16_concat(a: Seq<char>, b: Seq<char>, endian: Endian)
    ensures
        spec_encode_utf16(a + b, endian) == spec_encode_utf16(a, endian) + spec_encode_utf16(b, endian),
        spec_encode_utf16(b, endian).len() % 2 == 0,
    decreases b.len(),
{
    if b.len() == 0 {
        assert(a + b =~= a);
        assert(spec_encode_utf16(a, endian) + spec_encode_utf16(b, endian) =~= spec_encode_utf16(a, endian));
    } else {
        lemma_encode_utf16_concat(a, b.drop_last(), endian);
        assert((a + b).drop_last() =~= a + b.drop_last());
        assert((a + b).last() == b.last());
        assert(spec_encode_utf16(a, endian) + spec_encode_utf16(b, endian) =~= spec_encode_utf16(a, endian) + spec_encode_utf16(b.drop_last(), endian) + spec_char_utf16(b.last(), endian));
    }
}

/// Reading 16-bit units is done pair of bytes by pair of bytes.
pub proof fn lemma_units16_concat(x: Seq<u8>, y: Seq<u8>, endian: Endian)
    requires
        x.len() % 2 == 0,
    ensures
        spec_units16(x + y, endian) == spec_units16(x, endian) + spec_units16(y, endian),
{
    let l = spec_units16(x + y, endian);
    let r = spec_units16(x, endian) + spec_units16(y, endian);
    assert(l.len() == r.len());
    assert forall|i: int| 0 <= i < l.len() implies l[i] == r[i] by {
        if i < x.len() / 2 {
            assert((x + y)[2 * i] == x[2 * i] && (x + y)[2 * i + 1] == x[2 * i + 1]);
        } else {
            let j = i - x.len() / 2;
            assert((x + y)[2 * i] == y[2 * j] && (x + y)[2 * i + 1] == y[2 * j + 1]);
        }
    }
    assert(l =~= r);
}

/// The two bytes of a unit read back as the unit.
pub proof fn lemma_unit16_round_trip(u: u32, endian: Endian)
    requires
        u <= 0xFFFF,
    ensures
        spec_units16(spec_unit16_bytes(u, endian), endian) == seq![u],
{
    let hi = (u / 256) as u8;
    let lo = (u % 256) as u8;
    assert(hi == u / 256 && lo == u % 256);
    assert(spec_units16(spec_unit16_bytes(u, endian), endian) =~= seq![u]);
}

/// The units of one character's UTF-16 bytes are the character's units.
pub proof fn lemma_units_of_char(c: char, endian: Endian)
    ensures
        spec_units16(spec_char_utf16(c, endian), endian) == spec_char_units16(c),
        spec_char_utf16(c, endian).len() % 2 == 0,
{
    let units = spec_char_units16(c);
    char_is_scalar(c);
    if units.len() == 1 {
        lemma_unit16_round_trip(units[0], endian);
    } else {
        let v = c as u32;
        assert((v - 0x10000) / 0x400 <= 0x3FF);
        lemma_unit16_round_trip(units[0], endian);
        lemma_unit16_round_trip(units[1], endian);
        lemma_units16_concat(spec_unit16_bytes(units[0], endian), spec_unit16_bytes(units[1], endian), endian);
        assert(seq![units[0]] + seq![units[1]] =~= units);
    }
}

/// Decoding the units of a character followed by more units gives the character before the rest.
pub proof fn lemma_decode_units16_front(c: char, rest: Seq<u32>)
    ensures
        spec_decode_units16(spec_char_units16(c) + rest) == match spec_decode_units16(rest) {
            Some(r) => Some(spec_keep(c, r)),
            None => None::<Seq<char>>,
        },
{
    let v = c as u32;
    let units = spec_char_units16(c);
    let all = units + rest;
    char_is_scalar(c);
    vstd::utf8::char_u32_cast(c, v);
    if v < 0x10000 {
        assert(all[0] == v);
        assert(all.drop_first() =~= rest);
    } else {
        let w = v - 0x10000;
        let hi = (0xD800 + w / 0x400) as u32;
        let lo = (0xDC00 + w % 0x400) as u32;
        assert(w / 0x400 * 0x400 + w % 0x400 == w) by (nonlinear_arith)
            requires
                0 <= w,
        ;
        assert(spec_pair_scalar(hi, lo) == v);
        assert(all[0] == hi && all[1] == lo);
        assert(all.skip(2) =~= rest);
    }
}

proof fn lemma_decode_units16_of_encode(t: Seq<char>, endian: Endian)
    requires
        no_bom(t),
    ensures
        spec_decode_units16(spec_units16(spec_encode_utf16(t, endian), endian)) == Some(t),
    decreases t.len(),
{
    if t.len() == 0 {
        assert(spec_encode_utf16(t, endian) =~= Seq::<u8>::empty());
        assert(spec_units16(Seq::<u8>::empty(), endian) =~= Seq::<u32>::empty());
    } else {
        let c = t[0];
        let rest = t.drop_first();
        assert(t =~= seq![c] + rest);
        lemma_encode_utf16_concat(seq![c], rest, endian);
        assert(seq![c].drop_last() =~= Seq::<char>::empty());
        assert(spec_encode_utf16(Seq::<char>::empty(), endian) =~= Seq::<u8>::empty());
        assert(spec_encode_utf16(seq![c], endian) =~= spec_char_utf16(c, endian));
        lemma_units_of_char(c, endian);
        lemma_units16_concat(spec_char_utf16(c, endian), spec_encode_utf16(rest, endian), endian);
        lemma_decode_units16_front(c, spec_units16(spec_encode_utf16(rest, endian), endian));
        lemma_decode_units16_of_encode(rest, endian);
        assert(spec_keep(c, rest) =~= t);
    }
}

/// UTF-16 decoding undoes UTF-16 encoding in the same byte order, for a text without U+FEFF
/// (which decoding drops as a byte-order mark).
pub proof fn lemma_utf16_round_trip(t: Seq<char>, endian: Endian)
    requires
        no_bom(t),
    ensures
        spec_decode_utf16(spec_encode_utf16(t, endian), endian) == Ok::<Seq<char>, ErrorView>(t),
{
    lemma_encode_utf16_concat(Seq::empty(), t, endian);
    assert(Seq::<char>::empty() + t =~= t);
    lemma_decode_units16_of_encode(t, endian);
}

/// Whether every character of a text is in the Basic Multilingual Plane (one UTF-16 unit each).
pub open spec fn all_bmp(t: Seq<char>) -> bool {
    forall|k: int| 0 <= k < t.len() ==> (#[trigger] t[k] as u32) < 0x10000
}

/// UTF-16 of a text in the Basic Multilingual Plane is two bytes per character: in big-endian
/// order the high byte of the code point first, in little-endian order the low byte first.
pub proof fn lemma_utf16_bmp_layout(t: Seq<char>)
    requires
        all_bmp(t),
    ensures
        spec_encode_utf16(t, Endian::Big).len() == 2 * t.len(),
        spec_encode_utf16(t, Endian::Little).len() == 2 * t.len(),
        forall|k: int| 0 <= k < t.len() ==> #[trigger] spec_encode_utf16(t, Endian::Big)[2 * k] == (t[k] as u32) / 256
            && spec_encode_utf16(t, Endian::Big)[2 * k + 1] == (t[k] as u32) % 256,
        forall|k: int| 0 <= k < t.len() ==> #[trigger] spec_encode_utf16(t, Endian::Little)[2 * k] == (t[k] as u32) % 256
            && spec_encode_utf16(t, Endian::Little)[2 * k + 1] == (t[k] as u32) / 256,
    decreases t.len(),
{
    if t.len() > 0 {
        let p = t.drop_last();
        let c = t.last();
        assert(all_bmp(p)) by {
            assert forall|k: int| 0 <= k < p.len() implies (#[trigger] p[k] as u32) < 0x10000 by {
                assert(p[k] == t[k]);
            }
        }
        lemma_utf16_bmp_layout(p);
        let v = c as u32;
        assert(v == t[t.len() - 1] as u32);
        assert(v < 0x10000);
        let hi = (v / 256) as u8;
        let lo = (v % 256) as u8;
        assert(hi == v / 256 && lo == v % 256);
        let be = spec_encode_utf16(t, Endian::Big);
        let le = spec_encode_utf16(t, Endian::Little);
        assert(spec_char_utf16(c, Endian::Big) == seq![hi, lo]);
        assert(spec_char_utf16(c, Endian::Little) == seq![lo, hi]);
        assert forall|k: int| 0 <= k < t.len() implies #[trigger] be[2 * k] == (t[k] as u32) / 256
            && be[2 * k + 1] == (t[k] as u32) % 256 by {
            if k < p.len() {
                assert(be[2 * k] == spec_encode_utf16(p, Endian::Big)[2 * k]);
                assert(be[2 * k + 1] == spec_encode_utf16(p, Endian::Big)[2 * k + 1]);
                assert(p[k] == t[k]);
            }
        }
        assert forall|k: int| 0 <= k < t.len() implies #[trigger] le[2 * k] == (t[k] as u32) % 256
            && le[2 * k + 1] == (t[k] as u32) / 256 by {
            if k < p.len() {
                assert(le[2 * k] == spec_encode_utf16(p, Endian::Little)[2 * k]);
                assert(le[2 * k + 1] == spec_encode_utf16(p, Endian::Little)[2 * k + 1]);
                assert(p[k] == t[k]);
            }
        }
    }
}

/// What each UTF-16 and UTF-32 name encodes to: `UTF-16BE` and `UTF-32BE` in big-endian order,
/// `UTF-16LE` and `UTF-32LE` in little-endian order, all four with no byte-order mark; `UTF-16`
/// and `UTF-16BE-BOM` are `UTF-16BE` after `FE FF`, `UTF-16LE-BOM` is `UTF-16LE` after `FF FE`.
pub proof fn lemma_unicode_names_encode(t: Seq<char>)
    ensures
        spec_encode_unicode("UTF-16BE"@, t) == Ok::<Seq<u8>, ErrorView>(spec_encode_utf16(t, Endian::Big)),
        spec_encode_unicode("UTF-16LE"@, t) == Ok::<Seq<u8>, ErrorView>(spec_encode_utf16(t, Endian::Little)),
        spec_encode_unicode("UTF-32BE"@, t) == Ok::<Seq<u8>, ErrorView>(spec_encode_utf32(t, Endian::Big)),
        spec_encode_unicode("UTF-32LE"@, t) == Ok::<Seq<u8>, ErrorView>(spec_encode_utf32(t, Endian::Little)),
        spec_encode_unicode("UTF-16"@, t) == Ok::<Seq<u8>, ErrorView>(seq![0xfeu8, 0xffu8] + spec_encode_utf16(t, Endian::Big)),
        spec_encode_unicode("UTF-16BE-BOM"@, t) == Ok::<Seq<u8>, ErrorView>(seq![0xfeu8, 0xffu8] + spec_encode_utf16(t, Endian::Big)),
        spec_encode_unicode("UTF-16LE-BOM"@, t) == Ok::<Seq<u8>, ErrorView>(seq![0xffu8, 0xfeu8] + spec_encode_utf16(t, Endian::Little)),
{
    lemma_canonical_names_fixed();
    lemma_unicode_names_distinct();
}

/// The UTF names are distinct spellings.
pub proof fn lemma_unicode_names_distinct()
    ensures
        "UTF-8"@ != "UTF-8-BOM"@,
        "UTF-16"@ != "UTF-8"@ && "UTF-16"@ != "UTF-8-BOM"@,
        "UTF-16BE-BOM"@ != "UTF-8"@ && "UTF-16BE-BOM"@ != "UTF-8-BOM"@ && "UTF-16BE-BOM"@ != "UTF-16"@,
        "UTF-16BE"@ != "UTF-8"@ && "UTF-16BE"@ != "UTF-8-BOM"@ && "UTF-16BE"@ != "UTF-16"@ && "UTF-16BE"@ != "UTF-16BE-BOM"@,
        "UTF-16LE-BOM"@ != "UTF-8"@ && "UTF-16LE-BOM"@ != "UTF-8-BOM"@ && "UTF-16LE-BOM"@ != "UTF-16"@
            && "UTF-16LE-BOM"@ != "UTF-16BE-BOM"@ && "UTF-16LE-BOM"@ != "UTF-16BE"@,
        "UTF-16LE"@ != "UTF-8"@ && "UTF-16LE"@ != "UTF-8-BOM"@ && "UTF-16LE"@ != "UTF-16"@
            && "UTF-16LE"@ != "UTF-16BE-BOM"@ && "UTF-16LE"@ != "UTF-16BE"@ && "UTF-16LE"@ != "UTF-16LE-BOM"@,
        "UTF-32"@ != "UTF-8"@ && "UTF-32"@ != "UTF-8-BOM"@ && "UTF-32"@ != "UTF-16"@ && "UTF-32"@ != "UTF-16BE-BOM"@
            && "UTF-32"@ != "UTF-16BE"@ && "UTF-32"@ != "UTF-16LE-BOM"@ && "UTF-32"@ != "UTF-16LE"@,
        "UTF-32BE-BOM"@ != "UTF-8"@ && "UTF-32BE-BOM"@ != "UTF-8-BOM"@ && "UTF-32BE-BOM"@ != "UTF-16"@
            && "UTF-32BE-BOM"@ != "UTF-16BE-BOM"@ && "UTF-32BE-BOM"@ != "UTF-16BE"@ && "UTF-32BE-BOM"@ != "UTF-16LE-BOM"@
            && "UTF-32BE-BOM"@ != "UTF-16LE"@ && "UTF-32BE-BOM"@ != "UTF-32"@,
        "UTF-32BE"@ != "UTF-8"@ && "UTF-32BE"@ != "UTF-8-BOM"@ && "UTF-32BE"@ != "UTF-16"@ && "UTF-32BE"@ != "UTF-16BE-BOM"@
            && "UTF-32BE"@ != "UTF-16BE"@ && "UTF-32BE"@ != "UTF-16LE-BOM"@ && "UTF-32BE"@ != "UTF-16LE"@
            && "UTF-32BE"@ != "UTF-32"@ && "UTF-32BE"@ != "UTF-32BE-BOM"@,
        "UTF-32LE-BOM"@ != "UTF-8"@ && "UTF-32LE-BOM"@ != "UTF-8-BOM"@ && "UTF-32LE-BOM"@ != "UTF-16"@
            && "UTF-32LE-BOM"@ != "UTF-16BE-BOM"@ && "UTF-32LE-BOM"@ != "UTF-16BE"@ && "UTF-32LE-BOM"@ != "UTF-16LE-BOM"@
            && "UTF-32LE-BOM"@ != "UTF-16LE"@ && "UTF-32LE-BOM"@ != "UTF-32"@ && "UTF-32LE-BOM"@ != "UTF-32BE-BOM"@
            && "UTF-32LE-BOM"@ != "UTF-32BE"@,
        "UTF-32LE"@ != "UTF-8"@ && "UTF-32LE"@ != "UTF-8-BOM"@ && "UTF-32LE"@ != "UTF-16"@ && "UTF-32LE"@ != "UTF-16BE-BOM"@
            && "UTF-32LE"@ != "UTF-16BE"@ && "UTF-32LE"@ != "UTF-16LE-BOM"@ && "UTF-32LE"@ != "UTF-16LE"@
            && "UTF-32LE"@ != "UTF-32"@ && "UTF-32LE"@ != "UTF-32BE-BOM"@ && "UTF-32LE"@ != "UTF-32BE"@
            && "UTF-32LE"@ != "UTF-32LE-BOM"@,
{
    reveal_strlit("UTF-8");
    reveal_strlit("UTF-8-BOM");
    reveal_strlit("UTF-16");
    reveal_strlit("UTF-16BE-BOM");
    reveal_strlit("UTF-16BE");
    reveal_strlit("UTF-16LE-BOM");
    reveal_strlit("UTF-16LE");
    reveal_strlit("UTF-32");
    reveal_strlit("UTF-32BE-BOM");
    reveal_strlit("UTF-32BE");
    reveal_strlit("UTF-32LE-BOM");
    reveal_strlit("UTF-32LE");
    assert("UTF-8"@.len() != "UTF-8-BOM"@.len());
    assert("UTF-16"@.len() != "UTF-8"@.len());
    assert("UTF-16"@.len() != "UTF-8-BOM"@.len());
    assert("UTF-16BE-BOM"@.len() != "UTF-8"@.len());
    assert("UTF-16BE-BOM"@.len() != "UTF-8-BOM"@.len());
    assert("UTF-16BE-BOM"@.len() != "UTF-16"@.len());
    assert("UTF-16BE"@.len() != "UTF-8"@.len());
    assert("UTF-16BE"@.len() != "UTF-8-BOM"@.len());
    assert("UTF-16BE"@.len() != "UTF-16"@.len());
    assert("UTF-16BE"@.len() != "UTF-16BE-BOM"@.len());
    assert("UTF-16LE-BOM"@.len() != "UTF-8"@.len());
    assert("UTF-16LE-BOM"@.len() != "UTF-8-BOM"@.len());
    assert("UTF-16LE-BOM"@.len() != "UTF-16"@.len());
    assert("UTF-16LE-BOM"@[6] != "UTF-16BE-BOM"@[6]);
    assert("UTF-16LE-BOM"@.len() != "UTF-16BE"@.len());
    assert("UTF-16LE"@.len() != "UTF-8"@.len());
    assert("UTF-16LE"@.len() != "UTF-8-BOM"@.len());
    assert("UTF-16LE"@.len() != "UTF-16"@.len());
    assert("UTF-16LE"@.len() != "UTF-16BE-BOM"@.len());
    assert("UTF-16LE"@[6] != "UTF-16BE"@[6]);
    assert("UTF-16LE"@.len() != "UTF-16LE-BOM"@.len());
    assert("UTF-32"@.len() != "UTF-8"@.len());
    assert("UTF-32"@.len() != "UTF-8-BOM"@.len());
    assert("UTF-32"@[4] != "UTF-16"@[4]);
    assert("UTF-32"@.len() != "UTF-16BE-BOM"@.len());
    assert("UTF-32"@.len() != "UTF-16BE"@.len());
    assert("UTF-32"@.len() != "UTF-16LE-BOM"@.len());
    assert("UTF-32"@.len() != "UTF-16LE"@.len());
    assert("UTF-32BE-BOM"@.len() != "UTF-8"@.len());
    assert("UTF-32BE-BOM"@.len() != "UTF-8-BOM"@.len());
    assert("UTF-32BE-BOM"@.len() != "UTF-16"@.len());
    assert("UTF-32BE-BOM"@[4] != "UTF-16BE-BOM"@[4]);
    assert("UTF-32BE-BOM"@.len() != "UTF-16BE"@.len());
    assert("UTF-32BE-BOM"@[4] != "UTF-16LE-BOM"@[4]);
    assert("UTF-32BE-BOM"@.len() != "UTF-16LE"@.len());
    assert("UTF-32BE-BOM"@.len() != "UTF-32"@.len());
    assert("UTF-32BE"@.len() != "UTF-8"@.len());
    assert("UTF-32BE"@.len() != "UTF-8-BOM"@.len());
    assert("UTF-32BE"@.len() != "UTF-16"@.len());
    assert("UTF-32BE"@.len() != "UTF-16BE-BOM"@.len());
    assert("UTF-32BE"@[4] != "UTF-16BE"@[4]);
    assert("UTF-32BE"@.len() != "UTF-16LE-BOM"@.len());
    assert("UTF-32BE"@[4] != "UTF-16LE"@[4]);
    assert("UTF-32BE"@.len() != "UTF-32"@.len());
    assert("UTF-32BE"@.len() != "UTF-32BE-BOM"@.len());
    assert("UTF-32LE-BOM"@.len() != "UTF-8"@.len());
    assert("UTF-32LE-BOM"@.len() != "UTF-8-BOM"@.len());
    assert("UTF-32LE-BOM"@.len() != "UTF-16"@.len());
    assert("UTF-32LE-BOM"@[4] != "UTF-16BE-BOM"@[4]);
    assert("UTF-32LE-BOM"@.len() != "UTF-16BE"@.len());
    assert("UTF-32LE-BOM"@[4] != "UTF-16LE-BOM"@[4]);
    assert("UTF-32LE-BOM"@.len() != "UTF-16LE"@.len());
    assert("UTF-32LE-BOM"@.len() != "UTF-32"@.len());
    assert("UTF-32LE-BOM"@[6] != "UTF-32BE-BOM"@[6]);
    assert("UTF-32LE-BOM"@.len() != "UTF-32BE"@.len());
    assert("UTF-32LE"@.len() != "UTF-8"@.len());
    assert("UTF-32LE"@.len() != "UTF-8-BOM"@.len());
    assert("UTF-32LE"@.len() != "UTF-16"@.len());
    assert("UTF-32LE"@.len() != "UTF-16BE-BOM"@.len());
    assert("UTF-32LE"@[4] != "UTF-16BE"@[4]);
    assert("UTF-32LE"@.len() != "UTF-16LE-BOM"@.len());
    assert("UTF-32LE"@[4] != "UTF-16LE"@[4]);
    assert("UTF-32LE"@.len() != "UTF-32"@.len());
    assert("UTF-32LE"@.len() != "UTF-32BE-BOM"@.len());
    assert("UTF-32LE"@[6] != "UTF-32BE"@[6]);
    assert("UTF-32LE"@.len() != "UTF-32LE-BOM"@.len());
}

/// Encoding to `UTF-16BE`, `UTF-16LE`, `UTF-32BE` or `UTF-32LE` and decoding from the same name
/// gives the text back (for a text without U+FEFF, which decoding drops as a byte-order mark);
/// a text in the Basic Multilingual Plane becomes two bytes per character, the high byte first
/// for `UTF-16BE` and the low byte first for `UTF-16LE`.
pub proof fn lemma_unicode_names_round_trip(t: Seq<char>)
    ensures
        no_bom(t) ==> spec_decode_unicode("UTF-16BE"@, spec_encode_unicode("UTF-16BE"@, t)->Ok_0) == Ok::<Seq<char>, ErrorView>(t),
        no_bom(t) ==> spec_decode_unicode("UTF-16LE"@, spec_encode_unicode("UTF-16LE"@, t)->Ok_0) == Ok::<Seq<char>, ErrorView>(t),
        no_bom(t) ==> spec_decode_unicode("UTF-32BE"@, spec_encode_unicode("UTF-32BE"@, t)->Ok_0) == Ok::<Seq<char>, ErrorView>(t),
        no_bom(t) ==> spec_decode_unicode("UTF-32LE"@, spec_encode_unicode("UTF-32LE"@, t)->Ok_0) == Ok::<Seq<char>, ErrorView>(t),
        all_bmp(t) ==> spec_encode_unicode("UTF-16BE"@, t)->Ok_0.len() == 2 * t.len(),
        all_bmp(t) ==> forall|k: int| 0 <= k < t.len() ==> #[trigger] spec_encode_unicode("UTF-16BE"@, t)->Ok_0[2 * k] == (t[k] as u32) / 256
            && spec_encode_unicode("UTF-16BE"@, t)->Ok_0[2 * k + 1] == (t[k] as u32) % 256,
        all_bmp(t) ==> spec_encode_unicode("UTF-16LE"@, t)->Ok_0.len() == 2 * t.len(),
        all_bmp(t) ==> forall|k: int| 0 <= k < t.len() ==> #[trigger] spec_encode_unicode("UTF-16LE"@, t)->Ok_0[2 * k] == (t[k] as u32) % 256
            && spec_encode_unicode("UTF-16LE"@, t)->Ok_0[2 * k + 1] == (t[k] as u32) / 256,
{
    lemma_unicode_names_encode(t);
    lemma_unicode_names_distinct();
    lemma_canonical_names_fixed();
    if no_bom(t) {
        lemma_utf16_round_trip(t, Endian::Big);
        lemma_utf16_round_trip(t, Endian::Little);
        lemma_utf32_round_trip(t, Endian::Big);
        lemma_utf32_round_trip(t, Endian::Little);
    }
    if all_bmp(t) {
        lemma_utf16_bmp_layout(t);
    }
}

} // verus!
