//! MIME: Base64 and quoted-printable payloads, and RFC 2047 encoded-words.

use crate::convert::{convert, spec_convert};
use crate::error::{bytes_result, ErrorView, NkfError};
use crate::names::spec_name_char;
use crate::config::MimeEncoding;
use crate::names::{mime_charset_name, spec_mime_charset_name};
use crate::text::{ascii_upper, byte_upper, chars_eq_str, chars_to_string, encode_chars, extend_chars, spec_byte_upper, str_chars, utf8_decode};
use vstd::utf8::encode_utf8;
use vstd::utf8::{decode_utf8, valid_utf8};
use crate::fallback::{hex_char, spec_hex_char};
use crate::text::{extend_bytes, spec_is_alnum, spec_is_ascii_whitespace, is_alnum, is_ascii_whitespace, has_prefix};
use base64::Engine;
use vstd::prelude::*;

verus! {

broadcast use vstd::seq::group_seq_axioms;

/// The character of the standard Base64 alphabet for a six-bit value.
pub open spec fn spec_b64_digit(v: int) -> char {
    if v < 26 {
        ((65 + v) as u8) as char
    } else if v < 52 {
        ((97 + v - 26) as u8) as char
    } else if v < 62 {
        ((48 + v - 52) as u8) as char
    } else if v == 62 {
        '+'
    } else {
        '/'
    }
}

/// Standard Base64 encoding with padding: every three bytes become four characters of six bits
/// each, and a last group of one or two bytes is padded with `=`.
pub open spec fn base64_encoded(s: Seq<u8>) -> Seq<char>
    decreases s.len(),
{
    if s.len() == 0 {
        seq![]
    } else if s.len() == 1 {
        seq![spec_b64_digit(s[0] as int / 4), spec_b64_digit((s[0] as int % 4) * 16), '=', '=']
    } else if s.len() == 2 {
        seq![spec_b64_digit(s[0] as int / 4), spec_b64_digit((s[0] as int % 4) * 16 + s[1] / 16), spec_b64_digit((s[1] as int % 16) * 4), '=']
    } else {
        seq![
            spec_b64_digit(s[0] as int / 4),
            spec_b64_digit((s[0] as int % 4) * 16 + s[1] / 16),
            spec_b64_digit((s[1] as int % 16) * 4 + s[2] / 64),
            spec_b64_digit(s[2] as int % 64),
        ] + base64_encoded(s.skip(3))
    }
}

proof fn lemma_b64_digit(v: int)
    requires
        0 <= v < 64,
    ensures
        spec_is_b64_char(spec_b64_digit(v)),
{
    if v < 26 {
        let b = (65 + v) as u8;
        assert((b as char) as u32 == b as u32);
    } else if v < 52 {
        let b = (97 + v - 26) as u8;
        assert((b as char) as u32 == b as u32);
    } else if v < 62 {
        let b = (48 + v - 52) as u8;
        assert((b as char) as u32 == b as u32);
    }
}

/// Base64 text is four characters of the standard alphabet or padding for every started group of
/// three bytes.
pub proof fn lemma_base64_shape(s: Seq<u8>)
    ensures
        base64_encoded(s).len() == 4 * ((s.len() + 2) / 3),
        forall|i: int| 0 <= i < base64_encoded(s).len() ==> spec_is_b64_char(#[trigger] base64_encoded(s)[i]),
    decreases s.len(),
{
    let e = base64_encoded(s);
    if s.len() == 0 {
    } else if s.len() <= 2 {
        lemma_b64_digit(s[0] as int / 4);
        lemma_b64_digit((s[0] as int % 4) * 16);
        if s.len() == 2 {
            lemma_b64_digit((s[0] as int % 4) * 16 + s[1] / 16);
            lemma_b64_digit((s[1] as int % 16) * 4);
        }
        assert forall|i: int| 0 <= i < e.len() implies spec_is_b64_char(#[trigger] e[i]) by {}
    } else {
        lemma_base64_shape(s.skip(3));
        lemma_b64_digit(s[0] as int / 4);
        lemma_b64_digit((s[0] as int % 4) * 16 + s[1] / 16);
        lemma_b64_digit((s[1] as int % 16) * 4 + s[2] / 64);
        lemma_b64_digit(s[2] as int % 64);
        let head = seq![
            spec_b64_digit(s[0] as int / 4),
            spec_b64_digit((s[0] as int % 4) * 16 + s[1] / 16),
            spec_b64_digit((s[1] as int % 16) * 4 + s[2] / 64),
            spec_b64_digit(s[2] as int % 64),
        ];
        let rest = base64_encoded(s.skip(3));
        assert(e == head + rest);
        assert forall|i: int| 0 <= i < e.len() implies spec_is_b64_char(#[trigger] e[i]) by {
            if i >= 4 {
                assert(e[i] == rest[i - 4]);
            }
        }
    }
}

/// Standard Base64 decoding with canonical padding: the bytes whose padded encoding the input
/// is, `None` when it is the encoding of no bytes.
#[verifier::opaque]
pub open spec fn base64_decoded(input: Seq<u8>) -> Option<Seq<u8>> {
    if exists|v: Seq<u8>| input == encode_utf8(base64_encoded(v)) {
        Some(choose|v: Seq<u8>| input == encode_utf8(base64_encoded(v)))
    } else {
        None
    }
}

/// Standard Base64 decoding of the bytes.
fn base64_decode(input: &[u8]) -> (r: Option<Vec<u8>>)
    ensures
        match r {
            Some(v) => base64_decoded(input@) == Some(v@),
            None => base64_decoded(input@) is None,
        },
{
    let r = base64_decode_raw(input);
    proof {
        reveal(base64_decoded);
        if r is Some {
            lemma_base64_decoded_encoded(r->0@);
        }
    }
    r
}

/// A character of the standard Base64 alphabet (`A`-`Z`, `a`-`z`, `0`-`9`, `+`, `/`) or its
/// padding `=`.
pub open spec fn spec_is_b64_char(c: char) -> bool {
    let v = c as u32;
    (0x41 <= v <= 0x5a) || (0x61 <= v <= 0x7a) || (0x30 <= v <= 0x39) || v == 0x2b || v == 0x2f
        || v == 0x3d
}

/// The code point of a Base64 digit.
proof fn lemma_b64_digit_value(v: int)
    requires
        0 <= v < 64,
    ensures
        spec_b64_digit(v) as u32 == (if v < 26 {
            65 + v
        } else if v < 52 {
            71 + v
        } else if v < 62 {
            v - 4
        } else if v == 62 {
            43
        } else {
            47
        }),
{
    if v < 26 {
        let b = (65 + v) as u8;
        assert((b as char) as u32 == b as u32);
    } else if v < 52 {
        let b = (97 + v - 26) as u8;
        assert((b as char) as u32 == b as u32);
    } else if v < 62 {
        let b = (48 + v - 52) as u8;
        assert((b as char) as u32 == b as u32);
    }
}

/// Different six-bit values have different digits, and no digit is the padding `=`.
proof fn lemma_b64_digit_inj(a: int, b: int)
    requires
        0 <= a < 64,
        0 <= b < 64,
    ensures
        spec_b64_digit(a) == spec_b64_digit(b) ==> a == b,
        spec_b64_digit(a) != '=',
{
    lemma_b64_digit_value(a);
    lemma_b64_digit_value(b);
}

/// Three bytes are given back by their four six-bit values.
proof fn lemma_b64_group_inj(b0: u8, b1: u8, b2: u8, c0: u8, c1: u8, c2: u8)
    requires
        b0 / 4 == c0 / 4,
        (b0 % 4) * 16 + b1 / 16 == (c0 % 4) * 16 + c1 / 16,
        (b1 % 16) * 4 + b2 / 64 == (c1 % 16) * 4 + c2 / 64,
        b2 % 64 == c2 % 64,
    ensures
        b0 == c0 && b1 == c1 && b2 == c2,
{
}

/// Standard Base64 encoding is one to one.
pub proof fn lemma_base64_injective(s: Seq<u8>, t: Seq<u8>)
    requires
        base64_encoded(s) == base64_encoded(t),
    ensures
        s == t,
    decreases s.len(),
{
    let e = base64_encoded(s);
    lemma_base64_shape(s);
    lemma_base64_shape(t);
    if s.len() == 0 || t.len() == 0 {
        assert(s.len() == 0 && t.len() == 0);
        assert(s =~= t);
    } else {
        lemma_b64_digit_inj(s[0] as int / 4, t[0] as int / 4);
        if s.len() >= 2 {
            lemma_b64_digit_inj((s[0] as int % 4) * 16 + s[1] as int / 16, 0);
        }
        if t.len() >= 2 {
            lemma_b64_digit_inj((t[0] as int % 4) * 16 + t[1] as int / 16, 0);
        }
        if s.len() >= 3 {
            lemma_b64_digit_inj((s[1] as int % 16) * 4 + s[2] as int / 64, 0);
            lemma_b64_digit_inj(s[2] as int % 64, 0);
        }
        if t.len() >= 3 {
            lemma_b64_digit_inj((t[1] as int % 16) * 4 + t[2] as int / 64, 0);
            lemma_b64_digit_inj(t[2] as int % 64, 0);
        }
        if s.len() == 1 {
            lemma_b64_digit_inj((s[0] as int % 4) * 16, 0);
        }
        if t.len() == 1 {
            lemma_b64_digit_inj((t[0] as int % 4) * 16, 0);
        }
        if s.len() == 2 {
            lemma_b64_digit_inj((s[1] as int % 16) * 4, 0);
        }
        if t.len() == 2 {
            lemma_b64_digit_inj((t[1] as int % 16) * 4, 0);
        }
        // The padding tells the length of the last group apart.
        assert(s.len() <= 2 <==> t.len() <= 2) by {
            if s.len() <= 2 && t.len() >= 3 {
                assert(e[3] == '=');
            }
            if t.len() <= 2 && s.len() >= 3 {
                assert(e[3] == '=');
            }
        }
        if s.len() <= 2 {
            assert(s.len() == 1 <==> t.len() == 1) by {
                if s.len() == 1 && t.len() == 2 {
                    assert(e[2] == '=');
                }
                if t.len() == 1 && s.len() == 2 {
                    assert(e[2] == '=');
                }
            }
            lemma_b64_digit_inj((s[0] as int % 4) * 16 + (if s.len() == 2 { s[1] as int / 16 } else { 0 }), (t[0] as int % 4) * 16 + (if t.len() == 2 { t[1] as int / 16 } else { 0 }));
            if s.len() == 2 {
                lemma_b64_digit_inj((s[1] as int % 16) * 4, (t[1] as int % 16) * 4);
                lemma_b64_group_inj(s[0], s[1], 0, t[0], t[1], 0);
            } else {
                lemma_b64_group_inj(s[0], 0, 0, t[0], 0, 0);
            }
            assert(s =~= t);
        } else {
            let et = base64_encoded(t);
            assert(e[0] == spec_b64_digit(s[0] as int / 4) && et[0] == spec_b64_digit(t[0] as int / 4));
            assert(e[1] == spec_b64_digit((s[0] as int % 4) * 16 + s[1] as int / 16) && et[1] == spec_b64_digit((t[0] as int % 4) * 16 + t[1] as int / 16));
            assert(e[2] == spec_b64_digit((s[1] as int % 16) * 4 + s[2] as int / 64) && et[2] == spec_b64_digit((t[1] as int % 16) * 4 + t[2] as int / 64));
            assert(e[3] == spec_b64_digit(s[2] as int % 64) && et[3] == spec_b64_digit(t[2] as int % 64));
            lemma_b64_digit_inj((s[0] as int % 4) * 16 + s[1] as int / 16, (t[0] as int % 4) * 16 + t[1] as int / 16);
            lemma_b64_digit_inj((s[1] as int % 16) * 4 + s[2] as int / 64, (t[1] as int % 16) * 4 + t[2] as int / 64);
            lemma_b64_digit_inj(s[2] as int % 64, t[2] as int % 64);
            lemma_b64_group_inj(s[0], s[1], s[2], t[0], t[1], t[2]);
            assert(base64_encoded(s.skip(3)) =~= e.skip(4));
            assert(base64_encoded(t.skip(3)) =~= e.skip(4));
            lemma_base64_injective(s.skip(3), t.skip(3));
            assert(s =~= s.take(3) + s.skip(3));
            assert(t =~= t.take(3) + t.skip(3));
            assert(s.take(3) =~= t.take(3));
        }
    }
}

/// Decoding the encoding of some bytes gives those bytes back.
pub proof fn lemma_base64_decoded_encoded(v: Seq<u8>)
    ensures
        base64_decoded(encode_utf8(base64_encoded(v))) == Some(v),
{
    reveal(base64_decoded);
    let x = encode_utf8(base64_encoded(v));
    assert(exists|w: Seq<u8>| x == encode_utf8(base64_encoded(w)));
    let w = choose|w: Seq<u8>| x == encode_utf8(base64_encoded(w));
    vstd::utf8::encode_utf8_decode_utf8(base64_encoded(v));
    vstd::utf8::encode_utf8_decode_utf8(base64_encoded(w));
    lemma_base64_injective(w, v);
}

/// `Engine::encode` of the `base64` crate with the `STANDARD` engine (alphabet `A`-`Z`, `a`-`z`,
/// `0`-`9`, `+`, `/`, padding `=`): the padded Base64 text of the bytes, as `base64_encoded`
/// states it. `encode` panics only when the encoded length overflows, which the bound rules out.
#[verifier::external_body]
fn base64_encode(input: &[u8]) -> (r: Vec<char>)
    requires
        input@.len() <= usize::MAX / 2,
    ensures
        r@ == base64_encoded(input@),
{
    base64::engine::general_purpose::STANDARD.encode(input).chars().collect()
}

/// `Engine::decode` of the `base64` crate with the `STANDARD` engine: the decoded bytes, or
/// `None` for its `DecodeError`. The engine's `PAD` configuration requires canonical padding and
/// no trailing bits, so it accepts exactly the padded standard encodings and gives back the bytes
/// they encode.
#[verifier::external_body]
fn base64_decode_raw(input: &[u8]) -> (r: Option<Vec<u8>>)
    ensures
        match r {
            Some(v) => input@ == encode_utf8(base64_encoded(v@)),
            None => forall|v: Seq<u8>| input@ != #[trigger] encode_utf8(base64_encoded(v)),
        },
{
    match base64::engine::general_purpose::STANDARD.decode(input) {
        Ok(v) => Some(v),
        Err(_) => None,
    }
}

/// The value of a hexadecimal digit.
pub open spec fn spec_hex_value(b: u8) -> Option<u8> {
    if 0x30 <= b <= 0x39 {
        Some((b - 0x30) as u8)
    } else if 0x61 <= b <= 0x66 {
        Some((b - 0x61 + 10) as u8)
    } else if 0x41 <= b <= 0x46 {
        Some((b - 0x41 + 10) as u8)
    } else {
        None
    }
}

/// The value of a hexadecimal digit.
pub fn hex_value(b: u8) -> (r: Option<u8>)
    ensures
        r == spec_hex_value(b),
        r matches Some(v) ==> v < 16,
{
    if 0x30 <= b && b <= 0x39 {
        Some(b - 0x30)
    } else if 0x61 <= b && b <= 0x66 {
        Some(b - 0x61 + 10)
    } else if 0x41 <= b && b <= 0x46 {
        Some(b - 0x41 + 10)
    } else {
        None
    }
}

/// The byte two hexadecimal digits spell.
pub open spec fn spec_hex_byte(hi: u8, lo: u8) -> u8 {
    (hi * 16 + lo) as u8
}

/// Quoted-printable decoding: `_` is a space, `=XX` a byte, `=` before a line break joins lines,
/// and an `=` not followed by two hexadecimal digits stays.
pub open spec fn spec_decode_mime_q(s: Seq<u8>) -> Seq<u8>
    decreases s.len(),
{
    if s.len() == 0 {
        seq![]
    } else if s[0] == 0x5f {
        seq![0x20u8] + spec_decode_mime_q(s.skip(1))
    } else if s[0] == 0x3d && s.len() >= 2 && s[1] == 0x0a {
        spec_decode_mime_q(s.skip(2))
    } else if s[0] == 0x3d && s.len() >= 3 && s[1] == 0x0d && s[2] == 0x0a {
        spec_decode_mime_q(s.skip(3))
    } else if s[0] == 0x3d && s.len() >= 3 {
        match (spec_hex_value(s[1]), spec_hex_value(s[2])) {
            (Some(hi), Some(lo)) => seq![spec_hex_byte(hi, lo)] + spec_decode_mime_q(s.skip(3)),
            _ => seq![0x3du8] + spec_decode_mime_q(s.skip(1)),
        }
    } else {
        seq![s[0]] + spec_decode_mime_q(s.skip(1))
    }
}

/// Decodes quoted-printable bytes.
pub fn decode_mime_q(input: &[u8]) -> (r: Result<Vec<u8>, NkfError>)
    ensures
        r matches Ok(v) && v@ == spec_decode_mime_q(input@),
{
    let mut out: Vec<u8> = Vec::new();
    let mut i: usize = 0;
    assert(input@.skip(0) =~= input@);
    while i < input.len()
        invariant
            i <= input@.len(),
            spec_decode_mime_q(input@) == out@ + spec_decode_mime_q(input@.skip(i as int)),
        decreases input@.len() - i,
    {
        let ghost tail = input@.skip(i as int);
        let ghost before = out@;
        let left = input.len() - i;
        let b = input[i];
        assert(tail[0] == b);
        proof {
            if left >= 2 {
                assert(tail[1] == input@[i + 1]);
            }
            if left >= 3 {
                assert(tail[2] == input@[i + 2]);
            }
        }
        if b == 0x5f {
            out.push(0x20);
            assert(tail.skip(1) =~= input@.skip(i + 1));
            i += 1;
        } else if b == 0x3d && left >= 2 && input[i + 1] == 0x0a {
            assert(tail.skip(2) =~= input@.skip(i + 2));
            i += 2;
        } else if b == 0x3d && left >= 3 && input[i + 1] == 0x0d && input[i + 2] == 0x0a {
            assert(tail.skip(3) =~= input@.skip(i + 3));
            i += 3;
        } else if b == 0x3d && left >= 3 {
            match (hex_value(input[i + 1]), hex_value(input[i + 2])) {
                (Some(hi), Some(lo)) => {
                    out.push(hi * 16 + lo);
                    assert(tail.skip(3) =~= input@.skip(i + 3));
                    i += 3;
                },
                _ => {
                    out.push(0x3d);
                    assert(tail.skip(1) =~= input@.skip(i + 1));
                    i += 1;
                },
            }
        } else {
            out.push(b);
            assert(tail.skip(1) =~= input@.skip(i + 1));
            i += 1;
        }
        proof {
            let rest = spec_decode_mime_q(input@.skip(i as int));
            assert(before + (out@.subrange(before.len() as int, out@.len() as int) + rest) =~= out@ + rest);
        }
    }
    assert(input@.skip(i as int) =~= Seq::<u8>::empty());
    assert(out@ + Seq::<u8>::empty() =~= out@);
    Ok(out)
}

/// The quoted-printable text of one byte: `_` for a space, letters and digits as they are, else
/// `=` and two upper-case hexadecimal digits.
pub open spec fn spec_mime_q_byte(b: u8) -> Seq<char> {
    if b == 0x20 {
        seq!['_']
    } else if spec_is_alnum(b) {
        seq![b as char]
    } else {
        seq!['=', spec_hex_char(b / 16), spec_hex_char(b % 16)]
    }
}

/// The quoted-printable text of one byte is one or three ASCII characters, none a line break.
proof fn lemma_q_byte_text(b: u8)
    ensures
        1 <= spec_mime_q_byte(b).len() <= 3,
        no_newline(spec_mime_q_byte(b)),
        crate::text::all_ascii_chars(spec_mime_q_byte(b)),
{
    if b != 0x20 && !spec_is_alnum(b) {
        assert(b / 16 < 16 && b % 16 < 16);
    }
}

/// The quoted-printable text of one byte.
pub fn mime_q_byte(b: u8) -> (out: Vec<char>)
    ensures
        out@ == spec_mime_q_byte(b),
{
    let mut out: Vec<char> = Vec::new();
    if b == 0x20 {
        out.push('_');
    } else if is_alnum(b) {
        out.push(b as char);
    } else {
        out.push('=');
        out.push(hex_char(b / 16));
        out.push(hex_char(b % 16));
    }
    assert(out@ =~= spec_mime_q_byte(b));
    out
}

/// The quoted-printable text of bytes.
pub open spec fn spec_encode_mime_q(s: Seq<u8>) -> Seq<char>
    decreases s.len(),
{
    if s.len() == 0 {
        seq![]
    } else {
        spec_encode_mime_q(s.drop_last()) + spec_mime_q_byte(s.last())
    }
}

/// The quoted-printable text of bytes.
pub fn encode_mime_q(input: &[u8]) -> (out: Vec<char>)
    ensures
        out@ == spec_encode_mime_q(input@),
{
    let mut out: Vec<char> = Vec::new();
    let mut i: usize = 0;
    while i < input.len()
        invariant
            i <= input@.len(),
            out@ == spec_encode_mime_q(input@.take(i as int)),
        decreases input@.len() - i,
    {
        let piece = mime_q_byte(input[i]);
        crate::text::extend_chars(&mut out, piece.as_slice());
        assert(input@.take(i + 1).drop_last() =~= input@.take(i as int));
        i += 1;
    }
    assert(input@.take(i as int) =~= input@);
    out
}

/// Bytes with ASCII white space removed.
pub open spec fn spec_strip_ascii_ws(s: Seq<u8>) -> Seq<u8>
    decreases s.len(),
{
    if s.len() == 0 {
        seq![]
    } else if spec_is_ascii_whitespace(s.last()) {
        spec_strip_ascii_ws(s.drop_last())
    } else {
        spec_strip_ascii_ws(s.drop_last()).push(s.last())
    }
}

/// Removes ASCII white space.
pub fn strip_ascii_whitespace(input: &[u8]) -> (out: Vec<u8>)
    ensures
        out@ == spec_strip_ascii_ws(input@),
{
    let mut out: Vec<u8> = Vec::new();
    let mut i: usize = 0;
    while i < input.len()
        invariant
            i <= input@.len(),
            out@ == spec_strip_ascii_ws(input@.take(i as int)),
        decreases input@.len() - i,
    {
        assert(input@.take(i + 1).drop_last() =~= input@.take(i as int));
        if !is_ascii_whitespace(input[i]) {
            out.push(input[i]);
        }
        i += 1;
    }
    assert(input@.take(i as int) =~= input@);
    out
}

/// Base64 input decoding: white space dropped, the rest decoded.
pub open spec fn spec_decode_base64_input(input: Seq<u8>) -> Result<Seq<u8>, ErrorView> {
    match base64_decoded(spec_strip_ascii_ws(input)) {
        Some(v) => Ok(v),
        None => Err(ErrorView::InvalidBase64),
    }
}

/// Decodes Base64 input, ignoring white space.
pub fn decode_base64_input(input: &[u8]) -> (r: Result<Vec<u8>, NkfError>)
    ensures
        bytes_result(r) == spec_decode_base64_input(input@),
{
    let compact = strip_ascii_whitespace(input);
    match base64_decode(compact.as_slice()) {
        Some(v) => Ok(v),
        None => Err(NkfError::InvalidBase64),
    }
}

/// The length of the run of MIME linear white space (space, tab, CR, LF) at the front.
pub open spec fn spec_lwsp_len(s: Seq<u8>) -> int
    decreases s.len(),
{
    if s.len() > 0 && (s[0] == 0x20 || s[0] == 0x09 || s[0] == 0x0d || s[0] == 0x0a) {
        1 + spec_lwsp_len(s.skip(1))
    } else {
        0
    }
}

proof fn lemma_lwsp_len_bounds(s: Seq<u8>)
    ensures
        0 <= spec_lwsp_len(s) <= s.len(),
    decreases s.len(),
{
    if s.len() > 0 && (s[0] == 0x20 || s[0] == 0x09 || s[0] == 0x0d || s[0] == 0x0a) {
        lemma_lwsp_len_bounds(s.skip(1));
    }
}

/// The length of the leading white-space run, `None` when there is none.
pub open spec fn spec_consume_mime_lwsp(s: Seq<u8>) -> Option<int> {
    if spec_lwsp_len(s) > 0 {
        Some(spec_lwsp_len(s))
    } else {
        None
    }
}

/// The length of the leading run of linear white space, if any.
pub fn consume_mime_lwsp(input: &[u8]) -> (r: Option<usize>)
    ensures
        match r {
            Some(n) => spec_consume_mime_lwsp(input@) == Some(n as int),
            None => spec_consume_mime_lwsp(input@) is None,
        },
{
    let mut i: usize = 0;
    assert(input@.skip(0) =~= input@);
    while i < input.len() && (input[i] == 0x20 || input[i] == 0x09 || input[i] == 0x0d || input[i] == 0x0a)
        invariant
            i <= input@.len(),
            spec_lwsp_len(input@) == i + spec_lwsp_len(input@.skip(i as int)),
        decreases input@.len() - i,
    {
        assert(input@.skip(i as int)[0] == input@[i as int]);
        assert(input@.skip(i as int).skip(1) =~= input@.skip(i + 1));
        i += 1;
    }
    proof {
        if i < input@.len() {
            assert(input@.skip(i as int)[0] == input@[i as int]);
        }
    }
    if i > 0 {
        Some(i)
    } else {
        None
    }
}

/// The first index holding the byte.
pub open spec fn spec_find_byte(s: Seq<u8>, b: u8) -> Option<int>
    decreases s.len(),
{
    if s.len() == 0 {
        None
    } else if s[0] == b {
        Some(0)
    } else {
        match spec_find_byte(s.skip(1), b) {
            Some(k) => Some(k + 1),
            None => None,
        }
    }
}

/// The first index holding the byte.
pub fn find_byte(input: &[u8], b: u8) -> (r: Option<usize>)
    ensures
        match r {
            Some(k) => spec_find_byte(input@, b) == Some(k as int) && k < input@.len(),
            None => spec_find_byte(input@, b) is None,
        },
{
    let mut i: usize = 0;
    assert(input@.skip(0) =~= input@);
    while i < input.len()
        invariant
            i <= input@.len(),
            spec_find_byte(input@, b) == (match spec_find_byte(input@.skip(i as int), b) {
                Some(k) => Some(k + i),
                None => None,
            }),
        decreases input@.len() - i,
    {
        assert(input@.skip(i as int)[0] == input@[i as int]);
        if input[i] == b {
            return Some(i);
        }
        assert(input@.skip(i as int).skip(1) =~= input@.skip(i + 1));
        i += 1;
    }
    assert(input@.skip(i as int).len() == 0);
    None
}

/// The first index at which the two-byte needle starts.
pub open spec fn spec_find_pair(s: Seq<u8>, a: u8, b: u8) -> Option<int>
    decreases s.len(),
{
    if s.len() < 2 {
        None
    } else if s[0] == a && s[1] == b {
        Some(0)
    } else {
        match spec_find_pair(s.skip(1), a, b) {
            Some(k) => Some(k + 1),
            None => None,
        }
    }
}

/// The first index at which the needle starts.
pub open spec fn spec_find_sub(s: Seq<u8>, needle: Seq<u8>) -> Option<int>
    decreases s.len(),
{
    if s.len() < needle.len() || needle.len() == 0 {
        None
    } else if s.take(needle.len() as int) == needle {
        Some(0)
    } else {
        match spec_find_sub(s.skip(1), needle) {
            Some(k) => Some(k + 1),
            None => None,
        }
    }
}

/// For a two-byte needle, finding the needle is finding the pair.
pub proof fn lemma_find_sub_pair(s: Seq<u8>, a: u8, b: u8)
    ensures
        spec_find_sub(s, seq![a, b]) == spec_find_pair(s, a, b),
    decreases s.len(),
{
    if s.len() >= 2 {
        assert((s.take(2) == seq![a, b]) <==> (s[0] == a && s[1] == b)) by {
            if s[0] == a && s[1] == b {
                assert(s.take(2) =~= seq![a, b]);
            }
            if s.take(2) == seq![a, b] {
                assert(s.take(2)[0] == s[0] && s.take(2)[1] == s[1]);
            }
        }
        lemma_find_sub_pair(s.skip(1), a, b);
    }
}

/// Whether the needle stands in the input at index `i`.
fn window_matches(input: &[u8], i: usize, needle: &[u8]) -> (r: bool)
    requires
        i + needle@.len() <= input@.len(),
    ensures
        r == (input@.subrange(i as int, i + needle@.len()) == needle@),
{
    let mut j: usize = 0;
    while j < needle.len()
        invariant
            i + needle@.len() <= input@.len(),
            j <= needle@.len(),
            forall|k: int| 0 <= k < j ==> input@[i + k] == needle@[k],
        decreases needle@.len() - j,
    {
        assert(i + j < input.len());
        if input[i + j] != needle[j] {
            assert(input@.subrange(i as int, i + needle@.len())[j as int] != needle@[j as int]);
            return false;
        }
        j += 1;
    }
    assert(input@.subrange(i as int, i + needle@.len()) =~= needle@);
    true
}

/// The first index at which the needle starts (`find_subslice`); the needle is not empty, as
/// slice windows of length zero do not exist.
pub fn find_subslice(input: &[u8], needle: &[u8]) -> (r: Option<usize>)
    requires
        needle@.len() > 0,
    ensures
        match r {
            Some(k) => spec_find_sub(input@, needle@) == Some(k as int) && k + needle@.len() <= input@.len(),
            None => spec_find_sub(input@, needle@) is None,
        },
{
    let n = needle.len();
    let mut i: usize = 0;
    assert(input@.skip(0) =~= input@);
    while i < input.len() && input.len() - i >= n
        invariant
            n == needle@.len(),
            n > 0,
            i <= input@.len(),
            spec_find_sub(input@, needle@) == (match spec_find_sub(input@.skip(i as int), needle@) {
                Some(k) => Some(k + i),
                None => None,
            }),
        decreases input@.len() - i,
    {
        let ghost t = input@.skip(i as int);
        assert(t.take(n as int) =~= input@.subrange(i as int, i + n));
        if window_matches(input, i, needle) {
            return Some(i);
        }
        assert(t.skip(1) =~= input@.skip(i + 1));
        i += 1;
    }
    assert(input@.skip(i as int).len() < n);
    None
}

proof fn lemma_find_byte_bounds(s: Seq<u8>, b: u8)
    ensures
        spec_find_byte(s, b) matches Some(k) ==> 0 <= k < s.len(),
    decreases s.len(),
{
    if s.len() > 0 && s[0] != b {
        lemma_find_byte_bounds(s.skip(1), b);
    }
}

proof fn lemma_find_pair_bounds(s: Seq<u8>, a: u8, b: u8)
    ensures
        spec_find_pair(s, a, b) matches Some(k) ==> 0 <= k && k + 2 <= s.len(),
    decreases s.len(),
{
    if s.len() >= 2 && !(s[0] == a && s[1] == b) {
        lemma_find_pair_bounds(s.skip(1), a, b);
    }
}

/// Whether the bytes start with `=?`.
pub open spec fn spec_word_start(s: Seq<u8>) -> bool {
    s.len() >= 2 && s[0] == 0x3d && s[1] == 0x3f
}

/// The charset and method letter of an encoded-word header `=?charset?m?`.
pub open spec fn spec_parse_header(s: Seq<u8>) -> Option<(Seq<char>, u8)> {
    if !spec_word_start(s) {
        None
    } else {
        match spec_find_byte(s.skip(2), 0x3f) {
            None => None,
            Some(ce) => {
                let cs = s.subrange(2, 2 + ce);
                let mi = 3 + ce;
                if !valid_utf8(cs) {
                    None
                } else if mi >= s.len() {
                    None
                } else if mi + 1 >= s.len() || s[mi + 1] != 0x3f {
                    None
                } else {
                    Some((decode_utf8(cs), s[mi]))
                }
            },
        }
    }
}

/// The charset and method letter of an encoded-word header.
pub fn parse_mime_word_header(input: &[u8]) -> (r: Option<(String, u8)>)
    ensures
        match r {
            Some((cs, m)) => spec_parse_header(input@) == Some((cs@, m)),
            None => spec_parse_header(input@) is None,
        },
{
    if !(input.len() >= 2 && input[0] == 0x3d && input[1] == 0x3f) {
        return None;
    }
    let (_, rest) = input.split_at(2);
    assert(rest@ =~= input@.skip(2));
    let ce = match find_byte(rest, 0x3f) {
        Some(k) => k,
        None => return None,
    };
    let (head, _) = rest.split_at(ce);
    assert(head@ =~= input@.subrange(2, 2 + ce));
    let charset = match utf8_decode(head) {
        Some(c) => c,
        None => return None,
    };
    let mi = 3 + ce;
    if mi >= input.len() {
        return None;
    }
    if input.len() - mi < 2 || input[mi + 1] != 0x3f {
        return None;
    }
    Some((chars_to_string(charset.as_slice()), input[mi]))
}

/// Whether an encoded-word header names a charset and method the strict mode accepts.
pub open spec fn spec_is_strict_prefix(s: Seq<u8>) -> bool {
    match spec_parse_header(s) {
        None => false,
        Some((charset, method)) => {
            let c = charset.map_values(|ch: char| spec_name_char(ch));
            let m = spec_byte_upper(method);
            (c == "EUC-JP"@ && m == 0x42) || (c == "SHIFT-JIS"@ && m == 0x42) || (c == "SHIFT_JIS"@ && m == 0x42)
                || (c == "ISO-8859-1"@ && (m == 0x51 || m == 0x42)) || (c == "ISO-2022-JP"@ && (m == 0x42 || m == 0x51))
                || (c == "UTF-8"@ && (m == 0x42 || m == 0x51)) || (c == "US-ASCII"@ && m == 0x51)
        },
    }
}

/// Whether an encoded-word header names a charset and method the strict mode accepts.
pub fn is_strict_mime_word_prefix(input: &[u8]) -> (r: bool)
    ensures
        r == spec_is_strict_prefix(input@),
{
    let (charset, method) = match parse_mime_word_header(input) {
        Some(h) => h,
        None => return false,
    };
    let cs = crate::text::str_chars(charset.as_str());
    let mut c: Vec<char> = Vec::new();
    let mut i: usize = 0;
    while i < cs.len()
        invariant
            i <= cs@.len(),
            c@ == cs@.take(i as int).map_values(|ch: char| spec_name_char(ch)),
        decreases cs@.len() - i,
    {
        let ch = cs[i];
        c.push(if ch == '_' {
            '-'
        } else {
            ascii_upper(ch)
        });
        i += 1;
        assert(c@ =~= cs@.take(i as int).map_values(|ch: char| spec_name_char(ch)));
    }
    assert(cs@.take(i as int) =~= cs@);
    let c = c.as_slice();
    let m = byte_upper(method);
    (chars_eq_str(c, "EUC-JP") && m == 0x42) || (chars_eq_str(c, "SHIFT-JIS") && m == 0x42) || (
    chars_eq_str(c, "SHIFT_JIS") && m == 0x42) || (chars_eq_str(c, "ISO-8859-1") && (m == 0x51 || m
        == 0x42)) || (chars_eq_str(c, "ISO-2022-JP") && (m == 0x42 || m == 0x51)) || (chars_eq_str(
        c,
        "UTF-8",
    ) && (m == 0x42 || m == 0x51)) || (chars_eq_str(c, "US-ASCII") && m == 0x51)
}

/// Decoding the encoded-word at the front: its text converted to UTF-8 and the number of bytes
/// it spans; `None` when the front is no complete encoded-word with method B or Q.
#[verifier::opaque]
pub open spec fn spec_decode_one(s: Seq<u8>) -> Result<Option<(Seq<u8>, int)>, ErrorView> {
    if !spec_word_start(s) {
        Ok(None)
    } else {
        match spec_find_byte(s.skip(2), 0x3f) {
            None => Ok(None),
            Some(ce) => {
                let mi = 3 + ce;
                if mi >= s.len() || mi + 1 >= s.len() || s[mi + 1] != 0x3f {
                    Ok(None)
                } else {
                    let es = mi + 2;
                    match spec_find_pair(s.skip(es), 0x3f, 0x3d) {
                        None => Ok(None),
                        Some(eer) => {
                            let encoded = s.subrange(es, es + eer);
                            let m = spec_byte_upper(s[mi]);
                            let raw: Result<Option<Seq<u8>>, ErrorView> = if m == 0x42 {
                                match base64_decoded(spec_strip_ascii_ws(encoded)) {
                                    Some(r) => Ok(Some(r)),
                                    None => Err(ErrorView::InvalidMimeBase64),
                                }
                            } else if m == 0x51 {
                                Ok(Some(spec_decode_mime_q(encoded)))
                            } else {
                                Ok(None)
                            };
                            match raw {
                                Err(e) => Err(e),
                                Ok(None) => Ok(None),
                                Ok(Some(r)) => {
                                    let cs = s.subrange(2, 2 + ce);
                                    if !valid_utf8(cs) {
                                        Err(ErrorView::InvalidCharsetLabel)
                                    } else {
                                        match spec_convert(decode_utf8(cs), "UTF-8"@, r) {
                                            Err(e) => Err(e),
                                            Ok(d) => Ok(Some((d, es + eer + 2))),
                                        }
                                    }
                                },
                            }
                        },
                    }
                }
            },
        }
    }
}

/// An encoded-word spans at least six bytes and no more than the input.
pub proof fn lemma_decode_one_span(s: Seq<u8>)
    ensures
        spec_decode_one(s) matches Ok(Some((d, c))) ==> 6 <= c <= s.len(),
{
    reveal(spec_decode_one);
    if spec_word_start(s) {
        lemma_find_byte_bounds(s.skip(2), 0x3f);
        match spec_find_byte(s.skip(2), 0x3f) {
            Some(ce) => {
                let es = 5 + ce;
                if es <= s.len() {
                    lemma_find_pair_bounds(s.skip(es), 0x3f, 0x3d);
                }
            },
            None => {},
        }
    }
}

/// Decodes the encoded-word at the front of the bytes.
pub fn decode_one_mime_word(input: &[u8]) -> (r: Result<Option<(Vec<u8>, usize)>, NkfError>)
    ensures
        match r {
            Ok(Some((d, c))) => spec_decode_one(input@) == Ok::<Option<(Seq<u8>, int)>, ErrorView>(Some((d@, c as int))),
            Ok(None) => spec_decode_one(input@) == Ok::<Option<(Seq<u8>, int)>, ErrorView>(None),
            Err(e) => spec_decode_one(input@) == Err::<Option<(Seq<u8>, int)>, ErrorView>(e@),
        },
{
    reveal(spec_decode_one);
    if !(input.len() >= 2 && input[0] == 0x3d && input[1] == 0x3f) {
        return Ok(None);
    }
    let (_, rest) = input.split_at(2);
    assert(rest@ =~= input@.skip(2));
    let ce = match find_byte(rest, 0x3f) {
        Some(k) => k,
        None => return Ok(None),
    };
    let mi = 3 + ce;
    if mi >= input.len() || input.len() - mi < 2 || input[mi + 1] != 0x3f {
        return Ok(None);
    }
    let method = input[mi];
    let es = mi + 2;
    let (_, enc_rest) = input.split_at(es);
    assert(enc_rest@ =~= input@.skip(es as int));
    proof {
        lemma_find_sub_pair(enc_rest@, 0x3f, 0x3d);
    }
    let eer = match find_subslice(enc_rest, &[0x3f, 0x3d]) {
        Some(k) => k,
        None => return Ok(None),
    };
    let (encoded, _) = enc_rest.split_at(eer);
    assert(encoded@ =~= input@.subrange(es as int, es + eer));
    let m = byte_upper(method);
    let raw = if m == 0x42 {
        let compact = strip_ascii_whitespace(encoded);
        match base64_decode(compact.as_slice()) {
            Some(r) => r,
            None => return Err(NkfError::InvalidMimeBase64),
        }
    } else if m == 0x51 {
        match decode_mime_q(encoded) {
            Ok(r) => r,
            Err(e) => return Err(e),
        }
    } else {
        return Ok(None);
    };
    let (head, _) = rest.split_at(ce);
    assert(head@ =~= input@.subrange(2, 2 + ce));
    let charset = match utf8_decode(head) {
        Some(c) => chars_to_string(c.as_slice()),
        None => return Err(NkfError::InvalidCharsetLabel),
    };
    let decoded = convert(charset.as_str(), "UTF-8", raw.as_slice())?;
    Ok(Some((decoded, es + eer + 2)))
}

/// How far past the white space after a decoded word the scan jumps: over it when another
/// acceptable encoded-word follows, else not at all.
pub open spec fn spec_lwsp_advance(r: Seq<u8>, strict: bool) -> Result<int, ErrorView> {
    match spec_consume_mime_lwsp(r) {
        None => Ok(0),
        Some(l) => {
            let next = r.skip(l);
            if spec_word_start(next) && (!strict || spec_is_strict_prefix(next)) {
                match spec_decode_one(next) {
                    Err(e) => Err(e),
                    Ok(Some(_)) => Ok(l),
                    Ok(None) => Ok(0),
                }
            } else {
                Ok(0)
            }
        },
    }
}

/// The step at the front of the bytes: the decoded text of an acceptable encoded-word and how many
/// bytes the scan moves past it (the word, and the white space before a following word).
#[verifier::opaque]
pub open spec fn spec_word_step(s: Seq<u8>, strict: bool) -> Result<Option<(Seq<u8>, int)>, ErrorView> {
    if spec_word_start(s) && (!strict || spec_is_strict_prefix(s)) {
        match spec_decode_one(s) {
            Err(e) => Err(e),
            Ok(None) => Ok(None),
            Ok(Some((d, c))) => if 0 < c <= s.len() {
                match spec_lwsp_advance(s.skip(c), strict) {
                    Err(e) => Err(e),
                    Ok(a) => if 0 <= a <= s.len() - c {
                        Ok(Some((d, c + a)))
                    } else {
                        Ok(None)
                    },
                }
            } else {
                Ok(None)
            },
        }
    } else {
        Ok(None)
    }
}

/// Decoding every encoded-word in the bytes (in strict mode only those with an accepted charset
/// and method), white space between two adjacent words dropped, other bytes kept.
pub open spec fn spec_decode_words(s: Seq<u8>, strict: bool) -> Result<Seq<u8>, ErrorView>
    decreases s.len(),
{
    if s.len() == 0 {
        Ok(seq![])
    } else {
        match spec_word_step(s, strict) {
            Err(e) => Err(e),
            Ok(Some((d, n))) => if 0 < n <= s.len() {
                match spec_decode_words(s.skip(n), strict) {
                    Err(e) => Err(e),
                    Ok(rest) => Ok(d + rest),
                }
            } else {
                match spec_decode_words(s.skip(1), strict) {
                    Err(e) => Err(e),
                    Ok(rest) => Ok(seq![s[0]] + rest),
                }
            },
            Ok(None) => match spec_decode_words(s.skip(1), strict) {
                Err(e) => Err(e),
                Ok(rest) => Ok(seq![s[0]] + rest),
            },
        }
    }
}

/// The step at the front of the bytes.
fn word_step(tail: &[u8], strict: bool) -> (r: Result<Option<(Vec<u8>, usize)>, NkfError>)
    ensures
        match r {
            Ok(Some((d, n))) => spec_word_step(tail@, strict) == Ok::<Option<(Seq<u8>, int)>, ErrorView>(Some((d@, n as int))) && 0 < n <= tail@.len(),
            Ok(None) => spec_word_step(tail@, strict) == Ok::<Option<(Seq<u8>, int)>, ErrorView>(None),
            Err(e) => spec_word_step(tail@, strict) == Err::<Option<(Seq<u8>, int)>, ErrorView>(e@),
        },
{
    reveal(spec_word_step);
    if !(tail.len() >= 2 && tail[0] == 0x3d && tail[1] == 0x3f) {
        return Ok(None);
    }
    if strict && !is_strict_mime_word_prefix(tail) {
        return Ok(None);
    }
    let (decoded, consumed) = match decode_one_mime_word(tail)? {
        Some(p) => p,
        None => return Ok(None),
    };
    proof {
        lemma_decode_one_span(tail@);
    }
    let (_, r) = tail.split_at(consumed);
    assert(r@ =~= tail@.skip(consumed as int));
    let mut advance: usize = 0;
    if let Some(lwsp) = consume_mime_lwsp(r) {
        proof {
            lemma_lwsp_len_bounds(r@);
        }
        let (_, next) = r.split_at(lwsp);
        assert(next@ =~= r@.skip(lwsp as int));
        if next.len() >= 2 && next[0] == 0x3d && next[1] == 0x3f && (!strict || is_strict_mime_word_prefix(next)) {
            match decode_one_mime_word(next)? {
                Some(_) => {
                    advance = lwsp;
                },
                None => {},
            }
        }
    }
    assert(spec_lwsp_advance(r@, strict) == Ok::<int, ErrorView>(advance as int));
    Ok(Some((decoded, consumed + advance)))
}

/// Decodes the MIME encoded-words in the bytes (strictly or not).
pub fn decode_mime_encoded_words_strict(input: &[u8], strict: bool) -> (r: Result<Vec<u8>, NkfError>)
    ensures
        bytes_result(r) == spec_decode_words(input@, strict),
{
    let mut out: Vec<u8> = Vec::new();
    let mut i: usize = 0;
    assert(input@.skip(0) =~= input@);
    while i < input.len()
        invariant
            i <= input@.len(),
            spec_decode_words(input@, strict) == (match spec_decode_words(input@.skip(i as int), strict) {
                Err(e) => Err(e),
                Ok(rest) => Ok(out@ + rest),
            }),
        decreases input@.len() - i,
    {
        let (_, tail) = input.split_at(i);
        assert(tail@ =~= input@.skip(i as int));
        let ghost before = out@;
        match word_step(tail, strict) {
            Err(e) => {
                return Err(e);
            },
            Ok(Some((decoded, n))) => {
                extend_bytes(&mut out, decoded.as_slice());
                assert(tail@.skip(n as int) =~= input@.skip(i + n));
                proof {
                    match spec_decode_words(input@.skip(i + n), strict) {
                        Err(e) => {},
                        Ok(rest) => {
                            assert(before + (decoded@ + rest) =~= out@ + rest);
                        },
                    }
                }
                i = i + n;
            },
            Ok(None) => {
                assert(tail@[0] == input@[i as int]);
                assert(tail@.skip(1) =~= input@.skip(i + 1));
                out.push(input[i]);
                proof {
                    match spec_decode_words(input@.skip(i + 1), strict) {
                        Err(e) => {},
                        Ok(rest) => {
                            assert(before + (seq![input@[i as int]] + rest) =~= out@ + rest);
                        },
                    }
                }
                i += 1;
            },
        }
    }
    assert(input@.skip(i as int) =~= Seq::<u8>::empty());
    assert(out@ + Seq::<u8>::empty() =~= out@);
    Ok(out)
}

/// Decodes the MIME encoded-words in the bytes, whatever their charset.
pub fn decode_mime_encoded_words(input: &[u8]) -> (r: Result<Vec<u8>, NkfError>)
    ensures
        bytes_result(r) == spec_decode_words(input@, false),
{
    decode_mime_encoded_words_strict(input, false)
}

/// An encoded-word: `=?charset?marker?payload?=`.
pub open spec fn spec_word(charset: Seq<char>, marker: Seq<char>, payload: Seq<char>) -> Seq<char> {
    seq!['=', '?'] + charset + seq!['?'] + marker + seq!['?'] + payload + seq!['?', '=']
}

/// Whether every word is ASCII, holds no line break, and is at most `n` characters long.
pub open spec fn words_fit(words: Seq<Seq<char>>, n: int) -> bool {
    forall|i: int| 0 <= i < words.len() ==> #[trigger] words[i].len() <= n && no_newline(words[i]) && crate::text::all_ascii_chars(words[i])
}

/// Builds an encoded-word.
fn make_word(charset: &[char], marker: &[char], payload: &[char]) -> (w: Vec<char>)
    ensures
        w@ == spec_word(charset@, marker@, payload@),
        w@.len() == charset@.len() + marker@.len() + payload@.len() + 6,
        no_newline(charset@) && no_newline(marker@) && no_newline(payload@) ==> no_newline(w@),
        crate::text::all_ascii_chars(charset@) && crate::text::all_ascii_chars(marker@) && crate::text::all_ascii_chars(payload@)
            ==> crate::text::all_ascii_chars(w@),
{
    let mut w: Vec<char> = Vec::new();
    w.push('=');
    w.push('?');
    extend_chars(&mut w, charset);
    w.push('?');
    extend_chars(&mut w, marker);
    w.push('?');
    extend_chars(&mut w, payload);
    w.push('?');
    w.push('=');
    assert(w@ =~= spec_word(charset@, marker@, payload@));
    assert(w@ =~= seq!['=', '?'] + charset@ + seq!['?'] + marker@ + seq!['?'] + payload@ + seq!['?', '=']);
    w
}

/// The Base64 encoded-words of the bytes, `chunk` bytes per word.
pub open spec fn spec_b64_words(input: Seq<u8>, charset: Seq<char>, marker: Seq<char>, chunk: int) -> Seq<Seq<char>>
    decreases input.len(),
{
    if input.len() == 0 || chunk <= 0 {
        seq![]
    } else if input.len() <= chunk {
        seq![spec_word(charset, marker, base64_encoded(input))]
    } else {
        seq![spec_word(charset, marker, base64_encoded(input.take(chunk)))] + spec_b64_words(input.skip(chunk), charset, marker, chunk)
    }
}

/// The bytes per Base64 word for a payload limit: the largest multiple of three whose encoding
/// fits, at least three.
pub open spec fn spec_b64_chunk(max_payload_len: int) -> int {
    (if max_payload_len / 4 > 1 {
        max_payload_len / 4
    } else {
        1
    }) * 3
}

/// Whether the Base64 text of a chunk reads back to the chunk.
pub open spec fn b64_reads_back(chunk: Seq<u8>) -> bool {
    base64_decoded(encode_utf8(base64_encoded(chunk))) == Some(chunk)
}

/// Whether every chunk the Base64 word builder cuts from the bytes reads back.
pub open spec fn b64_chunks_read_back(input: Seq<u8>, chunk: int) -> bool
    decreases input.len(),
{
    if input.len() == 0 || chunk <= 0 {
        true
    } else if input.len() <= chunk {
        b64_reads_back(input)
    } else {
        b64_reads_back(input.take(chunk)) && b64_chunks_read_back(input.skip(chunk), chunk)
    }
}

/// The Base64 encoded-words of the bytes.
fn encode_mime_base64_words(input: &[u8], charset: &[char], marker: &[char], max_payload_len: usize) -> (words: Vec<Vec<char>>)
    requires
        4 <= max_payload_len <= 75,
    ensures
        words@.map_values(|w: Vec<char>| w@) == spec_b64_words(input@, charset@, marker@, spec_b64_chunk(max_payload_len as int)),
        no_newline(charset@) && no_newline(marker@) && crate::text::all_ascii_chars(charset@) && crate::text::all_ascii_chars(marker@)
            ==> words_fit(words@.map_values(|w: Vec<char>| w@), charset@.len() + marker@.len() + 6 + max_payload_len),
        b64_chunks_read_back(input@, spec_b64_chunk(max_payload_len as int)),
{
    let quarter = max_payload_len / 4;
    let chunk_len: usize = (if quarter > 1 { quarter } else { 1 }) * 3;
    let ghost k = chunk_len as int;
    let mut words: Vec<Vec<char>> = Vec::new();
    let mut i: usize = 0;
    assert(input@.skip(0) =~= input@);
    while i < input.len()
        invariant
            k == chunk_len,
            k == spec_b64_chunk(max_payload_len as int),
            quarter == max_payload_len / 4,
            chunk_len == (if quarter > 1 { quarter } else { 1 }) * 3,
            0 < chunk_len <= 57,
            i <= input@.len(),
            spec_b64_words(input@, charset@, marker@, k) == words@.map_values(|w: Vec<char>| w@) + spec_b64_words(input@.skip(i as int), charset@, marker@, k),
            4 <= max_payload_len <= 75,
            no_newline(charset@) && no_newline(marker@) && crate::text::all_ascii_chars(charset@) && crate::text::all_ascii_chars(marker@)
                ==> words_fit(words@.map_values(|w: Vec<char>| w@), charset@.len() + marker@.len() + 6 + max_payload_len),
            b64_chunks_read_back(input@.skip(i as int), k) ==> b64_chunks_read_back(input@, k),
        decreases input@.len() - i,
    {
        let ghost tail = input@.skip(i as int);
        let left = input.len() - i;
        let take = if left <= chunk_len { left } else { chunk_len };
        let piece = crate::text::bytes_range(input, i, i + take);
        assert(piece@ =~= tail.take(take as int));
        let payload = base64_encode(piece.as_slice());
        proof {
            lemma_base64_shape(piece@);
        }
        assert(4 * ((take + 2) / 3) <= max_payload_len) by (nonlinear_arith)
            requires
                take <= chunk_len,
                chunk_len == (if quarter > 1 { quarter } else { 1 }) * 3,
                quarter == max_payload_len / 4,
                4 <= max_payload_len,
        ;
        assert(no_newline(payload@) && crate::text::all_ascii_chars(payload@));
        let word = make_word(charset, marker, payload.as_slice());
        let ghost before = words@.map_values(|w: Vec<char>| w@);
        words.push(word);
        assert(words@.map_values(|w: Vec<char>| w@) =~= before.push(word@));
        proof {
            lemma_base64_decoded_encoded(piece@);
        }
        assert(b64_reads_back(piece@));
        if left <= chunk_len {
            assert(tail.take(take as int) =~= tail);
            assert(input@.skip(i + take) =~= Seq::<u8>::empty());
            assert(b64_chunks_read_back(tail, k));
        } else {
            assert(tail.skip(k) =~= input@.skip(i + take));
            assert(b64_chunks_read_back(input@.skip(i + take), k) ==> b64_chunks_read_back(tail, k));
        }
        i = i + take;
        assert(before.push(word@) + spec_b64_words(input@.skip(i as int), charset@, marker@, k) =~= before + (seq![word@] + spec_b64_words(input@.skip(i as int), charset@, marker@, k)));
    }
    assert(input@.skip(i as int) =~= Seq::<u8>::empty());
    assert(b64_chunks_read_back(input@.skip(i as int), k));
    assert(words@.map_values(|w: Vec<char>| w@) + Seq::<Seq<char>>::empty() =~= words@.map_values(|w: Vec<char>| w@));
    words
}

/// The state of the quoted-printable word builder after some bytes: the finished words and the
/// payload in progress.
pub open spec fn spec_q_state(input: Seq<u8>, charset: Seq<char>, marker: Seq<char>, max: int) -> (Seq<Seq<char>>, Seq<char>)
    decreases input.len(),
{
    if input.len() == 0 {
        (seq![], seq![])
    } else {
        let (words, current) = spec_q_state(input.drop_last(), charset, marker, max);
        let enc = spec_mime_q_byte(input.last());
        if current.len() > 0 && current.len() + enc.len() > max {
            (words.push(spec_word(charset, marker, current)), enc)
        } else {
            (words, current + enc)
        }
    }
}

/// The quoted-printable encoded-words of the bytes: payloads filled up to the limit, never
/// splitting one byte's escape; one empty word for empty input.
pub open spec fn spec_q_words(input: Seq<u8>, charset: Seq<char>, marker: Seq<char>, max: int) -> Seq<Seq<char>> {
    let (words, current) = spec_q_state(input, charset, marker, max);
    if current.len() > 0 || input.len() == 0 {
        words.push(spec_word(charset, marker, current))
    } else {
        words
    }
}

/// The quoted-printable encoded-words of the bytes.
fn encode_mime_q_words(input: &[u8], charset: &[char], marker: &[char], max_payload_len: usize) -> (words: Vec<Vec<char>>)
    requires
        4 <= max_payload_len,
    ensures
        words@.map_values(|w: Vec<char>| w@) == spec_q_words(input@, charset@, marker@, max_payload_len as int),
        no_newline(charset@) && no_newline(marker@) && crate::text::all_ascii_chars(charset@) && crate::text::all_ascii_chars(marker@)
            ==> words_fit(words@.map_values(|w: Vec<char>| w@), charset@.len() + marker@.len() + 6 + max_payload_len),
{
    let mut words: Vec<Vec<char>> = Vec::new();
    let mut current: Vec<char> = Vec::new();
    let mut i: usize = 0;
    while i < input.len()
        invariant
            i <= input@.len(),
            spec_q_state(input@.take(i as int), charset@, marker@, max_payload_len as int) == (words@.map_values(|w: Vec<char>| w@), current@),
            current@.len() <= 3 * i,
            4 <= max_payload_len,
            current@.len() <= max_payload_len,
            no_newline(current@) && crate::text::all_ascii_chars(current@),
            no_newline(charset@) && no_newline(marker@) && crate::text::all_ascii_chars(charset@) && crate::text::all_ascii_chars(marker@)
                ==> words_fit(words@.map_values(|w: Vec<char>| w@), charset@.len() + marker@.len() + 6 + max_payload_len),
        decreases input@.len() - i,
    {
        assert(input@.take(i + 1).drop_last() =~= input@.take(i as int));
        let encoded = mime_q_byte(input[i]);
        proof {
            lemma_q_byte_text(input[i as int]);
        }
        if current.len() > 0 && (encoded.len() > max_payload_len || current.len() > max_payload_len - encoded.len()) {
            let word = make_word(charset, marker, current.as_slice());
            let ghost before = words@.map_values(|w: Vec<char>| w@);
            words.push(word);
            assert(words@.map_values(|w: Vec<char>| w@) =~= before.push(word@));
            current = Vec::new();
        }
        extend_chars(&mut current, encoded.as_slice());
        i += 1;
    }
    assert(input@.take(i as int) =~= input@);
    if current.len() > 0 || input.len() == 0 {
        let word = make_word(charset, marker, current.as_slice());
        let ghost before = words@.map_values(|w: Vec<char>| w@);
        words.push(word);
        assert(words@.map_values(|w: Vec<char>| w@) =~= before.push(word@));
    }
    words
}

/// Words joined by a separator.
pub open spec fn spec_join(words: Seq<Seq<char>>, sep: Seq<char>) -> Seq<char>
    decreases words.len(),
{
    if words.len() == 0 {
        seq![]
    } else if words.len() == 1 {
        words[0]
    } else {
        spec_join(words.drop_last(), sep) + sep + words.last()
    }
}

/// Joins words with a separator.
fn join_words(words: &Vec<Vec<char>>, sep: &[char]) -> (out: Vec<char>)
    ensures
        out@ == spec_join(words@.map_values(|w: Vec<char>| w@), sep@),
{
    let ghost ws = words@.map_values(|w: Vec<char>| w@);
    let mut out: Vec<char> = Vec::new();
    let mut i: usize = 0;
    while i < words.len()
        invariant
            i <= words@.len(),
            ws == words@.map_values(|w: Vec<char>| w@),
            out@ == spec_join(ws.take(i as int), sep@),
        decreases words@.len() - i,
    {
        assert(ws.take(i + 1).drop_last() =~= ws.take(i as int));
        assert(ws.take(i + 1).last() == words@[i as int]@);
        if i > 0 {
            extend_chars(&mut out, sep);
        } else {
            assert(ws.take(0) =~= Seq::<Seq<char>>::empty());
        }
        extend_chars(&mut out, words[i].as_slice());
        i += 1;
    }
    assert(ws.take(i as int) =~= ws);
    out
}

/// The largest payload per word for a charset and marker: what fits a 75-character word, at least
/// four.
pub open spec fn spec_max_payload(charset_bytes: int, marker_bytes: int) -> int {
    let room = 75 - (charset_bytes + marker_bytes + 7);
    if room > 4 {
        room
    } else {
        4
    }
}

/// MIME encoding of output: encoded-words in the charset the output encoding names, joined by a
/// line break and a space.
pub open spec fn spec_encode_mime_output(input: Seq<u8>, method: MimeEncoding, charset: Seq<char>) -> Seq<u8> {
    let cs = spec_mime_charset_name(charset);
    let marker = match method {
        MimeEncoding::Base64 => "B"@,
        MimeEncoding::QuotedPrintable => "Q"@,
    };
    let max = spec_max_payload(encode_utf8(cs).len() as int, encode_utf8(marker).len() as int);
    let words = match method {
        MimeEncoding::Base64 => spec_b64_words(input, cs, marker, spec_b64_chunk(max)),
        MimeEncoding::QuotedPrintable => spec_q_words(input, cs, marker, max),
    };
    encode_utf8(spec_join(words, seq!['\n', ' ']))
}

/// The charset labels and markers of encoded-words are short ASCII names.
proof fn lemma_label_lengths(charset: Seq<char>)
    ensures
        encode_utf8(spec_mime_charset_name(charset)).len() == spec_mime_charset_name(charset).len() <= 11,
        crate::text::all_ascii_chars(spec_mime_charset_name(charset)),
        no_newline(spec_mime_charset_name(charset)),
        encode_utf8("B"@).len() == 1,
        encode_utf8("Q"@).len() == 1,
        "B"@ == seq!['B'],
        "Q"@ == seq!['Q'],
{
    reveal_strlit("ISO-2022-JP");
    reveal_strlit("EUC-JP");
    reveal_strlit("SHIFT_JIS");
    reveal_strlit("CP932");
    reveal_strlit("ISO-8859-1");
    reveal_strlit("UTF-8");
    reveal_strlit("B");
    reveal_strlit("Q");
    let n = spec_mime_charset_name(charset);
    assert(crate::text::all_ascii_chars(n));
    crate::text::lemma_encode_utf8_ascii(n);
    crate::text::lemma_encode_utf8_ascii("B"@);
    crate::text::lemma_encode_utf8_ascii("Q"@);
}

/// Words that fit joined by a line break and a space: ASCII text whose lines are at most 76
/// characters long.
proof fn lemma_join_fits(words: Seq<Seq<char>>)
    requires
        words_fit(words, 75),
    ensures
        crate::text::all_ascii_chars(spec_join(words, seq!['\n', ' '])),
        lines_within(spec_join(words, seq!['\n', ' ']), 76),
    decreases words.len(),
{
    lemma_join_lines(words);
    if words.len() > 1 {
        let init = words.drop_last();
        assert forall|i: int| 0 <= i < init.len() implies #[trigger] init[i].len() <= 75 && no_newline(init[i]) && crate::text::all_ascii_chars(init[i]) by {
            assert(init[i] == words[i]);
        }
        lemma_join_fits(init);
        assert(words[words.len() - 1] == words.last());
    } else if words.len() == 1 {
        assert(words[0].len() <= 75);
    }
}

/// MIME-encodes the output as encoded-words. No line of the result is longer than 76 bytes, and
/// words labelled UTF-8 decode back to the input, strictly or not.
pub fn encode_mime_output(input: &[u8], method: MimeEncoding, charset: &str) -> (out: Vec<u8>)
    ensures
        out@ == spec_encode_mime_output(input@, method, charset@),
        byte_lines_within(out@, 76),
        spec_mime_charset_name(charset@) == "UTF-8"@ ==> {
            &&& spec_decode_words(out@, false) == Ok::<Seq<u8>, ErrorView>(input@)
            &&& spec_decode_words(out@, true) == Ok::<Seq<u8>, ErrorView>(input@)
        },
{
    let cs = mime_charset_name(charset);
    let marker: &str = match method {
        MimeEncoding::Base64 => "B",
        MimeEncoding::QuotedPrintable => "Q",
    };
    proof {
        lemma_label_lengths(charset@);
    }
    let used: usize = if cs.len() < 64 && marker.len() < 4 { cs.len() + marker.len() + 7 } else { 75 };
    let room: usize = if used < 75 { 75 - used } else { 0 };
    let max_payload_len: usize = if room > 4 { room } else { 4 };
    assert(max_payload_len as int == spec_max_payload(encode_utf8(cs@).len() as int, encode_utf8(marker@).len() as int));
    let csv = str_chars(cs);
    let mv = str_chars(marker);
    let words = match method {
        MimeEncoding::Base64 => encode_mime_base64_words(input, csv.as_slice(), mv.as_slice(), max_payload_len),
        MimeEncoding::QuotedPrintable => encode_mime_q_words(input, csv.as_slice(), mv.as_slice(), max_payload_len),
    };
    let mut sep: Vec<char> = Vec::new();
    sep.push('\n');
    sep.push(' ');
    assert(sep@ =~= seq!['\n', ' ']);
    proof {
        reveal_strlit("B");
        reveal_strlit("Q");
        assert(words_fit(words@.map_values(|w: Vec<char>| w@), 75));
        lemma_join_fits(words@.map_values(|w: Vec<char>| w@));
    }
    let joined = join_words(&words, sep.as_slice());
    proof {
        lemma_ascii_lines(joined@, 76);
        if spec_mime_charset_name(charset@) == "UTF-8"@ {
            match method {
                MimeEncoding::Base64 => {
                    let k = spec_b64_chunk(max_payload_len as int);
                    lemma_b64_words_decode(input@, k, false);
                    lemma_b64_words_decode(input@, k, true);
                },
                MimeEncoding::QuotedPrintable => {
                    lemma_q_words_decode(input@, max_payload_len as int, false);
                    lemma_q_words_decode(input@, max_payload_len as int, true);
                },
            }
        }
    }
    encode_chars(joined.as_slice())
}

/// MIME-encodes bytes as UTF-8 encoded-words.
pub fn encode_mime_word_output(input: &[u8], method: MimeEncoding) -> (out: Vec<u8>)
    ensures
        out@ == spec_encode_mime_output(input@, method, "UTF-8"@),
{
    encode_mime_output(input, method, "UTF-8")
}

/// A hexadecimal digit reads back as the nibble it was written for.
pub proof fn lemma_hex_round_trip(n: u8)
    requires
        n < 16,
    ensures
        spec_hex_value((spec_hex_char(n) as u32) as u8) == Some(n),
{
}

/// The quoted-printable text of a concatenation is the concatenation of the texts.
pub proof fn lemma_encode_mime_q_concat(a: Seq<u8>, b: Seq<u8>)
    ensures
        spec_encode_mime_q(a + b) == spec_encode_mime_q(a) + spec_encode_mime_q(b),
    decreases b.len(),
{
    if b.len() == 0 {
        assert(a + b =~= a);
        assert(spec_encode_mime_q(a) + spec_encode_mime_q(b) =~= spec_encode_mime_q(a));
    } else {
        lemma_encode_mime_q_concat(a, b.drop_last());
        assert((a + b).drop_last() =~= a + b.drop_last());
        assert((a + b).last() == b.last());
        assert(spec_encode_mime_q(a) + spec_encode_mime_q(b) =~= spec_encode_mime_q(a) + spec_encode_mime_q(b.drop_last()) + spec_mime_q_byte(b.last()));
    }
}

/// The bytes of the quoted-printable text of one byte.
pub open spec fn spec_q_bytes(b: u8) -> Seq<u8> {
    encode_utf8(spec_mime_q_byte(b))
}

/// The quoted-printable text of one byte decodes to that byte, whatever follows it.
pub proof fn lemma_decode_q_byte(b: u8, rest: Seq<u8>)
    ensures
        spec_decode_mime_q(spec_q_bytes(b) + rest) == seq![b] + spec_decode_mime_q(rest),
{
    let q = spec_mime_q_byte(b);
    assert(crate::text::all_ascii_chars(q)) by {
        if b != 0x20 && !spec_is_alnum(b) {
            assert(b / 16 < 16 && b % 16 < 16);
        }
    }
    crate::text::lemma_encode_utf8_ascii(q);
    let s = spec_q_bytes(b) + rest;
    if b == 0x20 {
        assert(s[0] == 0x5f);
        assert(s.skip(1) =~= rest);
    } else if spec_is_alnum(b) {
        assert(s[0] == b);
        assert(s.skip(1) =~= rest);
    } else {
        let hi = b / 16;
        let lo = b % 16;
        lemma_hex_round_trip(hi);
        lemma_hex_round_trip(lo);
        assert(s[0] == 0x3d);
        assert(s[1] == (spec_hex_char(hi) as u32) as u8);
        assert(s[2] == (spec_hex_char(lo) as u32) as u8);
        assert(spec_hex_byte(hi, lo) == b);
        assert(s.skip(3) =~= rest);
    }
}

/// Quoted-printable decoding undoes quoted-printable encoding: the text that `encode_mime_q`
/// writes for some bytes decodes back to exactly those bytes.
pub proof fn lemma_mime_q_round_trip(b: Seq<u8>)
    ensures
        spec_decode_mime_q(encode_utf8(spec_encode_mime_q(b))) == b,
    decreases b.len(),
{
    if b.len() == 0 {
        assert(spec_encode_mime_q(b) =~= Seq::<char>::empty());
        assert(encode_utf8(Seq::<char>::empty()) =~= Seq::<u8>::empty());
    } else {
        let rest = b.drop_first();
        lemma_mime_q_round_trip(rest);
        assert(b =~= seq![b[0]] + rest);
        lemma_encode_mime_q_concat(seq![b[0]], rest);
        assert(seq![b[0]].drop_last() =~= Seq::<u8>::empty());
        assert(spec_encode_mime_q(Seq::<u8>::empty()) =~= Seq::<char>::empty());
        assert(spec_encode_mime_q(seq![b[0]]) =~= spec_mime_q_byte(b[0]));
        crate::text::lemma_encode_utf8_concat(spec_mime_q_byte(b[0]), spec_encode_mime_q(rest));
        lemma_decode_q_byte(b[0], encode_utf8(spec_encode_mime_q(rest)));
    }
}

/// Whether a text holds no line break.
pub open spec fn no_newline(s: Seq<char>) -> bool {
    forall|k: int| 0 <= k < s.len() ==> s[k] != '\n'
}

/// The column after the first `j` characters: how many characters follow the last line break
/// before position `j` (all of them when there is none).
pub open spec fn spec_column(s: Seq<char>, j: int) -> int
    decreases j,
{
    if j <= 0 {
        0
    } else if s[j - 1] == '\n' {
        0
    } else {
        spec_column(s, j - 1) + 1
    }
}

/// Whether no line of the text is longer than `n` characters.
pub open spec fn lines_within(s: Seq<char>, n: int) -> bool {
    forall|j: int| 0 <= j <= s.len() ==> spec_column(s, j) <= n
}

/// Columns within a prefix do not depend on what follows it.
proof fn lemma_column_prefix(a: Seq<char>, b: Seq<char>, j: int)
    requires
        0 <= j <= a.len(),
    ensures
        spec_column(a + b, j) == spec_column(a, j),
    decreases j,
{
    if j > 0 {
        lemma_column_prefix(a, b, j - 1);
    }
}

/// After a line break, the column counts the characters that follow it.
proof fn lemma_column_after_break(a: Seq<char>, q: Seq<char>, t: int)
    requires
        0 <= t <= q.len(),
        no_newline(q),
    ensures
        spec_column(a + seq!['\n'] + q, a.len() + 1 + t) == t,
    decreases t,
{
    let s = a + seq!['\n'] + q;
    if t == 0 {
        assert(s[a.len() as int] == '\n');
    } else {
        lemma_column_after_break(a, q, t - 1);
        assert(s[a.len() + t] == q[t - 1]);
    }
}

/// In a text without line breaks the column is the position.
proof fn lemma_column_no_newline(s: Seq<char>, j: int)
    requires
        0 <= j <= s.len(),
        no_newline(s),
    ensures
        spec_column(s, j) == j,
    decreases j,
{
    if j > 0 {
        lemma_column_no_newline(s, j - 1);
    }
}

/// Words of at most 75 characters without line breaks, joined by a line break and a space, make
/// lines of at most 76 characters.
#[verifier::spinoff_prover]
pub proof fn lemma_join_lines(words: Seq<Seq<char>>)
    requires
        forall|i: int| 0 <= i < words.len() ==> #[trigger] words[i].len() <= 75 && no_newline(words[i]),
    ensures
        lines_within(spec_join(words, seq!['\n', ' ']), 76),
    decreases words.len(),
{
    let sep = seq!['\n', ' '];
    let s = spec_join(words, sep);
    if words.len() == 0 {
        assert forall|j: int| 0 <= j <= s.len() implies spec_column(s, j) <= 76 by {
            assert(j == 0);
        }
    } else if words.len() == 1 {
        assert(words[0].len() <= 75 && no_newline(words[0]));
        assert forall|j: int| 0 <= j <= s.len() implies spec_column(s, j) <= 76 by {
            lemma_column_no_newline(s, j);
        }
    } else {
        let init = words.drop_last();
        let w = words.last();
        assert(words[words.len() - 1].len() <= 75 && no_newline(words[words.len() - 1]));
        assert forall|i: int| 0 <= i < init.len() implies #[trigger] init[i].len() <= 75 && no_newline(init[i]) by {
            assert(init[i] == words[i]);
            assert(words[i].len() <= 75 && no_newline(words[i]));
        }
        lemma_join_lines(init);
        let a = spec_join(init, sep);
        let q = seq![' '] + w;
        assert(no_newline(q));
        assert(s =~= a + seq!['\n'] + q);
        assert forall|j: int| 0 <= j <= s.len() implies spec_column(s, j) <= 76 by {
            if j <= a.len() {
                lemma_column_prefix(a, seq!['\n'] + q, j);
                assert(a + (seq!['\n'] + q) =~= s);
            } else {
                lemma_column_after_break(a, q, j - a.len() - 1);
            }
        }
    }
}

/// The column after the first `j` bytes: how many bytes follow the last LF before position `j`.
pub open spec fn spec_byte_column(s: Seq<u8>, j: int) -> int
    decreases j,
{
    if j <= 0 {
        0
    } else if s[j - 1] == 0x0a {
        0
    } else {
        spec_byte_column(s, j - 1) + 1
    }
}

/// Whether no line of the bytes is longer than `n` bytes.
pub open spec fn byte_lines_within(s: Seq<u8>, n: int) -> bool {
    forall|j: int| 0 <= j <= s.len() ==> spec_byte_column(s, j) <= n
}

/// The UTF-8 bytes of ASCII text have the same columns as the text.
proof fn lemma_ascii_columns(s: Seq<char>, j: int)
    requires
        crate::text::all_ascii_chars(s),
        0 <= j <= s.len(),
    ensures
        spec_byte_column(encode_utf8(s), j) == spec_column(s, j),
    decreases j,
{
    crate::text::lemma_encode_utf8_ascii(s);
    if j > 0 {
        lemma_ascii_columns(s, j - 1);
        let c = s[j - 1];
        assert((c as u32) < 0x80);
        assert(encode_utf8(s)[j - 1] == (c as u32) as u8);
        vstd::utf8::char_u32_cast(c, c as u32);
        vstd::utf8::char_u32_cast('\n', '\n' as u32);
        assert(((c as u32) as u8 == 0x0a) == (c == '\n'));
    }
}

/// ASCII text whose lines fit has UTF-8 bytes whose lines fit.
pub proof fn lemma_ascii_lines(s: Seq<char>, n: int)
    requires
        crate::text::all_ascii_chars(s),
        lines_within(s, n),
    ensures
        byte_lines_within(encode_utf8(s), n),
{
    crate::text::lemma_encode_utf8_ascii(s);
    assert forall|j: int| 0 <= j <= encode_utf8(s).len() implies spec_byte_column(encode_utf8(s), j) <= n by {
        lemma_ascii_columns(s, j);
    }
}

/// The first occurrence of a byte after a stretch free of it.
proof fn lemma_find_byte_after(a: Seq<u8>, b: Seq<u8>, x: u8)
    requires
        forall|i: int| 0 <= i < a.len() ==> a[i] != x,
        b.len() > 0,
        b[0] == x,
    ensures
        spec_find_byte(a + b, x) == Some(a.len() as int),
    decreases a.len(),
{
    if a.len() == 0 {
        assert(a + b =~= b);
    } else {
        lemma_find_byte_after(a.skip(1), b, x);
        assert((a + b).skip(1) =~= a.skip(1) + b);
        assert((a + b)[0] == a[0]);
    }
}

/// The first occurrence of a two-byte needle after a stretch free of its first byte.
proof fn lemma_find_pair_after(a: Seq<u8>, t: Seq<u8>, x: u8, y: u8)
    requires
        forall|i: int| 0 <= i < a.len() ==> a[i] != x,
    ensures
        spec_find_pair(a + seq![x, y] + t, x, y) == Some(a.len() as int),
    decreases a.len(),
{
    let s = a + seq![x, y] + t;
    if a.len() == 0 {
        assert(s[0] == x && s[1] == y);
    } else {
        lemma_find_pair_after(a.skip(1), t, x, y);
        assert(s.skip(1) =~= a.skip(1) + seq![x, y] + t);
        assert(s[0] == a[0]);
    }
}

/// Bytes without white space are left as they are by stripping it.
proof fn lemma_strip_no_ws(s: Seq<u8>)
    requires
        forall|i: int| 0 <= i < s.len() ==> !spec_is_ascii_whitespace(s[i]),
    ensures
        spec_strip_ascii_ws(s) == s,
    decreases s.len(),
{
    if s.len() > 0 {
        lemma_strip_no_ws(s.drop_last());
        assert(s.drop_last().push(s.last()) =~= s);
    }
}

/// A character an encoded-word payload may hold: ASCII, neither `?` nor white space.
pub open spec fn spec_payload_char(c: char) -> bool {
    let v = c as u32;
    v < 0x80 && v != 0x3f && v != 0x20 && v != 0x09 && v != 0x0a && v != 0x0c && v != 0x0d
}

/// Whether every character of a payload may stand in an encoded-word.
pub open spec fn payload_chars(p: Seq<char>) -> bool {
    forall|i: int| 0 <= i < p.len() ==> spec_payload_char(#[trigger] p[i])
}

/// A payload character's byte is neither `?` nor white space.
proof fn lemma_payload_byte(c: char)
    requires
        spec_payload_char(c),
    ensures
        ((c as u32) as u8) as u32 == c as u32,
        (c as u32) < 0x80,
        (c as u32) as u8 != 0x3f,
        !spec_is_ascii_whitespace((c as u32) as u8),
{
    let v: u32 = c as u32;
    assert((v as u8) as u32 == v) by (bit_vector)
        requires
            v < 0x80,
    ;
}

/// Base64 text is payload text.
proof fn lemma_b64_payload(chunk: Seq<u8>)
    ensures
        payload_chars(base64_encoded(chunk)),
{
    lemma_base64_shape(chunk);
}

/// Quoted-printable text is payload text.
proof fn lemma_q_payload(b: Seq<u8>)
    ensures
        payload_chars(spec_encode_mime_q(b)),
    decreases b.len(),
{
    if b.len() > 0 {
        lemma_q_payload(b.drop_last());
        let x = b.last();
        let q = spec_mime_q_byte(x);
        if x != 0x20 && !spec_is_alnum(x) {
            assert(x / 16 < 16 && x % 16 < 16);
        }
        assert(payload_chars(q)) by {
            assert forall|i: int| 0 <= i < q.len() implies spec_payload_char(#[trigger] q[i]) by {
                if x != 0x20 && spec_is_alnum(x) {
                    assert(q[i] == x as char);
                }
            }
        }
        let e = spec_encode_mime_q(b.drop_last());
        assert(spec_encode_mime_q(b) =~= e + q);
        assert forall|i: int| 0 <= i < (e + q).len() implies spec_payload_char(#[trigger] (e + q)[i]) by {
            if i < e.len() {
                assert((e + q)[i] == e[i]);
            } else {
                assert((e + q)[i] == q[i - e.len()]);
            }
        }
    }
}

/// The header of a UTF-8 encoded-word with method letter `m`, `=?UTF-8?m?`, as bytes.
pub open spec fn spec_utf8_word_header(m: u8) -> Seq<u8> {
    seq![0x3du8, 0x3f, 0x55, 0x54, 0x46, 0x2d, 0x38, 0x3f, m, 0x3f]
}

/// The bytes of a UTF-8 encoded-word with method letter `mk` and payload `p`.
pub open spec fn spec_utf8_word_bytes(mk: char, p: Seq<char>) -> Seq<u8> {
    encode_utf8(spec_word("UTF-8"@, seq![mk], p))
}

/// The bytes of a UTF-8 encoded-word: its header, the payload's bytes, and `?=`.
proof fn lemma_utf8_word_bytes(mk: char, p: Seq<char>)
    requires
        mk == 'B' || mk == 'Q',
        payload_chars(p),
    ensures
        spec_utf8_word_bytes(mk, p) == spec_utf8_word_header((mk as u32) as u8) + encode_utf8(p) + seq![0x3fu8, 0x3d],
        encode_utf8("UTF-8"@) == spec_utf8_word_header((mk as u32) as u8).subrange(2, 7),
        forall|i: int| 0 <= i < encode_utf8(p).len() ==> encode_utf8(p)[i] != 0x3f && !spec_is_ascii_whitespace(#[trigger] encode_utf8(p)[i]),
{
    reveal_strlit("UTF-8");
    let w = spec_word("UTF-8"@, seq![mk], p);
    assert(crate::text::all_ascii_chars(p)) by {
        assert forall|i: int| 0 <= i < p.len() implies (p[i] as u32) < 0x80 by {
            assert(spec_payload_char(p[i]));
        }
    }
    assert(crate::text::all_ascii_chars(w)) by {
        assert forall|i: int| 0 <= i < w.len() implies (w[i] as u32) < 0x80 by {
            if 10 <= i < 10 + p.len() {
                assert(w[i] == p[i - 10]);
            }
        }
    }
    crate::text::lemma_encode_utf8_ascii(w);
    crate::text::lemma_encode_utf8_ascii(p);
    crate::text::lemma_encode_utf8_ascii("UTF-8"@);
    let rhs = spec_utf8_word_header((mk as u32) as u8) + encode_utf8(p) + seq![0x3fu8, 0x3d];
    assert(encode_utf8(w) =~= rhs) by {
        assert forall|i: int| 0 <= i < w.len() implies encode_utf8(w)[i] == rhs[i] by {
            if 10 <= i < 10 + p.len() {
                assert(w[i] == p[i - 10]);
            }
        }
    }
    assert(encode_utf8("UTF-8"@) =~= spec_utf8_word_header((mk as u32) as u8).subrange(2, 7));
    assert forall|i: int| 0 <= i < encode_utf8(p).len() implies encode_utf8(p)[i] != 0x3f && !spec_is_ascii_whitespace(#[trigger] encode_utf8(p)[i]) by {
        assert(spec_payload_char(p[i]));
        lemma_payload_byte(p[i]);
    }
}

/// What a payload's bytes decode to under a method letter.
pub open spec fn spec_payload_raw(mk: char, pb: Seq<u8>) -> Option<Seq<u8>> {
    if mk == 'B' {
        base64_decoded(spec_strip_ascii_ws(pb))
    } else {
        Some(spec_decode_mime_q(pb))
    }
}

/// A UTF-8 encoded-word at the front of the bytes is accepted, strictly too, and decodes to what
/// its payload carries.
#[verifier::spinoff_prover]
#[verifier::rlimit(40)]
proof fn lemma_decode_word(mk: char, p: Seq<char>, raw: Seq<u8>, tail: Seq<u8>)
    requires
        mk == 'B' || mk == 'Q',
        payload_chars(p),
        spec_payload_raw(mk, encode_utf8(p)) == Some(raw),
    ensures
        ({
            let w = spec_utf8_word_bytes(mk, p);
            &&& w.len() >= 12
            &&& (w + tail)[0] == 0x3d
            &&& spec_word_start(w + tail)
            &&& spec_is_strict_prefix(w + tail)
            &&& spec_decode_one(w + tail) == Ok::<Option<(Seq<u8>, int)>, ErrorView>(Some((raw, w.len() as int)))
        }),
{
    reveal(spec_decode_one);
    reveal_strlit("UTF-8");
    lemma_utf8_word_bytes(mk, p);
    let m = (mk as u32) as u8;
    assert(m == 0x42 || m == 0x51);
    let pb = encode_utf8(p);
    let h = spec_utf8_word_header(m);
    let w = spec_utf8_word_bytes(mk, p);
    let s = w + tail;
    assert(s =~= h + (pb + seq![0x3fu8, 0x3d] + tail));
    // The charset ends at the first `?` after `=?`.
    assert(s.skip(2) =~= seq![0x55u8, 0x54, 0x46, 0x2d, 0x38] + (seq![0x3fu8, m, 0x3f] + pb + seq![0x3fu8, 0x3d] + tail));
    lemma_find_byte_after(seq![0x55u8, 0x54, 0x46, 0x2d, 0x38], seq![0x3fu8, m, 0x3f] + pb + seq![0x3fu8, 0x3d] + tail, 0x3f);
    let cs = s.subrange(2, 7);
    assert(cs =~= h.subrange(2, 7));
    vstd::utf8::encode_utf8_valid_utf8("UTF-8"@);
    vstd::utf8::encode_utf8_decode_utf8("UTF-8"@);
    assert(valid_utf8(cs) && decode_utf8(cs) == "UTF-8"@);
    // The payload ends at the first `?=`.
    assert(s.skip(10) =~= pb + seq![0x3fu8, 0x3d] + tail);
    lemma_find_pair_after(pb, tail, 0x3f, 0x3d);
    assert(s.subrange(10, 10 + pb.len() as int) =~= pb);
    crate::convert::lemma_convert_same_encoding("UTF-8"@, "UTF-8"@, raw);
    // The header names a charset and method the strict mode accepts.
    assert("UTF-8"@.map_values(|ch: char| spec_name_char(ch)) =~= "UTF-8"@);
    assert(spec_parse_header(s) == Some(("UTF-8"@, m)));
}

/// Words joined: the first, the separator, and the rest joined.
proof fn lemma_join_front(words: Seq<Seq<char>>, sep: Seq<char>)
    requires
        words.len() >= 2,
    ensures
        spec_join(words, sep) == words[0] + sep + spec_join(words.drop_first(), sep),
    decreases words.len(),
{
    if words.len() == 2 {
        assert(words.drop_last().len() == 1);
        assert(words.drop_first().len() == 1);
        assert(spec_join(words.drop_last(), sep) == words[0]);
        assert(spec_join(words.drop_first(), sep) == words[1]);
    } else {
        lemma_join_front(words.drop_last(), sep);
        assert(words.drop_last().drop_first() =~= words.drop_first().drop_last());
        assert(words.drop_first().last() == words.last());
        assert(words.drop_last()[0] == words[0]);
    }
}

/// The step over a word followed by a line break, a space and another word.
proof fn lemma_step_between(mk: char, p0: Seq<char>, raw0: Seq<u8>, p1: Seq<char>, raw1: Seq<u8>, t: Seq<u8>, strict: bool)
    requires
        mk == 'B' || mk == 'Q',
        payload_chars(p0),
        payload_chars(p1),
        spec_payload_raw(mk, encode_utf8(p0)) == Some(raw0),
        spec_payload_raw(mk, encode_utf8(p1)) == Some(raw1),
    ensures
        ({
            let w0 = spec_utf8_word_bytes(mk, p0);
            let s = w0 + (seq![0x0au8, 0x20] + (spec_utf8_word_bytes(mk, p1) + t));
            &&& spec_word_step(s, strict) == Ok::<Option<(Seq<u8>, int)>, ErrorView>(Some((raw0, w0.len() as int + 2)))
            &&& s.skip(w0.len() as int + 2) == spec_utf8_word_bytes(mk, p1) + t
            &&& 0 < w0.len() + 2 <= s.len()
        }),
{
    reveal(spec_word_step);
    let w0 = spec_utf8_word_bytes(mk, p0);
    let r = spec_utf8_word_bytes(mk, p1) + t;
    let s = w0 + (seq![0x0au8, 0x20] + r);
    lemma_decode_word(mk, p1, raw1, t);
    lemma_decode_word(mk, p0, raw0, seq![0x0au8, 0x20] + r);
    let after = s.skip(w0.len() as int);
    assert(after =~= seq![0x0au8, 0x20] + r);
    assert(after.skip(1).skip(1) =~= r);
    assert(spec_lwsp_len(r) == 0);
    assert(spec_lwsp_len(after.skip(1)) == 1);
    assert(spec_lwsp_len(after) == 2);
    assert(after.skip(2) =~= r);
    assert(spec_lwsp_advance(after, strict) == Ok::<int, ErrorView>(2));
    assert(s.skip(w0.len() as int + 2) =~= r);
}

/// The step over a last word.
proof fn lemma_step_last(mk: char, p0: Seq<char>, raw0: Seq<u8>, strict: bool)
    requires
        mk == 'B' || mk == 'Q',
        payload_chars(p0),
        spec_payload_raw(mk, encode_utf8(p0)) == Some(raw0),
    ensures
        ({
            let w0 = spec_utf8_word_bytes(mk, p0);
            &&& spec_word_step(w0, strict) == Ok::<Option<(Seq<u8>, int)>, ErrorView>(Some((raw0, w0.len() as int)))
            &&& w0.skip(w0.len() as int) == Seq::<u8>::empty()
            &&& 0 < w0.len()
        }),
{
    reveal(spec_word_step);
    let w0 = spec_utf8_word_bytes(mk, p0);
    lemma_decode_word(mk, p0, raw0, Seq::<u8>::empty());
    assert(w0 + Seq::<u8>::empty() =~= w0);
    assert(w0.skip(w0.len() as int) =~= Seq::<u8>::empty());
    assert(spec_lwsp_len(Seq::<u8>::empty()) == 0);
}

/// The bytes of a list of payloads made into UTF-8 words and joined by a line break and a space.
pub open spec fn spec_words_bytes(mk: char, ps: Seq<Seq<char>>) -> Seq<u8> {
    encode_utf8(spec_join(ps.map_values(|p: Seq<char>| spec_word("UTF-8"@, seq![mk], p)), seq!['\n', ' ']))
}

/// The concatenation of byte chunks.
pub open spec fn spec_concat_chunks(cs: Seq<Seq<u8>>) -> Seq<u8>
    decreases cs.len(),
{
    if cs.len() == 0 {
        seq![]
    } else {
        spec_concat_chunks(cs.drop_last()) + cs.last()
    }
}

proof fn lemma_concat_front(cs: Seq<Seq<u8>>)
    requires
        cs.len() >= 1,
    ensures
        spec_concat_chunks(cs) == cs[0] + spec_concat_chunks(cs.drop_first()),
    decreases cs.len(),
{
    if cs.len() == 1 {
        assert(cs.drop_first() =~= Seq::<Seq<u8>>::empty());
        assert(cs.drop_last() =~= Seq::<Seq<u8>>::empty());
        assert(cs[0] + Seq::<u8>::empty() =~= cs[0]);
    } else {
        lemma_concat_front(cs.drop_last());
        assert(cs.drop_last().drop_first() =~= cs.drop_first().drop_last());
        assert(cs.drop_first().last() == cs.last());
        assert(cs.drop_last()[0] == cs[0]);
    }
}

/// A non-empty list of UTF-8 words joined by a line break and a space decodes, strictly or not,
/// to what their payloads carry, one after the other.
proof fn lemma_words_decode(mk: char, ps: Seq<Seq<char>>, raws: Seq<Seq<u8>>, strict: bool)
    requires
        mk == 'B' || mk == 'Q',
        ps.len() >= 1,
        raws.len() == ps.len(),
        forall|i: int| 0 <= i < ps.len() ==> payload_chars(#[trigger] ps[i]),
        forall|i: int| 0 <= i < ps.len() ==> spec_payload_raw(mk, encode_utf8(#[trigger] ps[i])) == Some(raws[i]),
    ensures
        spec_decode_words(spec_words_bytes(mk, ps), strict) == Ok::<Seq<u8>, ErrorView>(spec_concat_chunks(raws)),
    decreases ps.len(),
{
    let sep = seq!['\n', ' '];
    let ws = ps.map_values(|p: Seq<char>| spec_word("UTF-8"@, seq![mk], p));
    assert(payload_chars(ps[0]));
    assert(spec_payload_raw(mk, encode_utf8(ps[0])) == Some(raws[0]));
    lemma_concat_front(raws);
    if ps.len() == 1 {
        lemma_step_last(mk, ps[0], raws[0], strict);
        let w0 = spec_utf8_word_bytes(mk, ps[0]);
        assert(spec_join(ws, sep) == ws[0]);
        assert(spec_words_bytes(mk, ps) == w0);
        assert(raws.drop_first() =~= Seq::<Seq<u8>>::empty());
        assert(spec_concat_chunks(raws.drop_first()) =~= Seq::<u8>::empty());
        assert(spec_decode_words(Seq::<u8>::empty(), strict) == Ok::<Seq<u8>, ErrorView>(Seq::<u8>::empty()));
        assert(spec_decode_words(w0, strict) == Ok::<Seq<u8>, ErrorView>(raws[0] + Seq::<u8>::empty()));
    } else {
        let rest = ps.drop_first();
        let rest_ws = rest.map_values(|p: Seq<char>| spec_word("UTF-8"@, seq![mk], p));
        lemma_join_front(ws, sep);
        assert(ws.drop_first() =~= rest_ws);
        let rj = spec_join(rest_ws, sep);
        let wc0 = ws[0];
        crate::text::lemma_encode_utf8_concat(wc0 + sep, rj);
        crate::text::lemma_encode_utf8_concat(wc0, sep);
        crate::text::lemma_encode_utf8_ascii(sep);
        assert(encode_utf8(sep) =~= seq![0x0au8, 0x20]);
        let wc1 = rest_ws[0];
        if rest_ws.len() >= 2 {
            lemma_join_front(rest_ws, sep);
        }
        let rj_tail = rj.skip(wc1.len() as int);
        assert(rj =~= wc1 + rj_tail);
        crate::text::lemma_encode_utf8_concat(wc1, rj_tail);
        let t = encode_utf8(rj_tail);
        assert(payload_chars(ps[1]));
        assert(spec_payload_raw(mk, encode_utf8(ps[1])) == Some(raws[1]));
        lemma_step_between(mk, ps[0], raws[0], ps[1], raws[1], t, strict);
        assert(forall|i: int| 0 <= i < rest.len() ==> rest[i] == ps[i + 1]);
        assert(forall|i: int| 0 <= i < rest.len() ==> raws.drop_first()[i] == raws[i + 1]);
        lemma_words_decode(mk, rest, raws.drop_first(), strict);
        assert(spec_words_bytes(mk, rest) == encode_utf8(rj));
        let s = spec_utf8_word_bytes(mk, ps[0]) + (seq![0x0au8, 0x20] + encode_utf8(rj));
        assert(spec_words_bytes(mk, ps) == s);
        assert(spec_decode_words(s, strict) == Ok::<Seq<u8>, ErrorView>(raws[0] + spec_concat_chunks(raws.drop_first())));
    }
}

/// The chunks the Base64 word builder cuts from the bytes.
pub open spec fn spec_b64_chunk_list(input: Seq<u8>, k: int) -> Seq<Seq<u8>>
    decreases input.len(),
{
    if input.len() == 0 || k <= 0 {
        seq![]
    } else if input.len() <= k {
        seq![input]
    } else {
        seq![input.take(k)] + spec_b64_chunk_list(input.skip(k), k)
    }
}

/// The Base64 words of the bytes are the words of their chunks, every chunk reads back, and the
/// chunks make up the bytes.
proof fn lemma_b64_chunk_list(input: Seq<u8>, k: int)
    requires
        k > 0,
        b64_chunks_read_back(input, k),
    ensures
        spec_b64_words(input, "UTF-8"@, "B"@, k) == spec_b64_chunk_list(input, k).map_values(|c: Seq<u8>| spec_word("UTF-8"@, seq!['B'], base64_encoded(c))),
        forall|i: int| 0 <= i < spec_b64_chunk_list(input, k).len() ==> b64_reads_back(#[trigger] spec_b64_chunk_list(input, k)[i]),
        spec_concat_chunks(spec_b64_chunk_list(input, k)) == input,
        input.len() > 0 ==> spec_b64_chunk_list(input, k).len() >= 1,
    decreases input.len(),
{
    reveal_strlit("B");
    assert("B"@ =~= seq!['B']);
    let cl = spec_b64_chunk_list(input, k);
    if input.len() == 0 {
        assert(spec_b64_words(input, "UTF-8"@, "B"@, k) =~= Seq::<Seq<char>>::empty());
        assert(cl.map_values(|c: Seq<u8>| spec_word("UTF-8"@, seq!['B'], base64_encoded(c))) =~= Seq::<Seq<char>>::empty());
        assert(input =~= Seq::<u8>::empty());
    } else if input.len() <= k {
        assert(cl.map_values(|c: Seq<u8>| spec_word("UTF-8"@, seq!['B'], base64_encoded(c))) =~= seq![spec_word("UTF-8"@, seq!['B'], base64_encoded(input))]);
        assert(cl.drop_last() =~= Seq::<Seq<u8>>::empty());
        assert(spec_concat_chunks(Seq::<Seq<u8>>::empty()) =~= Seq::<u8>::empty());
        assert(Seq::<u8>::empty() + input =~= input);
        assert(spec_b64_words(input, "UTF-8"@, "B"@, k) =~= seq![spec_word("UTF-8"@, seq!['B'], base64_encoded(input))]);
    } else {
        let rest = input.skip(k);
        lemma_b64_chunk_list(rest, k);
        let rcl = spec_b64_chunk_list(rest, k);
        assert(cl =~= seq![input.take(k)] + rcl);
        assert(cl.map_values(|c: Seq<u8>| spec_word("UTF-8"@, seq!['B'], base64_encoded(c))) =~= seq![spec_word("UTF-8"@, seq!['B'], base64_encoded(input.take(k)))] + rcl.map_values(|c: Seq<u8>| spec_word("UTF-8"@, seq!['B'], base64_encoded(c))));
        assert forall|i: int| 0 <= i < cl.len() implies b64_reads_back(#[trigger] cl[i]) by {
            if i > 0 {
                assert(cl[i] == rcl[i - 1]);
            }
        }
        lemma_concat_front(cl);
        assert(cl.drop_first() =~= rcl);
        assert(input.take(k) + rest =~= input);
    }
}

/// UTF-8 Base64 encoded-words joined by a line break and a space decode back to the bytes they
/// were cut from.
proof fn lemma_b64_words_decode(input: Seq<u8>, k: int, strict: bool)
    requires
        k > 0,
        b64_chunks_read_back(input, k),
    ensures
        spec_decode_words(encode_utf8(spec_join(spec_b64_words(input, "UTF-8"@, "B"@, k), seq!['\n', ' '])), strict) == Ok::<Seq<u8>, ErrorView>(input),
{
    lemma_b64_chunk_list(input, k);
    let cl = spec_b64_chunk_list(input, k);
    let ps = cl.map_values(|c: Seq<u8>| base64_encoded(c));
    assert(ps.map_values(|p: Seq<char>| spec_word("UTF-8"@, seq!['B'], p)) =~= cl.map_values(|c: Seq<u8>| spec_word("UTF-8"@, seq!['B'], base64_encoded(c))));
    if input.len() == 0 {
        assert(spec_b64_words(input, "UTF-8"@, "B"@, k) =~= Seq::<Seq<char>>::empty());
        assert(encode_utf8(Seq::<char>::empty()) =~= Seq::<u8>::empty());
        assert(input =~= Seq::<u8>::empty());
    } else {
        assert forall|i: int| 0 <= i < ps.len() implies payload_chars(#[trigger] ps[i]) && spec_payload_raw('B', encode_utf8(ps[i])) == Some(cl[i]) by {
            assert(b64_reads_back(cl[i]));
            lemma_b64_payload(cl[i]);
            lemma_utf8_word_bytes('B', ps[i]);
            lemma_strip_no_ws(encode_utf8(ps[i]));
        }
        lemma_words_decode('B', ps, cl, strict);
    }
}

/// The chunks the quoted-printable word builder cuts from the bytes: the finished ones and the one
/// in progress, cut where the next byte's escape would overflow the payload limit.
pub open spec fn spec_q_chunks(input: Seq<u8>, max: int) -> (Seq<Seq<u8>>, Seq<u8>)
    decreases input.len(),
{
    if input.len() == 0 {
        (seq![], seq![])
    } else {
        let (chunks, cur) = spec_q_chunks(input.drop_last(), max);
        let enc = spec_mime_q_byte(input.last());
        let current = spec_encode_mime_q(cur);
        if current.len() > 0 && current.len() + enc.len() > max {
            (chunks.push(cur), seq![input.last()])
        } else {
            (chunks, cur.push(input.last()))
        }
    }
}

/// The quoted-printable word builder's state is that of its chunks: each word carries the text
/// of one, the payload in progress that of the last, and together they make up the bytes.
proof fn lemma_q_chunks(input: Seq<u8>, charset: Seq<char>, marker: Seq<char>, max: int)
    ensures
        ({
            let (words, current) = spec_q_state(input, charset, marker, max);
            let (chunks, cur) = spec_q_chunks(input, max);
            &&& words == chunks.map_values(|c: Seq<u8>| spec_word(charset, marker, spec_encode_mime_q(c)))
            &&& current == spec_encode_mime_q(cur)
            &&& spec_concat_chunks(chunks) + cur == input
            &&& (cur.len() == 0 <==> input.len() == 0)
        }),
    decreases input.len(),
{
    if input.len() == 0 {
        assert(Seq::<Seq<u8>>::empty().map_values(|c: Seq<u8>| spec_word(charset, marker, spec_encode_mime_q(c))) =~= Seq::<Seq<char>>::empty());
        assert(spec_concat_chunks(Seq::<Seq<u8>>::empty()) + Seq::<u8>::empty() =~= input);
    } else {
        let init = input.drop_last();
        let x = input.last();
        lemma_q_chunks(init, charset, marker, max);
        let (words, current) = spec_q_state(init, charset, marker, max);
        let (chunks, cur) = spec_q_chunks(init, max);
        let enc = spec_mime_q_byte(x);
        lemma_q_byte_text(x);
        assert(seq![x].drop_last() =~= Seq::<u8>::empty());
        assert(seq![x].last() == x);
        assert(spec_encode_mime_q(Seq::<u8>::empty()) =~= Seq::<char>::empty());
        assert(Seq::<char>::empty() + enc =~= enc);
        assert(spec_encode_mime_q(seq![x]) =~= enc);
        assert(init.push(x) =~= input);
        assert(cur.push(x).drop_last() =~= cur);
        assert(spec_encode_mime_q(cur.push(x)) == current + enc);
        if current.len() > 0 && current.len() + enc.len() > max {
            assert(chunks.push(cur).map_values(|c: Seq<u8>| spec_word(charset, marker, spec_encode_mime_q(c))) =~= words.push(spec_word(charset, marker, current)));
            assert(chunks.push(cur).drop_last() =~= chunks);
            assert(spec_concat_chunks(chunks.push(cur)) + seq![x] =~= input);
        } else {
            assert((spec_concat_chunks(chunks) + cur).push(x) =~= spec_concat_chunks(chunks) + cur.push(x));
        }
    }
}

/// The chunks the quoted-printable words carry, in order.
pub open spec fn spec_q_word_chunks(input: Seq<u8>, max: int) -> Seq<Seq<u8>> {
    let (chunks, cur) = spec_q_chunks(input, max);
    if cur.len() > 0 || input.len() == 0 {
        chunks.push(cur)
    } else {
        chunks
    }
}

/// UTF-8 quoted-printable encoded-words joined by a line break and a space decode back to the
/// bytes they were cut from.
proof fn lemma_q_words_decode(input: Seq<u8>, max: int, strict: bool)
    ensures
        spec_decode_words(encode_utf8(spec_join(spec_q_words(input, "UTF-8"@, "Q"@, max), seq!['\n', ' '])), strict) == Ok::<Seq<u8>, ErrorView>(input),
{
    reveal_strlit("Q");
    assert("Q"@ =~= seq!['Q']);
    lemma_q_chunks(input, "UTF-8"@, "Q"@, max);
    let (chunks, cur) = spec_q_chunks(input, max);
    let (words, current) = spec_q_state(input, "UTF-8"@, "Q"@, max);
    let cl = spec_q_word_chunks(input, max);
    assert(cl =~= chunks.push(cur));
    assert(cl.drop_last() =~= chunks);
    assert(spec_concat_chunks(cl) == input);
    let ps = cl.map_values(|c: Seq<u8>| spec_encode_mime_q(c));
    assert(spec_q_words(input, "UTF-8"@, "Q"@, max) =~= ps.map_values(|p: Seq<char>| spec_word("UTF-8"@, seq!['Q'], p)));
    assert forall|i: int| 0 <= i < ps.len() implies payload_chars(#[trigger] ps[i]) && spec_payload_raw('Q', encode_utf8(ps[i])) == Some(cl[i]) by {
        lemma_q_payload(cl[i]);
        lemma_mime_q_round_trip(cl[i]);
    }
    lemma_words_decode('Q', ps, cl, strict);
}

} // verus!
