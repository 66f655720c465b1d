//! Replacements for characters the output encoding cannot hold.

use crate::codec::{rs_decode, rs_encode, rs_encoded, spec_codec_decode, spec_codec_for_name, codec_decode, codec_for_name};
use crate::config::EncodeFallback;
use crate::error::{opt_bytes_result, ErrorView, NkfError, RsCodec};
use crate::text::extend_bytes;
use vstd::prelude::*;

verus! {

broadcast use vstd::seq::group_seq_axioms;

/// The upper-case hexadecimal digit of a nibble.
pub open spec fn spec_hex_char(nibble: u8) -> char {
    if nibble <= 9 {
        ((0x30 + nibble) as u8) as char
    } else {
        ((0x41 + nibble - 10) as u8) as char
    }
}

/// The upper-case hexadecimal digit of a nibble.
pub fn hex_char(nibble: u8) -> (c: char)
    requires
        nibble < 16,
    ensures
        c == spec_hex_char(nibble),
{
    if nibble <= 9 {
        (0x30u8 + nibble) as char
    } else {
        (0x41u8 + nibble - 10) as char
    }
}

/// The decimal digits of a number, most significant first.
pub open spec fn spec_decimal(v: u32) -> Seq<char>
    decreases v,
{
    if v < 10 {
        seq![spec_hex_char(v as u8)]
    } else {
        spec_decimal(v / 10).push(spec_hex_char((v % 10) as u8))
    }
}

/// The upper-case hexadecimal digits of a number, most significant first, no padding.
pub open spec fn spec_hex(v: u32) -> Seq<char>
    decreases v,
{
    if v < 16 {
        seq![spec_hex_char(v as u8)]
    } else {
        spec_hex(v / 16).push(spec_hex_char((v % 16) as u8))
    }
}

/// Four upper-case hexadecimal digits of a number below 0x10000.
pub open spec fn spec_hex4(v: u32) -> Seq<char> {
    seq![
        spec_hex_char(((v / 4096) % 16) as u8),
        spec_hex_char(((v / 256) % 16) as u8),
        spec_hex_char(((v / 16) % 16) as u8),
        spec_hex_char((v % 16) as u8),
    ]
}

/// The decimal digits of a number.
pub fn decimal_chars(v: u32) -> (out: Vec<char>)
    ensures
        out@ == spec_decimal(v),
    decreases v,
{
    if v < 10 {
        let mut out: Vec<char> = Vec::new();
        out.push(hex_char(v as u8));
        out
    } else {
        let mut out = decimal_chars(v / 10);
        out.push(hex_char((v % 10) as u8));
        out
    }
}

/// The upper-case hexadecimal digits of a number.
pub fn hex_chars(v: u32) -> (out: Vec<char>)
    ensures
        out@ == spec_hex(v),
    decreases v,
{
    if v < 16 {
        let mut out: Vec<char> = Vec::new();
        out.push(hex_char(v as u8));
        out
    } else {
        let mut out = hex_chars(v / 16);
        out.push(hex_char((v % 16) as u8));
        out
    }
}

/// Appends four upper-case hexadecimal digits.
fn push_hex4(out: &mut Vec<char>, v: u32)
    requires
        v <= 0xffff,
    ensures
        final(out)@ == old(out)@ + spec_hex4(v),
{
    out.push(hex_char(((v / 4096) % 16) as u8));
    out.push(hex_char(((v / 256) % 16) as u8));
    out.push(hex_char(((v / 16) % 16) as u8));
    out.push(hex_char((v % 16) as u8));
    assert(out@ =~= old(out)@ + spec_hex4(v));
}

/// The replacement text a fallback mode writes for a character.
pub open spec fn spec_fallback_string(ch: char, fallback: EncodeFallback) -> Seq<char> {
    let code = ch as u32;
    match fallback {
        EncodeFallback::Skip => seq![],
        EncodeFallback::Html => seq!['&', '#'] + spec_decimal(code) + seq![';'],
        EncodeFallback::Xml => seq!['&', '#', 'x'] + spec_hex(code) + seq![';'],
        EncodeFallback::Java => if code <= 0xffff {
            seq!['\\', 'u'] + spec_hex4(code)
        } else {
            let scalar = (code - 0x10000) as u32;
            seq!['\\', 'u'] + spec_hex4((0xd800 + scalar / 0x400) as u32) + seq!['\\', 'u']
                + spec_hex4((0xdc00 + scalar % 0x400) as u32)
        },
        EncodeFallback::Perl => seq!['\\', 'x', '{'] + spec_hex(code) + seq!['}'],
        EncodeFallback::Subchar(c) => seq![c],
    }
}

/// The replacement text a fallback mode writes for a character: nothing, an HTML or XML
/// character reference, a Java or Perl escape, or a fixed substitute.
pub fn fallback_string(ch: char, fallback: EncodeFallback) -> (out: Vec<char>)
    ensures
        out@ == spec_fallback_string(ch, fallback),
{
    let code: u32 = ch as u32;
    let mut out: Vec<char> = Vec::new();
    match fallback {
        EncodeFallback::Skip => {},
        EncodeFallback::Html => {
            out.push('&');
            out.push('#');
            let d = decimal_chars(code);
            crate::text::extend_chars(&mut out, d.as_slice());
            out.push(';');
        },
        EncodeFallback::Xml => {
            out.push('&');
            out.push('#');
            out.push('x');
            let d = hex_chars(code);
            crate::text::extend_chars(&mut out, d.as_slice());
            out.push(';');
        },
        EncodeFallback::Java => {
            out.push('\\');
            out.push('u');
            if code <= 0xffff {
                push_hex4(&mut out, code);
            } else {
                proof {
                    vstd::utf8::char_is_scalar(ch);
                }
                let scalar: u32 = code - 0x10000;
                push_hex4(&mut out, 0xd800 + scalar / 0x400);
                out.push('\\');
                out.push('u');
                push_hex4(&mut out, 0xdc00 + scalar % 0x400);
            }
        },
        EncodeFallback::Perl => {
            out.push('\\');
            out.push('x');
            out.push('{');
            let d = hex_chars(code);
            crate::text::extend_chars(&mut out, d.as_slice());
            out.push('}');
        },
        EncodeFallback::Subchar(c) => {
            out.push(c);
        },
    }
    assert(out@ =~= spec_fallback_string(ch, fallback));
    out
}

/// The replacement texts are short.
proof fn lemma_fallback_short(ch: char, fallback: EncodeFallback)
    ensures
        spec_fallback_string(ch, fallback).len() <= 20,
{
    lemma_digits_short(ch as u32);
}

/// A 32-bit number has at most ten decimal and eight hexadecimal digits.
proof fn lemma_digits_short(v: u32)
    ensures
        spec_decimal(v).len() <= 10,
        spec_hex(v).len() <= 8,
{
    lemma_decimal_len(v);
    lemma_hex_len(v);
}

proof fn lemma_decimal_len(v: u32)
    ensures
        v < 10 ==> spec_decimal(v).len() == 1,
        v < 100 ==> spec_decimal(v).len() <= 2,
        v < 1000 ==> spec_decimal(v).len() <= 3,
        v < 10000 ==> spec_decimal(v).len() <= 4,
        v < 100000 ==> spec_decimal(v).len() <= 5,
        v < 1000000 ==> spec_decimal(v).len() <= 6,
        v < 10000000 ==> spec_decimal(v).len() <= 7,
        v < 100000000 ==> spec_decimal(v).len() <= 8,
        v < 1000000000 ==> spec_decimal(v).len() <= 9,
        spec_decimal(v).len() <= 10,
    decreases v,
{
    if v >= 10 {
        lemma_decimal_len(v / 10);
    }
}

proof fn lemma_hex_len(v: u32)
    ensures
        v < 0x10 ==> spec_hex(v).len() == 1,
        v < 0x100 ==> spec_hex(v).len() <= 2,
        v < 0x1000 ==> spec_hex(v).len() <= 3,
        v < 0x10000 ==> spec_hex(v).len() <= 4,
        v < 0x100000 ==> spec_hex(v).len() <= 5,
        v < 0x1000000 ==> spec_hex(v).len() <= 6,
        v < 0x10000000 ==> spec_hex(v).len() <= 7,
        spec_hex(v).len() <= 8,
    decreases v,
{
    if v >= 16 {
        lemma_hex_len(v / 16);
    }
}

/// The bytes one character becomes in the output encoding, a fallback written where it has none.
pub open spec fn spec_fallback_char(codec: RsCodec, ch: char, fallback: EncodeFallback) -> Result<
    Seq<u8>,
    ErrorView,
> {
    let (encoded, bad) = rs_encoded(codec, seq![ch]);
    if !bad {
        Ok(encoded)
    } else {
        let replacement = spec_fallback_string(ch, fallback);
        if replacement.len() == 0 {
            Ok(seq![])
        } else if rs_encoded(codec, replacement).1 {
            Err(ErrorView::FallbackUnencodable(codec))
        } else {
            Ok(rs_encoded(codec, replacement).0)
        }
    }
}

/// Encoding a text character by character with fallbacks; the first failing replacement decides.
pub open spec fn spec_fallback_text(codec: RsCodec, text: Seq<char>, fallback: EncodeFallback) -> Result<
    Seq<u8>,
    ErrorView,
>
    decreases text.len(),
{
    if text.len() == 0 {
        Ok(seq![])
    } else {
        match spec_fallback_char(codec, text[0], fallback) {
            Err(e) => Err(e),
            Ok(first) => match spec_fallback_text(codec, text.drop_first(), fallback) {
                Err(e) => Err(e),
                Ok(rest) => Ok(first + rest),
            },
        }
    }
}

/// Encodes one character, writing the fallback where the codec has no mapping.
fn fallback_char(codec: RsCodec, ch: char, fallback: EncodeFallback) -> (r: Result<Vec<u8>, NkfError>)
    ensures
        crate::error::bytes_result(r) == spec_fallback_char(codec, ch, fallback),
{
    let mut single: Vec<char> = Vec::new();
    single.push(ch);
    assert(single@ =~= seq![ch]);
    let (encoded, bad) = rs_encode(codec, single.as_slice());
    if !bad {
        return Ok(encoded);
    }
    let replacement = fallback_string(ch, fallback);
    if replacement.len() == 0 {
        return Ok(Vec::new());
    }
    proof {
        lemma_fallback_short(ch, fallback);
    }
    let (encoded_replacement, bad2) = rs_encode(codec, replacement.as_slice());
    if bad2 {
        Err(NkfError::FallbackUnencodable(codec))
    } else {
        Ok(encoded_replacement)
    }
}

/// Conversion through codecs with a fallback for unmappable characters; `None` when either name has
/// no codec.
pub open spec fn spec_convert_with_fallback(
    from: Seq<char>,
    to: Seq<char>,
    input: Seq<u8>,
    fallback: EncodeFallback,
) -> Result<Option<Seq<u8>>, ErrorView> {
    match (spec_codec_for_name(from), spec_codec_for_name(to)) {
        (Some(f), Some(t)) => match spec_codec_decode(f, input) {
            Err(e) => Err(e),
            Ok(text) => match spec_fallback_text(t, text, fallback) {
                Err(e) => Err(e),
                Ok(out) => Ok(Some(out)),
            },
        },
        _ => Ok(None),
    }
}

/// Converts through codecs, replacing each character the output codec cannot hold by the
/// fallback text (itself encoded).
pub fn convert_with_encoding_rs_fallback(
    from: &str,
    to: &str,
    input: &[u8],
    fallback: EncodeFallback,
) -> (r: Result<Option<Vec<u8>>, NkfError>)
    ensures
        opt_bytes_result(r) == spec_convert_with_fallback(from@, to@, input@, fallback),
{
    let f = match codec_for_name(from) {
        Some(f) => f,
        None => return Ok(None),
    };
    let t = match codec_for_name(to) {
        Some(t) => t,
        None => return Ok(None),
    };
    let text = codec_decode(f, input)?;
    let mut out: Vec<u8> = Vec::new();
    let mut i: usize = 0;
    assert(text@.skip(0) =~= text@);
    while i < text.len()
        invariant
            i <= text@.len(),
            spec_codec_decode(f, input@) == Ok::<Seq<char>, ErrorView>(text@),
            spec_codec_for_name(from@) == Some(f),
            spec_codec_for_name(to@) == Some(t),
            spec_fallback_text(t, text@, fallback) == (match spec_fallback_text(
                t,
                text@.skip(i as int),
                fallback,
            ) {
                Err(e) => Err(e),
                Ok(rest) => Ok(out@ + rest),
            }),
        decreases text@.len() - i,
    {
        assert(text@.skip(i as int).drop_first() =~= text@.skip(i + 1));
        assert(text@.skip(i as int)[0] == text@[i as int]);
        let piece = match fallback_char(t, text[i], fallback) {
            Ok(p) => p,
            Err(e) => {
                assert(spec_fallback_text(t, text@.skip(i as int), fallback) == Err::<Seq<u8>, ErrorView>(e@));
                return Err(e);
            },
        };
        let ghost before = out@;
        extend_bytes(&mut out, piece.as_slice());
        proof {
            match spec_fallback_text(t, text@.skip(i + 1), fallback) {
                Err(e) => {},
                Ok(rest) => {
                    assert(before + (piece@ + rest) =~= out@ + rest);
                },
            }
        }
        i += 1;
    }
    assert(text@.skip(i as int) =~= Seq::<char>::empty());
    assert(out@ + Seq::<u8>::empty() =~= out@);
    Ok(Some(out))
}

/// The value of a digit: `0`..`9`, then `A`..`F` for ten to fifteen.
pub open spec fn digit_value(c: char) -> int {
    if '0' <= c <= '9' {
        c as u32 - 0x30
    } else {
        c as u32 - 0x41 + 10
    }
}

/// Whether a character is a digit below the base: `0`..`9`, then upper-case `A`..`F`.
pub open spec fn is_digit_of(c: char, base: int) -> bool {
    ('0' <= c <= '9' && (c as u32 - 0x30) < base) || ('A' <= c <= 'F' && (c as u32 - 0x41 + 10) < base)
}

/// The number that digits, most significant first, write in a base.
pub open spec fn digits_value(d: Seq<char>, base: int) -> int
    decreases d.len(),
{
    if d.len() == 0 {
        0
    } else {
        digits_value(d.drop_last(), base) * base + digit_value(d.last())
    }
}

/// The digit of a value below the base reads back as that value.
proof fn lemma_hex_char_value(n: u8, base: int)
    requires
        n < base,
        base == 10 || base == 16,
    ensures
        is_digit_of(spec_hex_char(n), base),
        digit_value(spec_hex_char(n)) == n,
        n > 0 ==> spec_hex_char(n) != '0',
{
}

/// The decimal digits of a number write that number, with no leading zero; the hexadecimal
/// digits likewise, in upper case.
pub proof fn lemma_digits_write_value(v: u32)
    ensures
        digits_value(spec_decimal(v), 10) == v,
        forall|k: int| 0 <= k < spec_decimal(v).len() ==> is_digit_of(#[trigger] spec_decimal(v)[k], 10),
        spec_decimal(v).len() > 0 && (v > 0 ==> spec_decimal(v)[0] != '0'),
        digits_value(spec_hex(v), 16) == v,
        forall|k: int| 0 <= k < spec_hex(v).len() ==> is_digit_of(#[trigger] spec_hex(v)[k], 16),
        spec_hex(v).len() > 0 && (v > 0 ==> spec_hex(v)[0] != '0'),
    decreases v,
{
    if v < 10 {
        lemma_hex_char_value(v as u8, 10);
        assert(spec_decimal(v).drop_last() =~= Seq::<char>::empty());
        assert(digits_value(spec_decimal(v), 10) == digits_value(Seq::<char>::empty(), 10) * 10 + digit_value(spec_decimal(v).last()));
    } else {
        lemma_digits_write_value(v / 10);
        lemma_hex_char_value((v % 10) as u8, 10);
        let d = spec_decimal(v);
        assert(d.drop_last() =~= spec_decimal(v / 10));
        assert((v / 10) * 10 + v % 10 == v);
        assert(d.last() == spec_hex_char((v % 10) as u8));
        assert(digits_value(d, 10) == digits_value(d.drop_last(), 10) * 10 + digit_value(d.last()));
        assert forall|k: int| 0 <= k < d.len() implies is_digit_of(#[trigger] d[k], 10) by {
            if k < d.len() - 1 {
                assert(d[k] == spec_decimal(v / 10)[k]);
            }
        }
        assert(d[0] == spec_decimal(v / 10)[0]);
    }
    if v < 16 {
        lemma_hex_char_value(v as u8, 16);
        assert(spec_hex(v).drop_last() =~= Seq::<char>::empty());
        assert(digits_value(spec_hex(v), 16) == digits_value(Seq::<char>::empty(), 16) * 16 + digit_value(spec_hex(v).last()));
    } else {
        lemma_digits_write_value(v / 16);
        lemma_hex_char_value((v % 16) as u8, 16);
        let h = spec_hex(v);
        assert(h.drop_last() =~= spec_hex(v / 16));
        assert((v / 16) * 16 + v % 16 == v);
        assert(h.last() == spec_hex_char((v % 16) as u8));
        assert(digits_value(h, 16) == digits_value(h.drop_last(), 16) * 16 + digit_value(h.last()));
        assert forall|k: int| 0 <= k < h.len() implies is_digit_of(#[trigger] h[k], 16) by {
            if k < h.len() - 1 {
                assert(h[k] == spec_hex(v / 16)[k]);
            }
        }
        assert(h[0] == spec_hex(v / 16)[0]);
    }
}

/// `--fb-html` writes a character as `&#`, its code point in decimal and `;`; `--fb-xml` as
/// `&#x`, its code point in upper-case hexadecimal and `;`; `--fb-perl` as `\x{`, the
/// hexadecimal code point and `}`; `--fb-skip` writes nothing and `--fb-subchar` its character.
pub proof fn lemma_fallback_forms(ch: char, sub: char)
    ensures
        ({
            let html = spec_fallback_string(ch, EncodeFallback::Html);
            let digits = html.subrange(2, html.len() - 1);
            &&& html.len() >= 4 && html[0] == '&' && html[1] == '#' && html.last() == ';'
            &&& digits_value(digits, 10) == ch as u32
            &&& forall|k: int| 0 <= k < digits.len() ==> is_digit_of(#[trigger] digits[k], 10)
        }),
        ({
            let xml = spec_fallback_string(ch, EncodeFallback::Xml);
            let digits = xml.subrange(3, xml.len() - 1);
            &&& xml.len() >= 5 && xml[0] == '&' && xml[1] == '#' && xml[2] == 'x' && xml.last() == ';'
            &&& digits_value(digits, 16) == ch as u32
            &&& forall|k: int| 0 <= k < digits.len() ==> is_digit_of(#[trigger] digits[k], 16)
        }),
        ({
            let perl = spec_fallback_string(ch, EncodeFallback::Perl);
            let digits = perl.subrange(3, perl.len() - 1);
            &&& perl.len() >= 5 && perl[0] == '\\' && perl[1] == 'x' && perl[2] == '{' && perl.last() == '}'
            &&& digits_value(digits, 16) == ch as u32
        }),
        spec_fallback_string(ch, EncodeFallback::Skip).len() == 0,
        spec_fallback_string(ch, EncodeFallback::Subchar(sub)) == seq![sub],
{
    let code = ch as u32;
    lemma_digits_write_value(code);
    let html = spec_fallback_string(ch, EncodeFallback::Html);
    assert(html.subrange(2, html.len() - 1) =~= spec_decimal(code));
    let xml = spec_fallback_string(ch, EncodeFallback::Xml);
    assert(xml.subrange(3, xml.len() - 1) =~= spec_hex(code));
    let perl = spec_fallback_string(ch, EncodeFallback::Perl);
    assert(perl.subrange(3, perl.len() - 1) =~= spec_hex(code));
}

} // verus!
