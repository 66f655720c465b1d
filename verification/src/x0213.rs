//! The JIS X 0213 encodings, for the subset this crate carries: ASCII and U+4FF1.

use crate::error::{bytes_result, chars_result, ErrorView, NkfError};
use crate::names::{normalize_encoding, spec_normalize};
use crate::text::{chars_eq_str, str_chars};
use vstd::prelude::*;

verus! {

broadcast use vstd::seq::group_seq_axioms;

/// The one non-ASCII character the subset carries (U+4FF1).
pub const KU_CHAR: char = '\u{4FF1}';

/// Prepends a character to a decoding that may have failed.
pub open spec fn spec_prepend(c: char, rest: Option<Seq<char>>) -> Option<Seq<char>> {
    match rest {
        Some(r) => Some(seq![c] + r),
        None => None,
    }
}

/// Prepends bytes to an encoding that may have failed.
pub open spec fn spec_prepend_bytes(b: Seq<u8>, rest: Option<Seq<u8>>) -> Option<Seq<u8>> {
    match rest {
        Some(r) => Some(b + r),
        None => None,
    }
}

/// Decoding a two-byte-coded subset: ASCII bytes, and `pair` for U+4FF1.
pub open spec fn spec_decode_pair_subset(input: Seq<u8>, lead: u8, trail: u8) -> Option<Seq<char>>
    decreases input.len(),
{
    if input.len() == 0 {
        Some(seq![])
    } else if input[0] <= 0x7f {
        spec_prepend(input[0] as char, spec_decode_pair_subset(input.skip(1), lead, trail))
    } else if input[0] == lead && input.len() >= 2 && input[1] == trail {
        spec_prepend(KU_CHAR, spec_decode_pair_subset(input.skip(2), lead, trail))
    } else {
        None
    }
}

proof fn lemma_push_step(whole: Option<Seq<char>>, out: Seq<char>, c: char, rest: Option<Seq<char>>, tail: Option<Seq<char>>)
    requires
        whole == (match tail {
            Some(r) => Some(out + r),
            None => None,
        }),
        tail == spec_prepend(c, rest),
    ensures
        whole == (match rest {
            Some(r) => Some(out.push(c) + r),
            None => None,
        }),
{
    match rest {
        Some(r) => {
            assert(out + (seq![c] + r) =~= out.push(c) + r);
        },
        None => {},
    }
}

/// Decodes a two-byte-coded subset.
fn decode_pair_subset(input: &[u8], lead: u8, trail: u8) -> (r: Option<Vec<char>>)
    requires
        lead > 0x7f,
    ensures
        r matches Some(v) ==> spec_decode_pair_subset(input@, lead, trail) == Some(v@),
        r is None ==> spec_decode_pair_subset(input@, lead, trail) is None,
{
    let mut out: Vec<char> = Vec::new();
    let mut i: usize = 0;
    assert(input@.skip(0) =~= input@);
    while i < input.len()
        invariant
            lead > 0x7f,
            i <= input@.len(),
            spec_decode_pair_subset(input@, lead, trail) == (match spec_decode_pair_subset(input@.skip(i as int), lead, trail) {
                Some(r) => Some(out@ + r),
                None => None,
            }),
        decreases input@.len() - i,
    {
        let ghost tail = input@.skip(i as int);
        assert(tail[0] == input@[i as int]);
        if input[i] <= 0x7f {
            assert(tail.skip(1) =~= input@.skip(i + 1));
            proof {
                lemma_push_step(spec_decode_pair_subset(input@, lead, trail), out@, input@[i as int] as char, spec_decode_pair_subset(tail.skip(1), lead, trail), spec_decode_pair_subset(tail, lead, trail));
            }
            out.push(input[i] as char);
            i += 1;
        } else if input[i] == lead && input.len() - i >= 2 && input[i + 1] == trail {
            assert(tail[1] == input@[i + 1]);
            assert(tail.skip(2) =~= input@.skip(i + 2));
            proof {
                lemma_push_step(spec_decode_pair_subset(input@, lead, trail), out@, KU_CHAR, spec_decode_pair_subset(tail.skip(2), lead, trail), spec_decode_pair_subset(tail, lead, trail));
            }
            out.push(KU_CHAR);
            i += 2;
        } else {
            return None;
        }
    }
    assert(input@.skip(i as int) =~= Seq::<u8>::empty());
    assert(out@ + Seq::<char>::empty() =~= out@);
    Some(out)
}

/// Encoding into a two-byte-coded subset.
pub open spec fn spec_encode_pair_subset(text: Seq<char>, lead: u8, trail: u8) -> Option<Seq<u8>>
    decreases text.len(),
{
    if text.len() == 0 {
        Some(seq![])
    } else if (text[0] as u32) <= 0x7f {
        spec_prepend_bytes(seq![(text[0] as u32) as u8], spec_encode_pair_subset(text.drop_first(), lead, trail))
    } else if text[0] == KU_CHAR {
        spec_prepend_bytes(seq![lead, trail], spec_encode_pair_subset(text.drop_first(), lead, trail))
    } else {
        None
    }
}

/// Encodes into a two-byte-coded subset.
fn encode_pair_subset(text: &[char], lead: u8, trail: u8) -> (r: Option<Vec<u8>>)
    ensures
        r matches Some(v) ==> spec_encode_pair_subset(text@, lead, trail) == Some(v@),
        r is None ==> spec_encode_pair_subset(text@, lead, trail) is None,
{
    let mut out: Vec<u8> = Vec::new();
    let mut i: usize = 0;
    assert(text@.skip(0) =~= text@);
    while i < text.len()
        invariant
            i <= text@.len(),
            spec_encode_pair_subset(text@, lead, trail) == (match spec_encode_pair_subset(text@.skip(i as int), lead, trail) {
                Some(r) => Some(out@ + r),
                None => None,
            }),
        decreases text@.len() - i,
    {
        let ch = text[i];
        let ghost before = out@;
        assert(text@.skip(i as int)[0] == ch);
        assert(text@.skip(i as int).drop_first() =~= text@.skip(i + 1));
        if (ch as u32) <= 0x7f {
            out.push(ch as u32 as u8);
        } else if ch == KU_CHAR {
            out.push(lead);
            out.push(trail);
        } else {
            return None;
        }
        proof {
            match spec_encode_pair_subset(text@.skip(i + 1), lead, trail) {
                Some(r) => {
                    assert(before + (out@.subrange(before.len() as int, out@.len() as int) + r) =~= out@ + r);
                },
                None => {},
            }
        }
        i += 1;
    }
    assert(text@.skip(i as int) =~= Seq::<char>::empty());
    assert(out@ + Seq::<u8>::empty() =~= out@);
    Some(out)
}

/// EUC-JISX0213 decoding (subset).
pub open spec fn spec_decode_euc_x0213_subset(input: Seq<u8>) -> Result<Seq<char>, ErrorView> {
    match spec_decode_pair_subset(input, 0xae, 0xa1) {
        Some(t) => Ok(t),
        None => Err(ErrorView::Undecodable("EUC-JISX0213"@)),
    }
}

/// Decodes EUC-JISX0213 (subset).
pub fn decode_euc_jis_x0213_subset(input: &[u8]) -> (r: Result<Vec<char>, NkfError>)
    ensures
        chars_result(r) == spec_decode_euc_x0213_subset(input@),
{
    match decode_pair_subset(input, 0xae, 0xa1) {
        Some(t) => Ok(t),
        None => Err(NkfError::Undecodable(String::from_str("EUC-JISX0213"))),
    }
}

/// EUC-JISX0213 encoding (subset).
pub open spec fn spec_encode_euc_x0213_subset(text: Seq<char>) -> Result<Seq<u8>, ErrorView> {
    match spec_encode_pair_subset(text, 0xae, 0xa1) {
        Some(b) => Ok(b),
        None => Err(ErrorView::Unencodable("EUC-JISX0213"@)),
    }
}

/// Encodes EUC-JISX0213 (subset).
pub fn encode_euc_jis_x0213_subset(text: &[char]) -> (r: Result<Vec<u8>, NkfError>)
    ensures
        bytes_result(r) == spec_encode_euc_x0213_subset(text@),
{
    match encode_pair_subset(text, 0xae, 0xa1) {
        Some(b) => Ok(b),
        None => Err(NkfError::Unencodable(String::from_str("EUC-JISX0213"))),
    }
}

/// Shift_JISX0213 decoding (subset).
pub open spec fn spec_decode_sjis_x0213_subset(input: Seq<u8>) -> Result<Seq<char>, ErrorView> {
    match spec_decode_pair_subset(input, 0x87, 0x9f) {
        Some(t) => Ok(t),
        None => Err(ErrorView::Undecodable("Shift_JISX0213"@)),
    }
}

/// Decodes Shift_JISX0213 (subset).
pub fn decode_shift_jis_x0213_subset(input: &[u8]) -> (r: Result<Vec<char>, NkfError>)
    ensures
        chars_result(r) == spec_decode_sjis_x0213_subset(input@),
{
    match decode_pair_subset(input, 0x87, 0x9f) {
        Some(t) => Ok(t),
        None => Err(NkfError::Undecodable(String::from_str("Shift_JISX0213"))),
    }
}

/// Shift_JISX0213 encoding (subset).
pub open spec fn spec_encode_sjis_x0213_subset(text: Seq<char>) -> Result<Seq<u8>, ErrorView> {
    match spec_encode_pair_subset(text, 0x87, 0x9f) {
        Some(b) => Ok(b),
        None => Err(ErrorView::Unencodable("Shift_JISX0213"@)),
    }
}

/// Encodes Shift_JISX0213 (subset).
pub fn encode_shift_jis_x0213_subset(text: &[char]) -> (r: Result<Vec<u8>, NkfError>)
    ensures
        bytes_result(r) == spec_encode_sjis_x0213_subset(text@),
{
    match encode_pair_subset(text, 0x87, 0x9f) {
        Some(b) => Ok(b),
        None => Err(NkfError::Unencodable(String::from_str("Shift_JISX0213"))),
    }
}

/// ISO-2022-JP-3 decoding (subset): `ESC $ ( Q` enters JIS X 0213 plane 1, where the pair
/// 0x2E 0x21 is U+4FF1; `ESC ( B` returns to ASCII.
pub open spec fn spec_decode_iso3(input: Seq<u8>, plane1: bool) -> Option<Seq<char>>
    decreases input.len(),
{
    if input.len() == 0 {
        Some(seq![])
    } else if input[0] == 0x1b && input.len() >= 4 && input[1] == 0x24 && input[2] == 0x28 && input[3] == 0x51 {
        spec_decode_iso3(input.skip(4), true)
    } else if input[0] == 0x1b && input.len() >= 3 && input[1] == 0x28 && input[2] == 0x42 {
        spec_decode_iso3(input.skip(3), false)
    } else if plane1 {
        if input.len() >= 2 && input[0] == 0x2e && input[1] == 0x21 {
            spec_prepend(KU_CHAR, spec_decode_iso3(input.skip(2), true))
        } else {
            None
        }
    } else if input[0] <= 0x7f {
        spec_prepend(input[0] as char, spec_decode_iso3(input.skip(1), false))
    } else {
        None
    }
}

/// ISO-2022-JP-3 decoding (subset), as a result.
pub open spec fn spec_decode_iso_2022_jp_3_subset(input: Seq<u8>) -> Result<Seq<char>, ErrorView> {
    match spec_decode_iso3(input, false) {
        Some(t) => Ok(t),
        None => Err(ErrorView::Undecodable("ISO-2022-JP-3"@)),
    }
}

/// Decodes ISO-2022-JP-3 (subset).
pub fn decode_iso_2022_jp_3_subset(input: &[u8]) -> (r: Result<Vec<char>, NkfError>)
    ensures
        chars_result(r) == spec_decode_iso_2022_jp_3_subset(input@),
{
    let mut out: Vec<char> = Vec::new();
    let mut i: usize = 0;
    let mut plane1 = false;
    assert(input@.skip(0) =~= input@);
    while i < input.len()
        invariant
            i <= input@.len(),
            spec_decode_iso3(input@, false) == (match spec_decode_iso3(input@.skip(i as int), plane1) {
                Some(r) => Some(out@ + r),
                None => None,
            }),
        decreases input@.len() - i,
    {
        let ghost tail = input@.skip(i as int);
        assert(tail[0] == input@[i as int]);
        let left = input.len() - i;
        if input[i] == 0x1b && left >= 4 && input[i + 1] == 0x24 && input[i + 2] == 0x28 && input[i + 3] == 0x51 {
            assert(tail[1] == input@[i + 1] && tail[2] == input@[i + 2] && tail[3] == input@[i + 3]);
            assert(tail.skip(4) =~= input@.skip(i + 4));
            plane1 = true;
            i += 4;
            continue;
        }
        if input[i] == 0x1b && left >= 3 && input[i + 1] == 0x28 && input[i + 2] == 0x42 {
            assert(tail[1] == input@[i + 1] && tail[2] == input@[i + 2]);
            assert(tail.skip(3) =~= input@.skip(i + 3));
            plane1 = false;
            i += 3;
            continue;
        }
        proof {
            if input@[i as int] == 0x1b && left >= 4 {
                assert(tail[1] == input@[i + 1] && tail[2] == input@[i + 2] && tail[3] == input@[i + 3]);
            }
            if input@[i as int] == 0x1b && left >= 3 {
                assert(tail[1] == input@[i + 1] && tail[2] == input@[i + 2]);
            }
        }
        if plane1 {
            if left >= 2 && input[i] == 0x2e && input[i + 1] == 0x21 {
                assert(tail[1] == input@[i + 1]);
                assert(tail.skip(2) =~= input@.skip(i + 2));
                proof {
                    lemma_push_step(spec_decode_iso3(input@, false), out@, KU_CHAR, spec_decode_iso3(tail.skip(2), true), spec_decode_iso3(tail, true));
                }
                out.push(KU_CHAR);
                i += 2;
                continue;
            }
            proof {
                if left >= 2 {
                    assert(tail[1] == input@[i + 1]);
                }
            }
            return Err(NkfError::Undecodable(String::from_str("ISO-2022-JP-3")));
        }
        if input[i] <= 0x7f {
            assert(tail.skip(1) =~= input@.skip(i + 1));
            proof {
                lemma_push_step(spec_decode_iso3(input@, false), out@, input@[i as int] as char, spec_decode_iso3(tail.skip(1), false), spec_decode_iso3(tail, false));
            }
            out.push(input[i] as char);
            i += 1;
        } else {
            return Err(NkfError::Undecodable(String::from_str("ISO-2022-JP-3")));
        }
    }
    assert(input@.skip(i as int) =~= Seq::<u8>::empty());
    assert(out@ + Seq::<char>::empty() =~= out@);
    Ok(out)
}

/// ISO-2022-JP-3 encoding (subset), from a shift state.
pub open spec fn spec_encode_iso3(text: Seq<char>, plane1: bool) -> Option<Seq<u8>>
    decreases text.len(),
{
    if text.len() == 0 {
        if plane1 {
            Some(seq![0x1bu8, 0x28, 0x42])
        } else {
            Some(seq![])
        }
    } else if (text[0] as u32) <= 0x7f {
        let shift: Seq<u8> = if plane1 {
            seq![0x1bu8, 0x28, 0x42]
        } else {
            seq![]
        };
        spec_prepend_bytes(shift.push((text[0] as u32) as u8), spec_encode_iso3(text.drop_first(), false))
    } else if text[0] == KU_CHAR {
        let shift: Seq<u8> = if plane1 {
            seq![]
        } else {
            seq![0x1bu8, 0x24, 0x28, 0x51]
        };
        spec_prepend_bytes(shift + seq![0x2eu8, 0x21], spec_encode_iso3(text.drop_first(), true))
    } else {
        None
    }
}

/// ISO-2022-JP-3 encoding (subset), as a result.
pub open spec fn spec_encode_iso_2022_jp_3_subset(text: Seq<char>) -> Result<Seq<u8>, ErrorView> {
    match spec_encode_iso3(text, false) {
        Some(b) => Ok(b),
        None => Err(ErrorView::Unencodable("ISO-2022-JP-3"@)),
    }
}

/// Encodes ISO-2022-JP-3 (subset), ending in ASCII.
pub fn encode_iso_2022_jp_3_subset(text: &[char]) -> (r: Result<Vec<u8>, NkfError>)
    ensures
        bytes_result(r) == spec_encode_iso_2022_jp_3_subset(text@),
{
    let mut out: Vec<u8> = Vec::new();
    let mut plane1 = false;
    let mut i: usize = 0;
    assert(text@.skip(0) =~= text@);
    while i < text.len()
        invariant
            i <= text@.len(),
            spec_encode_iso3(text@, false) == (match spec_encode_iso3(text@.skip(i as int), plane1) {
                Some(r) => Some(out@ + r),
                None => None,
            }),
        decreases text@.len() - i,
    {
        let ch = text[i];
        let ghost before = out@;
        let ghost was = plane1;
        assert(text@.skip(i as int)[0] == ch);
        assert(text@.skip(i as int).drop_first() =~= text@.skip(i + 1));
        if (ch as u32) <= 0x7f {
            if plane1 {
                out.push(0x1b);
                out.push(0x28);
                out.push(0x42);
                plane1 = false;
            }
            out.push(ch as u32 as u8);
        } else if ch == KU_CHAR {
            if !plane1 {
                out.push(0x1b);
                out.push(0x24);
                out.push(0x28);
                out.push(0x51);
                plane1 = true;
            }
            out.push(0x2e);
            out.push(0x21);
        } else {
            return Err(NkfError::Unencodable(String::from_str("ISO-2022-JP-3")));
        }
        proof {
            match spec_encode_iso3(text@.skip(i + 1), plane1) {
                Some(r) => {
                    assert(before + (out@.subrange(before.len() as int, out@.len() as int) + r) =~= out@ + r);
                },
                None => {},
            }
        }
        i += 1;
    }
    let ghost before = out@;
    assert(text@.skip(i as int) =~= Seq::<char>::empty());
    if plane1 {
        out.push(0x1b);
        out.push(0x28);
        out.push(0x42);
        assert(out@ =~= before + seq![0x1bu8, 0x28, 0x42]);
    } else {
        assert(out@ =~= before + Seq::<u8>::empty());
    }
    Ok(out)
}

/// Decoding in a named JIS X 0213 encoding.
pub open spec fn spec_decode_jis_x0213(encoding: Seq<char>, input: Seq<u8>) -> Result<Seq<char>, ErrorView> {
    let n = spec_normalize(encoding);
    if n == "EUC-JISX0213"@ || n == "EUC-JIS-2004"@ {
        spec_decode_euc_x0213_subset(input)
    } else if n == "SHIFT_JISX0213"@ || n == "SHIFT_JIS-2004"@ {
        spec_decode_sjis_x0213_subset(input)
    } else if n == "ISO-2022-JP-3"@ || n == "ISO-2022-JP-2004"@ {
        spec_decode_iso_2022_jp_3_subset(input)
    } else {
        Err(ErrorView::UnsupportedJisX0213(encoding))
    }
}

/// Decodes in a named JIS X 0213 encoding.
pub fn decode_jis_x0213_subset(encoding: &str, input: &[u8]) -> (r: Result<Vec<char>, NkfError>)
    ensures
        chars_result(r) == spec_decode_jis_x0213(encoding@, input@),
{
    let norm = normalize_encoding(encoding);
    let v = str_chars(norm.as_str());
    let n = v.as_slice();
    if chars_eq_str(n, "EUC-JISX0213") || chars_eq_str(n, "EUC-JIS-2004") {
        decode_euc_jis_x0213_subset(input)
    } else if chars_eq_str(n, "SHIFT_JISX0213") || chars_eq_str(n, "SHIFT_JIS-2004") {
        decode_shift_jis_x0213_subset(input)
    } else if chars_eq_str(n, "ISO-2022-JP-3") || chars_eq_str(n, "ISO-2022-JP-2004") {
        decode_iso_2022_jp_3_subset(input)
    } else {
        Err(NkfError::UnsupportedJisX0213(String::from_str(encoding)))
    }
}

/// Encoding in a named JIS X 0213 encoding.
pub open spec fn spec_encode_jis_x0213(encoding: Seq<char>, text: Seq<char>) -> Result<Seq<u8>, ErrorView> {
    let n = spec_normalize(encoding);
    if n == "EUC-JISX0213"@ || n == "EUC-JIS-2004"@ {
        spec_encode_euc_x0213_subset(text)
    } else if n == "SHIFT_JISX0213"@ || n == "SHIFT_JIS-2004"@ {
        spec_encode_sjis_x0213_subset(text)
    } else if n == "ISO-2022-JP-3"@ || n == "ISO-2022-JP-2004"@ {
        spec_encode_iso_2022_jp_3_subset(text)
    } else {
        Err(ErrorView::UnsupportedJisX0213(encoding))
    }
}

/// Encodes in a named JIS X 0213 encoding.
pub fn encode_jis_x0213_subset(encoding: &str, text: &[char]) -> (r: Result<Vec<u8>, NkfError>)
    ensures
        bytes_result(r) == spec_encode_jis_x0213(encoding@, text@),
{
    let norm = normalize_encoding(encoding);
    let v = str_chars(norm.as_str());
    let n = v.as_slice();
    if chars_eq_str(n, "EUC-JISX0213") || chars_eq_str(n, "EUC-JIS-2004") {
        encode_euc_jis_x0213_subset(text)
    } else if chars_eq_str(n, "SHIFT_JISX0213") || chars_eq_str(n, "SHIFT_JIS-2004") {
        encode_shift_jis_x0213_subset(text)
    } else if chars_eq_str(n, "ISO-2022-JP-3") || chars_eq_str(n, "ISO-2022-JP-2004") {
        encode_iso_2022_jp_3_subset(text)
    } else {
        Err(NkfError::UnsupportedJisX0213(String::from_str(encoding)))
    }
}

/// An ASCII character survives the trip through its byte.
proof fn lemma_ascii_byte_char(c: char)
    requires
        (c as u32) <= 0x7f,
    ensures
        (((c as u32) as u8) as char) == c,
        ((c as u32) as u8) as u32 == c as u32,
{
    let v: u32 = c as u32;
    assert((v as u8) as u32 == v) by (bit_vector)
        requires
            v <= 0x7f,
    ;
    let d: char = (v as u8) as char;
    assert(d as u32 == v);
}

/// Encoding into a two-byte-coded subset, then decoding, gives the text back.
proof fn lemma_pair_encode_decode(text: Seq<char>, lead: u8, trail: u8)
    requires
        lead > 0x7f,
        spec_encode_pair_subset(text, lead, trail) is Some,
    ensures
        spec_decode_pair_subset(spec_encode_pair_subset(text, lead, trail).unwrap(), lead, trail) == Some(text),
    decreases text.len(),
{
    if text.len() > 0 {
        let tail = text.drop_first();
        lemma_pair_encode_decode(tail, lead, trail);
        let rest = spec_encode_pair_subset(tail, lead, trail).unwrap();
        let b = spec_encode_pair_subset(text, lead, trail).unwrap();
        if (text[0] as u32) <= 0x7f {
            assert(b =~= seq![(text[0] as u32) as u8] + rest);
            assert(b.skip(1) =~= rest);
            lemma_ascii_byte_char(text[0]);
        } else {
            assert(b =~= seq![lead, trail] + rest);
            assert(b.skip(2) =~= rest);
        }
        assert(seq![text[0]] + tail =~= text);
    }
}

/// Decoding a two-byte-coded subset, then encoding, gives the bytes back.
proof fn lemma_pair_decode_encode(input: Seq<u8>, lead: u8, trail: u8)
    requires
        lead > 0x7f,
        spec_decode_pair_subset(input, lead, trail) is Some,
    ensures
        spec_encode_pair_subset(spec_decode_pair_subset(input, lead, trail).unwrap(), lead, trail) == Some(input),
    decreases input.len(),
{
    if input.len() > 0 {
        let t = spec_decode_pair_subset(input, lead, trail).unwrap();
        if input[0] <= 0x7f {
            lemma_pair_decode_encode(input.skip(1), lead, trail);
            let rest = spec_decode_pair_subset(input.skip(1), lead, trail).unwrap();
            assert(t =~= seq![input[0] as char] + rest);
            assert(t.drop_first() =~= rest);
            assert(((input[0] as char) as u32) as u8 == input[0]);
            assert(seq![input[0]] + input.skip(1) =~= input);
        } else {
            lemma_pair_decode_encode(input.skip(2), lead, trail);
            let rest = spec_decode_pair_subset(input.skip(2), lead, trail).unwrap();
            assert(t =~= seq![KU_CHAR] + rest);
            assert(t.drop_first() =~= rest);
            assert(seq![lead, trail] + input.skip(2) =~= input);
        }
    }
}

/// Whether a text holds no escape character (U+001B).
pub open spec fn no_escape(text: Seq<char>) -> bool {
    forall|i: int| 0 <= i < text.len() ==> text[i] != '\u{1b}'
}

/// ISO-2022-JP-3 encoding from a shift state, then decoding from it, gives back a text without
/// escape characters.
proof fn lemma_iso3_encode_decode(text: Seq<char>, plane1: bool)
    requires
        no_escape(text),
        spec_encode_iso3(text, plane1) is Some,
    ensures
        spec_decode_iso3(spec_encode_iso3(text, plane1).unwrap(), plane1) == Some(text),
    decreases text.len(),
{
    let b = spec_encode_iso3(text, plane1).unwrap();
    if text.len() == 0 {
        assert(text =~= Seq::<char>::empty());
        if plane1 {
            assert(b =~= seq![0x1bu8, 0x28, 0x42]);
            assert(b.skip(3) =~= Seq::<u8>::empty());
            assert(spec_decode_iso3(b.skip(3), false) == Some(Seq::<char>::empty()));
            assert(spec_decode_iso3(b, plane1) == Some(text));
        } else {
            assert(b =~= Seq::<u8>::empty());
            assert(spec_decode_iso3(b, plane1) == Some(text));
        }
    } else {
        let tail = text.drop_first();
        assert(no_escape(tail)) by {
            assert forall|i: int| 0 <= i < tail.len() implies tail[i] != '\u{1b}' by {
                assert(tail[i] == text[i + 1]);
            }
        }
        assert(text[0] != '\u{1b}');
        assert(seq![text[0]] + tail =~= text);
        if (text[0] as u32) <= 0x7f {
            lemma_iso3_encode_decode(tail, false);
            let rest = spec_encode_iso3(tail, false).unwrap();
            let a = (text[0] as u32) as u8;
            lemma_ascii_byte_char(text[0]);
            assert(a != 0x1b);
            let c = seq![a] + rest;
            assert(c.skip(1) =~= rest);
            assert(c[0] == a);
            assert(spec_decode_iso3(c, false) == spec_prepend(text[0], Some(tail)));
            if plane1 {
                assert(b =~= seq![0x1bu8, 0x28, 0x42] + c);
                assert(b.skip(3) =~= c);
                assert(spec_decode_iso3(b, plane1) == spec_decode_iso3(c, false));
            } else {
                assert(b =~= c);
            }
            assert(spec_decode_iso3(b, plane1) == Some(text));
        } else {
            lemma_iso3_encode_decode(tail, true);
            let rest = spec_encode_iso3(tail, true).unwrap();
            let c = seq![0x2eu8, 0x21] + rest;
            assert(c.skip(2) =~= rest);
            assert(c[0] == 0x2e && c[1] == 0x21);
            assert(spec_decode_iso3(c, true) == spec_prepend(KU_CHAR, Some(tail)));
            if plane1 {
                assert(b =~= c);
            } else {
                assert(b =~= seq![0x1bu8, 0x24, 0x28, 0x51] + c);
                assert(b.skip(4) =~= c);
                assert(spec_decode_iso3(b, plane1) == spec_decode_iso3(c, true));
            }
            assert(spec_decode_iso3(b, plane1) == Some(text));
        }
    }
}

/// Whatever a JIS X 0213 encoding writes, it reads back: a text that encodes (and, for
/// ISO-2022-JP-3, holds no escape character, which the decoder would take for a designation)
/// decodes to itself.
pub proof fn lemma_jis_x0213_round_trip(encoding: Seq<char>, text: Seq<char>)
    requires
        no_escape(text),
    ensures
        spec_encode_jis_x0213(encoding, text) matches Ok(b) ==> spec_decode_jis_x0213(encoding, b) == Ok::<Seq<char>, ErrorView>(text),
{
    let n = spec_normalize(encoding);
    if n == "EUC-JISX0213"@ || n == "EUC-JIS-2004"@ {
        if spec_encode_pair_subset(text, 0xae, 0xa1) is Some {
            lemma_pair_encode_decode(text, 0xae, 0xa1);
        }
    } else if n == "SHIFT_JISX0213"@ || n == "SHIFT_JIS-2004"@ {
        if spec_encode_pair_subset(text, 0x87, 0x9f) is Some {
            lemma_pair_encode_decode(text, 0x87, 0x9f);
        }
    } else if spec_encode_iso3(text, false) is Some {
        lemma_iso3_encode_decode(text, false);
    }
}

/// EUC-JISX0213 and Shift_JISX0213 read what they write, both ways: an encodable text decodes
/// back to itself, and decodable bytes encode back to themselves.
pub proof fn lemma_x0213_pair_codecs_invert(text: Seq<char>, input: Seq<u8>)
    ensures
        spec_encode_euc_x0213_subset(text) matches Ok(b) ==> spec_decode_euc_x0213_subset(b) == Ok::<Seq<char>, ErrorView>(text),
        spec_decode_euc_x0213_subset(input) matches Ok(t) ==> spec_encode_euc_x0213_subset(t) == Ok::<Seq<u8>, ErrorView>(input),
        spec_encode_sjis_x0213_subset(text) matches Ok(b) ==> spec_decode_sjis_x0213_subset(b) == Ok::<Seq<char>, ErrorView>(text),
        spec_decode_sjis_x0213_subset(input) matches Ok(t) ==> spec_encode_sjis_x0213_subset(t) == Ok::<Seq<u8>, ErrorView>(input),
{
    if spec_encode_pair_subset(text, 0xae, 0xa1) is Some {
        lemma_pair_encode_decode(text, 0xae, 0xa1);
    }
    if spec_decode_pair_subset(input, 0xae, 0xa1) is Some {
        lemma_pair_decode_encode(input, 0xae, 0xa1);
    }
    if spec_encode_pair_subset(text, 0x87, 0x9f) is Some {
        lemma_pair_encode_decode(text, 0x87, 0x9f);
    }
    if spec_decode_pair_subset(input, 0x87, 0x9f) is Some {
        lemma_pair_decode_encode(input, 0x87, 0x9f);
    }
}

/// Whether a text lies in the subset: ASCII other than the escape character, and U+4FF1.
pub open spec fn x0213_subset_text(text: Seq<char>) -> bool {
    forall|i: int| 0 <= i < text.len() ==> ((text[i] as u32) < 0x80 && text[i] != '\u{1b}') || text[i] == KU_CHAR
}

proof fn lemma_iso3_encodes(text: Seq<char>, plane1: bool)
    requires
        x0213_subset_text(text),
    ensures
        spec_encode_iso3(text, plane1) is Some,
    decreases text.len(),
{
    if text.len() > 0 {
        let tail = text.drop_first();
        assert(x0213_subset_text(tail)) by {
            assert forall|i: int| 0 <= i < tail.len() implies ((tail[i] as u32) < 0x80 && tail[i] != '\u{1b}') || tail[i] == KU_CHAR by {
                assert(tail[i] == text[i + 1]);
            }
        }
        lemma_iso3_encodes(tail, false);
        lemma_iso3_encodes(tail, true);
    }
}

/// ISO-2022-JP-3 encoding succeeds on every text of the subset and reads back to it; U+4FF1 alone
/// is written `ESC $ ( Q`, the pair 0x2E 0x21, then `ESC ( B`.
pub proof fn lemma_iso_2022_jp_3_subset(text: Seq<char>)
    requires
        x0213_subset_text(text),
    ensures
        spec_encode_iso_2022_jp_3_subset(text) is Ok,
        spec_encode_iso_2022_jp_3_subset(text) matches Ok(b) ==> spec_decode_iso_2022_jp_3_subset(b) == Ok::<Seq<char>, ErrorView>(text),
        spec_encode_iso_2022_jp_3_subset(seq![KU_CHAR]) == Ok::<Seq<u8>, ErrorView>(seq![0x1bu8, 0x24, 0x28, 0x51, 0x2e, 0x21, 0x1b, 0x28, 0x42]),
{
    lemma_iso3_encodes(text, false);
    assert(no_escape(text)) by {
        assert forall|i: int| 0 <= i < text.len() implies text[i] != '\u{1b}' by {
            assert(((text[i] as u32) < 0x80 && text[i] != '\u{1b}') || text[i] == KU_CHAR);
        }
    }
    lemma_iso3_encode_decode(text, false);
    let k = seq![KU_CHAR];
    assert(k.drop_first() =~= Seq::<char>::empty());
    assert(spec_encode_iso3(Seq::<char>::empty(), true) == Some(seq![0x1bu8, 0x28, 0x42]));
    assert(spec_encode_iso3(k, false) == Some(seq![0x1bu8, 0x24, 0x28, 0x51, 0x2e, 0x21, 0x1b, 0x28, 0x42])) by {
        assert(seq![0x1bu8, 0x24, 0x28, 0x51] + seq![0x2eu8, 0x21] + seq![0x1bu8, 0x28, 0x42] =~= seq![0x1bu8, 0x24, 0x28, 0x51, 0x2e, 0x21, 0x1b, 0x28, 0x42]);
    }
}

} // verus!
