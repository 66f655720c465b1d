//! The EUC-JP family through JIS tables: the JIS X 0208 and JIS X 0212 planes as the
//! `encoding_rs` EUC-JP codec maps them, adjusted per table where the JIS-style mapping differs
//! from the Microsoft-style one, and JIS X 0201 katakana.

use crate::codec::{rs_decode, rs_decoded, rs_encode, rs_encoded};
use crate::config::MsUcsMap;
use crate::error::{opt_bytes_result, ErrorView, NkfError, RsCodec};
use crate::names::{is_euc_table_encoding, normalize_encoding, spec_is_euc_table, spec_normalize};
use crate::text::{chars_eq_str, encode_chars, str_chars, utf8_decode};
use crate::unicode::char_from_u32;
use vstd::prelude::*;
use vstd::utf8::{decode_utf8, encode_utf8, valid_utf8};

verus! {

broadcast use vstd::seq::group_seq_axioms;

/// The two-byte decoding tables.
#[derive(Clone, Copy, PartialEq, Eq, Structural)]
pub enum EucDecodeTable {
    /// JIS-style mapping (wave dash, overline, ...).
    Jis,
    /// Microsoft-style mapping.
    Ms,
    /// The Macintosh variant.
    Mac,
    /// JIS X 0213 plane 1.
    X0213,
}

/// The three-byte (0x8F-led) decoding tables.
#[derive(Clone, Copy, PartialEq, Eq, Structural)]
pub enum X0212Table {
    /// JIS X 0212.
    Standard,
    /// JIS X 0213 plane 2.
    X0213,
}

/// The encoding tables.
#[derive(Clone, Copy, PartialEq, Eq, Structural)]
pub enum EucEncodeTable {
    Jis,
    Ms,
    Cp932,
    Mac,
    X0213,
}

/// Where the JIS-style two-byte tables map a pair differently from the codec.
pub open spec fn spec_jis_decode_override(lead: u8, trail: u8) -> Option<u32> {
    if lead == 0xA1 && trail == 0xB1 {
        Some(0x203E)
    } else if lead == 0xA1 && trail == 0xC1 {
        Some(0x301C)
    } else if lead == 0xA1 && trail == 0xC2 {
        Some(0x2016)
    } else if lead == 0xA1 && trail == 0xDD {
        Some(0x2212)
    } else if lead == 0xA1 && trail == 0xF1 {
        Some(0x00A2)
    } else if lead == 0xA1 && trail == 0xF2 {
        Some(0x00A3)
    } else if lead == 0xA2 && trail == 0xCC {
        Some(0x00AC)
    } else {
        None
    }
}

/// JIS X 0213 cells that JIS X 0208 leaves empty: the row 2 symbols and 1-14-1 (U+4FF1).
pub open spec fn spec_x0213_decode_extra(lead: u8, trail: u8) -> Option<u32> {
    if lead == 0xA2 && trail == 0xAF {
        Some(0xFF07)
    } else if lead == 0xA2 && trail == 0xB0 {
        Some(0xFF02)
    } else if lead == 0xA2 && trail == 0xB1 {
        Some(0xFF0D)
    } else if lead == 0xA2 && trail == 0xB2 {
        Some(0xFF5E)
    } else if lead == 0xA2 && trail == 0xB3 {
        Some(0x3033)
    } else if lead == 0xA2 && trail == 0xB4 {
        Some(0x3034)
    } else if lead == 0xA2 && trail == 0xB5 {
        Some(0x3035)
    } else if lead == 0xA2 && trail == 0xB6 {
        Some(0x303B)
    } else if lead == 0xA2 && trail == 0xB7 {
        Some(0x303C)
    } else if lead == 0xA2 && trail == 0xB8 {
        Some(0x30FF)
    } else if lead == 0xA2 && trail == 0xB9 {
        Some(0x309F)
    } else if lead == 0xAE && trail == 0xA1 {
        Some(0x4FF1)
    } else {
        None
    }
}

/// The adjustment a decoding table makes to the codec's mapping of a pair.
pub open spec fn spec_decode_override(table: EucDecodeTable, lead: u8, trail: u8) -> Option<u32> {
    match table {
        EucDecodeTable::Jis => spec_jis_decode_override(lead, trail),
        EucDecodeTable::X0213 => match spec_x0213_decode_extra(lead, trail) {
            Some(v) => Some(v),
            None => spec_jis_decode_override(lead, trail),
        },
        _ => None,
    }
}

fn jis_decode_override(lead: u8, trail: u8) -> (r: Option<u32>)
    ensures
        r == spec_jis_decode_override(lead, trail),
{
    if lead == 0xA1 && trail == 0xB1 {
        Some(0x203E)
    } else if lead == 0xA1 && trail == 0xC1 {
        Some(0x301C)
    } else if lead == 0xA1 && trail == 0xC2 {
        Some(0x2016)
    } else if lead == 0xA1 && trail == 0xDD {
        Some(0x2212)
    } else if lead == 0xA1 && trail == 0xF1 {
        Some(0x00A2)
    } else if lead == 0xA1 && trail == 0xF2 {
        Some(0x00A3)
    } else if lead == 0xA2 && trail == 0xCC {
        Some(0x00AC)
    } else {
        None
    }
}

fn x0213_decode_extra(lead: u8, trail: u8) -> (r: Option<u32>)
    ensures
        r == spec_x0213_decode_extra(lead, trail),
{
    if lead == 0xA2 && trail == 0xAF {
        Some(0xFF07)
    } else if lead == 0xA2 && trail == 0xB0 {
        Some(0xFF02)
    } else if lead == 0xA2 && trail == 0xB1 {
        Some(0xFF0D)
    } else if lead == 0xA2 && trail == 0xB2 {
        Some(0xFF5E)
    } else if lead == 0xA2 && trail == 0xB3 {
        Some(0x3033)
    } else if lead == 0xA2 && trail == 0xB4 {
        Some(0x3034)
    } else if lead == 0xA2 && trail == 0xB5 {
        Some(0x3035)
    } else if lead == 0xA2 && trail == 0xB6 {
        Some(0x303B)
    } else if lead == 0xA2 && trail == 0xB7 {
        Some(0x303C)
    } else if lead == 0xA2 && trail == 0xB8 {
        Some(0x30FF)
    } else if lead == 0xA2 && trail == 0xB9 {
        Some(0x309F)
    } else if lead == 0xAE && trail == 0xA1 {
        Some(0x4FF1)
    } else {
        None
    }
}

fn decode_override(table: EucDecodeTable, lead: u8, trail: u8) -> (r: Option<u32>)
    ensures
        r == spec_decode_override(table, lead, trail),
{
    match table {
        EucDecodeTable::Jis => jis_decode_override(lead, trail),
        EucDecodeTable::X0213 => match x0213_decode_extra(lead, trail) {
            Some(v) => Some(v),
            None => jis_decode_override(lead, trail),
        },
        _ => None,
    }
}

/// Where the JIS-style tables encode a character differently from the codec (as a JIS row/cell
/// value).
pub open spec fn spec_jis_encode_override(code: u32) -> Option<u16> {
    if code == 0x203E {
        Some(0x2131)
    } else if code == 0x301C {
        Some(0x2141)
    } else if code == 0x2016 {
        Some(0x2142)
    } else if code == 0x2212 {
        Some(0x215D)
    } else if code == 0x00A2 {
        Some(0x2171)
    } else if code == 0x00A3 {
        Some(0x2172)
    } else if code == 0x00AC {
        Some(0x224C)
    } else if code == 0x00A5 {
        Some(0x216F)
    } else {
        None
    }
}

/// JIS X 0213 characters outside JIS X 0208: the row 2 symbols and U+4FF1 (1-14-1).
pub open spec fn spec_x0213_encode_extra(code: u32) -> Option<u16> {
    if code == 0xFF07 {
        Some(0x222F)
    } else if code == 0xFF02 {
        Some(0x2230)
    } else if code == 0xFF0D {
        Some(0x2231)
    } else if code == 0xFF5E {
        Some(0x2232)
    } else if code == 0x3033 {
        Some(0x2233)
    } else if code == 0x3034 {
        Some(0x2234)
    } else if code == 0x3035 {
        Some(0x2235)
    } else if code == 0x303B {
        Some(0x2236)
    } else if code == 0x303C {
        Some(0x2237)
    } else if code == 0x30FF {
        Some(0x2238)
    } else if code == 0x309F {
        Some(0x2239)
    } else if code == 0x4FF1 {
        Some(0x2E21)
    } else {
        None
    }
}

/// The adjustment an encoding table makes to the codec's mapping of a character.
pub open spec fn spec_encode_override(table: EucEncodeTable, code: u32) -> Option<u16> {
    match table {
        EucEncodeTable::Jis => spec_jis_encode_override(code),
        EucEncodeTable::X0213 => match spec_x0213_encode_extra(code) {
            Some(v) => Some(v),
            None => spec_jis_encode_override(code),
        },
        _ => None,
    }
}

fn jis_encode_override(code: u32) -> (r: Option<u16>)
    ensures
        r == spec_jis_encode_override(code),
{
    if code == 0x203E {
        Some(0x2131)
    } else if code == 0x301C {
        Some(0x2141)
    } else if code == 0x2016 {
        Some(0x2142)
    } else if code == 0x2212 {
        Some(0x215D)
    } else if code == 0x00A2 {
        Some(0x2171)
    } else if code == 0x00A3 {
        Some(0x2172)
    } else if code == 0x00AC {
        Some(0x224C)
    } else if code == 0x00A5 {
        Some(0x216F)
    } else {
        None
    }
}

fn x0213_encode_extra(code: u32) -> (r: Option<u16>)
    ensures
        r == spec_x0213_encode_extra(code),
{
    if code == 0xFF07 {
        Some(0x222F)
    } else if code == 0xFF02 {
        Some(0x2230)
    } else if code == 0xFF0D {
        Some(0x2231)
    } else if code == 0xFF5E {
        Some(0x2232)
    } else if code == 0x3033 {
        Some(0x2233)
    } else if code == 0x3034 {
        Some(0x2234)
    } else if code == 0x3035 {
        Some(0x2235)
    } else if code == 0x303B {
        Some(0x2236)
    } else if code == 0x303C {
        Some(0x2237)
    } else if code == 0x30FF {
        Some(0x2238)
    } else if code == 0x309F {
        Some(0x2239)
    } else if code == 0x4FF1 {
        Some(0x2E21)
    } else {
        None
    }
}

fn encode_override(table: EucEncodeTable, code: u32) -> (r: Option<u16>)
    ensures
        r == spec_encode_override(table, code),
{
    match table {
        EucEncodeTable::Jis => jis_encode_override(code),
        EucEncodeTable::X0213 => match x0213_encode_extra(code) {
            Some(v) => Some(v),
            None => jis_encode_override(code),
        },
        _ => None,
    }
}

/// A character from a code point known to be a scalar.
pub open spec fn spec_opt_char(v: Option<u32>) -> Option<char> {
    match v {
        Some(x) => if vstd::utf8::is_scalar(x) {
            Some(x as char)
        } else {
            None
        },
        None => None,
    }
}

/// The single character a codec decoding yields, if it yields exactly one without error.
pub open spec fn spec_single_char(decoded: (Seq<char>, bool)) -> Option<char> {
    if !decoded.1 && decoded.0.len() == 1 {
        Some(decoded.0[0])
    } else {
        None
    }
}

/// A two-byte pair (both bytes in 0xA1..=0xFE) through a decoding table.
pub open spec fn spec_table_decode(table: EucDecodeTable, lead: u8, trail: u8) -> Option<char> {
    match spec_decode_override(table, lead, trail) {
        Some(v) => spec_opt_char(Some(v)),
        None => spec_single_char(rs_decoded(RsCodec::EucJp, seq![lead, trail])),
    }
}

/// A two-byte pair through a decoding table.
pub fn table_decode(table: EucDecodeTable, lead: u8, trail: u8) -> (r: Option<char>)
    ensures
        r == spec_table_decode(table, lead, trail),
{
    match decode_override(table, lead, trail) {
        Some(v) => char_from_u32(v),
        None => {
            let mut pair: Vec<u8> = Vec::new();
            pair.push(lead);
            pair.push(trail);
            assert(pair@ =~= seq![lead, trail]);
            let (text, bad) = rs_decode(RsCodec::EucJp, pair.as_slice());
            if !bad && text.len() == 1 {
                Some(text[0])
            } else {
                None
            }
        },
    }
}

/// A JIS X 0212 (or JIS X 0213 plane 2) pair after the 0x8F lead.
pub open spec fn spec_x0212_decode(table: X0212Table, lead: u8, trail: u8) -> Option<char> {
    match table {
        X0212Table::Standard => spec_single_char(rs_decoded(RsCodec::EucJp, seq![0x8fu8, lead, trail])),
        X0212Table::X0213 => None,
    }
}

/// A JIS X 0212 pair after the 0x8F lead; the JIS X 0213 plane-2 table holds no pairs.
pub fn x0212_decode(table: X0212Table, lead: u8, trail: u8) -> (r: Option<char>)
    ensures
        r == spec_x0212_decode(table, lead, trail),
{
    match table {
        X0212Table::Standard => {
            let mut triple: Vec<u8> = Vec::new();
            triple.push(0x8f);
            triple.push(lead);
            triple.push(trail);
            assert(triple@ =~= seq![0x8fu8, lead, trail]);
            let (text, bad) = rs_decode(RsCodec::EucJp, triple.as_slice());
            if !bad && text.len() == 1 {
                Some(text[0])
            } else {
                None
            }
        },
        X0212Table::X0213 => None,
    }
}

/// The JIS value of a character through an encoding table (a value above 0x7FFF would denote
/// the 0x8F plane).
pub open spec fn spec_table_encode(table: EucEncodeTable, ch: char) -> Option<u16> {
    match spec_encode_override(table, ch as u32) {
        Some(v) => Some(v),
        None => {
            let (b, bad) = rs_encoded(RsCodec::EucJp, seq![ch]);
            if !bad && b.len() == 2 && 0xA1 <= b[0] <= 0xFE && 0xA1 <= b[1] <= 0xFE {
                Some(((b[0] - 0x80) * 256 + (b[1] - 0x80)) as u16)
            } else {
                None
            }
        },
    }
}

/// The JIS value of a character through an encoding table.
pub fn table_encode(table: EucEncodeTable, ch: char) -> (r: Option<u16>)
    ensures
        r == spec_table_encode(table, ch),
{
    match encode_override(table, ch as u32) {
        Some(v) => Some(v),
        None => {
            let mut single: Vec<char> = Vec::new();
            single.push(ch);
            assert(single@ =~= seq![ch]);
            let (b, bad) = rs_encode(RsCodec::EucJp, single.as_slice());
            if !bad && b.len() == 2 && 0xA1 <= b[0] && b[0] <= 0xFE && 0xA1 <= b[1] && b[1] <= 0xFE {
                Some(((b[0] - 0x80) as u16) * 256 + ((b[1] - 0x80) as u16))
            } else {
                None
            }
        },
    }
}

/// JIS X 0201 katakana byte (0xA1..=0xDF) to its halfwidth katakana character.
pub open spec fn spec_x0201_kana_to_unicode(byte: u8) -> Option<char> {
    if 0xA1 <= byte <= 0xDF {
        Some(((0xFF61 + byte - 0xA1) as u32) as char)
    } else {
        None
    }
}

/// JIS X 0201 katakana byte to its halfwidth katakana character.
pub fn x0201_kana_to_unicode(byte: u8) -> (r: Option<char>)
    ensures
        r == spec_x0201_kana_to_unicode(byte),
{
    if 0xA1 <= byte && byte <= 0xDF {
        let v: u32 = 0xFF61 + (byte as u32) - 0xA1;
        char_from_u32(v)
    } else {
        None
    }
}

/// Halfwidth katakana character to its JIS X 0201 byte.
pub open spec fn spec_unicode_to_x0201_kana(ch: char) -> Option<u8> {
    if 0xFF61 <= (ch as u32) <= 0xFF9F {
        Some(((ch as u32) - 0xFF61 + 0xA1) as u8)
    } else {
        None
    }
}

/// Halfwidth katakana character to its JIS X 0201 byte.
pub fn unicode_to_x0201_kana(ch: char) -> (r: Option<u8>)
    ensures
        r == spec_unicode_to_x0201_kana(ch),
{
    let v: u32 = ch as u32;
    if 0xFF61 <= v && v <= 0xFF9F {
        Some((v - 0xFF61 + 0xA1) as u8)
    } else {
        None
    }
}

/// Prepends a character to a decoding that may have failed.
pub open spec fn spec_prepend(c: char, rest: Option<Seq<char>>) -> Option<Seq<char>> {
    match rest {
        Some(r) => Some(seq![c] + r),
        None => None,
    }
}

/// Decoding EUC bytes through the given tables; `None` at the first malformed or unmapped
/// sequence.
pub open spec fn spec_decode_euc(dt: EucDecodeTable, xt: X0212Table, input: Seq<u8>) -> Option<
    Seq<char>,
>
    decreases input.len(),
{
    if input.len() == 0 {
        Some(seq![])
    } else {
        let b = input[0];
        if b <= 0x7f {
            spec_prepend(b as char, spec_decode_euc(dt, xt, input.skip(1)))
        } else if b == 0x8e {
            if input.len() < 2 {
                None
            } else {
                match spec_x0201_kana_to_unicode(input[1]) {
                    Some(c) => spec_prepend(c, spec_decode_euc(dt, xt, input.skip(2))),
                    None => None,
                }
            }
        } else if b == 0x8f {
            if input.len() < 3 {
                None
            } else if !(0xa1 <= input[1] <= 0xfe) || !(0xa1 <= input[2] <= 0xfe) {
                None
            } else {
                match spec_x0212_decode(xt, input[1], input[2]) {
                    Some(c) => spec_prepend(c, spec_decode_euc(dt, xt, input.skip(3))),
                    None => None,
                }
            }
        } else if 0xa1 <= b <= 0xfe {
            if input.len() < 2 {
                None
            } else if !(0xa1 <= input[1] <= 0xfe) {
                None
            } else {
                match spec_table_decode(dt, b, input[1]) {
                    Some(c) => spec_prepend(c, spec_decode_euc(dt, xt, input.skip(2))),
                    None => None,
                }
            }
        } else {
            None
        }
    }
}

/// Pushing a decoded character keeps the decoding invariant.
proof fn lemma_decode_step(
    whole: Option<Seq<char>>,
    out: Seq<char>,
    c: char,
    rest: Option<Seq<char>>,
    tail: Option<Seq<char>>,
)
    requires
        whole == (match tail {
            Some(r) => Some(out + r),
            None => None,
        }),
        tail == spec_prepend(c, rest),
    ensures
        whole == (match rest {
            Some(r) => Some(out.push(c) + r),
            None => None,
        }),
{
    match rest {
        Some(r) => {
            assert(out + (seq![c] + r) =~= out.push(c) + r);
        },
        None => {},
    }
}

/// The halfwidth katakana table: 0x8E plus a JIS X 0201 byte.
fn decode_kana_at(input: &[u8], i: usize) -> (r: Option<char>)
    requires
        i + 1 < input@.len(),
    ensures
        r == spec_x0201_kana_to_unicode(input@[i + 1]),
{
    assert(input@.len() == input.len());
    x0201_kana_to_unicode(input[i + 1])
}

/// Decodes EUC-JP-family bytes through the given tables.
pub fn decode_euc_with_tables(dt: EucDecodeTable, xt: X0212Table, input: &[u8]) -> (r: Option<
    Vec<char>,
>)
    ensures
        r matches Some(v) ==> spec_decode_euc(dt, xt, input@) == Some(v@),
        r is None ==> spec_decode_euc(dt, xt, input@) is None,
{
    let mut out: Vec<char> = Vec::new();
    let mut i: usize = 0;
    assert(input@.skip(0) =~= input@);
    while i < input.len()
        invariant
            i <= input@.len(),
            spec_decode_euc(dt, xt, input@) == (match spec_decode_euc(dt, xt, input@.skip(i as int)) {
                Some(r) => Some(out@ + r),
                None => None,
            }),
        decreases input@.len() - i,
    {
        let ghost tail = input@.skip(i as int);
        let ghost before = out@;
        let b = input[i];
        assert(tail[0] == b);
        if b <= 0x7f {
            assert(tail.skip(1) =~= input@.skip(i + 1));
            proof {
                lemma_decode_step(spec_decode_euc(dt, xt, input@), before, b as char, spec_decode_euc(dt, xt, tail.skip(1)), spec_decode_euc(dt, xt, tail));
            }
            out.push(b as char);
            i += 1;
        } else if b == 0x8e {
            if input.len() - i < 2 {
                return None;
            }
            assert(tail[1] == input@[i + 1]);
            match decode_kana_at(input, i) {
                Some(c) => {
                    assert(tail.skip(2) =~= input@.skip(i + 2));
                    proof {
                        lemma_decode_step(spec_decode_euc(dt, xt, input@), before, c, spec_decode_euc(dt, xt, tail.skip(2)), spec_decode_euc(dt, xt, tail));
                    }
                    out.push(c);
                    i += 2;
                },
                None => {
                    return None;
                },
            }
        } else if b == 0x8f {
            if input.len() - i < 3 {
                return None;
            }
            let lead = input[i + 1];
            let trail = input[i + 2];
            assert(tail[1] == lead && tail[2] == trail);
            if !(0xa1 <= lead && lead <= 0xfe) || !(0xa1 <= trail && trail <= 0xfe) {
                return None;
            }
            match x0212_decode(xt, lead, trail) {
                Some(c) => {
                    assert(tail.skip(3) =~= input@.skip(i + 3));
                    proof {
                        lemma_decode_step(spec_decode_euc(dt, xt, input@), before, c, spec_decode_euc(dt, xt, tail.skip(3)), spec_decode_euc(dt, xt, tail));
                    }
                    out.push(c);
                    i += 3;
                },
                None => {
                    return None;
                },
            }
        } else if 0xa1 <= b && b <= 0xfe {
            if input.len() - i < 2 {
                return None;
            }
            let trail = input[i + 1];
            assert(tail[1] == trail);
            if !(0xa1 <= trail && trail <= 0xfe) {
                return None;
            }
            match table_decode(dt, b, trail) {
                Some(c) => {
                    assert(tail.skip(2) =~= input@.skip(i + 2));
                    proof {
                        lemma_decode_step(spec_decode_euc(dt, xt, input@), before, c, spec_decode_euc(dt, xt, tail.skip(2)), spec_decode_euc(dt, xt, tail));
                    }
                    out.push(c);
                    i += 2;
                },
                None => {
                    return None;
                },
            }
        } else {
            return None;
        }
    }
    assert(input@.skip(i as int) =~= Seq::<u8>::empty());
    assert(out@ + Seq::<char>::empty() =~= out@);
    Some(out)
}

/// The EUC bytes of a JIS table value: three bytes after 0x8F above 0x7FFF, else two.
pub open spec fn spec_jis_value_as_euc(value: u16) -> Seq<u8> {
    let lead = (value / 256) as u8;
    let trail = (value % 256) as u8;
    if value > 0x7fff {
        seq![0x8fu8, (lead & 0x7f) | 0x80, trail | 0x80]
    } else {
        seq![lead | 0x80, trail | 0x80]
    }
}

/// Appends the EUC bytes of a JIS table value.
pub fn append_jis_table_value_as_euc(value: u16, out: &mut Vec<u8>)
    ensures
        final(out)@ == old(out)@ + spec_jis_value_as_euc(value),
{
    let lead: u8 = (value / 256) as u8;
    let trail: u8 = (value % 256) as u8;
    if value > 0x7fff {
        out.push(0x8f);
        out.push((lead & 0x7f) | 0x80);
        out.push(trail | 0x80);
    } else {
        out.push(lead | 0x80);
        out.push(trail | 0x80);
    }
    assert(out@ =~= old(out)@ + spec_jis_value_as_euc(value));
}

/// The EUC bytes of one character through an encoding table.
pub open spec fn spec_encode_euc_char(table: EucEncodeTable, ch: char) -> Option<Seq<u8>> {
    if (ch as u32) < 0x80 {
        Some(seq![(ch as u32) as u8])
    } else {
        match spec_unicode_to_x0201_kana(ch) {
            Some(k) => Some(seq![0x8eu8, k]),
            None => match spec_table_encode(table, ch) {
                Some(v) => Some(spec_jis_value_as_euc(v)),
                None => None,
            },
        }
    }
}

/// Encoding a text through an encoding table; `None` when some character has no mapping.
pub open spec fn spec_encode_euc(table: EucEncodeTable, text: Seq<char>) -> Option<Seq<u8>>
    decreases text.len(),
{
    if text.len() == 0 {
        Some(seq![])
    } else {
        match (spec_encode_euc_char(table, text[0]), spec_encode_euc(table, text.drop_first())) {
            (Some(a), Some(b)) => Some(a + b),
            _ => None,
        }
    }
}

/// Encodes a text as EUC-JP-family bytes through an encoding table.
pub fn encode_euc_with_tables(table: EucEncodeTable, text: &[char]) -> (r: Option<Vec<u8>>)
    ensures
        r matches Some(v) ==> spec_encode_euc(table, text@) == Some(v@),
        r is None ==> spec_encode_euc(table, text@) is None,
{
    let mut out: Vec<u8> = Vec::new();
    let mut i: usize = 0;
    assert(text@.skip(0) =~= text@);
    while i < text.len()
        invariant
            i <= text@.len(),
            spec_encode_euc(table, text@) == (match spec_encode_euc(table, text@.skip(i as int)) {
                Some(r) => Some(out@ + r),
                None => None,
            }),
        decreases text@.len() - i,
    {
        let ch = text[i];
        let ghost before = out@;
        assert(text@.skip(i as int)[0] == ch);
        assert(text@.skip(i as int).drop_first() =~= text@.skip(i + 1));
        let v: u32 = ch as u32;
        if v < 0x80 {
            out.push(v as u8);
        } else {
            match unicode_to_x0201_kana(ch) {
                Some(k) => {
                    out.push(0x8e);
                    out.push(k);
                },
                None => match table_encode(table, ch) {
                    Some(value) => {
                        append_jis_table_value_as_euc(value, &mut out);
                    },
                    None => {
                        return None;
                    },
                },
            }
        }
        proof {
            let piece = spec_encode_euc_char(table, ch);
            assert(piece == Some(out@.subrange(before.len() as int, out@.len() as int)));
            match spec_encode_euc(table, text@.skip(i + 1)) {
                Some(r) => {
                    assert(before + (piece.unwrap() + r) =~= out@ + r);
                },
                None => {},
            }
        }
        i += 1;
    }
    assert(text@.skip(i as int) =~= Seq::<char>::empty());
    assert(out@ + Seq::<u8>::empty() =~= out@);
    Some(out)
}

/// The two-byte decoding table an encoding name selects.
pub open spec fn spec_decode_table_for(encoding: Seq<char>, map: Option<MsUcsMap>) -> EucDecodeTable {
    let n = spec_normalize(encoding);
    if n == "EUC-JISX0213"@ || n == "EUC-JIS-2004"@ {
        EucDecodeTable::X0213
    } else if n == "CP10001"@ {
        EucDecodeTable::Mac
    } else if n == "EUCJP-MS"@ || n == "CP51932"@ {
        EucDecodeTable::Ms
    } else if n == "EUCJP-ASCII"@ {
        EucDecodeTable::Jis
    } else {
        match map {
            Some(MsUcsMap::Ms) | Some(MsUcsMap::Cp932) => EucDecodeTable::Ms,
            Some(MsUcsMap::Cp10001) => EucDecodeTable::Mac,
            _ => EucDecodeTable::Jis,
        }
    }
}

/// The two-byte decoding table an encoding name selects.
pub fn euc_decode_table_for(encoding: &str, map: Option<MsUcsMap>) -> (r: EucDecodeTable)
    ensures
        r == spec_decode_table_for(encoding@, map),
{
    let norm = normalize_encoding(encoding);
    let v = str_chars(norm.as_str());
    let n = v.as_slice();
    if chars_eq_str(n, "EUC-JISX0213") || chars_eq_str(n, "EUC-JIS-2004") {
        EucDecodeTable::X0213
    } else if chars_eq_str(n, "CP10001") {
        EucDecodeTable::Mac
    } else if chars_eq_str(n, "EUCJP-MS") || chars_eq_str(n, "CP51932") {
        EucDecodeTable::Ms
    } else if chars_eq_str(n, "EUCJP-ASCII") {
        EucDecodeTable::Jis
    } else {
        match map {
            Some(MsUcsMap::Ms) | Some(MsUcsMap::Cp932) => EucDecodeTable::Ms,
            Some(MsUcsMap::Cp10001) => EucDecodeTable::Mac,
            _ => EucDecodeTable::Jis,
        }
    }
}

/// The three-byte decoding table an encoding name selects.
pub open spec fn spec_x0212_table_for(encoding: Seq<char>) -> X0212Table {
    let n = spec_normalize(encoding);
    if n == "EUC-JISX0213"@ || n == "EUC-JIS-2004"@ {
        X0212Table::X0213
    } else {
        X0212Table::Standard
    }
}

/// The three-byte decoding table an encoding name selects.
pub fn x0212_decode_table_for(encoding: &str) -> (r: X0212Table)
    ensures
        r == spec_x0212_table_for(encoding@),
{
    let norm = normalize_encoding(encoding);
    let v = str_chars(norm.as_str());
    let n = v.as_slice();
    if chars_eq_str(n, "EUC-JISX0213") || chars_eq_str(n, "EUC-JIS-2004") {
        X0212Table::X0213
    } else {
        X0212Table::Standard
    }
}

/// The encoding table an encoding name selects.
pub open spec fn spec_encode_table_for(encoding: Seq<char>, map: Option<MsUcsMap>) -> EucEncodeTable {
    let n = spec_normalize(encoding);
    if n == "EUC-JISX0213"@ || n == "EUC-JIS-2004"@ {
        EucEncodeTable::X0213
    } else if n == "CP10001"@ {
        EucEncodeTable::Mac
    } else if n == "CP51932"@ {
        EucEncodeTable::Cp932
    } else if n == "EUCJP-MS"@ {
        EucEncodeTable::Ms
    } else if n == "EUCJP-ASCII"@ {
        EucEncodeTable::Jis
    } else {
        match map {
            Some(MsUcsMap::Ms) => EucEncodeTable::Ms,
            Some(MsUcsMap::Cp932) => EucEncodeTable::Cp932,
            Some(MsUcsMap::Cp10001) => EucEncodeTable::Mac,
            _ => EucEncodeTable::Jis,
        }
    }
}

/// The encoding table an encoding name selects.
pub fn euc_encode_tables_for(encoding: &str, map: Option<MsUcsMap>) -> (r: EucEncodeTable)
    ensures
        r == spec_encode_table_for(encoding@, map),
{
    let norm = normalize_encoding(encoding);
    let v = str_chars(norm.as_str());
    let n = v.as_slice();
    if chars_eq_str(n, "EUC-JISX0213") || chars_eq_str(n, "EUC-JIS-2004") {
        EucEncodeTable::X0213
    } else if chars_eq_str(n, "CP10001") {
        EucEncodeTable::Mac
    } else if chars_eq_str(n, "CP51932") {
        EucEncodeTable::Cp932
    } else if chars_eq_str(n, "EUCJP-MS") {
        EucEncodeTable::Ms
    } else if chars_eq_str(n, "EUCJP-ASCII") {
        EucEncodeTable::Jis
    } else {
        match map {
            Some(MsUcsMap::Ms) => EucEncodeTable::Ms,
            Some(MsUcsMap::Cp932) => EucEncodeTable::Cp932,
            Some(MsUcsMap::Cp10001) => EucEncodeTable::Mac,
            _ => EucEncodeTable::Jis,
        }
    }
}

/// Decoding bytes in a named EUC variant.
pub open spec fn spec_decode_euc_named(encoding: Seq<char>, input: Seq<u8>, map: Option<MsUcsMap>) -> Option<Seq<char>> {
    spec_decode_euc(spec_decode_table_for(encoding, map), spec_x0212_table_for(encoding), input)
}

/// Decodes bytes in a named EUC variant.
pub fn decode_euc_jp_with_nkf_tables(encoding: &str, input: &[u8], map: Option<MsUcsMap>) -> (r: Option<Vec<char>>)
    ensures
        r matches Some(v) ==> spec_decode_euc_named(encoding@, input@, map) == Some(v@),
        r is None ==> spec_decode_euc_named(encoding@, input@, map) is None,
{
    let dt = euc_decode_table_for(encoding, map);
    let xt = x0212_decode_table_for(encoding);
    decode_euc_with_tables(dt, xt, input)
}

/// Encoding a text in a named EUC variant.
pub open spec fn spec_encode_euc_named(encoding: Seq<char>, text: Seq<char>, map: Option<MsUcsMap>) -> Option<Seq<u8>> {
    spec_encode_euc(spec_encode_table_for(encoding, map), text)
}

/// Encodes a text in a named EUC variant.
pub fn encode_euc_jp_with_nkf_tables(encoding: &str, text: &[char], map: Option<MsUcsMap>) -> (r: Option<Vec<u8>>)
    ensures
        r matches Some(v) ==> spec_encode_euc_named(encoding@, text@, map) == Some(v@),
        r is None ==> spec_encode_euc_named(encoding@, text@, map) is None,
{
    let table = euc_encode_tables_for(encoding, map);
    encode_euc_with_tables(table, text)
}

/// Conversion through the EUC tables when one side is an EUC variant and the other UTF-8 (or
/// both are EUC variants); `None` otherwise.
pub open spec fn spec_convert_euc_tables(
    from: Seq<char>,
    to: Seq<char>,
    input: Seq<u8>,
    map: Option<MsUcsMap>,
) -> Result<Option<Seq<u8>>, ErrorView> {
    let f = spec_normalize(from);
    let t = spec_normalize(to);
    let fe = spec_is_euc_table(from);
    let te = spec_is_euc_table(to);
    if fe && !te && t == "UTF-8"@ {
        match spec_decode_euc_named(f, input, map) {
            None => Err(ErrorView::Undecodable(f)),
            Some(text) => Ok(Some(encode_utf8(text))),
        }
    } else if !fe && te && f == "UTF-8"@ {
        if !valid_utf8(input) {
            Err(ErrorView::Undecodable("UTF-8"@))
        } else {
            match spec_encode_euc_named(t, decode_utf8(input), map) {
                None => Err(ErrorView::Unencodable(t)),
                Some(out) => Ok(Some(out)),
            }
        }
    } else if fe && te {
        match spec_decode_euc_named(f, input, map) {
            None => Err(ErrorView::Undecodable(f)),
            Some(text) => match spec_encode_euc_named(t, text, map) {
                None => Err(ErrorView::Unencodable(t)),
                Some(out) => Ok(Some(out)),
            },
        }
    } else {
        Ok(None)
    }
}

/// Converts through the EUC tables when one side is an EUC variant and the other UTF-8, or both
/// are EUC variants.
pub fn convert_with_nkf_euc_tables(from: &str, to: &str, input: &[u8], map: Option<MsUcsMap>) -> (r: Result<Option<Vec<u8>>, NkfError>)
    ensures
        opt_bytes_result(r) == spec_convert_euc_tables(from@, to@, input@, map),
{
    let f = normalize_encoding(from);
    let t = normalize_encoding(to);
    let fe = is_euc_table_encoding(from);
    let te = is_euc_table_encoding(to);
    let fv = str_chars(f.as_str());
    let tv = str_chars(t.as_str());
    if fe && !te && chars_eq_str(tv.as_slice(), "UTF-8") {
        match decode_euc_jp_with_nkf_tables(f.as_str(), input, map) {
            None => Err(NkfError::Undecodable(f)),
            Some(text) => Ok(Some(encode_chars(text.as_slice()))),
        }
    } else if !fe && te && chars_eq_str(fv.as_slice(), "UTF-8") {
        match utf8_decode(input) {
            None => Err(NkfError::Undecodable(String::from_str("UTF-8"))),
            Some(text) => match encode_euc_jp_with_nkf_tables(t.as_str(), text.as_slice(), map) {
                None => Err(NkfError::Unencodable(t)),
                Some(out) => Ok(Some(out)),
            },
        }
    } else if fe && te {
        match decode_euc_jp_with_nkf_tables(f.as_str(), input, map) {
            None => Err(NkfError::Undecodable(f)),
            Some(text) => match encode_euc_jp_with_nkf_tables(t.as_str(), text.as_slice(), map) {
                None => Err(NkfError::Unencodable(t)),
                Some(out) => Ok(Some(out)),
            },
        }
    } else {
        Ok(None)
    }
}

/// Whether every character is ASCII or halfwidth katakana (U+FF61..U+FF9F).
pub open spec fn ascii_or_halfwidth_kana(t: Seq<char>) -> bool {
    forall|k: int| 0 <= k < t.len() ==> (#[trigger] t[k] as u32) < 0x80 || (0xFF61 <= t[k] as u32 <= 0xFF9F)
}

/// Whatever the tables, ASCII and halfwidth katakana always encode in EUC: ASCII as its own
/// byte, halfwidth katakana as `8E` and its JIS X 0201 byte; decoding gives the text back, and a
/// text of ASCII alone encodes to exactly its bytes.
pub proof fn lemma_euc_ascii_kana(et: EucEncodeTable, dt: EucDecodeTable, xt: X0212Table, t: Seq<char>)
    requires
        ascii_or_halfwidth_kana(t),
    ensures
        spec_encode_euc(et, t) is Some,
        spec_decode_euc(dt, xt, spec_encode_euc(et, t).unwrap()) == Some(t),
        (forall|k: int| 0 <= k < t.len() ==> (#[trigger] t[k] as u32) < 0x80)
            ==> spec_encode_euc(et, t) == Some(t.map_values(|c: char| (c as u32) as u8)),
    decreases t.len(),
{
    if t.len() > 0 {
        let c = t[0];
        let rest = t.drop_first();
        assert(ascii_or_halfwidth_kana(rest)) by {
            assert forall|k: int| 0 <= k < rest.len() implies (#[trigger] rest[k] as u32) < 0x80 || (0xFF61 <= rest[k] as u32 <= 0xFF9F) by {
                assert(rest[k] == t[k + 1]);
            }
        }
        lemma_euc_ascii_kana(et, dt, xt, rest);
        let r = spec_encode_euc(et, rest).unwrap();
        let v = c as u32;
        vstd::utf8::char_u32_cast(c, v);
        if v < 0x80 {
            let e = seq![v as u8] + r;
            assert(spec_encode_euc_char(et, c) == Some(seq![v as u8]));
            assert(spec_encode_euc(et, t) == Some(e));
            assert(e[0] == v as u8);
            assert(e.skip(1) =~= r);
            assert(((v as u8) as char) == c);
            assert(spec_decode_euc(dt, xt, e) == spec_prepend(c, spec_decode_euc(dt, xt, r)));
            assert(seq![c] + rest =~= t);
            if forall|k: int| 0 <= k < t.len() ==> (#[trigger] t[k] as u32) < 0x80 {
                assert forall|k: int| 0 <= k < rest.len() implies (#[trigger] rest[k] as u32) < 0x80 by {
                    assert(rest[k] == t[k + 1]);
                }
                assert(e =~= t.map_values(|c: char| (c as u32) as u8));
            }
        } else {
            let kb = (v - 0xFF61 + 0xA1) as u8;
            let e = seq![0x8eu8, kb] + r;
            assert(spec_unicode_to_x0201_kana(c) == Some(kb));
            assert(spec_encode_euc(et, t) == Some(e));
            assert(e[0] == 0x8e && e[1] == kb);
            assert(e.skip(2) =~= r);
            assert(((0xFF61 + kb - 0xA1) as u32) == v);
            assert(spec_x0201_kana_to_unicode(kb) == Some(c));
            assert(spec_decode_euc(dt, xt, e) == spec_prepend(c, spec_decode_euc(dt, xt, r)));
            assert(seq![c] + rest =~= t);
            assert(t[0] as u32 >= 0x80);
        }
    }
}

} // verus!
