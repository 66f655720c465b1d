//! Guessing the encoding of input bytes.

use crate::names::spec_normalize;
use crate::text::{chars_to_string, extend_chars, str_chars, utf8_decode};
use vstd::prelude::*;
use vstd::utf8::{decode_utf8, valid_utf8};

verus! {

broadcast use vstd::seq::group_seq_axioms;

pub const SCORE_L2: u32 = 1;
pub const SCORE_KANA: u32 = 2;
pub const SCORE_DEPEND: u32 = 4;
pub const SCORE_CP932: u32 = 8;
pub const SCORE_X0212: u32 = 16;
pub const SCORE_X0213: u32 = 32;
pub const SCORE_NO_EXIST: u32 = 64;
pub const SCORE_I_MIME: u32 = 128;
pub const SCORE_ERROR: u32 = 256;
pub const SCORE_INIT: u32 = 128;

/// The line-ending style found in the input.
#[derive(Clone, Copy, Debug, PartialEq, Eq, Structural)]
pub enum EolKind {
    Cr,
    Lf,
    Crlf,
    Mixed,
}

/// The line break starting at the front of the bytes, and its length.
pub open spec fn spec_eol_at(s: Seq<u8>) -> Option<(EolKind, int)> {
    if s.len() == 0 {
        None
    } else if s[0] == 0x0d && s.len() >= 2 && s[1] == 0x0a {
        Some((EolKind::Crlf, 2))
    } else if s[0] == 0x0d {
        Some((EolKind::Cr, 1))
    } else if s[0] == 0x0a {
        Some((EolKind::Lf, 1))
    } else {
        None
    }
}

/// The line-ending style of bytes, given the style seen so far: the one kind if only one occurs,
/// `Mixed` if several do.
pub open spec fn spec_guess_eol_from(s: Seq<u8>, kind: Option<EolKind>) -> Option<EolKind>
    decreases s.len(),
{
    if s.len() == 0 {
        kind
    } else {
        match spec_eol_at(s) {
            Some((found, n)) => match kind {
                None => spec_guess_eol_from(s.skip(n), Some(found)),
                Some(current) => if current == found {
                    spec_guess_eol_from(s.skip(n), kind)
                } else {
                    Some(EolKind::Mixed)
                },
            },
            None => spec_guess_eol_from(s.skip(1), kind),
        }
    }
}

/// The line-ending style of the input.
pub open spec fn spec_guess_eol(s: Seq<u8>) -> Option<EolKind> {
    spec_guess_eol_from(s, None)
}

/// The line-ending style of the input.
pub fn guess_eol(input: &[u8]) -> (r: Option<EolKind>)
    ensures
        r == spec_guess_eol(input@),
{
    let mut kind: Option<EolKind> = None;
    let mut i: usize = 0;
    assert(input@.skip(0) =~= input@);
    while i < input.len()
        invariant
            i <= input@.len(),
            spec_guess_eol(input@) == spec_guess_eol_from(input@.skip(i as int), kind),
        decreases input@.len() - i,
    {
        let ghost tail = input@.skip(i as int);
        assert(tail[0] == input@[i as int]);
        let found: Option<EolKind>;
        if input[i] == 0x0d && input.len() - i >= 2 && input[i + 1] == 0x0a {
            assert(tail[1] == input@[i + 1]);
            assert(tail.skip(2) =~= input@.skip(i + 2));
            found = Some(EolKind::Crlf);
            i += 2;
        } else if input[i] == 0x0d {
            proof {
                if tail.len() >= 2 {
                    assert(tail[1] == input@[i + 1]);
                }
            }
            assert(tail.skip(1) =~= input@.skip(i + 1));
            found = Some(EolKind::Cr);
            i += 1;
        } else if input[i] == 0x0a {
            assert(tail.skip(1) =~= input@.skip(i + 1));
            found = Some(EolKind::Lf);
            i += 1;
        } else {
            assert(tail.skip(1) =~= input@.skip(i + 1));
            found = None;
            i += 1;
        }
        if let Some(f) = found {
            match kind {
                None => {
                    kind = Some(f);
                },
                Some(current) => {
                    if current != f {
                        return Some(EolKind::Mixed);
                    }
                },
            }
        }
    }
    assert(input@.skip(i as int).len() == 0);
    kind
}

/// The score of the first recognised ISO-2022-JP escape sequence, if any.
pub open spec fn spec_iso2022_score(s: Seq<u8>) -> Option<u32>
    decreases s.len(),
{
    if s.len() == 0 {
        None
    } else if s[0] != 0x1b {
        spec_iso2022_score(s.skip(1))
    } else if s.len() >= 3 && s[1] == 0x24 && (s[2] == 0x40 || s[2] == 0x42) {
        Some(SCORE_INIT)
    } else if s.len() >= 4 && s[1] == 0x24 && s[2] == 0x28 && s[3] == 0x44 {
        Some(SCORE_INIT | SCORE_X0212)
    } else if s.len() >= 4 && s[1] == 0x24 && s[2] == 0x28 && (s[3] == 0x4f || s[3] == 0x50 || s[3] == 0x51) {
        Some(SCORE_INIT | SCORE_X0213)
    } else if s.len() >= 3 && s[1] == 0x28 && s[2] == 0x49 {
        Some(SCORE_INIT | SCORE_KANA)
    } else if s.len() >= 3 && s[1] == 0x28 && (s[2] == 0x42 || s[2] == 0x4a || s[2] == 0x48) {
        Some(SCORE_INIT)
    } else {
        spec_iso2022_score(s.skip(1))
    }
}

/// The score of the first recognised ISO-2022-JP escape sequence, if any.
pub fn guess_iso_2022_jp_score(input: &[u8]) -> (r: Option<u32>)
    ensures
        r == spec_iso2022_score(input@),
{
    let mut i: usize = 0;
    assert(input@.skip(0) =~= input@);
    while i < input.len()
        invariant
            i <= input@.len(),
            spec_iso2022_score(input@) == spec_iso2022_score(input@.skip(i as int)),
        decreases input@.len() - i,
    {
        let ghost tail = input@.skip(i as int);
        assert(tail[0] == input@[i as int]);
        assert(tail.skip(1) =~= input@.skip(i + 1));
        if input[i] != 0x1b {
            i += 1;
            continue;
        }
        let left = input.len() - i;
        let b1: u8 = if left >= 2 { input[i + 1] } else { 0 };
        let b2: u8 = if left >= 3 { input[i + 2] } else { 0 };
        let b3: u8 = if left >= 4 { input[i + 3] } else { 0 };
        proof {
            if left >= 2 {
                assert(tail[1] == b1);
            }
            if left >= 3 {
                assert(tail[2] == b2);
            }
            if left >= 4 {
                assert(tail[3] == b3);
            }
        }
        if left >= 3 && b1 == 0x24 && (b2 == 0x40 || b2 == 0x42) {
            return Some(SCORE_INIT);
        }
        if left >= 4 && b1 == 0x24 && b2 == 0x28 && b3 == 0x44 {
            return Some(SCORE_INIT | SCORE_X0212);
        }
        if left >= 4 && b1 == 0x24 && b2 == 0x28 && (b3 == 0x4f || b3 == 0x50 || b3 == 0x51) {
            return Some(SCORE_INIT | SCORE_X0213);
        }
        if left >= 3 && b1 == 0x28 && b2 == 0x49 {
            return Some(SCORE_INIT | SCORE_KANA);
        }
        if left >= 3 && b1 == 0x28 && (b2 == 0x42 || b2 == 0x4a || b2 == 0x48) {
            return Some(SCORE_INIT);
        }
        i += 1;
    }
    assert(input@.skip(i as int).len() == 0);
    None
}

/// How many of the first `k` bytes at positions of the given parity are zero.
pub open spec fn spec_zeros_at_parity(s: Seq<u8>, k: int, parity: int) -> int
    decreases k,
{
    if k <= 0 {
        0
    } else {
        spec_zeros_at_parity(s, k - 1, parity) + if (k - 1) % 2 == parity && s[k - 1] == 0 {
            1int
        } else {
            0
        }
    }
}

/// How many of the first `q` four-byte groups have zeros at the three given offsets.
pub open spec fn spec_zero_quads(s: Seq<u8>, q: int, a: int, b: int, c: int) -> int
    decreases q,
{
    if q <= 0 {
        0
    } else {
        spec_zero_quads(s, q - 1, a, b, c) + if s[4 * (q - 1) + a] == 0 && s[4 * (q - 1) + b] == 0
            && s[4 * (q - 1) + c] == 0 {
            1int
        } else {
            0
        }
    }
}

/// An optional string read as its characters.
pub open spec fn opt_str_view(s: Option<&str>) -> Option<Seq<char>> {
    match s {
        Some(x) => Some(x@),
        None => None,
    }
}

/// BOM-less UTF-16 or UTF-32 recognised by where the NUL bytes fall in the first 256 bytes.
pub open spec fn spec_utf_by_nuls(input: Seq<u8>) -> Option<(Seq<char>, Option<Seq<char>>)> {
    let n = if input.len() < 256 {
        input.len() as int
    } else {
        256
    };
    let even = spec_zeros_at_parity(input, n, 0);
    let odd = spec_zeros_at_parity(input, n, 1);
    let q = if n / 4 < 16 {
        n / 4
    } else {
        16
    };
    let be = spec_zero_quads(input, q, 0, 1, 2);
    let le = spec_zero_quads(input, q, 1, 2, 3);
    if n < 4 {
        None
    } else if odd > n / 4 && even == 0 {
        Some(("UTF-16"@, Some("LE"@)))
    } else if even > n / 4 && odd == 0 {
        Some(("UTF-16"@, Some("BE"@)))
    } else if be > q / 2 {
        Some(("UTF-32"@, Some("BE"@)))
    } else if le > q / 2 {
        Some(("UTF-32"@, Some("LE"@)))
    } else {
        None
    }
}

/// BOM-less UTF-16 or UTF-32 recognised by where the NUL bytes fall.
pub fn guess_utf_by_nuls(input: &[u8]) -> (r: Option<(&'static str, Option<&'static str>)>)
    ensures
        match r {
            Some((e, d)) => spec_utf_by_nuls(input@) == Some((e@, opt_str_view(d))),
            None => spec_utf_by_nuls(input@) is None,
        },
{
    let n: usize = if input.len() < 256 {
        input.len()
    } else {
        256
    };
    if n < 4 {
        return None;
    }
    let mut even: usize = 0;
    let mut odd: usize = 0;
    let mut i: usize = 0;
    while i < n
        invariant
            n <= input@.len(),
            i <= n <= 256,
            even == spec_zeros_at_parity(input@, i as int, 0),
            odd == spec_zeros_at_parity(input@, i as int, 1),
            even <= i,
            odd <= i,
        decreases n - i,
    {
        if input[i] == 0 {
            if i % 2 == 0 {
                even += 1;
            } else {
                odd += 1;
            }
        }
        i += 1;
    }
    if odd > n / 4 && even == 0 {
        return Some(("UTF-16", Some("LE")));
    }
    if even > n / 4 && odd == 0 {
        return Some(("UTF-16", Some("BE")));
    }
    let q: usize = if n / 4 < 16 {
        n / 4
    } else {
        16
    };
    let mut be: usize = 0;
    let mut le: usize = 0;
    let mut j: usize = 0;
    while j < q
        invariant
            n <= input@.len(),
            q <= n / 4,
            q <= 16,
            j <= q,
            be == spec_zero_quads(input@, j as int, 0, 1, 2),
            le == spec_zero_quads(input@, j as int, 1, 2, 3),
            be <= j,
            le <= j,
        decreases q - j,
    {
        let k = 4 * j;
        if input[k] == 0 && input[k + 1] == 0 && input[k + 2] == 0 {
            be += 1;
        }
        if input[k + 1] == 0 && input[k + 2] == 0 && input[k + 3] == 0 {
            le += 1;
        }
        j += 1;
    }
    if be > q / 2 {
        return Some(("UTF-32", Some("BE")));
    }
    if le > q / 2 {
        return Some(("UTF-32", Some("LE")));
    }
    None
}

/// Row scores of the A0 table.
pub open spec fn spec_score_table_a0(i: u8) -> u32 {
    match i {
        0 => 0,
        1 => 0,
        2 => 0,
        3 => 0,
        4 => 0,
        5 => 0,
        6 => 0,
        7 => 0,
        8 => 0,
        9 => SCORE_DEPEND,
        10 => SCORE_DEPEND,
        11 => SCORE_DEPEND,
        12 => SCORE_DEPEND,
        13 => SCORE_DEPEND,
        14 => SCORE_DEPEND,
        _ => SCORE_X0213,
    }
}

fn score_table_a0(i: u8) -> (r: u32)
    ensures
        r == spec_score_table_a0(i),
{
    match i {
        0 => 0,
        1 => 0,
        2 => 0,
        3 => 0,
        4 => 0,
        5 => 0,
        6 => 0,
        7 => 0,
        8 => 0,
        9 => SCORE_DEPEND,
        10 => SCORE_DEPEND,
        11 => SCORE_DEPEND,
        12 => SCORE_DEPEND,
        13 => SCORE_DEPEND,
        14 => SCORE_DEPEND,
        _ => SCORE_X0213,
    }
}

/// Row scores of the F0 table.
pub open spec fn spec_score_table_f0(i: u8) -> u32 {
    match i {
        0 => SCORE_L2,
        1 => SCORE_L2,
        2 => SCORE_L2,
        3 => SCORE_L2,
        4 => SCORE_L2,
        5 => SCORE_DEPEND,
        6 => SCORE_X0213,
        7 => SCORE_X0213,
        8 => SCORE_DEPEND,
        9 => SCORE_DEPEND,
        10 => SCORE_CP932,
        11 => SCORE_CP932,
        12 => SCORE_CP932,
        13 => SCORE_X0213,
        14 => SCORE_X0213,
        _ => SCORE_ERROR,
    }
}

fn score_table_f0(i: u8) -> (r: u32)
    ensures
        r == spec_score_table_f0(i),
{
    match i {
        0 => SCORE_L2,
        1 => SCORE_L2,
        2 => SCORE_L2,
        3 => SCORE_L2,
        4 => SCORE_L2,
        5 => SCORE_DEPEND,
        6 => SCORE_X0213,
        7 => SCORE_X0213,
        8 => SCORE_DEPEND,
        9 => SCORE_DEPEND,
        10 => SCORE_CP932,
        11 => SCORE_CP932,
        12 => SCORE_CP932,
        13 => SCORE_X0213,
        14 => SCORE_X0213,
        _ => SCORE_ERROR,
    }
}

/// Row scores of the 8FA0 table.
pub open spec fn spec_score_table_8fa0(i: u8) -> u32 {
    match i {
        0 => 0,
        1 => SCORE_X0213,
        2 => SCORE_X0212,
        3 => SCORE_X0213,
        4 => SCORE_X0213,
        5 => SCORE_X0213,
        6 => SCORE_X0212,
        7 => SCORE_X0212,
        8 => SCORE_X0213,
        9 => SCORE_X0212,
        10 => SCORE_X0212,
        11 => SCORE_X0212,
        12 => SCORE_X0213,
        13 => SCORE_X0213,
        14 => SCORE_X0213,
        _ => SCORE_X0213,
    }
}

fn score_table_8fa0(i: u8) -> (r: u32)
    ensures
        r == spec_score_table_8fa0(i),
{
    match i {
        0 => 0,
        1 => SCORE_X0213,
        2 => SCORE_X0212,
        3 => SCORE_X0213,
        4 => SCORE_X0213,
        5 => SCORE_X0213,
        6 => SCORE_X0212,
        7 => SCORE_X0212,
        8 => SCORE_X0213,
        9 => SCORE_X0212,
        10 => SCORE_X0212,
        11 => SCORE_X0212,
        12 => SCORE_X0213,
        13 => SCORE_X0213,
        14 => SCORE_X0213,
        _ => SCORE_X0213,
    }
}

/// Row scores of the 8FE0 table.
pub open spec fn spec_score_table_8fe0(i: u8) -> u32 {
    match i {
        0 => SCORE_X0212,
        1 => SCORE_X0212,
        2 => SCORE_X0212,
        3 => SCORE_X0212,
        4 => SCORE_X0212,
        5 => SCORE_X0212,
        6 => SCORE_X0212,
        7 => SCORE_X0212,
        8 => SCORE_X0212,
        9 => SCORE_X0212,
        10 => SCORE_X0212,
        11 => SCORE_X0212,
        12 => SCORE_X0212,
        13 => SCORE_X0212,
        14 => SCORE_X0213,
        _ => SCORE_X0213,
    }
}

fn score_table_8fe0(i: u8) -> (r: u32)
    ensures
        r == spec_score_table_8fe0(i),
{
    match i {
        0 => SCORE_X0212,
        1 => SCORE_X0212,
        2 => SCORE_X0212,
        3 => SCORE_X0212,
        4 => SCORE_X0212,
        5 => SCORE_X0212,
        6 => SCORE_X0212,
        7 => SCORE_X0212,
        8 => SCORE_X0212,
        9 => SCORE_X0212,
        10 => SCORE_X0212,
        11 => SCORE_X0212,
        12 => SCORE_X0212,
        13 => SCORE_X0212,
        14 => SCORE_X0213,
        _ => SCORE_X0213,
    }
}

/// Row scores of the 8FF0 table.
pub open spec fn spec_score_table_8ff0(i: u8) -> u32 {
    match i {
        0 => SCORE_X0213,
        1 => SCORE_X0213,
        2 => SCORE_X0213,
        3 => SCORE_X0212,
        4 => SCORE_X0212,
        5 => SCORE_X0213,
        6 => SCORE_X0213,
        7 => SCORE_X0213,
        8 => SCORE_X0213,
        9 => SCORE_X0213,
        10 => SCORE_X0213,
        11 => SCORE_X0213,
        12 => SCORE_X0213,
        13 => SCORE_X0213,
        14 => SCORE_X0213,
        _ => SCORE_X0213,
    }
}

fn score_table_8ff0(i: u8) -> (r: u32)
    ensures
        r == spec_score_table_8ff0(i),
{
    match i {
        0 => SCORE_X0213,
        1 => SCORE_X0213,
        2 => SCORE_X0213,
        3 => SCORE_X0212,
        4 => SCORE_X0212,
        5 => SCORE_X0213,
        6 => SCORE_X0213,
        7 => SCORE_X0213,
        8 => SCORE_X0213,
        9 => SCORE_X0213,
        10 => SCORE_X0213,
        11 => SCORE_X0213,
        12 => SCORE_X0213,
        13 => SCORE_X0213,
        14 => SCORE_X0213,
        _ => SCORE_X0213,
    }
}

/// Which encoding a candidate stands for.
#[derive(Clone, Copy, Debug, PartialEq, Eq, Structural)]
pub enum CandidateKind {
    Euc,
    ShiftJis,
    Utf8,
}

/// One encoding candidate being checked byte by byte: its state (-1 when ruled out), score,
/// and the bytes of the character in progress.
#[derive(Clone, Copy, Debug, PartialEq, Eq, Structural)]
pub struct GuessCandidate {
    pub kind: CandidateKind,
    pub stat: i32,
    pub score: u32,
    pub index: usize,
    pub buf0: u8,
    pub buf1: u8,
    pub buf2: u8,
    pub buf3: u8,
}

/// The buffered bytes of a candidate.
pub open spec fn spec_buf(c: GuessCandidate) -> Seq<u8> {
    seq![c.buf0, c.buf1, c.buf2, c.buf3]
}

/// The score bits one two-byte character (as EUC) adds.
pub open spec fn spec_char_score(c2: u8, c1: u8) -> u32 {
    if c2 == 0xff {
        SCORE_ERROR
    } else if c2 == 0x8e {
        SCORE_KANA
    } else if c2 == 0x8f {
        if c1 & 0x70 == 0x20 {
            spec_score_table_8fa0(c1 & 0x0f)
        } else if c1 & 0x70 == 0x60 {
            spec_score_table_8fe0(c1 & 0x0f)
        } else if c1 & 0x70 == 0x70 {
            spec_score_table_8ff0(c1 & 0x0f)
        } else {
            SCORE_X0212
        }
    } else if c2 & 0x70 == 0x20 {
        spec_score_table_a0(c2 & 0x0f)
    } else if c2 & 0x70 == 0x70 {
        spec_score_table_f0(c2 & 0x0f)
    } else if c2 & 0x70 >= 0x50 {
        SCORE_L2
    } else {
        0
    }
}

fn char_score(c2: u8, c1: u8) -> (r: u32)
    ensures
        r == spec_char_score(c2, c1),
{
    if c2 == 0xff {
        SCORE_ERROR
    } else if c2 == 0x8e {
        SCORE_KANA
    } else if c2 == 0x8f {
        if c1 & 0x70 == 0x20 {
            score_table_8fa0(c1 & 0x0f)
        } else if c1 & 0x70 == 0x60 {
            score_table_8fe0(c1 & 0x0f)
        } else if c1 & 0x70 == 0x70 {
            score_table_8ff0(c1 & 0x0f)
        } else {
            SCORE_X0212
        }
    } else if c2 & 0x70 == 0x20 {
        score_table_a0(c2 & 0x0f)
    } else if c2 & 0x70 == 0x70 {
        score_table_f0(c2 & 0x0f)
    } else if c2 & 0x70 >= 0x50 {
        SCORE_L2
    } else {
        0
    }
}

/// The score bits of the UTF-8 character in the buffered bytes.
pub open spec fn spec_utf8_score(bytes: Seq<u8>) -> u32 {
    if valid_utf8(bytes) && decode_utf8(bytes).len() > 0 {
        let v = decode_utf8(bytes)[0] as u32;
        if 0xff61 <= v <= 0xff9f {
            SCORE_KANA
        } else if 0xe000 <= v <= 0xf8ff {
            SCORE_CP932
        } else if 0x3400 <= v <= 0x9fff {
            SCORE_L2
        } else {
            0
        }
    } else {
        SCORE_ERROR
    }
}

/// The score bits of the UTF-8 character in the buffered bytes.
pub fn utf8_score(bytes: &[u8]) -> (r: u32)
    ensures
        r == spec_utf8_score(bytes@),
{
    match utf8_decode(bytes) {
        Some(text) => {
            if text.len() == 0 {
                return SCORE_ERROR;
            }
            let v: u32 = text[0] as u32;
            if 0xff61 <= v && v <= 0xff9f {
                SCORE_KANA
            } else if 0xe000 <= v && v <= 0xf8ff {
                SCORE_CP932
            } else if 0x3400 <= v && v <= 0x9fff {
                SCORE_L2
            } else {
                0
            }
        },
        None => SCORE_ERROR,
    }
}

/// A Shift_JIS pair rewritten as the EUC pair of the same JIS character.
pub open spec fn spec_sjis_to_euc_pair(c2: u8, c1: u8) -> (u8, u8) {
    if c2 >= 0x80 {
        let k: int = if c2 <= 0x9f {
            0xe1
        } else {
            0x61
        };
        let d2 = ((2 * c2 - k) % 256) as u8;
        if c1 < 0x9f {
            let m: int = if c1 > 0x7f {
                0x20
            } else {
                0x1f
            };
            (d2 | 0x80, ((c1 + 256 - m) % 256) as u8 | 0x80)
        } else {
            (((d2 + 1) % 256) as u8 | 0x80, ((c1 + 256 - 0x7e) % 256) as u8 | 0x80)
        }
    } else {
        (c2 | 0x80, c1 | 0x80)
    }
}

/// A Shift_JIS pair rewritten as the EUC pair of the same JIS character.
pub fn sjis_to_euc_pair(c2: u8, c1: u8) -> (r: (u8, u8))
    ensures
        r == spec_sjis_to_euc_pair(c2, c1),
{
    if c2 >= 0x80 {
        let k: u32 = if c2 <= 0x9f {
            0xe1
        } else {
            0x61
        };
        let d2: u8 = ((2 * (c2 as u32) - k) % 256) as u8;
        if c1 < 0x9f {
            let m: u32 = if c1 > 0x7f {
                0x20
            } else {
                0x1f
            };
            (d2 | 0x80, (((c1 as u32) + 256 - m) % 256) as u8 | 0x80)
        } else {
            ((((d2 as u32) + 1) % 256) as u8 | 0x80, (((c1 as u32) + 256 - 0x7e) % 256) as u8 | 0x80)
        }
    } else {
        (c2 | 0x80, c1 | 0x80)
    }
}

/// Whether a byte is a Shift_JIS trail byte.
pub open spec fn spec_is_sjis_trail(b: u8) -> bool {
    (0x40 <= b <= 0x7e) || (0x80 <= b <= 0xfc)
}

/// Whether a byte is a Shift_JIS trail byte.
pub fn is_sjis_trail(b: u8) -> (r: bool)
    ensures
        r == spec_is_sjis_trail(b),
{
    (0x40 <= b && b <= 0x7e) || (0x80 <= b && b <= 0xfc)
}

/// A fresh candidate.
pub open spec fn spec_new_candidate(kind: CandidateKind) -> GuessCandidate {
    GuessCandidate { kind, stat: 0, score: SCORE_INIT, index: 0, buf0: 0, buf1: 0, buf2: 0, buf3: 0 }
}

/// The candidate with a byte appended to its buffer (when there is room).
pub open spec fn spec_push(c: GuessCandidate, b: u8) -> GuessCandidate {
    if c.index == 0 {
        GuessCandidate { buf0: b, index: 1, ..c }
    } else if c.index == 1 {
        GuessCandidate { buf1: b, index: 2, ..c }
    } else if c.index == 2 {
        GuessCandidate { buf2: b, index: 3, ..c }
    } else if c.index == 3 {
        GuessCandidate { buf3: b, index: 4, ..c }
    } else {
        c
    }
}

/// The candidate with the score of its buffered character added.
pub open spec fn spec_code_score(c: GuessCandidate) -> GuessCandidate {
    GuessCandidate { score: c.score | spec_char_score(c.buf0, c.buf1), ..c }
}

/// The candidate ruled out.
pub open spec fn spec_disable(c: GuessCandidate) -> GuessCandidate {
    spec_code_score(GuessCandidate { stat: -1i32, buf0: 0xff, ..c })
}

/// The candidate back at the start of a character.
pub open spec fn spec_clear(c: GuessCandidate) -> GuessCandidate {
    GuessCandidate { stat: 0, index: 0, ..c }
}

/// The candidate started afresh.
pub open spec fn spec_reset(c: GuessCandidate) -> GuessCandidate {
    GuessCandidate { stat: 0, score: SCORE_INIT, index: 0, ..c }
}

/// One EUC-JP byte.
pub open spec fn spec_euc_status(c: GuessCandidate, b: u8) -> GuessCandidate {
    if c.stat == 0 {
        if b <= 0x7f {
            c
        } else if b == 0x8f {
            spec_push(GuessCandidate { stat: 2, ..c }, b)
        } else if b == 0x8e || (0xa1 <= b <= 0xfe) {
            spec_push(GuessCandidate { stat: 1, ..c }, b)
        } else {
            spec_disable(c)
        }
    } else if c.stat == 1 {
        if 0xa1 <= b <= 0xfe {
            spec_clear(spec_code_score(spec_push(c, b)))
        } else {
            spec_disable(c)
        }
    } else if c.stat == 2 {
        if 0xa1 <= b <= 0xfe {
            spec_push(GuessCandidate { stat: 1, ..c }, b)
        } else {
            spec_disable(c)
        }
    } else {
        c
    }
}

/// The candidate with its first two buffered bytes rewritten from Shift_JIS to EUC.
pub open spec fn spec_to_euc(c: GuessCandidate) -> GuessCandidate {
    let (c2, c1) = spec_sjis_to_euc_pair(c.buf0, c.buf1);
    GuessCandidate { buf0: c2, buf1: c1, ..c }
}

/// One Shift_JIS byte.
pub open spec fn spec_sjis_status(c: GuessCandidate, b: u8) -> GuessCandidate {
    if c.stat == 0 {
        if b <= 0x7f {
            c
        } else if 0xa1 <= b <= 0xdf {
            spec_clear(spec_code_score(GuessCandidate { buf0: 0x8e, buf1: b, index: 2, ..c }))
        } else if (0x81 <= b <= 0x9f) || (0xe0 <= b <= 0xea) || (0xf0 <= b <= 0xfc) {
            spec_push(GuessCandidate { stat: 1, ..c }, b)
        } else if 0xed <= b <= 0xee {
            spec_push(GuessCandidate { stat: 3, ..c }, b)
        } else {
            spec_disable(c)
        }
    } else if c.stat == 1 {
        if spec_is_sjis_trail(b) {
            spec_clear(spec_code_score(spec_to_euc(spec_push(c, b))))
        } else {
            spec_disable(c)
        }
    } else if c.stat == 2 {
        if spec_is_sjis_trail(b) {
            let p = spec_push(c, b);
            spec_clear(GuessCandidate { score: p.score | SCORE_CP932, ..p })
        } else {
            spec_disable(c)
        }
    } else if c.stat == 3 {
        if spec_is_sjis_trail(b) {
            let p = spec_to_euc(spec_push(c, b));
            spec_clear(GuessCandidate { score: p.score | SCORE_CP932, ..p })
        } else {
            spec_disable(c)
        }
    } else {
        c
    }
}

/// The buffered bytes of a candidate, up to its index.
pub open spec fn spec_buffered(c: GuessCandidate) -> Seq<u8> {
    spec_buf(c).take(c.index as int)
}

/// One UTF-8 byte.
pub open spec fn spec_utf8_status(c: GuessCandidate, b: u8) -> GuessCandidate {
    if c.stat == 0 {
        if b <= 0x7f {
            c
        } else if 0xc2 <= b <= 0xdf {
            spec_push(GuessCandidate { stat: 1, ..c }, b)
        } else if 0xe0 <= b <= 0xef {
            spec_push(GuessCandidate { stat: 2, ..c }, b)
        } else if 0xf0 <= b <= 0xf4 {
            spec_push(GuessCandidate { stat: 3, ..c }, b)
        } else {
            spec_disable(c)
        }
    } else if c.stat == 1 || c.stat == 2 {
        if 0x80 <= b <= 0xbf {
            let p = spec_push(c, b);
            if p.index > p.stat {
                if !(p.buf0 == 0xef && p.buf1 == 0xbb && p.buf2 == 0xbf) {
                    spec_clear(GuessCandidate { score: p.score | spec_utf8_score(spec_buffered(p)), ..p })
                } else {
                    spec_clear(p)
                }
            } else {
                p
            }
        } else {
            spec_disable(c)
        }
    } else if c.stat == 3 {
        if 0x80 <= b <= 0xbf {
            let p = spec_push(c, b);
            if p.index > 3 {
                spec_clear(p)
            } else {
                p
            }
        } else {
            spec_disable(c)
        }
    } else {
        c
    }
}

/// One byte for a candidate; a ruled-out candidate restarts on ASCII once another is established.
pub open spec fn spec_status(c: GuessCandidate, b: u8, established: bool) -> GuessCandidate {
    if c.stat == -1 {
        if b <= 0x7f && established {
            spec_reset(c)
        } else {
            c
        }
    } else {
        match c.kind {
            CandidateKind::Euc => spec_euc_status(c, b),
            CandidateKind::ShiftJis => spec_sjis_status(c, b),
            CandidateKind::Utf8 => spec_utf8_status(c, b),
        }
    }
}

/// Whether the candidate's counters stay in range.
pub open spec fn spec_candidate_wf(c: GuessCandidate) -> bool {
    c.index <= 4 && -1 <= c.stat <= 3
}

impl GuessCandidate {
    /// A fresh candidate.
    pub fn new(kind: CandidateKind) -> (c: Self)
        ensures
            c == spec_new_candidate(kind),
    {
        GuessCandidate { kind, stat: 0, score: SCORE_INIT, index: 0, buf0: 0, buf1: 0, buf2: 0, buf3: 0 }
    }

    /// Starts afresh.
    pub fn reset(&mut self)
        ensures
            *final(self) == spec_reset(*old(self)),
    {
        self.stat = 0;
        self.score = SCORE_INIT;
        self.index = 0;
    }

    /// Returns to the start of a character.
    pub fn clear(&mut self)
        ensures
            *final(self) == spec_clear(*old(self)),
    {
        self.stat = 0;
        self.index = 0;
    }

    /// Buffers a byte when there is room.
    pub fn push(&mut self, b: u8)
        ensures
            *final(self) == spec_push(*old(self), b),
    {
        if self.index == 0 {
            self.buf0 = b;
            self.index = 1;
        } else if self.index == 1 {
            self.buf1 = b;
            self.index = 2;
        } else if self.index == 2 {
            self.buf2 = b;
            self.index = 3;
        } else if self.index == 3 {
            self.buf3 = b;
            self.index = 4;
        }
    }

    /// Adds the score of the buffered character.
    pub fn code_score(&mut self)
        ensures
            *final(self) == spec_code_score(*old(self)),
    {
        self.score = self.score | char_score(self.buf0, self.buf1);
    }

    /// Rules the candidate out.
    pub fn disable(&mut self)
        ensures
            *final(self) == spec_disable(*old(self)),
    {
        self.stat = -1;
        self.buf0 = 0xff;
        self.code_score();
    }

    fn to_euc(&mut self)
        ensures
            *final(self) == spec_to_euc(*old(self)),
    {
        let (c2, c1) = sjis_to_euc_pair(self.buf0, self.buf1);
        self.buf0 = c2;
        self.buf1 = c1;
    }

    /// One EUC-JP byte.
    pub fn euc_status(&mut self, b: u8)
        ensures
            *final(self) == spec_euc_status(*old(self), b),
    {
        if self.stat == 0 {
            if b <= 0x7f {
            } else if b == 0x8f {
                self.stat = 2;
                self.push(b);
            } else if b == 0x8e || (0xa1 <= b && b <= 0xfe) {
                self.stat = 1;
                self.push(b);
            } else {
                self.disable();
            }
        } else if self.stat == 1 {
            if 0xa1 <= b && b <= 0xfe {
                self.push(b);
                self.code_score();
                self.clear();
            } else {
                self.disable();
            }
        } else if self.stat == 2 {
            if 0xa1 <= b && b <= 0xfe {
                self.stat = 1;
                self.push(b);
            } else {
                self.disable();
            }
        }
    }

    /// One Shift_JIS byte.
    pub fn sjis_status(&mut self, b: u8)
        ensures
            *final(self) == spec_sjis_status(*old(self), b),
    {
        if self.stat == 0 {
            if b <= 0x7f {
            } else if 0xa1 <= b && b <= 0xdf {
                self.buf0 = 0x8e;
                self.buf1 = b;
                self.index = 2;
                self.code_score();
                self.clear();
            } else if (0x81 <= b && b <= 0x9f) || (0xe0 <= b && b <= 0xea) || (0xf0 <= b && b <= 0xfc) {
                self.stat = 1;
                self.push(b);
            } else if 0xed <= b && b <= 0xee {
                self.stat = 3;
                self.push(b);
            } else {
                self.disable();
            }
        } else if self.stat == 1 {
            if is_sjis_trail(b) {
                self.push(b);
                self.to_euc();
                self.code_score();
                self.clear();
            } else {
                self.disable();
            }
        } else if self.stat == 2 {
            if is_sjis_trail(b) {
                self.push(b);
                self.score = self.score | SCORE_CP932;
                self.clear();
            } else {
                self.disable();
            }
        } else if self.stat == 3 {
            if is_sjis_trail(b) {
                self.push(b);
                self.to_euc();
                self.score = self.score | SCORE_CP932;
                self.clear();
            } else {
                self.disable();
            }
        }
    }

    fn buffered(&self) -> (v: Vec<u8>)
        requires
            self.index <= 4,
        ensures
            v@ == spec_buffered(*self),
    {
        let mut v: Vec<u8> = Vec::new();
        if self.index >= 1 {
            v.push(self.buf0);
        }
        if self.index >= 2 {
            v.push(self.buf1);
        }
        if self.index >= 3 {
            v.push(self.buf2);
        }
        if self.index >= 4 {
            v.push(self.buf3);
        }
        assert(v@ =~= spec_buffered(*self));
        v
    }

    /// One UTF-8 byte.
    pub fn utf8_status(&mut self, b: u8)
        requires
            spec_candidate_wf(*old(self)),
        ensures
            *final(self) == spec_utf8_status(*old(self), b),
    {
        if self.stat == 0 {
            if b <= 0x7f {
            } else if 0xc2 <= b && b <= 0xdf {
                self.stat = 1;
                self.push(b);
            } else if 0xe0 <= b && b <= 0xef {
                self.stat = 2;
                self.push(b);
            } else if 0xf0 <= b && b <= 0xf4 {
                self.stat = 3;
                self.push(b);
            } else {
                self.disable();
            }
        } else if self.stat == 1 || self.stat == 2 {
            if 0x80 <= b && b <= 0xbf {
                self.push(b);
                if self.index > self.stat as usize {
                    if !(self.buf0 == 0xef && self.buf1 == 0xbb && self.buf2 == 0xbf) {
                        let bytes = self.buffered();
                        self.score = self.score | utf8_score(bytes.as_slice());
                    }
                    self.clear();
                }
            } else {
                self.disable();
            }
        } else if self.stat == 3 {
            if 0x80 <= b && b <= 0xbf {
                self.push(b);
                if self.index > 3 {
                    self.clear();
                }
            } else {
                self.disable();
            }
        }
    }

    /// One byte for this candidate.
    pub fn status(&mut self, b: u8, established: bool)
        requires
            spec_candidate_wf(*old(self)),
        ensures
            *final(self) == spec_status(*old(self), b, established),
    {
        if self.stat == -1 {
            if b <= 0x7f && established {
                self.reset();
            }
            return;
        }
        match self.kind {
            CandidateKind::Euc => self.euc_status(b),
            CandidateKind::ShiftJis => self.sjis_status(b),
            CandidateKind::Utf8 => self.utf8_status(b),
        }
    }
}

/// The three candidates checked together, and the one that was alone first, if any.
#[derive(Clone, Copy, Debug, PartialEq, Eq, Structural)]
pub struct GuessCandidates {
    pub euc: GuessCandidate,
    pub sjis: GuessCandidate,
    pub utf8: GuessCandidate,
    pub established: bool,
    pub established_kind: Option<CandidateKind>,
}

/// The starting set of candidates.
pub open spec fn spec_new_candidates() -> GuessCandidates {
    GuessCandidates {
        euc: spec_new_candidate(CandidateKind::Euc),
        sjis: spec_new_candidate(CandidateKind::ShiftJis),
        utf8: spec_new_candidate(CandidateKind::Utf8),
        established: false,
        established_kind: None,
    }
}

/// Whether the candidates are well formed.
pub open spec fn spec_candidates_wf(cs: GuessCandidates) -> bool {
    &&& spec_candidate_wf(cs.euc)
    &&& spec_candidate_wf(cs.sjis)
    &&& spec_candidate_wf(cs.utf8)
    &&& cs.euc.kind == CandidateKind::Euc
    &&& cs.sjis.kind == CandidateKind::ShiftJis
    &&& cs.utf8.kind == CandidateKind::Utf8
}

/// One byte for all candidates.
pub open spec fn spec_code_status(cs: GuessCandidates, b: u8) -> GuessCandidates {
    let e = spec_status(cs.euc, b, cs.established);
    let s = spec_status(cs.sjis, b, cs.established);
    let u = spec_status(cs.utf8, b, cs.established);
    let active = (if e.stat >= 0 {
        1int
    } else {
        0
    }) + (if s.stat >= 0 {
        1int
    } else {
        0
    }) + (if u.stat >= 0 {
        1int
    } else {
        0
    });
    let est = active == 1;
    let kind = if est && cs.established_kind is None {
        if e.stat >= 0 {
            Some(CandidateKind::Euc)
        } else if s.stat >= 0 {
            Some(CandidateKind::ShiftJis)
        } else if u.stat >= 0 {
            Some(CandidateKind::Utf8)
        } else {
            None
        }
    } else {
        cs.established_kind
    };
    if b <= 0x7f && !est {
        GuessCandidates { euc: spec_reset(e), sjis: spec_reset(s), utf8: spec_reset(u), established: est, established_kind: kind }
    } else {
        GuessCandidates { euc: e, sjis: s, utf8: u, established: est, established_kind: kind }
    }
}

/// The candidates after a whole byte string.
pub open spec fn spec_run_candidates(s: Seq<u8>) -> GuessCandidates
    decreases s.len(),
{
    if s.len() == 0 {
        spec_new_candidates()
    } else {
        spec_code_status(spec_run_candidates(s.drop_last()), s.last())
    }
}

proof fn lemma_run_wf(s: Seq<u8>)
    ensures
        spec_candidates_wf(spec_run_candidates(s)),
    decreases s.len(),
{
    if s.len() > 0 {
        lemma_run_wf(s.drop_last());
    }
}

impl GuessCandidates {
    /// The starting set of candidates.
    pub fn new() -> (cs: Self)
        ensures
            cs == spec_new_candidates(),
    {
        GuessCandidates {
            euc: GuessCandidate::new(CandidateKind::Euc),
            sjis: GuessCandidate::new(CandidateKind::ShiftJis),
            utf8: GuessCandidate::new(CandidateKind::Utf8),
            established: false,
            established_kind: None,
        }
    }

    /// One byte for all candidates.
    pub fn code_status(&mut self, b: u8)
        requires
            spec_candidates_wf(*old(self)),
        ensures
            *final(self) == spec_code_status(*old(self), b),
    {
        let established = self.established;
        self.euc.status(b, established);
        self.sjis.status(b, established);
        self.utf8.status(b, established);
        let mut active: u8 = 0;
        if self.euc.stat >= 0 {
            active += 1;
        }
        if self.sjis.stat >= 0 {
            active += 1;
        }
        if self.utf8.stat >= 0 {
            active += 1;
        }
        self.established = active == 1;
        if self.established && self.established_kind.is_none() {
            self.established_kind = if self.euc.stat >= 0 {
                Some(CandidateKind::Euc)
            } else if self.sjis.stat >= 0 {
                Some(CandidateKind::ShiftJis)
            } else if self.utf8.stat >= 0 {
                Some(CandidateKind::Utf8)
            } else {
                None
            };
        }
        if b <= 0x7f && !self.established {
            self.euc.reset();
            self.sjis.reset();
            self.utf8.reset();
        }
    }
}

/// Runs the candidates over the input.
fn run_candidates(input: &[u8]) -> (cs: GuessCandidates)
    ensures
        cs == spec_run_candidates(input@),
{
    let mut cs = GuessCandidates::new();
    let mut i: usize = 0;
    while i < input.len()
        invariant
            i <= input@.len(),
            cs == spec_run_candidates(input@.take(i as int)),
        decreases input@.len() - i,
    {
        proof {
            lemma_run_wf(input@.take(i as int));
            assert(input@.take(i + 1).drop_last() =~= input@.take(i as int));
        }
        cs.code_status(input[i]);
        i += 1;
    }
    assert(input@.take(i as int) =~= input@);
    cs
}

/// The Shift_JIS name the score selects.
pub open spec fn spec_refine_sjis(score: u32) -> Seq<char> {
    if score & (SCORE_DEPEND | SCORE_CP932) != 0 {
        "CP932"@
    } else {
        "Shift_JIS"@
    }
}

/// The Shift_JIS name the score selects.
pub fn refine_sjis_name(score: u32) -> (r: String)
    ensures
        r@ == spec_refine_sjis(score),
{
    if score & (SCORE_DEPEND | SCORE_CP932) != 0 {
        String::from_str("CP932")
    } else {
        String::from_str("Shift_JIS")
    }
}

/// The EUC name the score selects.
pub open spec fn spec_refine_euc(score: u32) -> Seq<char> {
    if score & SCORE_X0213 != 0 {
        "EUC-JIS-2004"@
    } else if score & SCORE_X0212 != 0 {
        "EUCJP-MS"@
    } else if score & (SCORE_DEPEND | SCORE_CP932) != 0 {
        "CP51932"@
    } else {
        "EUC-JP"@
    }
}

/// The EUC name the score selects.
pub fn refine_euc_name(score: u32) -> (r: String)
    ensures
        r@ == spec_refine_euc(score),
{
    if score & SCORE_X0213 != 0 {
        String::from_str("EUC-JIS-2004")
    } else if score & SCORE_X0212 != 0 {
        String::from_str("EUCJP-MS")
    } else if score & (SCORE_DEPEND | SCORE_CP932) != 0 {
        String::from_str("CP51932")
    } else {
        String::from_str("EUC-JP")
    }
}

/// The ISO-2022-JP name the score selects.
pub open spec fn spec_refine_iso2022(score: u32) -> Seq<char> {
    if score & SCORE_X0213 != 0 {
        "ISO-2022-JP-3"@
    } else if score & SCORE_X0212 != 0 {
        "ISO-2022-JP-1"@
    } else if score & SCORE_KANA != 0 {
        "CP50221"@
    } else if score & (SCORE_DEPEND | SCORE_CP932) != 0 {
        "CP50220"@
    } else {
        "ISO-2022-JP"@
    }
}

/// The ISO-2022-JP name the score selects.
pub fn refine_iso2022_name(score: u32) -> (r: String)
    ensures
        r@ == spec_refine_iso2022(score),
{
    if score & SCORE_X0213 != 0 {
        String::from_str("ISO-2022-JP-3")
    } else if score & SCORE_X0212 != 0 {
        String::from_str("ISO-2022-JP-1")
    } else if score & SCORE_KANA != 0 {
        String::from_str("CP50221")
    } else if score & (SCORE_DEPEND | SCORE_CP932) != 0 {
        String::from_str("CP50220")
    } else {
        String::from_str("ISO-2022-JP")
    }
}

/// Whether every byte is ASCII.
pub open spec fn spec_all_ascii(s: Seq<u8>) -> bool {
    forall|i: int| 0 <= i < s.len() ==> s[i] <= 0x7f
}

fn all_ascii(s: &[u8]) -> (r: bool)
    ensures
        r == spec_all_ascii(s@),
{
    let mut i: usize = 0;
    while i < s.len()
        invariant
            i <= s@.len(),
            forall|k: int| 0 <= k < i ==> s@[k] <= 0x7f,
        decreases s@.len() - i,
    {
        if s[i] > 0x7f {
            return false;
        }
        i += 1;
    }
    true
}

/// What a guess found: the encoding, the byte order, whether a byte-order mark led, and the
/// line-ending style.
#[derive(Debug)]
pub struct GuessResult {
    pub encoding: String,
    pub endian: Option<&'static str>,
    pub bom: bool,
    pub eol: Option<EolKind>,
}

/// The mathematical content of a guess.
pub open spec fn guess_view(g: GuessResult) -> (Seq<char>, Option<Seq<char>>, bool, Option<EolKind>) {
    (g.encoding@, opt_str_view(g.endian), g.bom, g.eol)
}

/// The encoding name the candidates settle on.
pub open spec fn spec_candidate_name(input: Seq<u8>) -> Seq<char> {
    let cs = spec_run_candidates(input);
    match cs.established_kind {
        Some(CandidateKind::Euc) => spec_refine_euc(cs.euc.score),
        Some(CandidateKind::ShiftJis) => spec_refine_sjis(cs.sjis.score),
        Some(CandidateKind::Utf8) => "UTF-8"@,
        None => {
            let e = cs.euc.score;
            let s = cs.sjis.score;
            let u = cs.utf8.score;
            if e <= s && e <= u {
                spec_refine_euc(e)
            } else if s <= u {
                spec_refine_sjis(s)
            } else if u < SCORE_ERROR {
                "UTF-8"@
            } else if spec_all_ascii(input) {
                "ASCII"@
            } else {
                "BINARY"@
            }
        },
    }
}

/// The guess for input bytes.
pub open spec fn spec_guess_input(input: Seq<u8>) -> (Seq<char>, Option<Seq<char>>, bool, Option<EolKind>) {
    let eol = spec_guess_eol(input);
    if input.len() >= 3 && input[0] == 0xef && input[1] == 0xbb && input[2] == 0xbf {
        ("UTF-8"@, None, true, eol)
    } else if input.len() >= 4 && input[0] == 0 && input[1] == 0 && input[2] == 0xfe && input[3] == 0xff {
        ("UTF-32"@, Some("BE"@), true, eol)
    } else if input.len() >= 4 && input[0] == 0xff && input[1] == 0xfe && input[2] == 0 && input[3] == 0 {
        ("UTF-32"@, Some("LE"@), true, eol)
    } else if input.len() >= 2 && input[0] == 0xfe && input[1] == 0xff {
        ("UTF-16"@, Some("BE"@), true, eol)
    } else if input.len() >= 2 && input[0] == 0xff && input[1] == 0xfe {
        ("UTF-16"@, Some("LE"@), true, eol)
    } else {
        match spec_iso2022_score(input) {
            Some(score) => (spec_refine_iso2022(score), None, false, eol),
            None => match spec_utf_by_nuls(input) {
                Some((e, d)) => (e, d, false, eol),
                None => (spec_candidate_name(input), None, false, eol),
            },
        }
    }
}

/// Guesses the encoding, byte order, byte-order mark and line-ending style of input bytes.
pub fn guess_input(input: &[u8]) -> (g: GuessResult)
    ensures
        guess_view(g) == spec_guess_input(input@),
{
    let eol = guess_eol(input);
    let n = input.len();
    if n >= 3 && input[0] == 0xef && input[1] == 0xbb && input[2] == 0xbf {
        return GuessResult { encoding: String::from_str("UTF-8"), endian: None, bom: true, eol };
    }
    if n >= 4 && input[0] == 0 && input[1] == 0 && input[2] == 0xfe && input[3] == 0xff {
        return GuessResult { encoding: String::from_str("UTF-32"), endian: Some("BE"), bom: true, eol };
    }
    if n >= 4 && input[0] == 0xff && input[1] == 0xfe && input[2] == 0 && input[3] == 0 {
        return GuessResult { encoding: String::from_str("UTF-32"), endian: Some("LE"), bom: true, eol };
    }
    if n >= 2 && input[0] == 0xfe && input[1] == 0xff {
        return GuessResult { encoding: String::from_str("UTF-16"), endian: Some("BE"), bom: true, eol };
    }
    if n >= 2 && input[0] == 0xff && input[1] == 0xfe {
        return GuessResult { encoding: String::from_str("UTF-16"), endian: Some("LE"), bom: true, eol };
    }
    if let Some(score) = guess_iso_2022_jp_score(input) {
        return GuessResult { encoding: refine_iso2022_name(score), endian: None, bom: false, eol };
    }
    if let Some((encoding, endian)) = guess_utf_by_nuls(input) {
        return GuessResult { encoding: String::from_str(encoding), endian, bom: false, eol };
    }
    let cs = run_candidates(input);
    let encoding = match cs.established_kind {
        Some(CandidateKind::Euc) => refine_euc_name(cs.euc.score),
        Some(CandidateKind::ShiftJis) => refine_sjis_name(cs.sjis.score),
        Some(CandidateKind::Utf8) => String::from_str("UTF-8"),
        None => {
            let e = cs.euc.score;
            let s = cs.sjis.score;
            let u = cs.utf8.score;
            if e <= s && e <= u {
                refine_euc_name(e)
            } else if s <= u {
                refine_sjis_name(s)
            } else if u < SCORE_ERROR {
                String::from_str("UTF-8")
            } else if all_ascii(input) {
                String::from_str("ASCII")
            } else {
                String::from_str("BINARY")
            }
        },
    };
    GuessResult { encoding, endian: None, bom: false, eol }
}

/// The text a line-ending style adds to a report.
pub open spec fn spec_eol_label(eol: EolKind) -> Seq<char> {
    match eol {
        EolKind::Cr => " (CR)"@,
        EolKind::Lf => " (LF)"@,
        EolKind::Crlf => " (CRLF)"@,
        EolKind::Mixed => " (MIXED NL)"@,
    }
}

/// The report of a guess: the encoding name alone at level 1; otherwise followed by the byte
/// order, ` (BOM)` and the line-ending style where they apply.
pub open spec fn spec_guess_report(input: Seq<u8>, level: u8) -> Seq<char> {
    let (enc, endian, bom, eol) = spec_guess_input(input);
    if level == 1 {
        enc
    } else {
        let a = match endian {
            Some(e) => enc + " "@ + e,
            None => enc,
        };
        let b = if bom {
            a + " (BOM)"@
        } else {
            a
        };
        match eol {
            Some(k) => b + spec_eol_label(k),
            None => b,
        }
    }
}

/// The report of a guess.
pub fn guess_report(input: &[u8], level: u8) -> (r: String)
    ensures
        r@ == spec_guess_report(input@, level),
{
    let g = guess_input(input);
    if level == 1 {
        return g.encoding;
    }
    let mut out = str_chars(g.encoding.as_str());
    if let Some(e) = g.endian {
        let sp = str_chars(" ");
        extend_chars(&mut out, sp.as_slice());
        let ev = str_chars(e);
        extend_chars(&mut out, ev.as_slice());
    }
    if g.bom {
        let b = str_chars(" (BOM)");
        extend_chars(&mut out, b.as_slice());
    }
    if let Some(k) = g.eol {
        let label = match k {
            EolKind::Cr => " (CR)",
            EolKind::Lf => " (LF)",
            EolKind::Crlf => " (CRLF)",
            EolKind::Mixed => " (MIXED NL)",
        };
        let lv = str_chars(label);
        extend_chars(&mut out, lv.as_slice());
    }
    chars_to_string(out.as_slice())
}

/// The encoding name a guess reports for conversion.
pub open spec fn spec_guess_encoding(input: Seq<u8>) -> Seq<char> {
    let e = spec_guess_input(input).0;
    if e == "CP932"@ {
        "CP932"@
    } else if e == "EUC-JIS-2004"@ {
        "EUC-JIS-2004"@
    } else if e == "EUCJP-MS"@ || e == "CP51932"@ {
        "EUC-JP"@
    } else if e == "CP50221"@ || e == "CP50220"@ {
        "ISO-2022-JP"@
    } else if e == "ISO-2022-JP-3"@ || e == "ISO-2022-JP-2004"@ {
        "ISO-2022-JP-3"@
    } else if e == "UTF-16"@ {
        "UTF-16"@
    } else if e == "UTF-32"@ {
        "UTF-32"@
    } else if e == "Shift_JIS"@ {
        "SHIFT_JIS"@
    } else if e == "EUC-JP"@ {
        "EUC-JP"@
    } else if e == "ISO-2022-JP"@ {
        "ISO-2022-JP"@
    } else {
        "UTF-8"@
    }
}

/// The encoding name a guess reports for conversion.
pub fn guess_encoding(input: &[u8]) -> (r: &'static str)
    ensures
        r@ == spec_guess_encoding(input@),
{
    let g = guess_input(input);
    let v = str_chars(g.encoding.as_str());
    let e = v.as_slice();
    if crate::text::chars_eq_str(e, "CP932") {
        "CP932"
    } else if crate::text::chars_eq_str(e, "EUC-JIS-2004") {
        "EUC-JIS-2004"
    } else if crate::text::chars_eq_str(e, "EUCJP-MS") || crate::text::chars_eq_str(e, "CP51932") {
        "EUC-JP"
    } else if crate::text::chars_eq_str(e, "CP50221") || crate::text::chars_eq_str(e, "CP50220") {
        "ISO-2022-JP"
    } else if crate::text::chars_eq_str(e, "ISO-2022-JP-3") || crate::text::chars_eq_str(e, "ISO-2022-JP-2004") {
        "ISO-2022-JP-3"
    } else if crate::text::chars_eq_str(e, "UTF-16") {
        "UTF-16"
    } else if crate::text::chars_eq_str(e, "UTF-32") {
        "UTF-32"
    } else if crate::text::chars_eq_str(e, "Shift_JIS") {
        "SHIFT_JIS"
    } else if crate::text::chars_eq_str(e, "EUC-JP") {
        "EUC-JP"
    } else if crate::text::chars_eq_str(e, "ISO-2022-JP") {
        "ISO-2022-JP"
    } else {
        "UTF-8"
    }
}

/// A guess names one of nine encodings, spelled canonically.
pub proof fn lemma_guess_names(input: Seq<u8>)
    ensures
        ({
            let r = spec_guess_encoding(input);
            &&& r == "UTF-8"@ || r == "UTF-16"@ || r == "UTF-32"@ || r == "SHIFT_JIS"@ || r == "CP932"@
                || r == "EUC-JP"@ || r == "EUC-JIS-2004"@ || r == "ISO-2022-JP"@ || r == "ISO-2022-JP-3"@
            &&& spec_normalize(r) == r
        }),
{
    crate::names::lemma_canonical_names_fixed();
}

/// Whether the bytes hold the byte.
pub open spec fn spec_has_byte(s: Seq<u8>, b: u8) -> bool {
    exists|k: int| 0 <= k < s.len() && s[k] == b
}

proof fn lemma_has_byte_front(s: Seq<u8>, b: u8, n: int)
    requires
        0 < n <= s.len(),
        forall|k: int| 0 <= k < n ==> s[k] != b,
    ensures
        spec_has_byte(s, b) == spec_has_byte(s.skip(n), b),
{
    if spec_has_byte(s, b) {
        let k = choose|k: int| 0 <= k < s.len() && s[k] == b;
        assert(s.skip(n)[k - n] == s[k]);
    }
    if spec_has_byte(s.skip(n), b) {
        let k = choose|k: int| 0 <= k < s.skip(n).len() && s.skip(n)[k] == b;
        assert(s[k + n] == s.skip(n)[k]);
    }
}

/// Without a carriage return, the style is LF when a line feed occurs, else the one seen so far.
proof fn lemma_eol_without_cr(s: Seq<u8>, kind: Option<EolKind>)
    requires
        !spec_has_byte(s, 0x0d),
        kind is None || kind == Some(EolKind::Lf),
    ensures
        spec_guess_eol_from(s, kind) == if spec_has_byte(s, 0x0a) {
            Some(EolKind::Lf)
        } else {
            kind
        },
    decreases s.len(),
{
    if s.len() > 0 {
        assert(s[0] != 0x0d);
        lemma_has_byte_front(s, 0x0d, 1);
        if s[0] == 0x0a {
            assert(spec_has_byte(s, 0x0a));
            lemma_eol_without_cr(s.skip(1), Some(EolKind::Lf));
        } else {
            lemma_has_byte_front(s, 0x0a, 1);
            lemma_eol_without_cr(s.skip(1), kind);
        }
    }
}

/// A carriage return, or a style other than LF seen so far, gives a style other than LF.
proof fn lemma_eol_with_cr(s: Seq<u8>, kind: Option<EolKind>)
    requires
        spec_has_byte(s, 0x0d) || (kind is Some && kind != Some(EolKind::Lf)),
    ensures
        spec_guess_eol_from(s, kind) is Some,
        spec_guess_eol_from(s, kind) != Some(EolKind::Lf),
    decreases s.len(),
{
    if s.len() > 0 {
        match spec_eol_at(s) {
            Some((found, n)) => {
                if found == EolKind::Lf {
                    assert(s[0] == 0x0a);
                    lemma_has_byte_front(s, 0x0d, 1);
                }
                match kind {
                    None => lemma_eol_with_cr(s.skip(n), Some(found)),
                    Some(current) => if current == found {
                        lemma_eol_with_cr(s.skip(n), kind);
                    },
                }
            },
            None => {
                assert(s[0] != 0x0d);
                lemma_has_byte_front(s, 0x0d, 1);
                lemma_eol_with_cr(s.skip(1), kind);
            },
        }
    }
}

/// The report from level 2 on, before its line-ending label: the level-1 report, then the byte
/// order and ` (BOM)` where they apply.
pub open spec fn spec_report_head(input: Seq<u8>) -> Seq<char> {
    let (enc, endian, bom, eol) = spec_guess_input(input);
    let a = match endian {
        Some(e) => enc + " "@ + e,
        None => enc,
    };
    if bom {
        a + " (BOM)"@
    } else {
        a
    }
}

/// From level 2 on, the guess report begins with the level-1 report and ends in ` (LF)` when the
/// input has line feeds and no carriage return, with no line-ending label when it has neither;
/// the style found is LF exactly when the input has line feeds and no carriage return.
pub proof fn lemma_guess_report_shape(input: Seq<u8>, level: u8)
    requires
        level != 1,
    ensures
        spec_report_head(input).take(spec_guess_report(input, 1).len() as int) == spec_guess_report(input, 1),
        spec_guess_report(input, 1).len() <= spec_report_head(input).len(),
        (spec_guess_eol(input) == Some(EolKind::Lf)) <==> (spec_has_byte(input, 0x0a) && !spec_has_byte(input, 0x0d)),
        spec_has_byte(input, 0x0a) && !spec_has_byte(input, 0x0d) ==> spec_guess_report(input, level) == spec_report_head(input) + " (LF)"@,
        !spec_has_byte(input, 0x0a) && !spec_has_byte(input, 0x0d) ==> spec_guess_report(input, level) == spec_report_head(input),
{
    let (enc, endian, bom, eol) = spec_guess_input(input);
    match endian {
        Some(e) => {
            assert((enc + " "@ + e).take(enc.len() as int) =~= enc);
            if bom {
                assert((enc + " "@ + e + " (BOM)"@).take(enc.len() as int) =~= enc);
            }
        },
        None => {
            assert(enc.take(enc.len() as int) =~= enc);
            if bom {
                assert((enc + " (BOM)"@).take(enc.len() as int) =~= enc);
            }
        },
    }
    if spec_has_byte(input, 0x0d) {
        lemma_eol_with_cr(input, None);
    } else {
        lemma_eol_without_cr(input, None);
    }
}

/// Whether `s` ends with `t`.
pub open spec fn spec_ends_with(s: Seq<char>, t: Seq<char>) -> bool {
    t.len() <= s.len() && s.skip(s.len() - t.len()) == t
}

/// Whether a text is non-empty and does not end with `)`.
pub open spec fn plain_end(s: Seq<char>) -> bool {
    s.len() > 0 && s.last() != ')'
}

/// The names a guess reports, and the byte orders, are non-empty and do not end with `)`.
proof fn lemma_report_parts(input: Seq<u8>)
    ensures
        plain_end(spec_guess_input(input).0),
        spec_guess_input(input).1 matches Some(e) ==> plain_end(e),
{
    reveal_strlit("UTF-8");
    reveal_strlit("UTF-16");
    reveal_strlit("UTF-32");
    reveal_strlit("BE");
    reveal_strlit("LE");
    reveal_strlit("ISO-2022-JP-3");
    reveal_strlit("ISO-2022-JP-1");
    reveal_strlit("CP50221");
    reveal_strlit("CP50220");
    reveal_strlit("ISO-2022-JP");
    reveal_strlit("EUC-JIS-2004");
    reveal_strlit("EUCJP-MS");
    reveal_strlit("CP51932");
    reveal_strlit("EUC-JP");
    reveal_strlit("CP932");
    reveal_strlit("Shift_JIS");
    reveal_strlit("ASCII");
    reveal_strlit("BINARY");
    reveal_strlit(" (BOM)");
    reveal_strlit(" (LF)");
    reveal_strlit(" (CR)");
    reveal_strlit(" (CRLF)");
    reveal_strlit(" (MIXED NL)");
    reveal_strlit("LF)");
    reveal_strlit("CR)");
    reveal_strlit("NL)");
    let cs = spec_run_candidates(input);
    assert(plain_end(spec_refine_euc(cs.euc.score)));
    assert(plain_end(spec_refine_sjis(cs.sjis.score)));
    assert(plain_end(spec_refine_euc(cs.euc.score)));
    assert(plain_end(spec_candidate_name(input)));
    match spec_iso2022_score(input) {
        Some(score) => assert(plain_end(spec_refine_iso2022(score))),
        None => {},
    }
}

/// The report head ends either without `)` or with ` (BOM)`.
proof fn lemma_head_end(input: Seq<u8>)
    ensures
        ({
            let h = spec_report_head(input);
            plain_end(h) || (h.len() >= 2 && h[h.len() - 2] == 'M' && h.last() == ')')
        }),
{
    reveal_strlit(" ");
    reveal_strlit(" (BOM)");
    lemma_report_parts(input);
    let (enc, endian, bom, eol) = spec_guess_input(input);
    let a = match endian {
        Some(e) => enc + " "@ + e,
        None => enc,
    };
    match endian {
        Some(e) => assert((enc + " "@ + e).last() == e.last()),
        None => {},
    }
    if bom {
        assert((a + " (BOM)"@).last() == ')');
        assert((a + " (BOM)"@)[(a + " (BOM)"@).len() - 2] == 'M');
    }
}

/// From level 2 on, the guess report ends in ` (LF)` exactly when the input has line feeds and no
/// carriage return; with neither it ends in no line-ending label at all.
pub proof fn lemma_guess_report_endings(input: Seq<u8>, level: u8)
    requires
        level != 1,
    ensures
        spec_ends_with(spec_guess_report(input, level), " (LF)"@) <==> (spec_has_byte(input, 0x0a) && !spec_has_byte(input, 0x0d)),
        !spec_has_byte(input, 0x0a) && !spec_has_byte(input, 0x0d) ==> {
            &&& !spec_ends_with(spec_guess_report(input, level), "LF)"@)
            &&& !spec_ends_with(spec_guess_report(input, level), "CR)"@)
            &&& !spec_ends_with(spec_guess_report(input, level), "NL)"@)
        },
{
    reveal_strlit("UTF-8");
    reveal_strlit("UTF-16");
    reveal_strlit("UTF-32");
    reveal_strlit("BE");
    reveal_strlit("LE");
    reveal_strlit("ISO-2022-JP-3");
    reveal_strlit("ISO-2022-JP-1");
    reveal_strlit("CP50221");
    reveal_strlit("CP50220");
    reveal_strlit("ISO-2022-JP");
    reveal_strlit("EUC-JIS-2004");
    reveal_strlit("EUCJP-MS");
    reveal_strlit("CP51932");
    reveal_strlit("EUC-JP");
    reveal_strlit("CP932");
    reveal_strlit("Shift_JIS");
    reveal_strlit("ASCII");
    reveal_strlit("BINARY");
    reveal_strlit(" (BOM)");
    reveal_strlit(" (LF)");
    reveal_strlit(" (CR)");
    reveal_strlit(" (CRLF)");
    reveal_strlit(" (MIXED NL)");
    reveal_strlit("LF)");
    reveal_strlit("CR)");
    reveal_strlit("NL)");
    lemma_guess_report_shape(input, level);
    lemma_head_end(input);
    let h = spec_report_head(input);
    let r = spec_guess_report(input, level);
    if spec_has_byte(input, 0x0d) {
        lemma_eol_with_cr(input, None);
    } else {
        lemma_eol_without_cr(input, None);
    }
    match spec_guess_input(input).3 {
        None => {
            assert(r == h);
            if spec_ends_with(r, " (LF)"@) {
                assert(r.skip(r.len() - 5)[4] == r.last());
                assert(r.skip(r.len() - 5)[3] == r[r.len() - 2]);
            }
            if spec_ends_with(r, "LF)"@) || spec_ends_with(r, "CR)"@) || spec_ends_with(r, "NL)"@) {
                assert(r.skip(r.len() - 3)[2] == r.last());
                assert(r.skip(r.len() - 3)[1] == r[r.len() - 2]);
            }
        },
        Some(k) => {
            let l = spec_eol_label(k);
            assert(r == h + l);
            assert(l.len() >= 5);
            assert(r.skip(r.len() - 5) =~= l.skip(l.len() - 5));
            match k {
                EolKind::Lf => {
                    assert(l.skip(0) =~= l);
                    assert(spec_ends_with(r, " (LF)"@));
                },
                EolKind::Cr => {
                    assert(l.skip(l.len() - 5)[2] != " (LF)"@[2]);
                },
                EolKind::Crlf => {
                    assert(l.skip(l.len() - 5)[0] != " (LF)"@[0]);
                },
                EolKind::Mixed => {
                    assert(l.skip(l.len() - 5)[0] != " (LF)"@[0]);
                },
            }
        },
    }
}

/// Whether the bytes hold a carriage return not followed by a line feed.
pub open spec fn has_lone_cr(s: Seq<u8>) -> bool {
    exists|k: int| 0 <= k < s.len() && #[trigger] s[k] == 0x0d && !(k + 1 < s.len() && s[k + 1] == 0x0a)
}

/// Whether the bytes hold a carriage return followed by a line feed.
pub open spec fn has_crlf(s: Seq<u8>) -> bool {
    exists|k: int| 0 <= k && k + 1 < s.len() && #[trigger] s[k] == 0x0d && s[k + 1] == 0x0a
}

/// Whether the bytes hold a line feed not preceded by a carriage return.
pub open spec fn has_lone_lf(s: Seq<u8>) -> bool {
    exists|k: int| 0 <= k < s.len() && #[trigger] s[k] == 0x0a && !(k > 0 && s[k - 1] == 0x0d)
}

/// The style named by which kinds of line break occur: none, the one kind, or `Mixed` when two or
/// more kinds do.
pub open spec fn eol_style(lone_cr: bool, crlf: bool, lone_lf: bool) -> Option<EolKind> {
    if (lone_cr && crlf) || (lone_cr && lone_lf) || (crlf && lone_lf) {
        Some(EolKind::Mixed)
    } else if lone_cr {
        Some(EolKind::Cr)
    } else if crlf {
        Some(EolKind::Crlf)
    } else if lone_lf {
        Some(EolKind::Lf)
    } else {
        None
    }
}

/// How the kinds of line break in bytes split into the break at the front and the rest.
proof fn lemma_eol_kinds_front(s: Seq<u8>)
    requires
        s.len() > 0,
    ensures
        spec_eol_at(s) matches Some((found, n)) ==> {
            &&& has_lone_cr(s) == (has_lone_cr(s.skip(n)) || found == EolKind::Cr)
            &&& has_crlf(s) == (has_crlf(s.skip(n)) || found == EolKind::Crlf)
            &&& has_lone_lf(s) == (has_lone_lf(s.skip(n)) || found == EolKind::Lf)
        },
        spec_eol_at(s) is None ==> {
            &&& has_lone_cr(s) == has_lone_cr(s.skip(1))
            &&& has_crlf(s) == has_crlf(s.skip(1))
            &&& has_lone_lf(s) == has_lone_lf(s.skip(1))
        },
{
    let n: int = match spec_eol_at(s) {
        Some((_, m)) => m,
        None => 1,
    };
    let t = s.skip(n);
    assert forall|k: int| 0 <= k < t.len() implies #[trigger] t[k] == s[k + n] by {}
    // A break in the rest is a break in the whole at the same place.
    if has_lone_cr(t) {
        let k = choose|k: int| 0 <= k < t.len() && #[trigger] t[k] == 0x0d && !(k + 1 < t.len() && t[k + 1] == 0x0a);
        assert(s[k + n] == 0x0d);
        assert(has_lone_cr(s));
    }
    if has_crlf(t) {
        let k = choose|k: int| 0 <= k && k + 1 < t.len() && #[trigger] t[k] == 0x0d && t[k + 1] == 0x0a;
        assert(s[k + n] == 0x0d && s[k + n + 1] == 0x0a);
        assert(has_crlf(s));
    }
    if has_lone_lf(t) {
        let k = choose|k: int| 0 <= k < t.len() && #[trigger] t[k] == 0x0a && !(k > 0 && t[k - 1] == 0x0d);
        assert(s[k + n] == 0x0a);
        if k == 0 {
            assert(!(s[n - 1] == 0x0d)) by {
                if n == 2 {
                    assert(s[1] == 0x0a);
                }
            }
        }
        assert(has_lone_lf(s));
    }
    // A break in the whole is the one at the front or a break in the rest.
    if has_lone_cr(s) {
        let k = choose|k: int| 0 <= k < s.len() && #[trigger] s[k] == 0x0d && !(k + 1 < s.len() && s[k + 1] == 0x0a);
        if k >= n {
            assert(t[k - n] == 0x0d);
        }
    }
    if has_crlf(s) {
        let k = choose|k: int| 0 <= k && k + 1 < s.len() && #[trigger] s[k] == 0x0d && s[k + 1] == 0x0a;
        if k >= n {
            assert(t[k - n] == 0x0d && t[k - n + 1] == 0x0a);
        }
    }
    if has_lone_lf(s) {
        let k = choose|k: int| 0 <= k < s.len() && #[trigger] s[k] == 0x0a && !(k > 0 && s[k - 1] == 0x0d);
        if k >= n {
            assert(t[k - n] == 0x0a);
        }
    }
    match spec_eol_at(s) {
        Some((found, _)) => {
            if found == EolKind::Cr {
                assert(s[0] == 0x0d);
                assert(has_lone_cr(s));
            } else if found == EolKind::Crlf {
                assert(s[0] == 0x0d && s[1] == 0x0a);
                assert(has_crlf(s));
            } else {
                assert(s[0] == 0x0a);
                assert(has_lone_lf(s));
            }
        },
        None => {},
    }
}

/// The style found from a style seen so far is the style of the kinds of break that occur
/// together with that one.
proof fn lemma_eol_from_kinds(s: Seq<u8>, kind: Option<EolKind>)
    requires
        kind != Some(EolKind::Mixed),
    ensures
        spec_guess_eol_from(s, kind) == eol_style(
            has_lone_cr(s) || kind == Some(EolKind::Cr),
            has_crlf(s) || kind == Some(EolKind::Crlf),
            has_lone_lf(s) || kind == Some(EolKind::Lf),
        ),
    decreases s.len(),
{
    if s.len() == 0 {
        assert(!has_lone_cr(s) && !has_crlf(s) && !has_lone_lf(s));
    } else {
        lemma_eol_kinds_front(s);
        match spec_eol_at(s) {
            Some((found, n)) => match kind {
                None => lemma_eol_from_kinds(s.skip(n), Some(found)),
                Some(current) => if current == found {
                    lemma_eol_from_kinds(s.skip(n), kind);
                },
            },
            None => lemma_eol_from_kinds(s.skip(1), kind),
        }
    }
}

/// The line-ending style is the one kind of break when only one kind occurs (a lone CR, CR LF,
/// or a lone LF), `Mixed` exactly when two or more kinds occur, and none when there is no break.
/// From level 2 on, the report ends in ` (CR)`, ` (CRLF)` or ` (LF)` when only that kind occurs,
/// and it ends in ` (MIXED NL)` only when two different kinds occur.
pub proof fn lemma_guess_eol_kinds(input: Seq<u8>, level: u8)
    requires
        level != 1,
    ensures
        spec_guess_eol(input) == eol_style(has_lone_cr(input), has_crlf(input), has_lone_lf(input)),
        (spec_guess_eol(input) == Some(EolKind::Mixed)) <==> ((has_lone_cr(input) && has_crlf(input))
            || (has_lone_cr(input) && has_lone_lf(input)) || (has_crlf(input) && has_lone_lf(input))),
        has_lone_cr(input) && !has_crlf(input) && !has_lone_lf(input) ==> spec_guess_report(input, level) == spec_report_head(input) + " (CR)"@,
        !has_lone_cr(input) && has_crlf(input) && !has_lone_lf(input) ==> spec_guess_report(input, level) == spec_report_head(input) + " (CRLF)"@,
        !has_lone_cr(input) && !has_crlf(input) && has_lone_lf(input) ==> spec_guess_report(input, level) == spec_report_head(input) + " (LF)"@,
        spec_ends_with(spec_guess_report(input, level), " (MIXED NL)"@) ==> ((has_lone_cr(input) && has_crlf(input))
            || (has_lone_cr(input) && has_lone_lf(input)) || (has_crlf(input) && has_lone_lf(input))),
{
    lemma_eol_from_kinds(input, None);
    let r = spec_guess_report(input, level);
    let h = spec_report_head(input);
    if spec_ends_with(r, " (MIXED NL)"@) {
        reveal_strlit(" (MIXED NL)");
        reveal_strlit(" (CR)");
        reveal_strlit(" (LF)");
        reveal_strlit(" (CRLF)");
        lemma_head_end(input);
        assert(r.skip(r.len() - 11)[9] == r[r.len() - 2]);
        assert(r[r.len() - 2] == 'L');
        assert(r.skip(r.len() - 11)[10] == r.last());
        assert(r.last() == ')');
        assert(spec_guess_input(input).3 == spec_guess_eol(input));
        match spec_guess_input(input).3 {
            None => {
                assert(r == h);
                assert(false);
            },
            Some(k) => {
                let l = spec_eol_label(k);
                assert(r == h + l);
                assert(r[r.len() - 2] == l[l.len() - 2]);
                assert(k == EolKind::Mixed);
            },
        }
    }
}

/// A byte-order mark at the front decides the guess: `EF BB BF` is UTF-8, `FE FF` big-endian
/// UTF-16, `FF FE` little-endian UTF-16 (unless `00 00` follows, which makes it little-endian
/// UTF-32), `00 00 FE FF` big-endian UTF-32; from level 2 on the report gives the byte order and
/// ` (BOM)` after the name, and at level 1 the name alone.
pub proof fn lemma_guess_bom(input: Seq<u8>)
    ensures
        input.len() >= 3 && input[0] == 0xef && input[1] == 0xbb && input[2] == 0xbf ==> {
            &&& spec_report_head(input) == "UTF-8 (BOM)"@
            &&& spec_guess_report(input, 1) == "UTF-8"@
        },
        input.len() >= 2 && input[0] == 0xfe && input[1] == 0xff ==> {
            &&& spec_report_head(input) == "UTF-16 BE (BOM)"@
            &&& spec_guess_report(input, 1) == "UTF-16"@
        },
        input.len() >= 2 && input[0] == 0xff && input[1] == 0xfe && !(input.len() >= 4 && input[2] == 0 && input[3] == 0) ==> {
            &&& spec_report_head(input) == "UTF-16 LE (BOM)"@
            &&& spec_guess_report(input, 1) == "UTF-16"@
        },
        input.len() >= 4 && input[0] == 0 && input[1] == 0 && input[2] == 0xfe && input[3] == 0xff ==> {
            &&& spec_report_head(input) == "UTF-32 BE (BOM)"@
            &&& spec_guess_report(input, 1) == "UTF-32"@
        },
        input.len() >= 4 && input[0] == 0xff && input[1] == 0xfe && input[2] == 0 && input[3] == 0 ==> {
            &&& spec_report_head(input) == "UTF-32 LE (BOM)"@
            &&& spec_guess_report(input, 1) == "UTF-32"@
        },
{
    reveal_strlit("UTF-8");
    reveal_strlit("UTF-16");
    reveal_strlit("UTF-32");
    reveal_strlit("BE");
    reveal_strlit("LE");
    reveal_strlit(" ");
    reveal_strlit(" (BOM)");
    reveal_strlit("UTF-8 (BOM)");
    reveal_strlit("UTF-16 BE (BOM)");
    reveal_strlit("UTF-16 LE (BOM)");
    reveal_strlit("UTF-32 BE (BOM)");
    reveal_strlit("UTF-32 LE (BOM)");
    assert("UTF-8"@ + " (BOM)"@ =~= "UTF-8 (BOM)"@);
    assert("UTF-16"@ + " "@ + "BE"@ + " (BOM)"@ =~= "UTF-16 BE (BOM)"@);
    assert("UTF-16"@ + " "@ + "LE"@ + " (BOM)"@ =~= "UTF-16 LE (BOM)"@);
    assert("UTF-32"@ + " "@ + "BE"@ + " (BOM)"@ =~= "UTF-32 BE (BOM)"@);
    assert("UTF-32"@ + " "@ + "LE"@ + " (BOM)"@ =~= "UTF-32 LE (BOM)"@);
}

} // verus!



