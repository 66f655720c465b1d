//! The command line: nkf's short option letters, its long options, and the settings they build.

use crate::config::{opt_text, texts, BufferingMode, Config, ConfigView, EncodeFallback, ExecMode, FoldConfig, LineEnding, MimeDecodeMode, MimeEncodeMode, MsUcsMap, OverwriteConfig, X0201Mode, default_view};
use crate::error::{ErrorView, NkfError, NumberError};
use crate::filters::{add_prefix_rule, spec_prefix_rules_of};
use crate::names::{normalize_encoding, spec_normalize};
use crate::text::{chars_eq_str, chars_from, chars_start_with_str, chars_to_string, has_prefix, push_utf8, str_chars};
use crate::unicode::char_from_u32;
use vstd::prelude::*;
use vstd::utf8::{encode_scalar, encode_utf8, is_scalar};

verus! {

broadcast use vstd::seq::group_seq_axioms;

/// The value of a digit in a radix (2 to 16), as `char::to_digit` reads it.
pub open spec fn spec_radix_digit(c: char, radix: u32) -> Option<u32> {
    let v: u32 = if '0' <= c <= '9' {
        ((c as u32) - 0x30) as u32
    } else if 'a' <= c <= 'z' {
        ((c as u32) - 0x61 + 10) as u32
    } else if 'A' <= c <= 'Z' {
        ((c as u32) - 0x41 + 10) as u32
    } else {
        100
    };
    if v < radix {
        Some(v)
    } else {
        None
    }
}

fn radix_digit(c: char, radix: u32) -> (r: Option<u32>)
    requires
        radix <= 36,
    ensures
        r == spec_radix_digit(c, radix),
{
    let v: u32 = if '0' <= c && c <= '9' {
        (c as u32) - 0x30
    } else if 'a' <= c && c <= 'z' {
        (c as u32) - 0x61 + 10
    } else if 'A' <= c && c <= 'Z' {
        (c as u32) - 0x41 + 10
    } else {
        100
    };
    if v < radix {
        Some(v)
    } else {
        None
    }
}

/// Digits from index `i` on added to `acc`: the value, or the first digit that is invalid or
/// overflows 32 bits.
pub open spec fn spec_scan_u32(d: Seq<char>, i: int, radix: u32, acc: int) -> Result<int, NumberError>
    decreases d.len() - i,
{
    if i < 0 || i >= d.len() {
        Ok(acc)
    } else {
        match spec_radix_digit(d[i], radix) {
            None => Err(NumberError::InvalidDigit),
            Some(x) => if acc * radix + x > u32::MAX {
                Err(NumberError::PosOverflow)
            } else {
                spec_scan_u32(d, i + 1, radix, acc * radix + x)
            },
        }
    }
}

/// `u32::from_str_radix`: an optional `+`, then at least one digit of the radix, within 32 bits.
pub open spec fn spec_from_str_radix(s: Seq<char>, radix: u32) -> Result<int, NumberError> {
    if s.len() == 0 {
        Err(NumberError::Empty)
    } else if s == seq!['+'] || s == seq!['-'] {
        Err(NumberError::InvalidDigit)
    } else if s[0] == '+' {
        spec_scan_u32(s, 1, radix, 0)
    } else {
        spec_scan_u32(s, 0, radix, 0)
    }
}

/// Parses an unsigned 32-bit number as `u32::from_str_radix` does; that function panics on a
/// radix outside 2..=36.
pub fn from_str_radix(s: &[char], radix: u32) -> (r: Result<u32, NumberError>)
    requires
        2 <= radix <= 36,
    ensures
        match r {
            Ok(v) => spec_from_str_radix(s@, radix) == Ok::<int, NumberError>(v as int),
            Err(e) => spec_from_str_radix(s@, radix) == Err::<int, NumberError>(e),
        },
{
    if s.len() == 0 {
        return Err(NumberError::Empty);
    }
    if s.len() == 1 && (s[0] == '+' || s[0] == '-') {
        assert(s@ =~= seq![s@[0]]);
        return Err(NumberError::InvalidDigit);
    }
    proof {
        if s@ == seq!['+'] || s@ == seq!['-'] {
            assert(s@.len() == 1);
        }
    }
    let start: usize = if s[0] == '+' { 1 } else { 0 };
    let mut acc: u32 = 0;
    let mut i: usize = start;
    assert(spec_from_str_radix(s@, radix) == spec_scan_u32(s@, start as int, radix, 0));
    while i < s.len()
        invariant
            start <= i <= s@.len(),
            2 <= radix <= 36,
            spec_from_str_radix(s@, radix) == spec_scan_u32(s@, start as int, radix, 0),
            spec_scan_u32(s@, start as int, radix, 0) == spec_scan_u32(s@, i as int, radix, acc as int),
        decreases s@.len() - i,
    {
        match radix_digit(s[i], radix) {
            None => {
                return Err(NumberError::InvalidDigit);
            },
            Some(x) => {
                assert((acc as u64) * (radix as u64) <= 0xFFFF_FFFFu64 * 36) by (nonlinear_arith)
                    requires
                        acc <= 0xFFFF_FFFFu32,
                        radix <= 36,
                ;
                let wide: u64 = (acc as u64) * (radix as u64) + (x as u64);
                if wide > 0xFFFF_FFFF {
                    return Err(NumberError::PosOverflow);
                }
                acc = wide as u32;
                i += 1;
            },
        }
    }
    Ok(acc)
}

/// A `--fb-subchar=` value: `0x`/`0X` and hexadecimal, `0` and octal, or decimal; it must name a
/// Unicode scalar value.
pub open spec fn spec_subchar(value: Seq<char>) -> Result<char, ErrorView> {
    let (digits, radix) = if has_prefix(value, seq!['0', 'x']) || has_prefix(value, seq!['0', 'X']) {
        (value.skip(2), 16u32)
    } else if value.len() > 1 && value[0] == '0' {
        (value.skip(1), 8u32)
    } else {
        (value, 10u32)
    };
    match spec_from_str_radix(digits, radix) {
        Err(e) => Err(ErrorView::InvalidNumber(e)),
        Ok(v) => if is_scalar(v as u32) {
            Ok((v as u32) as char)
        } else {
            Err(ErrorView::InvalidSubchar(value))
        },
    }
}

/// Parses a `--fb-subchar=` value.
pub fn parse_subchar(value: &[char]) -> (r: Result<char, NkfError>)
    ensures
        match r {
            Ok(c) => spec_subchar(value@) == Ok::<char, ErrorView>(c),
            Err(e) => spec_subchar(value@) == Err::<char, ErrorView>(e@),
        },
{
    let mut x: Vec<char> = Vec::new();
    x.push('0');
    x.push('x');
    let mut xx: Vec<char> = Vec::new();
    xx.push('0');
    xx.push('X');
    assert(x@ =~= seq!['0', 'x']);
    assert(xx@ =~= seq!['0', 'X']);
    let (digits, radix) = if crate::text::chars_start_with(value, x.as_slice()) || crate::text::chars_start_with(value, xx.as_slice()) {
        (chars_from(value, 2), 16u32)
    } else if value.len() > 1 && value[0] == '0' {
        (chars_from(value, 1), 8u32)
    } else {
        (chars_from(value, 0), 10u32)
    };
    assert(value@.skip(0) =~= value@);
    match from_str_radix(digits.as_slice(), radix) {
        Err(e) => Err(NkfError::InvalidNumber(e)),
        Ok(v) => match char_from_u32(v) {
            Some(c) => Ok(c),
            None => Err(NkfError::InvalidSubchar(chars_to_string(value))),
        },
    }
}

/// Whether a character is an ASCII digit.
pub open spec fn spec_ascii_digit(c: char) -> bool {
    '0' <= c <= '9'
}

/// The run of ASCII digits from index `i` added to `acc` in base ten: its value and its end, or
/// `None` when the value passes `usize::MAX`.
pub open spec fn spec_scan_usize(s: Seq<char>, i: int, acc: int) -> Option<(int, int)>
    decreases s.len() - i,
{
    if 0 <= i < s.len() && spec_ascii_digit(s[i]) {
        if acc * 10 + ((s[i] as u32) - 0x30) > usize::MAX {
            None
        } else {
            spec_scan_usize(s, i + 1, acc * 10 + ((s[i] as u32) - 0x30))
        }
    } else {
        Some((acc, i))
    }
}

fn scan_usize(s: &[char], start: usize) -> (r: Option<(usize, usize)>)
    requires
        start <= s@.len(),
    ensures
        match r {
            Some((v, e)) => spec_scan_usize(s@, start as int, 0) == Some((v as int, e as int)) && start <= e <= s@.len(),
            None => spec_scan_usize(s@, start as int, 0) is None,
        },
{
    let mut acc: usize = 0;
    let mut i: usize = start;
    while i < s.len() && '0' <= s[i] && s[i] <= '9'
        invariant
            start <= i <= s@.len(),
            spec_scan_usize(s@, start as int, 0) == spec_scan_usize(s@, i as int, acc as int),
        decreases s@.len() - i,
    {
        let d = (s[i] as u32 - 0x30) as usize;
        match acc.checked_mul(10) {
            None => {
                return None;
            },
            Some(m) => match m.checked_add(d) {
                None => {
                    return None;
                },
                Some(v) => {
                    acc = v;
                },
            },
        }
        i += 1;
    }
    Some((acc, i))
}

/// The default folding width and margin.
pub const DEFAULT_FOLD: usize = 60;

pub const DEFAULT_FOLD_MARGIN: usize = 10;

/// A `-f`/`-F` argument: a width (the default when absent, zero or 8192 and above), and after
/// `-` a margin (ten when absent); with the count of characters read. `None` when a number passes
/// `usize::MAX`.
pub open spec fn spec_parse_fold(tail: Seq<char>, preserve_newlines: bool) -> Option<(FoldConfig, int)> {
    match spec_scan_usize(tail, 0, 0) {
        None => None,
        Some((v, n)) => {
            let len: usize = if v == 0 || v >= 8192 {
                DEFAULT_FOLD
            } else {
                v as usize
            };
            if n < tail.len() && tail[n] == '-' {
                match spec_scan_usize(tail, n + 1, 0) {
                    None => None,
                    Some((m, e)) => Some((FoldConfig { len, margin: m as usize, preserve_newlines }, e)),
                }
            } else {
                Some((FoldConfig { len, margin: DEFAULT_FOLD_MARGIN, preserve_newlines }, n))
            }
        },
    }
}

/// Parses a `-f`/`-F` argument.
pub fn parse_fold(tail: &[char], preserve_newlines: bool) -> (r: Option<(FoldConfig, usize)>)
    ensures
        match r {
            Some((f, n)) => spec_parse_fold(tail@, preserve_newlines) == Some((f, n as int)) && n <= tail@.len(),
            None => spec_parse_fold(tail@, preserve_newlines) is None,
        },
{
    let (v, n) = match scan_usize(tail, 0) {
        None => return None,
        Some(p) => p,
    };
    let len: usize = if v == 0 || v >= 8192 { DEFAULT_FOLD } else { v };
    if n < tail.len() && tail[n] == '-' {
        match scan_usize(tail, n + 1) {
            None => None,
            Some((m, e)) => Some((FoldConfig { len, margin: m, preserve_newlines }, e)),
        }
    } else {
        Some((FoldConfig { len, margin: DEFAULT_FOLD_MARGIN, preserve_newlines }, n))
    }
}

/// The encoding a `-w`/`-W` suffix names, with the count of characters read. Output side: `8`
/// adds a BOM and `80` does not; `16`/`32` with `L`/`B` add a BOM unless `0` follows.
pub open spec fn spec_w_family(tail: Seq<char>, input_side: bool) -> (Seq<char>, nat) {
    if input_side {
        if has_prefix(tail, "32L"@) {
            ("UTF-32LE"@, 3)
        } else if has_prefix(tail, "32B"@) {
            ("UTF-32BE"@, 3)
        } else if has_prefix(tail, "32"@) {
            ("UTF-32"@, 2)
        } else if has_prefix(tail, "16L"@) {
            ("UTF-16LE"@, 3)
        } else if has_prefix(tail, "16B"@) {
            ("UTF-16BE"@, 3)
        } else if has_prefix(tail, "16"@) {
            ("UTF-16"@, 2)
        } else if has_prefix(tail, "8"@) {
            ("UTF-8"@, 1)
        } else {
            ("UTF-8"@, 0)
        }
    } else if has_prefix(tail, "32L0"@) {
        ("UTF-32LE"@, 4)
    } else if has_prefix(tail, "32B0"@) {
        ("UTF-32BE"@, 4)
    } else if has_prefix(tail, "32L"@) {
        ("UTF-32LE-BOM"@, 3)
    } else if has_prefix(tail, "32B"@) {
        ("UTF-32BE-BOM"@, 3)
    } else if has_prefix(tail, "32"@) {
        ("UTF-32"@, 2)
    } else if has_prefix(tail, "16L0"@) {
        ("UTF-16LE"@, 4)
    } else if has_prefix(tail, "16B0"@) {
        ("UTF-16BE"@, 4)
    } else if has_prefix(tail, "16L"@) {
        ("UTF-16LE-BOM"@, 3)
    } else if has_prefix(tail, "16B"@) {
        ("UTF-16BE-BOM"@, 3)
    } else if has_prefix(tail, "16"@) {
        ("UTF-16"@, 2)
    } else if has_prefix(tail, "80"@) {
        ("UTF-8"@, 2)
    } else if has_prefix(tail, "8"@) {
        ("UTF-8-BOM"@, 1)
    } else {
        ("UTF-8"@, 0)
    }
}

/// A `-w`/`-W` suffix reads no more than the text holds.
pub proof fn lemma_w_family_len(tail: Seq<char>, input_side: bool)
    ensures
        spec_w_family(tail, input_side).1 <= tail.len(),
{
    reveal_strlit("32L");
    reveal_strlit("32B");
    reveal_strlit("32");
    reveal_strlit("16L");
    reveal_strlit("16B");
    reveal_strlit("16");
    reveal_strlit("8");
    reveal_strlit("32L0");
    reveal_strlit("32B0");
    reveal_strlit("16L0");
    reveal_strlit("16B0");
    reveal_strlit("80");
}

/// A text whose first characters are those of `p` starts with `p`.
proof fn lemma_prefix_chars(tail: Seq<char>, p: Seq<char>)
    requires
        p.len() <= tail.len(),
        forall|k: int| 0 <= k < p.len() ==> tail[k] == p[k],
    ensures
        has_prefix(tail, p),
{
    assert(tail.take(p.len() as int) =~= p);
}

/// A text that is too short for `p`, or differs from it at index `k`, does not start with `p`.
proof fn lemma_not_prefix(tail: Seq<char>, p: Seq<char>, k: int)
    requires
        0 <= k < p.len(),
        k >= tail.len() || tail[k] != p[k],
    ensures
        !has_prefix(tail, p),
{
    if has_prefix(tail, p) {
        assert(tail.take(p.len() as int)[k] == tail[k]);
    }
}

/// The encodings that `-w` names by the characters after it: `-w16B0` and `-w16L0` are UTF-16BE and
/// UTF-16LE without a byte-order mark, `-w16B` and `-w16L` the same with one, `-w16` UTF-16, and
/// likewise for 32; `-w80` is UTF-8, `-w8` UTF-8 with a byte-order mark, and `-w` alone (or with
/// anything else after it) UTF-8, reading no more characters.
pub proof fn lemma_w_family_output(tail: Seq<char>)
    ensures
        tail.len() >= 4 && tail[0] == '3' && tail[1] == '2' && tail[2] == 'L' && tail[3] == '0'
            ==> spec_w_family(tail, false) == ("UTF-32LE"@, 4nat),
        tail.len() >= 4 && tail[0] == '3' && tail[1] == '2' && tail[2] == 'B' && tail[3] == '0'
            ==> spec_w_family(tail, false) == ("UTF-32BE"@, 4nat),
        tail.len() >= 3 && tail[0] == '3' && tail[1] == '2' && tail[2] == 'L' && !(tail.len() > 3 && (tail[3] == '0'))
            ==> spec_w_family(tail, false) == ("UTF-32LE-BOM"@, 3nat),
        tail.len() >= 3 && tail[0] == '3' && tail[1] == '2' && tail[2] == 'B' && !(tail.len() > 3 && (tail[3] == '0'))
            ==> spec_w_family(tail, false) == ("UTF-32BE-BOM"@, 3nat),
        tail.len() >= 2 && tail[0] == '3' && tail[1] == '2' && !(tail.len() > 2 && (tail[2] == 'B' || tail[2] == 'L'))
            ==> spec_w_family(tail, false) == ("UTF-32"@, 2nat),
        tail.len() >= 4 && tail[0] == '1' && tail[1] == '6' && tail[2] == 'L' && tail[3] == '0'
            ==> spec_w_family(tail, false) == ("UTF-16LE"@, 4nat),
        tail.len() >= 4 && tail[0] == '1' && tail[1] == '6' && tail[2] == 'B' && tail[3] == '0'
            ==> spec_w_family(tail, false) == ("UTF-16BE"@, 4nat),
        tail.len() >= 3 && tail[0] == '1' && tail[1] == '6' && tail[2] == 'L' && !(tail.len() > 3 && (tail[3] == '0'))
            ==> spec_w_family(tail, false) == ("UTF-16LE-BOM"@, 3nat),
        tail.len() >= 3 && tail[0] == '1' && tail[1] == '6' && tail[2] == 'B' && !(tail.len() > 3 && (tail[3] == '0'))
            ==> spec_w_family(tail, false) == ("UTF-16BE-BOM"@, 3nat),
        tail.len() >= 2 && tail[0] == '1' && tail[1] == '6' && !(tail.len() > 2 && (tail[2] == 'B' || tail[2] == 'L'))
            ==> spec_w_family(tail, false) == ("UTF-16"@, 2nat),
        tail.len() >= 2 && tail[0] == '8' && tail[1] == '0'
            ==> spec_w_family(tail, false) == ("UTF-8"@, 2nat),
        tail.len() >= 1 && tail[0] == '8' && !(tail.len() > 1 && (tail[1] == '0'))
            ==> spec_w_family(tail, false) == ("UTF-8-BOM"@, 1nat),
        (tail.len() == 0 || (tail[0] != '1' && tail[0] != '3' && tail[0] != '8'))
            ==> spec_w_family(tail, false) == ("UTF-8"@, 0nat),
{
    reveal_strlit("16");
    reveal_strlit("16B");
    reveal_strlit("16B0");
    reveal_strlit("16L");
    reveal_strlit("16L0");
    reveal_strlit("32");
    reveal_strlit("32B");
    reveal_strlit("32B0");
    reveal_strlit("32L");
    reveal_strlit("32L0");
    reveal_strlit("8");
    reveal_strlit("80");
    if tail.len() >= 4 && tail[0] == '3' && tail[1] == '2' && tail[2] == 'L' && tail[3] == '0' {
        lemma_prefix_chars(tail, "32L0"@);
    }
    if tail.len() >= 4 && tail[0] == '3' && tail[1] == '2' && tail[2] == 'B' && tail[3] == '0' {
        lemma_prefix_chars(tail, "32B0"@);
        lemma_not_prefix(tail, "32L0"@, 2);
    }
    if tail.len() >= 3 && tail[0] == '3' && tail[1] == '2' && tail[2] == 'L' && !(tail.len() > 3 && (tail[3] == '0')) {
        lemma_prefix_chars(tail, "32L"@);
        lemma_not_prefix(tail, "32L0"@, 3);
        lemma_not_prefix(tail, "32B0"@, 2);
    }
    if tail.len() >= 3 && tail[0] == '3' && tail[1] == '2' && tail[2] == 'B' && !(tail.len() > 3 && (tail[3] == '0')) {
        lemma_prefix_chars(tail, "32B"@);
        lemma_not_prefix(tail, "32L0"@, 2);
        lemma_not_prefix(tail, "32B0"@, 3);
        lemma_not_prefix(tail, "32L"@, 2);
    }
    if tail.len() >= 2 && tail[0] == '3' && tail[1] == '2' && !(tail.len() > 2 && (tail[2] == 'B' || tail[2] == 'L')) {
        lemma_prefix_chars(tail, "32"@);
        lemma_not_prefix(tail, "32L0"@, 2);
        lemma_not_prefix(tail, "32B0"@, 2);
        lemma_not_prefix(tail, "32L"@, 2);
        lemma_not_prefix(tail, "32B"@, 2);
    }
    if tail.len() >= 4 && tail[0] == '1' && tail[1] == '6' && tail[2] == 'L' && tail[3] == '0' {
        lemma_prefix_chars(tail, "16L0"@);
        lemma_not_prefix(tail, "32L0"@, 0);
        lemma_not_prefix(tail, "32B0"@, 0);
        lemma_not_prefix(tail, "32L"@, 0);
        lemma_not_prefix(tail, "32B"@, 0);
        lemma_not_prefix(tail, "32"@, 0);
    }
    if tail.len() >= 4 && tail[0] == '1' && tail[1] == '6' && tail[2] == 'B' && tail[3] == '0' {
        lemma_prefix_chars(tail, "16B0"@);
        lemma_not_prefix(tail, "32L0"@, 0);
        lemma_not_prefix(tail, "32B0"@, 0);
        lemma_not_prefix(tail, "32L"@, 0);
        lemma_not_prefix(tail, "32B"@, 0);
        lemma_not_prefix(tail, "32"@, 0);
        lemma_not_prefix(tail, "16L0"@, 2);
    }
    if tail.len() >= 3 && tail[0] == '1' && tail[1] == '6' && tail[2] == 'L' && !(tail.len() > 3 && (tail[3] == '0')) {
        lemma_prefix_chars(tail, "16L"@);
        lemma_not_prefix(tail, "32L0"@, 0);
        lemma_not_prefix(tail, "32B0"@, 0);
        lemma_not_prefix(tail, "32L"@, 0);
        lemma_not_prefix(tail, "32B"@, 0);
        lemma_not_prefix(tail, "32"@, 0);
        lemma_not_prefix(tail, "16L0"@, 3);
        lemma_not_prefix(tail, "16B0"@, 2);
    }
    if tail.len() >= 3 && tail[0] == '1' && tail[1] == '6' && tail[2] == 'B' && !(tail.len() > 3 && (tail[3] == '0')) {
        lemma_prefix_chars(tail, "16B"@);
        lemma_not_prefix(tail, "32L0"@, 0);
        lemma_not_prefix(tail, "32B0"@, 0);
        lemma_not_prefix(tail, "32L"@, 0);
        lemma_not_prefix(tail, "32B"@, 0);
        lemma_not_prefix(tail, "32"@, 0);
        lemma_not_prefix(tail, "16L0"@, 2);
        lemma_not_prefix(tail, "16B0"@, 3);
        lemma_not_prefix(tail, "16L"@, 2);
    }
    if tail.len() >= 2 && tail[0] == '1' && tail[1] == '6' && !(tail.len() > 2 && (tail[2] == 'B' || tail[2] == 'L')) {
        lemma_prefix_chars(tail, "16"@);
        lemma_not_prefix(tail, "32L0"@, 0);
        lemma_not_prefix(tail, "32B0"@, 0);
        lemma_not_prefix(tail, "32L"@, 0);
        lemma_not_prefix(tail, "32B"@, 0);
        lemma_not_prefix(tail, "32"@, 0);
        lemma_not_prefix(tail, "16L0"@, 2);
        lemma_not_prefix(tail, "16B0"@, 2);
        lemma_not_prefix(tail, "16L"@, 2);
        lemma_not_prefix(tail, "16B"@, 2);
    }
    if tail.len() >= 2 && tail[0] == '8' && tail[1] == '0' {
        lemma_prefix_chars(tail, "80"@);
        lemma_not_prefix(tail, "32L0"@, 0);
        lemma_not_prefix(tail, "32B0"@, 0);
        lemma_not_prefix(tail, "32L"@, 0);
        lemma_not_prefix(tail, "32B"@, 0);
        lemma_not_prefix(tail, "32"@, 0);
        lemma_not_prefix(tail, "16L0"@, 0);
        lemma_not_prefix(tail, "16B0"@, 0);
        lemma_not_prefix(tail, "16L"@, 0);
        lemma_not_prefix(tail, "16B"@, 0);
        lemma_not_prefix(tail, "16"@, 0);
    }
    if tail.len() >= 1 && tail[0] == '8' && !(tail.len() > 1 && (tail[1] == '0')) {
        lemma_prefix_chars(tail, "8"@);
        lemma_not_prefix(tail, "32L0"@, 0);
        lemma_not_prefix(tail, "32B0"@, 0);
        lemma_not_prefix(tail, "32L"@, 0);
        lemma_not_prefix(tail, "32B"@, 0);
        lemma_not_prefix(tail, "32"@, 0);
        lemma_not_prefix(tail, "16L0"@, 0);
        lemma_not_prefix(tail, "16B0"@, 0);
        lemma_not_prefix(tail, "16L"@, 0);
        lemma_not_prefix(tail, "16B"@, 0);
        lemma_not_prefix(tail, "16"@, 0);
        lemma_not_prefix(tail, "80"@, 1);
    }
    if (tail.len() == 0 || (tail[0] != '1' && tail[0] != '3' && tail[0] != '8')) {
        lemma_not_prefix(tail, "32L0"@, 0);
        lemma_not_prefix(tail, "32B0"@, 0);
        lemma_not_prefix(tail, "32L"@, 0);
        lemma_not_prefix(tail, "32B"@, 0);
        lemma_not_prefix(tail, "32"@, 0);
        lemma_not_prefix(tail, "16L0"@, 0);
        lemma_not_prefix(tail, "16B0"@, 0);
        lemma_not_prefix(tail, "16L"@, 0);
        lemma_not_prefix(tail, "16B"@, 0);
        lemma_not_prefix(tail, "16"@, 0);
        lemma_not_prefix(tail, "80"@, 0);
        lemma_not_prefix(tail, "8"@, 0);
    }
}

/// The encodings that `-W` names by the characters after it: `-W16B`, `-W16L` and `-W16` are
/// UTF-16BE, UTF-16LE and UTF-16, likewise for 32, `-W8` is UTF-8, and `-W` alone (or with anything
/// else after it) UTF-8, reading no more characters.
pub proof fn lemma_w_family_input(tail: Seq<char>)
    ensures
        tail.len() >= 3 && tail[0] == '3' && tail[1] == '2' && tail[2] == 'L'
            ==> spec_w_family(tail, true) == ("UTF-32LE"@, 3nat),
        tail.len() >= 3 && tail[0] == '3' && tail[1] == '2' && tail[2] == 'B'
            ==> spec_w_family(tail, true) == ("UTF-32BE"@, 3nat),
        tail.len() >= 2 && tail[0] == '3' && tail[1] == '2' && !(tail.len() > 2 && (tail[2] == 'B' || tail[2] == 'L'))
            ==> spec_w_family(tail, true) == ("UTF-32"@, 2nat),
        tail.len() >= 3 && tail[0] == '1' && tail[1] == '6' && tail[2] == 'L'
            ==> spec_w_family(tail, true) == ("UTF-16LE"@, 3nat),
        tail.len() >= 3 && tail[0] == '1' && tail[1] == '6' && tail[2] == 'B'
            ==> spec_w_family(tail, true) == ("UTF-16BE"@, 3nat),
        tail.len() >= 2 && tail[0] == '1' && tail[1] == '6' && !(tail.len() > 2 && (tail[2] == 'B' || tail[2] == 'L'))
            ==> spec_w_family(tail, true) == ("UTF-16"@, 2nat),
        tail.len() >= 1 && tail[0] == '8'
            ==> spec_w_family(tail, true) == ("UTF-8"@, 1nat),
        (tail.len() == 0 || (tail[0] != '1' && tail[0] != '3' && tail[0] != '8'))
            ==> spec_w_family(tail, true) == ("UTF-8"@, 0nat),
{
    reveal_strlit("16");
    reveal_strlit("16B");
    reveal_strlit("16B0");
    reveal_strlit("16L");
    reveal_strlit("16L0");
    reveal_strlit("32");
    reveal_strlit("32B");
    reveal_strlit("32B0");
    reveal_strlit("32L");
    reveal_strlit("32L0");
    reveal_strlit("8");
    reveal_strlit("80");
    if tail.len() >= 3 && tail[0] == '3' && tail[1] == '2' && tail[2] == 'L' {
        lemma_prefix_chars(tail, "32L"@);
    }
    if tail.len() >= 3 && tail[0] == '3' && tail[1] == '2' && tail[2] == 'B' {
        lemma_prefix_chars(tail, "32B"@);
        lemma_not_prefix(tail, "32L"@, 2);
    }
    if tail.len() >= 2 && tail[0] == '3' && tail[1] == '2' && !(tail.len() > 2 && (tail[2] == 'B' || tail[2] == 'L')) {
        lemma_prefix_chars(tail, "32"@);
        lemma_not_prefix(tail, "32L"@, 2);
        lemma_not_prefix(tail, "32B"@, 2);
    }
    if tail.len() >= 3 && tail[0] == '1' && tail[1] == '6' && tail[2] == 'L' {
        lemma_prefix_chars(tail, "16L"@);
        lemma_not_prefix(tail, "32L"@, 0);
        lemma_not_prefix(tail, "32B"@, 0);
        lemma_not_prefix(tail, "32"@, 0);
    }
    if tail.len() >= 3 && tail[0] == '1' && tail[1] == '6' && tail[2] == 'B' {
        lemma_prefix_chars(tail, "16B"@);
        lemma_not_prefix(tail, "32L"@, 0);
        lemma_not_prefix(tail, "32B"@, 0);
        lemma_not_prefix(tail, "32"@, 0);
        lemma_not_prefix(tail, "16L"@, 2);
    }
    if tail.len() >= 2 && tail[0] == '1' && tail[1] == '6' && !(tail.len() > 2 && (tail[2] == 'B' || tail[2] == 'L')) {
        lemma_prefix_chars(tail, "16"@);
        lemma_not_prefix(tail, "32L"@, 0);
        lemma_not_prefix(tail, "32B"@, 0);
        lemma_not_prefix(tail, "32"@, 0);
        lemma_not_prefix(tail, "16L"@, 2);
        lemma_not_prefix(tail, "16B"@, 2);
    }
    if tail.len() >= 1 && tail[0] == '8' {
        lemma_prefix_chars(tail, "8"@);
        lemma_not_prefix(tail, "32L"@, 0);
        lemma_not_prefix(tail, "32B"@, 0);
        lemma_not_prefix(tail, "32"@, 0);
        lemma_not_prefix(tail, "16L"@, 0);
        lemma_not_prefix(tail, "16B"@, 0);
        lemma_not_prefix(tail, "16"@, 0);
    }
    if (tail.len() == 0 || (tail[0] != '1' && tail[0] != '3' && tail[0] != '8')) {
        lemma_not_prefix(tail, "32L"@, 0);
        lemma_not_prefix(tail, "32B"@, 0);
        lemma_not_prefix(tail, "32"@, 0);
        lemma_not_prefix(tail, "16L"@, 0);
        lemma_not_prefix(tail, "16B"@, 0);
        lemma_not_prefix(tail, "16"@, 0);
        lemma_not_prefix(tail, "8"@, 0);
    }
}

/// A run of digits ends within the text.
pub proof fn lemma_digits_end(s: Seq<char>, i: int)
    requires
        0 <= i <= s.len(),
    ensures
        i <= spec_digits_end(s, i) <= s.len(),
    decreases s.len() - i,
{
    if i < s.len() && spec_ascii_digit(s[i]) {
        lemma_digits_end(s, i + 1);
    }
}

/// The `-Z` digits end within the text.
pub proof fn lemma_z_digits(s: Seq<char>, i: int, z: u8)
    requires
        0 <= i <= s.len(),
    ensures
        i <= spec_z_digits(s, i, z).1 <= s.len(),
    decreases s.len() - i,
{
    if i < s.len() && '0' <= s[i] <= '4' {
        lemma_z_digits(s, i + 1, z | (1u8 << (((s[i] as u32) - 0x30) as u8)));
    }
}

/// A number read from index `i` ends within the text.
pub proof fn lemma_scan_usize(s: Seq<char>, i: int, acc: int)
    requires
        0 <= i <= s.len(),
    ensures
        spec_scan_usize(s, i, acc) matches Some((v, e)) ==> i <= e <= s.len(),
    decreases s.len() - i,
{
    if 0 <= i < s.len() && spec_ascii_digit(s[i]) {
        if acc * 10 + ((s[i] as u32) - 0x30) <= usize::MAX {
            lemma_scan_usize(s, i + 1, acc * 10 + ((s[i] as u32) - 0x30));
        }
    }
}

/// A fold argument reads no more than the text holds.
pub proof fn lemma_parse_fold_len(tail: Seq<char>, preserve_newlines: bool)
    ensures
        spec_parse_fold(tail, preserve_newlines) matches Some((f, k)) ==> 0 <= k <= tail.len(),
{
    lemma_scan_usize(tail, 0, 0);
    match spec_scan_usize(tail, 0, 0) {
        None => {},
        Some((v, n)) => {
            if n < tail.len() && tail[n] == '-' {
                lemma_scan_usize(tail, n + 1, 0);
            }
        },
    }
}

fn named(name: &str, n: usize) -> (r: (String, usize))
    ensures
        r.0@ == name@,
        r.1 == n,
{
    (String::from_str(name), n)
}

/// Parses a `-w`/`-W` suffix.
pub fn parse_w_family(tail: &[char], input_side: bool) -> (r: (String, usize))
    ensures
        r.0@ == spec_w_family(tail@, input_side).0,
        r.1 == spec_w_family(tail@, input_side).1,
        r.1 <= 4,
{
    if input_side {
        if chars_start_with_str(tail, "32L") {
            named("UTF-32LE", 3)
        } else if chars_start_with_str(tail, "32B") {
            named("UTF-32BE", 3)
        } else if chars_start_with_str(tail, "32") {
            named("UTF-32", 2)
        } else if chars_start_with_str(tail, "16L") {
            named("UTF-16LE", 3)
        } else if chars_start_with_str(tail, "16B") {
            named("UTF-16BE", 3)
        } else if chars_start_with_str(tail, "16") {
            named("UTF-16", 2)
        } else if chars_start_with_str(tail, "8") {
            named("UTF-8", 1)
        } else {
            named("UTF-8", 0)
        }
    } else if chars_start_with_str(tail, "32L0") {
        named("UTF-32LE", 4)
    } else if chars_start_with_str(tail, "32B0") {
        named("UTF-32BE", 4)
    } else if chars_start_with_str(tail, "32L") {
        named("UTF-32LE-BOM", 3)
    } else if chars_start_with_str(tail, "32B") {
        named("UTF-32BE-BOM", 3)
    } else if chars_start_with_str(tail, "32") {
        named("UTF-32", 2)
    } else if chars_start_with_str(tail, "16L0") {
        named("UTF-16LE", 4)
    } else if chars_start_with_str(tail, "16B0") {
        named("UTF-16BE", 4)
    } else if chars_start_with_str(tail, "16L") {
        named("UTF-16LE-BOM", 3)
    } else if chars_start_with_str(tail, "16B") {
        named("UTF-16BE-BOM", 3)
    } else if chars_start_with_str(tail, "16") {
        named("UTF-16", 2)
    } else if chars_start_with_str(tail, "80") {
        named("UTF-8", 2)
    } else if chars_start_with_str(tail, "8") {
        named("UTF-8-BOM", 1)
    } else {
        named("UTF-8", 0)
    }
}

/// The long options that stand for runs of short ones: `--euc`, `--sjis` and `--jis` are `-e`,
/// `-s` and `-j`, their `-input` forms `-E`, `-S` and `-J`, `--utf8` and `--utf16` are `-w` and
/// `-w16`, `--mac` is `-sLm`, `--msdos` and `--windows` `-sLw`, `--unix` `-eLu`, `--mime` `-jM`,
/// `--base64` `-jMB`, `--fj` `-jm` and `--mime-input` `-m`.
pub proof fn lemma_long_alias_table()
    ensures
{
}

/// The short options a long option stands for.
pub open spec fn spec_long_alias(option: Seq<char>) -> Option<Seq<char>> {
    if option == "--base64"@ {
        Some("jMB"@)
    } else if option == "--euc"@ {
        Some("e"@)
    } else if option == "--euc-input"@ {
        Some("E"@)
    } else if option == "--fj"@ {
        Some("jm"@)
    } else if option == "--jis"@ {
        Some("j"@)
    } else if option == "--jis-input"@ {
        Some("J"@)
    } else if option == "--mac"@ {
        Some("sLm"@)
    } else if option == "--mime"@ {
        Some("jM"@)
    } else if option == "--mime-input"@ {
        Some("m"@)
    } else if option == "--msdos"@ || option == "--windows"@ {
        Some("sLw"@)
    } else if option == "--sjis"@ {
        Some("s"@)
    } else if option == "--sjis-input"@ {
        Some("S"@)
    } else if option == "--unix"@ {
        Some("eLu"@)
    } else if option == "--utf8"@ {
        Some("w"@)
    } else if option == "--utf8-input"@ {
        Some("W"@)
    } else if option == "--utf16"@ {
        Some("w16"@)
    } else if option == "--utf16-input"@ {
        Some("W16"@)
    } else {
        None
    }
}

/// The short options a long option stands for.
pub fn long_option_alias(option: &[char]) -> (r: Option<&'static str>)
    ensures
        match r {
            Some(s) => spec_long_alias(option@) == Some(s@),
            None => spec_long_alias(option@) is None,
        },
{
    if chars_eq_str(option, "--base64") {
        Some("jMB")
    } else if chars_eq_str(option, "--euc") {
        Some("e")
    } else if chars_eq_str(option, "--euc-input") {
        Some("E")
    } else if chars_eq_str(option, "--fj") {
        Some("jm")
    } else if chars_eq_str(option, "--jis") {
        Some("j")
    } else if chars_eq_str(option, "--jis-input") {
        Some("J")
    } else if chars_eq_str(option, "--mac") {
        Some("sLm")
    } else if chars_eq_str(option, "--mime") {
        Some("jM")
    } else if chars_eq_str(option, "--mime-input") {
        Some("m")
    } else if chars_eq_str(option, "--msdos") || chars_eq_str(option, "--windows") {
        Some("sLw")
    } else if chars_eq_str(option, "--sjis") {
        Some("s")
    } else if chars_eq_str(option, "--sjis-input") {
        Some("S")
    } else if chars_eq_str(option, "--unix") {
        Some("eLu")
    } else if chars_eq_str(option, "--utf8") {
        Some("w")
    } else if chars_eq_str(option, "--utf8-input") {
        Some("W")
    } else if chars_eq_str(option, "--utf16") {
        Some("w16")
    } else if chars_eq_str(option, "--utf16-input") {
        Some("W16")
    } else {
        None
    }
}

/// What a command line asks for besides a conversion.
#[derive(Clone, Copy, Debug, PartialEq, Eq, Structural)]
pub enum CliExit {
    /// `--help`
    Help,
    /// `--version`, `-v`
    Version,
    /// `-V`: the build configuration.
    Configuration,
}

/// Where a run of short options ends: all read (and whether the next argument was taken as the
/// `-O` file name), a request to print and stop, an error, or a number too large for its type.
pub enum ShortView {
    Done(ConfigView, bool),
    Exit(CliExit),
    Fail(ErrorView),
    Overflow,
}

/// Where a run of short options ends.
#[derive(Debug)]
pub enum ShortOutcome {
    /// All read; `true` when the next argument was taken as the `-O` file name.
    Done(bool),
    /// A request to print something and stop.
    Exit(CliExit),
    /// An option that is not known, or `-O` with nothing after it.
    Fail(NkfError),
    /// A number too large for its type (the flag shift of `-B8`, `-B9`, or a fold width).
    Overflow,
}

/// The option text with its leading dashes removed.
pub open spec fn spec_trim_dashes(s: Seq<char>) -> Seq<char>
    decreases s.len(),
{
    if s.len() > 0 && s[0] == '-' {
        spec_trim_dashes(s.skip(1))
    } else {
        s
    }
}

fn trim_dashes(s: &[char]) -> (r: Vec<char>)
    ensures
        r@ == spec_trim_dashes(s@),
{
    let mut i: usize = 0;
    assert(s@.skip(0) =~= s@);
    while i < s.len() && s[i] == '-'
        invariant
            i <= s@.len(),
            spec_trim_dashes(s@) == spec_trim_dashes(s@.skip(i as int)),
        decreases s@.len() - i,
    {
        assert(s@.skip(i as int).skip(1) =~= s@.skip(i + 1));
        i += 1;
    }
    chars_from(s, i)
}

/// The end of the run of ASCII digits from index `i`.
pub open spec fn spec_digits_end(s: Seq<char>, i: int) -> int
    decreases s.len() - i,
{
    if 0 <= i < s.len() && spec_ascii_digit(s[i]) {
        spec_digits_end(s, i + 1)
    } else {
        i
    }
}

fn digits_end(s: &[char], start: usize) -> (r: usize)
    requires
        start <= s@.len(),
    ensures
        r == spec_digits_end(s@, start as int),
        start <= r <= s@.len(),
{
    let mut i = start;
    while i < s.len() && '0' <= s[i] && s[i] <= '9'
        invariant
            start <= i <= s@.len(),
            spec_digits_end(s@, start as int) == spec_digits_end(s@, i as int),
        decreases s@.len() - i,
    {
        i += 1;
    }
    i
}

/// The `-Z` digits from index `i`: each digit `d` from 0 to 4 sets bit `d` of the flags.
pub open spec fn spec_z_digits(s: Seq<char>, i: int, z: u8) -> (u8, int)
    decreases s.len() - i,
{
    if 0 <= i < s.len() && '0' <= s[i] <= '4' {
        spec_z_digits(s, i + 1, z | (1u8 << (((s[i] as u32) - 0x30) as u8)))
    } else {
        (z, i)
    }
}

fn z_digits(s: &[char], start: usize, z0: u8) -> (r: (u8, usize))
    requires
        start <= s@.len(),
    ensures
        r.0 == spec_z_digits(s@, start as int, z0).0,
        r.1 as int == spec_z_digits(s@, start as int, z0).1,
        start <= r.1 <= s@.len(),
{
    let mut i = start;
    let mut z = z0;
    while i < s.len() && '0' <= s[i] && s[i] <= '4'
        invariant
            start <= i <= s@.len(),
            spec_z_digits(s@, start as int, z0) == spec_z_digits(s@, i as int, z),
        decreases s@.len() - i,
    {
        let d: u8 = (s[i] as u32 - 0x30) as u8;
        z = z | (1u8 << d);
        i += 1;
    }
    (z, i)
}

/// The character an unknown option letter is reported as: the first byte of its UTF-8 form, read
/// as Latin-1.
pub open spec fn spec_option_char(c: char) -> char {
    (encode_scalar(c as u32)[0] as u32) as char
}

fn option_char(c: char) -> (r: char)
    ensures
        r == spec_option_char(c),
{
    let mut v: Vec<u8> = Vec::new();
    push_utf8(&mut v, c);
    assert(v@ =~= encode_scalar(c as u32));
    let b = v[0];
    b as char
}

/// The one setting a short option letter changes.
pub enum SettingView {
    Unchanged,
    Output(Seq<char>),
    Input(Seq<char>),
    StrictJis,
    Guess(u8),
    Transparent,
    KanjiIntro(u8),
    AsciiIntro(u8),
    Buffering(BufferingMode),
    LineEnd(LineEnding),
    Fold(FoldConfig),
    FileOutput(Seq<char>),
    MimeDecode(MimeDecodeMode),
    MimeEncode(MimeEncodeMode),
    ZFlags(u8),
    X0201(X0201Mode),
    KanaFlags(u8),
    Rot,
    BrokenJis(u8),
}

/// The settings after one change.
pub open spec fn spec_apply(c: ConfigView, s: SettingView) -> ConfigView {
    match s {
        SettingView::Unchanged => c,
        SettingView::Output(v) => ConfigView { output: v, ..c },
        SettingView::Input(v) => ConfigView { input: Some(v), ..c },
        SettingView::StrictJis => ConfigView { output: "ISO-2022-JP"@, iso2022jp_strict: true, ..c },
        SettingView::Guess(g) => ConfigView { guess: g, ..c },
        SettingView::Transparent => ConfigView { transparent: true, ..c },
        SettingView::KanjiIntro(b) => ConfigView { iso2022_kanji_intro: Some(b), ..c },
        SettingView::AsciiIntro(b) => ConfigView { iso2022_ascii_intro: Some(b), ..c },
        SettingView::Buffering(m) => ConfigView { buffering: m, ..c },
        SettingView::LineEnd(m) => ConfigView { line_ending: m, ..c },
        SettingView::Fold(f) => ConfigView { fold: Some(f), ..c },
        SettingView::FileOutput(p) => ConfigView { file_output: Some(p), ..c },
        SettingView::MimeDecode(m) => ConfigView { mime_decode_mode: m, ..c },
        SettingView::MimeEncode(m) => ConfigView { mime_encode_mode: m, ..c },
        SettingView::ZFlags(z) => ConfigView { z_flags: z, ..c },
        SettingView::X0201(m) => ConfigView { x0201_mode: m, ..c },
        SettingView::KanaFlags(k) => ConfigView { kana_flags: k, ..c },
        SettingView::Rot => ConfigView { rot: true, ..c },
        SettingView::BrokenJis(b) => ConfigView { broken_jis_flags: b, ..c },
    }
}

/// How a step ends: go on at an index, finish the run (taking the next argument or not), or stop.
pub enum StepEndView {
    Continue(int),
    Done(bool),
    Exit(CliExit),
    Fail(ErrorView),
    Overflow,
}

/// The letters that choose an encoding: `j`/`n`, `e`, `s`, `w..` for the output; `J`, `E`, `S`,
/// `W..`, `l` for the input; `I` for strict ISO-2022-JP output.
#[verifier::opaque]
pub open spec fn spec_step_encoding(body: Seq<char>, i: int) -> Option<(SettingView, StepEndView)> {
    let ch = body[i];
    let tail = body.skip(i + 1);
    if ch == 'j' || ch == 'n' {
        Some((SettingView::Output("ISO-2022-JP"@), StepEndView::Continue(i + 1)))
    } else if ch == 'e' {
        Some((SettingView::Output("EUC-JP"@), StepEndView::Continue(i + 1)))
    } else if ch == 's' {
        Some((SettingView::Output("SHIFT_JIS"@), StepEndView::Continue(i + 1)))
    } else if ch == 'w' {
        let w = spec_w_family(tail, false);
        Some((SettingView::Output(w.0), StepEndView::Continue(i + 1 + w.1)))
    } else if ch == 'J' {
        Some((SettingView::Input("ISO-2022-JP"@), StepEndView::Continue(i + 1)))
    } else if ch == 'E' {
        Some((SettingView::Input("EUC-JP"@), StepEndView::Continue(i + 1)))
    } else if ch == 'S' {
        Some((SettingView::Input("SHIFT_JIS"@), StepEndView::Continue(i + 1)))
    } else if ch == 'W' {
        let w = spec_w_family(tail, true);
        Some((SettingView::Input(w.0), StepEndView::Continue(i + 1 + w.1)))
    } else if ch == 'l' {
        Some((SettingView::Input("ISO-8859-1"@), StepEndView::Continue(i + 1)))
    } else if ch == 'I' {
        Some((SettingView::StrictJis, StepEndView::Continue(i + 1)))
    } else {
        None
    }
}

/// The letters for guessing, transparency, designators, printing, buffering, line endings,
/// folding and the output file.
#[verifier::opaque]
pub open spec fn spec_step_misc(body: Seq<char>, i: int, next: Option<Seq<char>>) -> Option<(SettingView, StepEndView)> {
    let ch = body[i];
    let has1 = i + 1 < body.len();
    let tail = body.skip(i + 1);
    if ch == 'g' {
        let g: u8 = if has1 && (body[i + 1] == '0' || body[i + 1] == '1') {
            1
        } else if has1 && '2' <= body[i + 1] <= '9' {
            2
        } else {
            1
        };
        Some((SettingView::Guess(g), StepEndView::Continue(spec_digits_end(body, i + 1))))
    } else if ch == 't' {
        Some((SettingView::Transparent, StepEndView::Continue(spec_digits_end(body, i + 1))))
    } else if ch == 'i' {
        if has1 && (body[i + 1] == '@' || body[i + 1] == 'B') {
            Some((SettingView::KanjiIntro((body[i + 1] as u32) as u8), StepEndView::Continue(i + 2)))
        } else {
            Some((SettingView::Unchanged, StepEndView::Continue(i + 1)))
        }
    } else if ch == 'o' {
        if has1 && (body[i + 1] == 'J' || body[i + 1] == 'B' || body[i + 1] == 'H') {
            Some((SettingView::AsciiIntro((body[i + 1] as u32) as u8), StepEndView::Continue(i + 2)))
        } else {
            Some((SettingView::Unchanged, StepEndView::Continue(i + 1)))
        }
    } else if ch == 'T' {
        Some((SettingView::Unchanged, StepEndView::Continue(i + 1)))
    } else if ch == 'V' {
        Some((SettingView::Unchanged, StepEndView::Exit(CliExit::Configuration)))
    } else if ch == 'v' {
        Some((SettingView::Unchanged, StepEndView::Exit(CliExit::Version)))
    } else if ch == 'b' {
        Some((SettingView::Buffering(BufferingMode::Buffered), StepEndView::Continue(i + 1)))
    } else if ch == 'u' {
        Some((SettingView::Buffering(BufferingMode::Unbuffered), StepEndView::Continue(i + 1)))
    } else if ch == 'L' {
        if has1 && (body[i + 1] == 'u' || body[i + 1] == 'f') {
            Some((SettingView::LineEnd(LineEnding::Unix), StepEndView::Continue(i + 2)))
        } else if has1 && body[i + 1] == 'w' {
            Some((SettingView::LineEnd(LineEnding::Windows), StepEndView::Continue(i + 2)))
        } else if has1 && body[i + 1] == 'm' {
            Some((SettingView::LineEnd(LineEnding::Mac), StepEndView::Continue(i + 2)))
        } else {
            Some((SettingView::LineEnd(LineEnding::Unix), StepEndView::Continue(i + 1)))
        }
    } else if ch == 'd' {
        Some((SettingView::LineEnd(LineEnding::Unix), StepEndView::Continue(i + 1)))
    } else if ch == 'c' {
        Some((SettingView::LineEnd(LineEnding::Windows), StepEndView::Continue(i + 1)))
    } else if ch == 'F' || ch == 'f' {
        match spec_parse_fold(tail, ch == 'F') {
            None => Some((SettingView::Unchanged, StepEndView::Overflow)),
            Some((f, k)) => Some((SettingView::Fold(f), StepEndView::Continue(i + 1 + k))),
        }
    } else if ch == 'O' {
        if tail.len() == 0 {
            match next {
                None => Some((SettingView::Unchanged, StepEndView::Fail(ErrorView::MissingOutputName))),
                Some(p) => Some((SettingView::FileOutput(p), StepEndView::Done(true))),
            }
        } else {
            Some((SettingView::FileOutput(tail), StepEndView::Done(false)))
        }
    } else {
        None
    }
}

/// The letters for MIME decoding and encoding, the width and kana filters, ROT13 and the JIS
/// repairs; `z`, `kana` and `broken` are the flags so far.
#[verifier::opaque]
pub open spec fn spec_step_filter(body: Seq<char>, i: int, z: u8, kana: u8, broken: u8) -> Option<(SettingView, StepEndView)> {
    let ch = body[i];
    let has1 = i + 1 < body.len();
    if ch == 'm' {
        if has1 && body[i + 1] == 'B' {
            Some((SettingView::MimeDecode(MimeDecodeMode::Base64), StepEndView::Continue(i + 2)))
        } else if has1 && body[i + 1] == 'Q' {
            Some((SettingView::MimeDecode(MimeDecodeMode::QuotedPrintable), StepEndView::Continue(i + 2)))
        } else if has1 && body[i + 1] == 'S' {
            Some((SettingView::MimeDecode(MimeDecodeMode::Strict), StepEndView::Continue(i + 2)))
        } else if has1 && body[i + 1] == 'N' {
            Some((SettingView::MimeDecode(MimeDecodeMode::Nonstrict), StepEndView::Continue(i + 2)))
        } else if has1 && body[i + 1] == '0' {
            Some((SettingView::MimeDecode(MimeDecodeMode::Off), StepEndView::Continue(i + 2)))
        } else {
            Some((SettingView::MimeDecode(MimeDecodeMode::Strict), StepEndView::Continue(i + 1)))
        }
    } else if ch == 'M' {
        if has1 && body[i + 1] == 'B' {
            Some((SettingView::MimeEncode(MimeEncodeMode::Base64), StepEndView::Continue(i + 2)))
        } else if has1 && body[i + 1] == 'Q' {
            Some((SettingView::MimeEncode(MimeEncodeMode::QuotedPrintable), StepEndView::Continue(i + 2)))
        } else {
            Some((SettingView::MimeEncode(MimeEncodeMode::Auto), StepEndView::Continue(i + 1)))
        }
    } else if ch == 'Z' {
        let (zz, j) = spec_z_digits(body, i + 1, z);
        Some((SettingView::ZFlags(zz | 1u8), StepEndView::Continue(j)))
    } else if ch == 'X' {
        Some((SettingView::X0201(X0201Mode::Fullwidth), StepEndView::Continue(i + 1)))
    } else if ch == 'x' {
        Some((SettingView::X0201(X0201Mode::Preserve), StepEndView::Continue(i + 1)))
    } else if ch == 'h' {
        if has1 && spec_ascii_digit(body[i + 1]) {
            Some((SettingView::KanaFlags(kana | (((body[i + 1] as u32) - 0x30) as u8)), StepEndView::Continue(i + 2)))
        } else {
            Some((SettingView::KanaFlags(kana | 1u8), StepEndView::Continue(i + 1)))
        }
    } else if ch == 'r' {
        Some((SettingView::Rot, StepEndView::Continue(i + 1)))
    } else if ch == 'B' {
        if has1 && spec_ascii_digit(body[i + 1]) {
            if (body[i + 1] as u32) - 0x30 >= 8 {
                Some((SettingView::Unchanged, StepEndView::Overflow))
            } else {
                Some((SettingView::BrokenJis(broken | (1u8 << (((body[i + 1] as u32) - 0x30) as u8))), StepEndView::Continue(i + 2)))
            }
        } else {
            Some((SettingView::BrokenJis(broken | 1u8), StepEndView::Continue(i + 1)))
        }
    } else {
        None
    }
}

/// One short option letter at index `i` (within the body) and what follows it.
pub open spec fn spec_short_step(body: Seq<char>, i: int, c: ConfigView, next: Option<Seq<char>>) -> (SettingView, StepEndView) {
    match spec_step_encoding(body, i) {
        Some(s) => s,
        None => match spec_step_misc(body, i, next) {
            Some(s) => s,
            None => match spec_step_filter(body, i, c.z_flags, c.kana_flags, c.broken_jis_flags) {
                Some(s) => s,
                None => (SettingView::Unchanged, StepEndView::Fail(ErrorView::UnsupportedOption(seq!['-', spec_option_char(body[i])]))),
            },
        },
    }
}

/// A run of short options from index `i` of the body (the option without its dashes); `next` is
/// the argument after this one, which `-O` with nothing after it takes as the file name.
pub open spec fn spec_short(body: Seq<char>, i: int, c: ConfigView, next: Option<Seq<char>>) -> ShortView
    decreases body.len() - i,
{
    if i < 0 || i >= body.len() {
        ShortView::Done(c, false)
    } else {
        let (s, e) = spec_short_step(body, i, c, next);
        let c2 = spec_apply(c, s);
        match e {
            StepEndView::Continue(j) => if i < j <= body.len() {
                spec_short(body, j, c2, next)
            } else {
                ShortView::Done(c2, false)
            },
            StepEndView::Done(took) => ShortView::Done(c2, took),
            StepEndView::Exit(x) => ShortView::Exit(x),
            StepEndView::Fail(err) => ShortView::Fail(err),
            StepEndView::Overflow => ShortView::Overflow,
        }
    }
}

/// The view of a short-option outcome, given the settings it ends with.
pub open spec fn short_view(r: ShortOutcome, c: ConfigView) -> ShortView {
    match r {
        ShortOutcome::Done(took) => ShortView::Done(c, took),
        ShortOutcome::Exit(x) => ShortView::Exit(x),
        ShortOutcome::Fail(e) => ShortView::Fail(e@),
        ShortOutcome::Overflow => ShortView::Overflow,
    }
}

/// A `String` option read as its characters, for a borrowed string.
pub open spec fn opt_ref_text(o: Option<&String>) -> Option<Seq<char>> {
    match o {
        Some(s) => Some(s@),
        None => None,
    }
}

/// The one setting a short option letter changes.
pub enum Setting {
    Unchanged,
    Output(String),
    Input(String),
    StrictJis,
    Guess(u8),
    Transparent,
    KanjiIntro(u8),
    AsciiIntro(u8),
    Buffering(BufferingMode),
    LineEnd(LineEnding),
    Fold(FoldConfig),
    FileOutput(String),
    MimeDecode(MimeDecodeMode),
    MimeEncode(MimeEncodeMode),
    ZFlags(u8),
    X0201(X0201Mode),
    KanaFlags(u8),
    Rot,
    BrokenJis(u8),
}

impl View for Setting {
    type V = SettingView;

    open spec fn view(&self) -> SettingView {
        match self {
            Setting::Unchanged => SettingView::Unchanged,
            Setting::Output(v) => SettingView::Output(v@),
            Setting::Input(v) => SettingView::Input(v@),
            Setting::StrictJis => SettingView::StrictJis,
            Setting::Guess(g) => SettingView::Guess(*g),
            Setting::Transparent => SettingView::Transparent,
            Setting::KanjiIntro(b) => SettingView::KanjiIntro(*b),
            Setting::AsciiIntro(b) => SettingView::AsciiIntro(*b),
            Setting::Buffering(m) => SettingView::Buffering(*m),
            Setting::LineEnd(m) => SettingView::LineEnd(*m),
            Setting::Fold(f) => SettingView::Fold(*f),
            Setting::FileOutput(p) => SettingView::FileOutput(p@),
            Setting::MimeDecode(m) => SettingView::MimeDecode(*m),
            Setting::MimeEncode(m) => SettingView::MimeEncode(*m),
            Setting::ZFlags(z) => SettingView::ZFlags(*z),
            Setting::X0201(m) => SettingView::X0201(*m),
            Setting::KanaFlags(k) => SettingView::KanaFlags(*k),
            Setting::Rot => SettingView::Rot,
            Setting::BrokenJis(b) => SettingView::BrokenJis(*b),
        }
    }
}

/// How a step ends.
pub enum StepEnd {
    Continue(usize),
    Done(bool),
    Exit(CliExit),
    Fail(NkfError),
    Overflow,
}

impl View for StepEnd {
    type V = StepEndView;

    open spec fn view(&self) -> StepEndView {
        match self {
            StepEnd::Continue(j) => StepEndView::Continue(*j as int),
            StepEnd::Done(t) => StepEndView::Done(*t),
            StepEnd::Exit(x) => StepEndView::Exit(*x),
            StepEnd::Fail(e) => StepEndView::Fail(e@),
            StepEnd::Overflow => StepEndView::Overflow,
        }
    }
}

/// The view of a step's result.
pub open spec fn step_view(r: (Setting, StepEnd)) -> (SettingView, StepEndView) {
    (r.0@, r.1@)
}

/// Whether a step goes on within the text.
pub open spec fn step_in_range(r: (Setting, StepEnd), i: int, n: int) -> bool {
    r.1 matches StepEnd::Continue(j) ==> i < j <= n
}

fn go(setting: Setting, j: usize) -> (r: Option<(Setting, StepEnd)>)
    ensures
        r matches Some(p) && p.0 == setting && p.1 == StepEnd::Continue(j),
{
    Some((setting, StepEnd::Continue(j)))
}

fn step_encoding(body: &[char], i: usize) -> (r: Option<(Setting, StepEnd)>)
    requires
        i < body@.len(),
    ensures
        match r {
            None => spec_step_encoding(body@, i as int) is None,
            Some(p) => spec_step_encoding(body@, i as int) == Some(step_view(p)) && step_in_range(p, i as int, body@.len() as int),
        },
{
    reveal(spec_step_encoding);
    let ch = body[i];
    if ch == 'j' || ch == 'n' {
        go(Setting::Output(String::from_str("ISO-2022-JP")), i + 1)
    } else if ch == 'e' {
        go(Setting::Output(String::from_str("EUC-JP")), i + 1)
    } else if ch == 's' {
        go(Setting::Output(String::from_str("SHIFT_JIS")), i + 1)
    } else if ch == 'w' || ch == 'W' {
        let tail = chars_from(body, i + 1);
        let (enc, k) = parse_w_family(tail.as_slice(), ch == 'W');
        proof {
            lemma_w_family_len(tail@, ch == 'W');
        }
        if ch == 'w' {
            go(Setting::Output(enc), i + 1 + k)
        } else {
            go(Setting::Input(enc), i + 1 + k)
        }
    } else if ch == 'J' {
        go(Setting::Input(String::from_str("ISO-2022-JP")), i + 1)
    } else if ch == 'E' {
        go(Setting::Input(String::from_str("EUC-JP")), i + 1)
    } else if ch == 'S' {
        go(Setting::Input(String::from_str("SHIFT_JIS")), i + 1)
    } else if ch == 'l' {
        go(Setting::Input(String::from_str("ISO-8859-1")), i + 1)
    } else if ch == 'I' {
        go(Setting::StrictJis, i + 1)
    } else {
        None
    }
}

fn step_misc(body: &[char], i: usize, next: Option<&String>) -> (r: Option<(Setting, StepEnd)>)
    requires
        i < body@.len(),
    ensures
        match r {
            None => spec_step_misc(body@, i as int, opt_ref_text(next)) is None,
            Some(p) => spec_step_misc(body@, i as int, opt_ref_text(next)) == Some(step_view(p)) && step_in_range(p, i as int, body@.len() as int),
        },
{
    reveal(spec_step_misc);
    let ch = body[i];
    let n = body.len();
    let has1 = i + 1 < n;
    if ch == 'g' {
        let g: u8 = if has1 && (body[i + 1] == '0' || body[i + 1] == '1') {
            1
        } else if has1 && '2' <= body[i + 1] && body[i + 1] <= '9' {
            2
        } else {
            1
        };
        go(Setting::Guess(g), digits_end(body, i + 1))
    } else if ch == 't' {
        go(Setting::Transparent, digits_end(body, i + 1))
    } else if ch == 'i' {
        if has1 && (body[i + 1] == '@' || body[i + 1] == 'B') {
            go(Setting::KanjiIntro((body[i + 1] as u32) as u8), i + 2)
        } else {
            go(Setting::Unchanged, i + 1)
        }
    } else if ch == 'o' {
        if has1 && (body[i + 1] == 'J' || body[i + 1] == 'B' || body[i + 1] == 'H') {
            go(Setting::AsciiIntro((body[i + 1] as u32) as u8), i + 2)
        } else {
            go(Setting::Unchanged, i + 1)
        }
    } else if ch == 'T' {
        go(Setting::Unchanged, i + 1)
    } else if ch == 'V' {
        Some((Setting::Unchanged, StepEnd::Exit(CliExit::Configuration)))
    } else if ch == 'v' {
        Some((Setting::Unchanged, StepEnd::Exit(CliExit::Version)))
    } else if ch == 'b' {
        go(Setting::Buffering(BufferingMode::Buffered), i + 1)
    } else if ch == 'u' {
        go(Setting::Buffering(BufferingMode::Unbuffered), i + 1)
    } else if ch == 'L' {
        if has1 && (body[i + 1] == 'u' || body[i + 1] == 'f') {
            go(Setting::LineEnd(LineEnding::Unix), i + 2)
        } else if has1 && body[i + 1] == 'w' {
            go(Setting::LineEnd(LineEnding::Windows), i + 2)
        } else if has1 && body[i + 1] == 'm' {
            go(Setting::LineEnd(LineEnding::Mac), i + 2)
        } else {
            go(Setting::LineEnd(LineEnding::Unix), i + 1)
        }
    } else if ch == 'd' {
        go(Setting::LineEnd(LineEnding::Unix), i + 1)
    } else if ch == 'c' {
        go(Setting::LineEnd(LineEnding::Windows), i + 1)
    } else if ch == 'F' || ch == 'f' {
        let tail = chars_from(body, i + 1);
        proof {
            lemma_parse_fold_len(tail@, ch == 'F');
        }
        match parse_fold(tail.as_slice(), ch == 'F') {
            None => Some((Setting::Unchanged, StepEnd::Overflow)),
            Some((f, k)) => go(Setting::Fold(f), i + 1 + k),
        }
    } else if ch == 'O' {
        if i + 1 == n {
            assert(body@.skip(i + 1).len() == 0);
            match next {
                None => Some((Setting::Unchanged, StepEnd::Fail(NkfError::MissingOutputName))),
                Some(p) => Some((Setting::FileOutput(p.clone()), StepEnd::Done(true))),
            }
        } else {
            let tail = chars_from(body, i + 1);
            Some((Setting::FileOutput(chars_to_string(tail.as_slice())), StepEnd::Done(false)))
        }
    } else {
        None
    }
}

#[verifier::rlimit(40)]
fn step_filter(body: &[char], i: usize, z: u8, kana: u8, broken: u8) -> (r: Option<(Setting, StepEnd)>)
    requires
        i < body@.len(),
    ensures
        match r {
            None => spec_step_filter(body@, i as int, z, kana, broken) is None,
            Some(p) => spec_step_filter(body@, i as int, z, kana, broken) == Some(step_view(p)) && step_in_range(p, i as int, body@.len() as int),
        },
{
    reveal(spec_step_filter);
    let ch = body[i];
    let n = body.len();
    let has1 = i + 1 < n;
    if ch == 'm' {
        if has1 && body[i + 1] == 'B' {
            go(Setting::MimeDecode(MimeDecodeMode::Base64), i + 2)
        } else if has1 && body[i + 1] == 'Q' {
            go(Setting::MimeDecode(MimeDecodeMode::QuotedPrintable), i + 2)
        } else if has1 && body[i + 1] == 'S' {
            go(Setting::MimeDecode(MimeDecodeMode::Strict), i + 2)
        } else if has1 && body[i + 1] == 'N' {
            go(Setting::MimeDecode(MimeDecodeMode::Nonstrict), i + 2)
        } else if has1 && body[i + 1] == '0' {
            go(Setting::MimeDecode(MimeDecodeMode::Off), i + 2)
        } else {
            go(Setting::MimeDecode(MimeDecodeMode::Strict), i + 1)
        }
    } else if ch == 'M' {
        if has1 && body[i + 1] == 'B' {
            go(Setting::MimeEncode(MimeEncodeMode::Base64), i + 2)
        } else if has1 && body[i + 1] == 'Q' {
            go(Setting::MimeEncode(MimeEncodeMode::QuotedPrintable), i + 2)
        } else {
            go(Setting::MimeEncode(MimeEncodeMode::Auto), i + 1)
        }
    } else if ch == 'Z' {
        let (zz, j) = z_digits(body, i + 1, z);
        go(Setting::ZFlags(zz | 1), j)
    } else if ch == 'X' {
        go(Setting::X0201(X0201Mode::Fullwidth), i + 1)
    } else if ch == 'x' {
        go(Setting::X0201(X0201Mode::Preserve), i + 1)
    } else if ch == 'h' {
        if has1 && '0' <= body[i + 1] && body[i + 1] <= '9' {
            go(Setting::KanaFlags(kana | ((body[i + 1] as u32 - 0x30) as u8)), i + 2)
        } else {
            go(Setting::KanaFlags(kana | 1), i + 1)
        }
    } else if ch == 'r' {
        go(Setting::Rot, i + 1)
    } else if ch == 'B' {
        if has1 && '0' <= body[i + 1] && body[i + 1] <= '9' {
            let d: u32 = body[i + 1] as u32 - 0x30;
            if d >= 8 {
                Some((Setting::Unchanged, StepEnd::Overflow))
            } else {
                go(Setting::BrokenJis(broken | (1u8 << (d as u8))), i + 2)
            }
        } else {
            go(Setting::BrokenJis(broken | 1), i + 1)
        }
    } else {
        None
    }
}

fn apply_names_setting(config: &mut Config, setting: Setting)
    requires
        setting is Output || setting is Input || setting is StrictJis || setting is FileOutput,
    ensures
        final(config)@ == spec_apply(old(config)@, setting@),
{
    match setting {
        Setting::Output(v) => {
            config.output = v;
        },
        Setting::Input(v) => {
            config.input = Some(v);
        },
        Setting::StrictJis => {
            config.output = String::from_str("ISO-2022-JP");
            config.iso2022jp_strict = true;
        },
        Setting::FileOutput(p) => {
            config.file_output = Some(p);
        },
        _ => {},
    }
}

fn apply_modes_setting(config: &mut Config, setting: Setting)
    requires
        setting is Guess || setting is Transparent || setting is KanjiIntro || setting is AsciiIntro || setting is Buffering,
    ensures
        final(config)@ == spec_apply(old(config)@, setting@),
{
    match setting {
        Setting::Guess(g) => {
            config.guess = g;
        },
        Setting::Transparent => {
            config.transparent = true;
        },
        Setting::KanjiIntro(b) => {
            config.iso2022_kanji_intro = Some(b);
        },
        Setting::AsciiIntro(b) => {
            config.iso2022_ascii_intro = Some(b);
        },
        Setting::Buffering(m) => {
            config.buffering = m;
        },
        _ => {},
    }
}

fn apply_lines_setting(config: &mut Config, setting: Setting)
    requires
        setting is LineEnd || setting is Fold,
    ensures
        final(config)@ == spec_apply(old(config)@, setting@),
{
    match setting {
        Setting::LineEnd(m) => {
            config.line_ending = m;
        },
        Setting::Fold(f) => {
            config.fold = Some(f);
        },
        _ => {},
    }
}

fn apply_mime_setting(config: &mut Config, setting: Setting)
    requires
        setting is MimeDecode || setting is MimeEncode,
    ensures
        final(config)@ == spec_apply(old(config)@, setting@),
{
    match setting {
        Setting::MimeDecode(m) => {
            config.mime_decode_mode = m;
        },
        Setting::MimeEncode(m) => {
            config.mime_encode_mode = m;
        },
        _ => {},
    }
}

fn apply_filters_setting(config: &mut Config, setting: Setting)
    requires
        setting is ZFlags || setting is X0201 || setting is KanaFlags || setting is Rot || setting is BrokenJis,
    ensures
        final(config)@ == spec_apply(old(config)@, setting@),
{
    match setting {
        Setting::ZFlags(z) => {
            config.z_flags = z;
        },
        Setting::X0201(m) => {
            config.x0201_mode = m;
        },
        Setting::KanaFlags(k) => {
            config.kana_flags = k;
        },
        Setting::Rot => {
            config.rot = true;
        },
        Setting::BrokenJis(b) => {
            config.broken_jis_flags = b;
        },
        _ => {},
    }
}

/// Applies one setting change.
pub fn apply_setting(config: &mut Config, setting: Setting)
    ensures
        final(config)@ == spec_apply(old(config)@, setting@),
{
    match setting {
        Setting::Unchanged => {},
        Setting::Output(..) | Setting::Input(..) | Setting::StrictJis | Setting::FileOutput(..) => apply_names_setting(config, setting),
        Setting::Guess(..) | Setting::Transparent | Setting::KanjiIntro(..) | Setting::AsciiIntro(..) | Setting::Buffering(..) => apply_modes_setting(config, setting),
        Setting::LineEnd(..) | Setting::Fold(..) => apply_lines_setting(config, setting),
        Setting::MimeDecode(..) | Setting::MimeEncode(..) => apply_mime_setting(config, setting),
        Setting::ZFlags(..) | Setting::X0201(..) | Setting::KanaFlags(..) | Setting::Rot | Setting::BrokenJis(..) => apply_filters_setting(config, setting),
    }
}

/// Reads a run of short options (`-jw16 -Lu ...`); `next` is the argument after this one.
pub fn parse_short_options(arg: &[char], config: &mut Config, next: Option<&String>) -> (r: ShortOutcome)
    ensures
        short_view(r, final(config)@) == spec_short(spec_trim_dashes(arg@), 0, old(config)@, opt_ref_text(next)),
{
    let body = trim_dashes(arg);
    let ghost b = body@;
    let ghost nv = opt_ref_text(next);
    let n = body.len();
    let mut i: usize = 0;
    while i < n
        invariant
            n == b.len(),
            body@ == b,
            b == spec_trim_dashes(arg@),
            i <= n,
            nv == opt_ref_text(next),
            spec_short(b, 0, old(config)@, nv) == spec_short(b, i as int, config@, nv),
        decreases n - i,
    {
        let ghost before = config@;
        let step = match step_encoding(body.as_slice(), i) {
            Some(s) => s,
            None => match step_misc(body.as_slice(), i, next) {
                Some(s) => s,
                None => match step_filter(body.as_slice(), i, config.z_flags, config.kana_flags, config.broken_jis_flags) {
                    Some(s) => s,
                    None => {
                        let mut text: Vec<char> = Vec::new();
                        text.push('-');
                        text.push(option_char(body[i]));
                        assert(text@ =~= seq!['-', spec_option_char(b[i as int])]);
                        (Setting::Unchanged, StepEnd::Fail(NkfError::UnsupportedOption(chars_to_string(text.as_slice()))))
                    },
                },
            },
        };
        assert(spec_short_step(b, i as int, before, nv) == step_view(step));
        assert(step_in_range(step, i as int, n as int));
        let (setting, end) = step;
        let ghost sv = setting@;
        let ghost ev = end@;
        apply_setting(config, setting);
        assert(config@ == spec_apply(before, sv));
        assert(spec_short(b, i as int, before, nv) == match ev {
            StepEndView::Continue(j) => if i < j <= b.len() {
                spec_short(b, j, config@, nv)
            } else {
                ShortView::Done(config@, false)
            },
            StepEndView::Done(took) => ShortView::Done(config@, took),
            StepEndView::Exit(x) => ShortView::Exit(x),
            StepEndView::Fail(err) => ShortView::Fail(err),
            StepEndView::Overflow => ShortView::Overflow,
        });
        match end {
            StepEnd::Continue(j) => {
                i = j;
            },
            StepEnd::Done(took) => {
                return ShortOutcome::Done(took);
            },
            StepEnd::Exit(x) => {
                return ShortOutcome::Exit(x);
            },
            StepEnd::Fail(e) => {
                return ShortOutcome::Fail(e);
            },
            StepEnd::Overflow => {
                return ShortOutcome::Overflow;
            },
        }
    }
    ShortOutcome::Done(false)
}

/// The one setting a long option changes.
pub enum LongSettingView {
    Input(Seq<char>),
    Output(Seq<char>),
    Guess(u8),
    Utf8Mac,
    KanaOr(u8),
    CapInput,
    UrlInput,
    NumcharInput,
    NoOutput,
    Prefix(Seq<char>),
    Cp932,
    NoCp932,
    Cp932Inv,
    NoCp932Ext,
    NoBestFit,
    MsUcsMap,
    Debug,
    Unchanged,
    Fallback(EncodeFallback),
    Overwrite(bool, Option<Seq<char>>),
}

/// The settings after the change a long option makes.
pub open spec fn spec_apply_long(c: ConfigView, s: LongSettingView) -> ConfigView {
    match s {
        LongSettingView::Input(v) => ConfigView { input: Some(v), ..c },
        LongSettingView::Output(v) => ConfigView { output: v, ..c },
        LongSettingView::Guess(g) => ConfigView { guess: g, ..c },
        LongSettingView::Utf8Mac => ConfigView { normalize_utf8_mac: true, ..c },
        LongSettingView::KanaOr(b) => ConfigView { kana_flags: c.kana_flags | b, ..c },
        LongSettingView::CapInput => ConfigView { cap_input: true, ..c },
        LongSettingView::UrlInput => ConfigView { url_input: true, ..c },
        LongSettingView::NumcharInput => ConfigView { numchar_input: true, ..c },
        LongSettingView::NoOutput => ConfigView { no_output: true, ..c },
        LongSettingView::Prefix(v) => ConfigView { prefix_rules: c.prefix_rules + spec_prefix_rules_of(v), ..c },
        LongSettingView::Cp932 => ConfigView { cp932_compat: true, cp932inv: true, ms_ucs_map: MsUcsMap::Cp932, ..c },
        LongSettingView::NoCp932 => ConfigView { cp932_compat: false, cp932inv: false, ms_ucs_map: MsUcsMap::Ascii, ..c },
        LongSettingView::Cp932Inv => ConfigView { cp932inv: true, ..c },
        LongSettingView::NoCp932Ext => ConfigView { no_cp932ext: true, ..c },
        LongSettingView::NoBestFit => ConfigView { no_best_fit_chars: true, ..c },
        LongSettingView::MsUcsMap => ConfigView { ms_ucs_map: MsUcsMap::Ms, ..c },
        LongSettingView::Debug => ConfigView { debug: true, ..c },
        LongSettingView::Unchanged => c,
        LongSettingView::Fallback(f) => ConfigView { encode_fallback: f, ..c },
        LongSettingView::Overwrite(keep, suffix) => ConfigView { overwrite: Some((keep, suffix)), ..c },
    }
}

/// The long options that change one setting and go on: `--ic=`, `--oc=`, `--guess[=N]`,
/// `--utf8mac-input`, the kana, input-decoding and output switches, `--prefix=`, the CP932
/// switches, `--debug`, `--x0212`, the `--fb-*` fallbacks, `--overwrite[=SUF]` and
/// `--in-place[=SUF]`. A `--fb-subchar=` value that does not parse is an error.
#[verifier::opaque]
pub open spec fn spec_long_flag(a: Seq<char>) -> Option<Result<LongSettingView, ErrorView>> {
    if has_prefix(a, "--ic="@) {
        Some(Ok(LongSettingView::Input(spec_normalize(a.skip(5)))))
    } else if has_prefix(a, "--oc="@) {
        Some(Ok(LongSettingView::Output(spec_normalize(a.skip(5)))))
    } else if a == "--guess"@ {
        Some(Ok(LongSettingView::Guess(2)))
    } else if has_prefix(a, "--guess="@) {
        let v = a.skip(8);
        Some(Ok(LongSettingView::Guess(if v == "0"@ || v == "1"@ { 1 } else { 2 })))
    } else if a == "--utf8mac-input"@ {
        Some(Ok(LongSettingView::Utf8Mac))
    } else if a == "--hiragana"@ {
        Some(Ok(LongSettingView::KanaOr(1)))
    } else if a == "--katakana"@ {
        Some(Ok(LongSettingView::KanaOr(2)))
    } else if a == "--katakana-hiragana"@ {
        Some(Ok(LongSettingView::KanaOr(3)))
    } else if a == "--cap-input"@ {
        Some(Ok(LongSettingView::CapInput))
    } else if a == "--url-input"@ {
        Some(Ok(LongSettingView::UrlInput))
    } else if a == "--numchar-input"@ {
        Some(Ok(LongSettingView::NumcharInput))
    } else if a == "--no-output"@ {
        Some(Ok(LongSettingView::NoOutput))
    } else if has_prefix(a, "--prefix="@) {
        Some(Ok(LongSettingView::Prefix(a.skip(9))))
    } else if a == "--cp932"@ {
        Some(Ok(LongSettingView::Cp932))
    } else if a == "--no-cp932"@ {
        Some(Ok(LongSettingView::NoCp932))
    } else if a == "--cp932inv"@ {
        Some(Ok(LongSettingView::Cp932Inv))
    } else if a == "--no-cp932ext"@ {
        Some(Ok(LongSettingView::NoCp932Ext))
    } else if a == "--no-best-fit-chars"@ {
        Some(Ok(LongSettingView::NoBestFit))
    } else if a == "--ms-ucs-map"@ {
        Some(Ok(LongSettingView::MsUcsMap))
    } else if a == "--debug"@ {
        Some(Ok(LongSettingView::Debug))
    } else if a == "--x0212"@ {
        Some(Ok(LongSettingView::Unchanged))
    } else if a == "--fb-skip"@ {
        Some(Ok(LongSettingView::Fallback(EncodeFallback::Skip)))
    } else if a == "--fb-html"@ {
        Some(Ok(LongSettingView::Fallback(EncodeFallback::Html)))
    } else if a == "--fb-xml"@ {
        Some(Ok(LongSettingView::Fallback(EncodeFallback::Xml)))
    } else if a == "--fb-java"@ {
        Some(Ok(LongSettingView::Fallback(EncodeFallback::Java)))
    } else if a == "--fb-perl"@ {
        Some(Ok(LongSettingView::Fallback(EncodeFallback::Perl)))
    } else if a == "--fb-subchar"@ {
        Some(Ok(LongSettingView::Fallback(EncodeFallback::Subchar('?'))))
    } else if has_prefix(a, "--fb-subchar="@) {
        match spec_subchar(a.skip(13)) {
            Ok(ch) => Some(Ok(LongSettingView::Fallback(EncodeFallback::Subchar(ch)))),
            Err(e) => Some(Err(e)),
        }
    } else if a == "--overwrite"@ {
        Some(Ok(LongSettingView::Overwrite(true, None)))
    } else if has_prefix(a, "--overwrite="@) {
        Some(Ok(LongSettingView::Overwrite(true, Some(a.skip(12)))))
    } else if a == "--in-place"@ {
        Some(Ok(LongSettingView::Overwrite(false, None)))
    } else if has_prefix(a, "--in-place="@) {
        Some(Ok(LongSettingView::Overwrite(false, Some(a.skip(11)))))
    } else {
        None
    }
}

/// The long options that change one setting: `--hiragana`, `--katakana` and
/// `--katakana-hiragana` add the kana flags 1, 2 and 3, `--guess` asks for the level-2 guess,
/// the `--fb-*` options choose how characters the output cannot hold are written, `--cp932`,
/// `--no-cp932`, `--cp932inv`, `--no-cp932ext`, `--no-best-fit-chars` and `--ms-ucs-map` the
/// CP932 switches, `--overwrite` and `--in-place` rewrite the input files (keeping the time stamp
/// or not); `--ic=NAME` and `--oc=NAME` set the input and output encoding to NAME's canonical
/// spelling, whatever NAME is.
pub proof fn lemma_long_flag_table(v: Seq<char>)
    ensures
        spec_long_flag("--guess"@) == Some(Ok::<LongSettingView, ErrorView>(LongSettingView::Guess(2))),
        spec_long_flag("--utf8mac-input"@) == Some(Ok::<LongSettingView, ErrorView>(LongSettingView::Utf8Mac)),
        spec_long_flag("--hiragana"@) == Some(Ok::<LongSettingView, ErrorView>(LongSettingView::KanaOr(1))),
        spec_long_flag("--katakana"@) == Some(Ok::<LongSettingView, ErrorView>(LongSettingView::KanaOr(2))),
        spec_long_flag("--katakana-hiragana"@) == Some(Ok::<LongSettingView, ErrorView>(LongSettingView::KanaOr(3))),
        spec_long_flag("--cap-input"@) == Some(Ok::<LongSettingView, ErrorView>(LongSettingView::CapInput)),
        spec_long_flag("--url-input"@) == Some(Ok::<LongSettingView, ErrorView>(LongSettingView::UrlInput)),
        spec_long_flag("--numchar-input"@) == Some(Ok::<LongSettingView, ErrorView>(LongSettingView::NumcharInput)),
        spec_long_flag("--no-output"@) == Some(Ok::<LongSettingView, ErrorView>(LongSettingView::NoOutput)),
        spec_long_flag("--cp932"@) == Some(Ok::<LongSettingView, ErrorView>(LongSettingView::Cp932)),
        spec_long_flag("--no-cp932"@) == Some(Ok::<LongSettingView, ErrorView>(LongSettingView::NoCp932)),
        spec_long_flag("--cp932inv"@) == Some(Ok::<LongSettingView, ErrorView>(LongSettingView::Cp932Inv)),
        spec_long_flag("--no-cp932ext"@) == Some(Ok::<LongSettingView, ErrorView>(LongSettingView::NoCp932Ext)),
        spec_long_flag("--no-best-fit-chars"@) == Some(Ok::<LongSettingView, ErrorView>(LongSettingView::NoBestFit)),
        spec_long_flag("--ms-ucs-map"@) == Some(Ok::<LongSettingView, ErrorView>(LongSettingView::MsUcsMap)),
        spec_long_flag("--debug"@) == Some(Ok::<LongSettingView, ErrorView>(LongSettingView::Debug)),
        spec_long_flag("--x0212"@) == Some(Ok::<LongSettingView, ErrorView>(LongSettingView::Unchanged)),
        spec_long_flag("--fb-skip"@) == Some(Ok::<LongSettingView, ErrorView>(LongSettingView::Fallback(EncodeFallback::Skip))),
        spec_long_flag("--fb-html"@) == Some(Ok::<LongSettingView, ErrorView>(LongSettingView::Fallback(EncodeFallback::Html))),
        spec_long_flag("--fb-xml"@) == Some(Ok::<LongSettingView, ErrorView>(LongSettingView::Fallback(EncodeFallback::Xml))),
        spec_long_flag("--fb-java"@) == Some(Ok::<LongSettingView, ErrorView>(LongSettingView::Fallback(EncodeFallback::Java))),
        spec_long_flag("--fb-perl"@) == Some(Ok::<LongSettingView, ErrorView>(LongSettingView::Fallback(EncodeFallback::Perl))),
        spec_long_flag("--fb-subchar"@) == Some(Ok::<LongSettingView, ErrorView>(LongSettingView::Fallback(EncodeFallback::Subchar('?')))),
        spec_long_flag("--overwrite"@) == Some(Ok::<LongSettingView, ErrorView>(LongSettingView::Overwrite(true, None))),
        spec_long_flag("--in-place"@) == Some(Ok::<LongSettingView, ErrorView>(LongSettingView::Overwrite(false, None))),
        spec_long_flag("--ic="@ + v) == Some(Ok::<LongSettingView, ErrorView>(LongSettingView::Input(spec_normalize(v)))),
        spec_long_flag("--oc="@ + v) == Some(Ok::<LongSettingView, ErrorView>(LongSettingView::Output(spec_normalize(v)))),
{
    reveal(spec_long_flag);
    assert(spec_long_flag("--guess"@) == Some(Ok::<LongSettingView, ErrorView>(LongSettingView::Guess(2)))) by {
        reveal_strlit("--guess");
        reveal_strlit("--ic=");
        lemma_not_prefix("--guess"@, "--ic="@, 2);
        reveal_strlit("--oc=");
        lemma_not_prefix("--guess"@, "--oc="@, 2);
    }
    assert(spec_long_flag("--utf8mac-input"@) == Some(Ok::<LongSettingView, ErrorView>(LongSettingView::Utf8Mac))) by {
        reveal_strlit("--utf8mac-input");
        reveal_strlit("--ic=");
        lemma_not_prefix("--utf8mac-input"@, "--ic="@, 2);
        reveal_strlit("--oc=");
        lemma_not_prefix("--utf8mac-input"@, "--oc="@, 2);
        reveal_strlit("--guess");
        assert("--utf8mac-input"@.len() != "--guess"@.len());
        reveal_strlit("--guess=");
        lemma_not_prefix("--utf8mac-input"@, "--guess="@, 2);
    }
    assert(spec_long_flag("--hiragana"@) == Some(Ok::<LongSettingView, ErrorView>(LongSettingView::KanaOr(1)))) by {
        reveal_strlit("--hiragana");
        reveal_strlit("--ic=");
        lemma_not_prefix("--hiragana"@, "--ic="@, 2);
        reveal_strlit("--oc=");
        lemma_not_prefix("--hiragana"@, "--oc="@, 2);
        reveal_strlit("--guess");
        assert("--hiragana"@.len() != "--guess"@.len());
        reveal_strlit("--guess=");
        lemma_not_prefix("--hiragana"@, "--guess="@, 2);
        reveal_strlit("--utf8mac-input");
        assert("--hiragana"@.len() != "--utf8mac-input"@.len());
    }
    assert(spec_long_flag("--katakana"@) == Some(Ok::<LongSettingView, ErrorView>(LongSettingView::KanaOr(2)))) by {
        reveal_strlit("--katakana");
        reveal_strlit("--ic=");
        lemma_not_prefix("--katakana"@, "--ic="@, 2);
        reveal_strlit("--oc=");
        lemma_not_prefix("--katakana"@, "--oc="@, 2);
        reveal_strlit("--guess");
        assert("--katakana"@.len() != "--guess"@.len());
        reveal_strlit("--guess=");
        lemma_not_prefix("--katakana"@, "--guess="@, 2);
        reveal_strlit("--utf8mac-input");
        assert("--katakana"@.len() != "--utf8mac-input"@.len());
        reveal_strlit("--hiragana");
        assert("--katakana"@[2] != "--hiragana"@[2]);
    }
    assert(spec_long_flag("--katakana-hiragana"@) == Some(Ok::<LongSettingView, ErrorView>(LongSettingView::KanaOr(3)))) by {
        reveal_strlit("--katakana-hiragana");
        reveal_strlit("--ic=");
        lemma_not_prefix("--katakana-hiragana"@, "--ic="@, 2);
        reveal_strlit("--oc=");
        lemma_not_prefix("--katakana-hiragana"@, "--oc="@, 2);
        reveal_strlit("--guess");
        assert("--katakana-hiragana"@.len() != "--guess"@.len());
        reveal_strlit("--guess=");
        lemma_not_prefix("--katakana-hiragana"@, "--guess="@, 2);
        reveal_strlit("--utf8mac-input");
        assert("--katakana-hiragana"@.len() != "--utf8mac-input"@.len());
        reveal_strlit("--hiragana");
        assert("--katakana-hiragana"@.len() != "--hiragana"@.len());
        reveal_strlit("--katakana");
        assert("--katakana-hiragana"@.len() != "--katakana"@.len());
    }
    assert(spec_long_flag("--cap-input"@) == Some(Ok::<LongSettingView, ErrorView>(LongSettingView::CapInput))) by {
        reveal_strlit("--cap-input");
        reveal_strlit("--ic=");
        lemma_not_prefix("--cap-input"@, "--ic="@, 2);
        reveal_strlit("--oc=");
        lemma_not_prefix("--cap-input"@, "--oc="@, 2);
        reveal_strlit("--guess");
        assert("--cap-input"@.len() != "--guess"@.len());
        reveal_strlit("--guess=");
        lemma_not_prefix("--cap-input"@, "--guess="@, 2);
        reveal_strlit("--utf8mac-input");
        assert("--cap-input"@.len() != "--utf8mac-input"@.len());
        reveal_strlit("--hiragana");
        assert("--cap-input"@.len() != "--hiragana"@.len());
        reveal_strlit("--katakana");
        assert("--cap-input"@.len() != "--katakana"@.len());
        reveal_strlit("--katakana-hiragana");
        assert("--cap-input"@.len() != "--katakana-hiragana"@.len());
    }
    assert(spec_long_flag("--url-input"@) == Some(Ok::<LongSettingView, ErrorView>(LongSettingView::UrlInput))) by {
        reveal_strlit("--url-input");
        reveal_strlit("--ic=");
        lemma_not_prefix("--url-input"@, "--ic="@, 2);
        reveal_strlit("--oc=");
        lemma_not_prefix("--url-input"@, "--oc="@, 2);
        reveal_strlit("--guess");
        assert("--url-input"@.len() != "--guess"@.len());
        reveal_strlit("--guess=");
        lemma_not_prefix("--url-input"@, "--guess="@, 2);
        reveal_strlit("--utf8mac-input");
        assert("--url-input"@.len() != "--utf8mac-input"@.len());
        reveal_strlit("--hiragana");
        assert("--url-input"@.len() != "--hiragana"@.len());
        reveal_strlit("--katakana");
        assert("--url-input"@.len() != "--katakana"@.len());
        reveal_strlit("--katakana-hiragana");
        assert("--url-input"@.len() != "--katakana-hiragana"@.len());
        reveal_strlit("--cap-input");
        assert("--url-input"@[2] != "--cap-input"@[2]);
    }
    assert(spec_long_flag("--numchar-input"@) == Some(Ok::<LongSettingView, ErrorView>(LongSettingView::NumcharInput))) by {
        reveal_strlit("--numchar-input");
        reveal_strlit("--ic=");
        lemma_not_prefix("--numchar-input"@, "--ic="@, 2);
        reveal_strlit("--oc=");
        lemma_not_prefix("--numchar-input"@, "--oc="@, 2);
        reveal_strlit("--guess");
        assert("--numchar-input"@.len() != "--guess"@.len());
        reveal_strlit("--guess=");
        lemma_not_prefix("--numchar-input"@, "--guess="@, 2);
        reveal_strlit("--utf8mac-input");
        assert("--numchar-input"@[2] != "--utf8mac-input"@[2]);
        reveal_strlit("--hiragana");
        assert("--numchar-input"@.len() != "--hiragana"@.len());
        reveal_strlit("--katakana");
        assert("--numchar-input"@.len() != "--katakana"@.len());
        reveal_strlit("--katakana-hiragana");
        assert("--numchar-input"@.len() != "--katakana-hiragana"@.len());
        reveal_strlit("--cap-input");
        assert("--numchar-input"@.len() != "--cap-input"@.len());
        reveal_strlit("--url-input");
        assert("--numchar-input"@.len() != "--url-input"@.len());
    }
    assert(spec_long_flag("--no-output"@) == Some(Ok::<LongSettingView, ErrorView>(LongSettingView::NoOutput))) by {
        reveal_strlit("--no-output");
        reveal_strlit("--ic=");
        lemma_not_prefix("--no-output"@, "--ic="@, 2);
        reveal_strlit("--oc=");
        lemma_not_prefix("--no-output"@, "--oc="@, 2);
        reveal_strlit("--guess");
        assert("--no-output"@.len() != "--guess"@.len());
        reveal_strlit("--guess=");
        lemma_not_prefix("--no-output"@, "--guess="@, 2);
        reveal_strlit("--utf8mac-input");
        assert("--no-output"@.len() != "--utf8mac-input"@.len());
        reveal_strlit("--hiragana");
        assert("--no-output"@.len() != "--hiragana"@.len());
        reveal_strlit("--katakana");
        assert("--no-output"@.len() != "--katakana"@.len());
        reveal_strlit("--katakana-hiragana");
        assert("--no-output"@.len() != "--katakana-hiragana"@.len());
        reveal_strlit("--cap-input");
        assert("--no-output"@[2] != "--cap-input"@[2]);
        reveal_strlit("--url-input");
        assert("--no-output"@[2] != "--url-input"@[2]);
        reveal_strlit("--numchar-input");
        assert("--no-output"@.len() != "--numchar-input"@.len());
    }
    assert(spec_long_flag("--cp932"@) == Some(Ok::<LongSettingView, ErrorView>(LongSettingView::Cp932))) by {
        reveal_strlit("--cp932");
        reveal_strlit("--ic=");
        lemma_not_prefix("--cp932"@, "--ic="@, 2);
        reveal_strlit("--oc=");
        lemma_not_prefix("--cp932"@, "--oc="@, 2);
        reveal_strlit("--guess");
        assert("--cp932"@[2] != "--guess"@[2]);
        reveal_strlit("--guess=");
        lemma_not_prefix("--cp932"@, "--guess="@, 7);
        reveal_strlit("--utf8mac-input");
        assert("--cp932"@.len() != "--utf8mac-input"@.len());
        reveal_strlit("--hiragana");
        assert("--cp932"@.len() != "--hiragana"@.len());
        reveal_strlit("--katakana");
        assert("--cp932"@.len() != "--katakana"@.len());
        reveal_strlit("--katakana-hiragana");
        assert("--cp932"@.len() != "--katakana-hiragana"@.len());
        reveal_strlit("--cap-input");
        assert("--cp932"@.len() != "--cap-input"@.len());
        reveal_strlit("--url-input");
        assert("--cp932"@.len() != "--url-input"@.len());
        reveal_strlit("--numchar-input");
        assert("--cp932"@.len() != "--numchar-input"@.len());
        reveal_strlit("--no-output");
        assert("--cp932"@.len() != "--no-output"@.len());
        reveal_strlit("--prefix=");
        lemma_not_prefix("--cp932"@, "--prefix="@, 7);
    }
    assert(spec_long_flag("--no-cp932"@) == Some(Ok::<LongSettingView, ErrorView>(LongSettingView::NoCp932))) by {
        reveal_strlit("--no-cp932");
        reveal_strlit("--ic=");
        lemma_not_prefix("--no-cp932"@, "--ic="@, 2);
        reveal_strlit("--oc=");
        lemma_not_prefix("--no-cp932"@, "--oc="@, 2);
        reveal_strlit("--guess");
        assert("--no-cp932"@.len() != "--guess"@.len());
        reveal_strlit("--guess=");
        lemma_not_prefix("--no-cp932"@, "--guess="@, 2);
        reveal_strlit("--utf8mac-input");
        assert("--no-cp932"@.len() != "--utf8mac-input"@.len());
        reveal_strlit("--hiragana");
        assert("--no-cp932"@[2] != "--hiragana"@[2]);
        reveal_strlit("--katakana");
        assert("--no-cp932"@[2] != "--katakana"@[2]);
        reveal_strlit("--katakana-hiragana");
        assert("--no-cp932"@.len() != "--katakana-hiragana"@.len());
        reveal_strlit("--cap-input");
        assert("--no-cp932"@.len() != "--cap-input"@.len());
        reveal_strlit("--url-input");
        assert("--no-cp932"@.len() != "--url-input"@.len());
        reveal_strlit("--numchar-input");
        assert("--no-cp932"@.len() != "--numchar-input"@.len());
        reveal_strlit("--no-output");
        assert("--no-cp932"@.len() != "--no-output"@.len());
        reveal_strlit("--prefix=");
        lemma_not_prefix("--no-cp932"@, "--prefix="@, 2);
        reveal_strlit("--cp932");
        assert("--no-cp932"@.len() != "--cp932"@.len());
    }
    assert(spec_long_flag("--cp932inv"@) == Some(Ok::<LongSettingView, ErrorView>(LongSettingView::Cp932Inv))) by {
        reveal_strlit("--cp932inv");
        reveal_strlit("--ic=");
        lemma_not_prefix("--cp932inv"@, "--ic="@, 2);
        reveal_strlit("--oc=");
        lemma_not_prefix("--cp932inv"@, "--oc="@, 2);
        reveal_strlit("--guess");
        assert("--cp932inv"@.len() != "--guess"@.len());
        reveal_strlit("--guess=");
        lemma_not_prefix("--cp932inv"@, "--guess="@, 2);
        reveal_strlit("--utf8mac-input");
        assert("--cp932inv"@.len() != "--utf8mac-input"@.len());
        reveal_strlit("--hiragana");
        assert("--cp932inv"@[2] != "--hiragana"@[2]);
        reveal_strlit("--katakana");
        assert("--cp932inv"@[2] != "--katakana"@[2]);
        reveal_strlit("--katakana-hiragana");
        assert("--cp932inv"@.len() != "--katakana-hiragana"@.len());
        reveal_strlit("--cap-input");
        assert("--cp932inv"@.len() != "--cap-input"@.len());
        reveal_strlit("--url-input");
        assert("--cp932inv"@.len() != "--url-input"@.len());
        reveal_strlit("--numchar-input");
        assert("--cp932inv"@.len() != "--numchar-input"@.len());
        reveal_strlit("--no-output");
        assert("--cp932inv"@.len() != "--no-output"@.len());
        reveal_strlit("--prefix=");
        lemma_not_prefix("--cp932inv"@, "--prefix="@, 2);
        reveal_strlit("--cp932");
        assert("--cp932inv"@.len() != "--cp932"@.len());
        reveal_strlit("--no-cp932");
        assert("--cp932inv"@[2] != "--no-cp932"@[2]);
    }
    assert(spec_long_flag("--no-cp932ext"@) == Some(Ok::<LongSettingView, ErrorView>(LongSettingView::NoCp932Ext))) by {
        reveal_strlit("--no-cp932ext");
        reveal_strlit("--ic=");
        lemma_not_prefix("--no-cp932ext"@, "--ic="@, 2);
        reveal_strlit("--oc=");
        lemma_not_prefix("--no-cp932ext"@, "--oc="@, 2);
        reveal_strlit("--guess");
        assert("--no-cp932ext"@.len() != "--guess"@.len());
        reveal_strlit("--guess=");
        lemma_not_prefix("--no-cp932ext"@, "--guess="@, 2);
        reveal_strlit("--utf8mac-input");
        assert("--no-cp932ext"@.len() != "--utf8mac-input"@.len());
        reveal_strlit("--hiragana");
        assert("--no-cp932ext"@.len() != "--hiragana"@.len());
        reveal_strlit("--katakana");
        assert("--no-cp932ext"@.len() != "--katakana"@.len());
        reveal_strlit("--katakana-hiragana");
        assert("--no-cp932ext"@.len() != "--katakana-hiragana"@.len());
        reveal_strlit("--cap-input");
        assert("--no-cp932ext"@.len() != "--cap-input"@.len());
        reveal_strlit("--url-input");
        assert("--no-cp932ext"@.len() != "--url-input"@.len());
        reveal_strlit("--numchar-input");
        assert("--no-cp932ext"@.len() != "--numchar-input"@.len());
        reveal_strlit("--no-output");
        assert("--no-cp932ext"@.len() != "--no-output"@.len());
        reveal_strlit("--prefix=");
        lemma_not_prefix("--no-cp932ext"@, "--prefix="@, 2);
        reveal_strlit("--cp932");
        assert("--no-cp932ext"@.len() != "--cp932"@.len());
        reveal_strlit("--no-cp932");
        assert("--no-cp932ext"@.len() != "--no-cp932"@.len());
        reveal_strlit("--cp932inv");
        assert("--no-cp932ext"@.len() != "--cp932inv"@.len());
    }
    assert(spec_long_flag("--no-best-fit-chars"@) == Some(Ok::<LongSettingView, ErrorView>(LongSettingView::NoBestFit))) by {
        reveal_strlit("--no-best-fit-chars");
        reveal_strlit("--ic=");
        lemma_not_prefix("--no-best-fit-chars"@, "--ic="@, 2);
        reveal_strlit("--oc=");
        lemma_not_prefix("--no-best-fit-chars"@, "--oc="@, 2);
        reveal_strlit("--guess");
        assert("--no-best-fit-chars"@.len() != "--guess"@.len());
        reveal_strlit("--guess=");
        lemma_not_prefix("--no-best-fit-chars"@, "--guess="@, 2);
        reveal_strlit("--utf8mac-input");
        assert("--no-best-fit-chars"@.len() != "--utf8mac-input"@.len());
        reveal_strlit("--hiragana");
        assert("--no-best-fit-chars"@.len() != "--hiragana"@.len());
        reveal_strlit("--katakana");
        assert("--no-best-fit-chars"@.len() != "--katakana"@.len());
        reveal_strlit("--katakana-hiragana");
        assert("--no-best-fit-chars"@[2] != "--katakana-hiragana"@[2]);
        reveal_strlit("--cap-input");
        assert("--no-best-fit-chars"@.len() != "--cap-input"@.len());
        reveal_strlit("--url-input");
        assert("--no-best-fit-chars"@.len() != "--url-input"@.len());
        reveal_strlit("--numchar-input");
        assert("--no-best-fit-chars"@.len() != "--numchar-input"@.len());
        reveal_strlit("--no-output");
        assert("--no-best-fit-chars"@.len() != "--no-output"@.len());
        reveal_strlit("--prefix=");
        lemma_not_prefix("--no-best-fit-chars"@, "--prefix="@, 2);
        reveal_strlit("--cp932");
        assert("--no-best-fit-chars"@.len() != "--cp932"@.len());
        reveal_strlit("--no-cp932");
        assert("--no-best-fit-chars"@.len() != "--no-cp932"@.len());
        reveal_strlit("--cp932inv");
        assert("--no-best-fit-chars"@.len() != "--cp932inv"@.len());
        reveal_strlit("--no-cp932ext");
        assert("--no-best-fit-chars"@.len() != "--no-cp932ext"@.len());
    }
    assert(spec_long_flag("--ms-ucs-map"@) == Some(Ok::<LongSettingView, ErrorView>(LongSettingView::MsUcsMap))) by {
        reveal_strlit("--ms-ucs-map");
        reveal_strlit("--ic=");
        lemma_not_prefix("--ms-ucs-map"@, "--ic="@, 2);
        reveal_strlit("--oc=");
        lemma_not_prefix("--ms-ucs-map"@, "--oc="@, 2);
        reveal_strlit("--guess");
        assert("--ms-ucs-map"@.len() != "--guess"@.len());
        reveal_strlit("--guess=");
        lemma_not_prefix("--ms-ucs-map"@, "--guess="@, 2);
        reveal_strlit("--utf8mac-input");
        assert("--ms-ucs-map"@.len() != "--utf8mac-input"@.len());
        reveal_strlit("--hiragana");
        assert("--ms-ucs-map"@.len() != "--hiragana"@.len());
        reveal_strlit("--katakana");
        assert("--ms-ucs-map"@.len() != "--katakana"@.len());
        reveal_strlit("--katakana-hiragana");
        assert("--ms-ucs-map"@.len() != "--katakana-hiragana"@.len());
        reveal_strlit("--cap-input");
        assert("--ms-ucs-map"@.len() != "--cap-input"@.len());
        reveal_strlit("--url-input");
        assert("--ms-ucs-map"@.len() != "--url-input"@.len());
        reveal_strlit("--numchar-input");
        assert("--ms-ucs-map"@.len() != "--numchar-input"@.len());
        reveal_strlit("--no-output");
        assert("--ms-ucs-map"@.len() != "--no-output"@.len());
        reveal_strlit("--prefix=");
        lemma_not_prefix("--ms-ucs-map"@, "--prefix="@, 2);
        reveal_strlit("--cp932");
        assert("--ms-ucs-map"@.len() != "--cp932"@.len());
        reveal_strlit("--no-cp932");
        assert("--ms-ucs-map"@.len() != "--no-cp932"@.len());
        reveal_strlit("--cp932inv");
        assert("--ms-ucs-map"@.len() != "--cp932inv"@.len());
        reveal_strlit("--no-cp932ext");
        assert("--ms-ucs-map"@.len() != "--no-cp932ext"@.len());
        reveal_strlit("--no-best-fit-chars");
        assert("--ms-ucs-map"@.len() != "--no-best-fit-chars"@.len());
    }
    assert(spec_long_flag("--debug"@) == Some(Ok::<LongSettingView, ErrorView>(LongSettingView::Debug))) by {
        reveal_strlit("--debug");
        reveal_strlit("--ic=");
        lemma_not_prefix("--debug"@, "--ic="@, 2);
        reveal_strlit("--oc=");
        lemma_not_prefix("--debug"@, "--oc="@, 2);
        reveal_strlit("--guess");
        assert("--debug"@[2] != "--guess"@[2]);
        reveal_strlit("--guess=");
        lemma_not_prefix("--debug"@, "--guess="@, 7);
        reveal_strlit("--utf8mac-input");
        assert("--debug"@.len() != "--utf8mac-input"@.len());
        reveal_strlit("--hiragana");
        assert("--debug"@.len() != "--hiragana"@.len());
        reveal_strlit("--katakana");
        assert("--debug"@.len() != "--katakana"@.len());
        reveal_strlit("--katakana-hiragana");
        assert("--debug"@.len() != "--katakana-hiragana"@.len());
        reveal_strlit("--cap-input");
        assert("--debug"@.len() != "--cap-input"@.len());
        reveal_strlit("--url-input");
        assert("--debug"@.len() != "--url-input"@.len());
        reveal_strlit("--numchar-input");
        assert("--debug"@.len() != "--numchar-input"@.len());
        reveal_strlit("--no-output");
        assert("--debug"@.len() != "--no-output"@.len());
        reveal_strlit("--prefix=");
        lemma_not_prefix("--debug"@, "--prefix="@, 7);
        reveal_strlit("--cp932");
        assert("--debug"@[2] != "--cp932"@[2]);
        reveal_strlit("--no-cp932");
        assert("--debug"@.len() != "--no-cp932"@.len());
        reveal_strlit("--cp932inv");
        assert("--debug"@.len() != "--cp932inv"@.len());
        reveal_strlit("--no-cp932ext");
        assert("--debug"@.len() != "--no-cp932ext"@.len());
        reveal_strlit("--no-best-fit-chars");
        assert("--debug"@.len() != "--no-best-fit-chars"@.len());
        reveal_strlit("--ms-ucs-map");
        assert("--debug"@.len() != "--ms-ucs-map"@.len());
    }
    assert(spec_long_flag("--x0212"@) == Some(Ok::<LongSettingView, ErrorView>(LongSettingView::Unchanged))) by {
        reveal_strlit("--x0212");
        reveal_strlit("--ic=");
        lemma_not_prefix("--x0212"@, "--ic="@, 2);
        reveal_strlit("--oc=");
        lemma_not_prefix("--x0212"@, "--oc="@, 2);
        reveal_strlit("--guess");
        assert("--x0212"@[2] != "--guess"@[2]);
        reveal_strlit("--guess=");
        lemma_not_prefix("--x0212"@, "--guess="@, 7);
        reveal_strlit("--utf8mac-input");
        assert("--x0212"@.len() != "--utf8mac-input"@.len());
        reveal_strlit("--hiragana");
        assert("--x0212"@.len() != "--hiragana"@.len());
        reveal_strlit("--katakana");
        assert("--x0212"@.len() != "--katakana"@.len());
        reveal_strlit("--katakana-hiragana");
        assert("--x0212"@.len() != "--katakana-hiragana"@.len());
        reveal_strlit("--cap-input");
        assert("--x0212"@.len() != "--cap-input"@.len());
        reveal_strlit("--url-input");
        assert("--x0212"@.len() != "--url-input"@.len());
        reveal_strlit("--numchar-input");
        assert("--x0212"@.len() != "--numchar-input"@.len());
        reveal_strlit("--no-output");
        assert("--x0212"@.len() != "--no-output"@.len());
        reveal_strlit("--prefix=");
        lemma_not_prefix("--x0212"@, "--prefix="@, 7);
        reveal_strlit("--cp932");
        assert("--x0212"@[2] != "--cp932"@[2]);
        reveal_strlit("--no-cp932");
        assert("--x0212"@.len() != "--no-cp932"@.len());
        reveal_strlit("--cp932inv");
        assert("--x0212"@.len() != "--cp932inv"@.len());
        reveal_strlit("--no-cp932ext");
        assert("--x0212"@.len() != "--no-cp932ext"@.len());
        reveal_strlit("--no-best-fit-chars");
        assert("--x0212"@.len() != "--no-best-fit-chars"@.len());
        reveal_strlit("--ms-ucs-map");
        assert("--x0212"@.len() != "--ms-ucs-map"@.len());
        reveal_strlit("--debug");
        assert("--x0212"@[2] != "--debug"@[2]);
    }
    assert(spec_long_flag("--fb-skip"@) == Some(Ok::<LongSettingView, ErrorView>(LongSettingView::Fallback(EncodeFallback::Skip)))) by {
        reveal_strlit("--fb-skip");
        reveal_strlit("--ic=");
        lemma_not_prefix("--fb-skip"@, "--ic="@, 2);
        reveal_strlit("--oc=");
        lemma_not_prefix("--fb-skip"@, "--oc="@, 2);
        reveal_strlit("--guess");
        assert("--fb-skip"@.len() != "--guess"@.len());
        reveal_strlit("--guess=");
        lemma_not_prefix("--fb-skip"@, "--guess="@, 2);
        reveal_strlit("--utf8mac-input");
        assert("--fb-skip"@.len() != "--utf8mac-input"@.len());
        reveal_strlit("--hiragana");
        assert("--fb-skip"@.len() != "--hiragana"@.len());
        reveal_strlit("--katakana");
        assert("--fb-skip"@.len() != "--katakana"@.len());
        reveal_strlit("--katakana-hiragana");
        assert("--fb-skip"@.len() != "--katakana-hiragana"@.len());
        reveal_strlit("--cap-input");
        assert("--fb-skip"@.len() != "--cap-input"@.len());
        reveal_strlit("--url-input");
        assert("--fb-skip"@.len() != "--url-input"@.len());
        reveal_strlit("--numchar-input");
        assert("--fb-skip"@.len() != "--numchar-input"@.len());
        reveal_strlit("--no-output");
        assert("--fb-skip"@.len() != "--no-output"@.len());
        reveal_strlit("--prefix=");
        lemma_not_prefix("--fb-skip"@, "--prefix="@, 2);
        reveal_strlit("--cp932");
        assert("--fb-skip"@.len() != "--cp932"@.len());
        reveal_strlit("--no-cp932");
        assert("--fb-skip"@.len() != "--no-cp932"@.len());
        reveal_strlit("--cp932inv");
        assert("--fb-skip"@.len() != "--cp932inv"@.len());
        reveal_strlit("--no-cp932ext");
        assert("--fb-skip"@.len() != "--no-cp932ext"@.len());
        reveal_strlit("--no-best-fit-chars");
        assert("--fb-skip"@.len() != "--no-best-fit-chars"@.len());
        reveal_strlit("--ms-ucs-map");
        assert("--fb-skip"@.len() != "--ms-ucs-map"@.len());
        reveal_strlit("--debug");
        assert("--fb-skip"@.len() != "--debug"@.len());
        reveal_strlit("--x0212");
        assert("--fb-skip"@.len() != "--x0212"@.len());
    }
    assert(spec_long_flag("--fb-html"@) == Some(Ok::<LongSettingView, ErrorView>(LongSettingView::Fallback(EncodeFallback::Html)))) by {
        reveal_strlit("--fb-html");
        reveal_strlit("--ic=");
        lemma_not_prefix("--fb-html"@, "--ic="@, 2);
        reveal_strlit("--oc=");
        lemma_not_prefix("--fb-html"@, "--oc="@, 2);
        reveal_strlit("--guess");
        assert("--fb-html"@.len() != "--guess"@.len());
        reveal_strlit("--guess=");
        lemma_not_prefix("--fb-html"@, "--guess="@, 2);
        reveal_strlit("--utf8mac-input");
        assert("--fb-html"@.len() != "--utf8mac-input"@.len());
        reveal_strlit("--hiragana");
        assert("--fb-html"@.len() != "--hiragana"@.len());
        reveal_strlit("--katakana");
        assert("--fb-html"@.len() != "--katakana"@.len());
        reveal_strlit("--katakana-hiragana");
        assert("--fb-html"@.len() != "--katakana-hiragana"@.len());
        reveal_strlit("--cap-input");
        assert("--fb-html"@.len() != "--cap-input"@.len());
        reveal_strlit("--url-input");
        assert("--fb-html"@.len() != "--url-input"@.len());
        reveal_strlit("--numchar-input");
        assert("--fb-html"@.len() != "--numchar-input"@.len());
        reveal_strlit("--no-output");
        assert("--fb-html"@.len() != "--no-output"@.len());
        reveal_strlit("--prefix=");
        lemma_not_prefix("--fb-html"@, "--prefix="@, 2);
        reveal_strlit("--cp932");
        assert("--fb-html"@.len() != "--cp932"@.len());
        reveal_strlit("--no-cp932");
        assert("--fb-html"@.len() != "--no-cp932"@.len());
        reveal_strlit("--cp932inv");
        assert("--fb-html"@.len() != "--cp932inv"@.len());
        reveal_strlit("--no-cp932ext");
        assert("--fb-html"@.len() != "--no-cp932ext"@.len());
        reveal_strlit("--no-best-fit-chars");
        assert("--fb-html"@.len() != "--no-best-fit-chars"@.len());
        reveal_strlit("--ms-ucs-map");
        assert("--fb-html"@.len() != "--ms-ucs-map"@.len());
        reveal_strlit("--debug");
        assert("--fb-html"@.len() != "--debug"@.len());
        reveal_strlit("--x0212");
        assert("--fb-html"@.len() != "--x0212"@.len());
        reveal_strlit("--fb-skip");
        assert("--fb-html"@[5] != "--fb-skip"@[5]);
    }
    assert(spec_long_flag("--fb-xml"@) == Some(Ok::<LongSettingView, ErrorView>(LongSettingView::Fallback(EncodeFallback::Xml)))) by {
        reveal_strlit("--fb-xml");
        reveal_strlit("--ic=");
        lemma_not_prefix("--fb-xml"@, "--ic="@, 2);
        reveal_strlit("--oc=");
        lemma_not_prefix("--fb-xml"@, "--oc="@, 2);
        reveal_strlit("--guess");
        assert("--fb-xml"@.len() != "--guess"@.len());
        reveal_strlit("--guess=");
        lemma_not_prefix("--fb-xml"@, "--guess="@, 2);
        reveal_strlit("--utf8mac-input");
        assert("--fb-xml"@.len() != "--utf8mac-input"@.len());
        reveal_strlit("--hiragana");
        assert("--fb-xml"@.len() != "--hiragana"@.len());
        reveal_strlit("--katakana");
        assert("--fb-xml"@.len() != "--katakana"@.len());
        reveal_strlit("--katakana-hiragana");
        assert("--fb-xml"@.len() != "--katakana-hiragana"@.len());
        reveal_strlit("--cap-input");
        assert("--fb-xml"@.len() != "--cap-input"@.len());
        reveal_strlit("--url-input");
        assert("--fb-xml"@.len() != "--url-input"@.len());
        reveal_strlit("--numchar-input");
        assert("--fb-xml"@.len() != "--numchar-input"@.len());
        reveal_strlit("--no-output");
        assert("--fb-xml"@.len() != "--no-output"@.len());
        reveal_strlit("--prefix=");
        lemma_not_prefix("--fb-xml"@, "--prefix="@, 8);
        reveal_strlit("--cp932");
        assert("--fb-xml"@.len() != "--cp932"@.len());
        reveal_strlit("--no-cp932");
        assert("--fb-xml"@.len() != "--no-cp932"@.len());
        reveal_strlit("--cp932inv");
        assert("--fb-xml"@.len() != "--cp932inv"@.len());
        reveal_strlit("--no-cp932ext");
        assert("--fb-xml"@.len() != "--no-cp932ext"@.len());
        reveal_strlit("--no-best-fit-chars");
        assert("--fb-xml"@.len() != "--no-best-fit-chars"@.len());
        reveal_strlit("--ms-ucs-map");
        assert("--fb-xml"@.len() != "--ms-ucs-map"@.len());
        reveal_strlit("--debug");
        assert("--fb-xml"@.len() != "--debug"@.len());
        reveal_strlit("--x0212");
        assert("--fb-xml"@.len() != "--x0212"@.len());
        reveal_strlit("--fb-skip");
        assert("--fb-xml"@.len() != "--fb-skip"@.len());
        reveal_strlit("--fb-html");
        assert("--fb-xml"@.len() != "--fb-html"@.len());
    }
    assert(spec_long_flag("--fb-java"@) == Some(Ok::<LongSettingView, ErrorView>(LongSettingView::Fallback(EncodeFallback::Java)))) by {
        reveal_strlit("--fb-java");
        reveal_strlit("--ic=");
        lemma_not_prefix("--fb-java"@, "--ic="@, 2);
        reveal_strlit("--oc=");
        lemma_not_prefix("--fb-java"@, "--oc="@, 2);
        reveal_strlit("--guess");
        assert("--fb-java"@.len() != "--guess"@.len());
        reveal_strlit("--guess=");
        lemma_not_prefix("--fb-java"@, "--guess="@, 2);
        reveal_strlit("--utf8mac-input");
        assert("--fb-java"@.len() != "--utf8mac-input"@.len());
        reveal_strlit("--hiragana");
        assert("--fb-java"@.len() != "--hiragana"@.len());
        reveal_strlit("--katakana");
        assert("--fb-java"@.len() != "--katakana"@.len());
        reveal_strlit("--katakana-hiragana");
        assert("--fb-java"@.len() != "--katakana-hiragana"@.len());
        reveal_strlit("--cap-input");
        assert("--fb-java"@.len() != "--cap-input"@.len());
        reveal_strlit("--url-input");
        assert("--fb-java"@.len() != "--url-input"@.len());
        reveal_strlit("--numchar-input");
        assert("--fb-java"@.len() != "--numchar-input"@.len());
        reveal_strlit("--no-output");
        assert("--fb-java"@.len() != "--no-output"@.len());
        reveal_strlit("--prefix=");
        lemma_not_prefix("--fb-java"@, "--prefix="@, 2);
        reveal_strlit("--cp932");
        assert("--fb-java"@.len() != "--cp932"@.len());
        reveal_strlit("--no-cp932");
        assert("--fb-java"@.len() != "--no-cp932"@.len());
        reveal_strlit("--cp932inv");
        assert("--fb-java"@.len() != "--cp932inv"@.len());
        reveal_strlit("--no-cp932ext");
        assert("--fb-java"@.len() != "--no-cp932ext"@.len());
        reveal_strlit("--no-best-fit-chars");
        assert("--fb-java"@.len() != "--no-best-fit-chars"@.len());
        reveal_strlit("--ms-ucs-map");
        assert("--fb-java"@.len() != "--ms-ucs-map"@.len());
        reveal_strlit("--debug");
        assert("--fb-java"@.len() != "--debug"@.len());
        reveal_strlit("--x0212");
        assert("--fb-java"@.len() != "--x0212"@.len());
        reveal_strlit("--fb-skip");
        assert("--fb-java"@[5] != "--fb-skip"@[5]);
        reveal_strlit("--fb-html");
        assert("--fb-java"@[5] != "--fb-html"@[5]);
        reveal_strlit("--fb-xml");
        assert("--fb-java"@.len() != "--fb-xml"@.len());
    }
    assert(spec_long_flag("--fb-perl"@) == Some(Ok::<LongSettingView, ErrorView>(LongSettingView::Fallback(EncodeFallback::Perl)))) by {
        reveal_strlit("--fb-perl");
        reveal_strlit("--ic=");
        lemma_not_prefix("--fb-perl"@, "--ic="@, 2);
        reveal_strlit("--oc=");
        lemma_not_prefix("--fb-perl"@, "--oc="@, 2);
        reveal_strlit("--guess");
        assert("--fb-perl"@.len() != "--guess"@.len());
        reveal_strlit("--guess=");
        lemma_not_prefix("--fb-perl"@, "--guess="@, 2);
        reveal_strlit("--utf8mac-input");
        assert("--fb-perl"@.len() != "--utf8mac-input"@.len());
        reveal_strlit("--hiragana");
        assert("--fb-perl"@.len() != "--hiragana"@.len());
        reveal_strlit("--katakana");
        assert("--fb-perl"@.len() != "--katakana"@.len());
        reveal_strlit("--katakana-hiragana");
        assert("--fb-perl"@.len() != "--katakana-hiragana"@.len());
        reveal_strlit("--cap-input");
        assert("--fb-perl"@.len() != "--cap-input"@.len());
        reveal_strlit("--url-input");
        assert("--fb-perl"@.len() != "--url-input"@.len());
        reveal_strlit("--numchar-input");
        assert("--fb-perl"@.len() != "--numchar-input"@.len());
        reveal_strlit("--no-output");
        assert("--fb-perl"@.len() != "--no-output"@.len());
        reveal_strlit("--prefix=");
        lemma_not_prefix("--fb-perl"@, "--prefix="@, 2);
        reveal_strlit("--cp932");
        assert("--fb-perl"@.len() != "--cp932"@.len());
        reveal_strlit("--no-cp932");
        assert("--fb-perl"@.len() != "--no-cp932"@.len());
        reveal_strlit("--cp932inv");
        assert("--fb-perl"@.len() != "--cp932inv"@.len());
        reveal_strlit("--no-cp932ext");
        assert("--fb-perl"@.len() != "--no-cp932ext"@.len());
        reveal_strlit("--no-best-fit-chars");
        assert("--fb-perl"@.len() != "--no-best-fit-chars"@.len());
        reveal_strlit("--ms-ucs-map");
        assert("--fb-perl"@.len() != "--ms-ucs-map"@.len());
        reveal_strlit("--debug");
        assert("--fb-perl"@.len() != "--debug"@.len());
        reveal_strlit("--x0212");
        assert("--fb-perl"@.len() != "--x0212"@.len());
        reveal_strlit("--fb-skip");
        assert("--fb-perl"@[5] != "--fb-skip"@[5]);
        reveal_strlit("--fb-html");
        assert("--fb-perl"@[5] != "--fb-html"@[5]);
        reveal_strlit("--fb-xml");
        assert("--fb-perl"@.len() != "--fb-xml"@.len());
        reveal_strlit("--fb-java");
        assert("--fb-perl"@[5] != "--fb-java"@[5]);
    }
    assert(spec_long_flag("--fb-subchar"@) == Some(Ok::<LongSettingView, ErrorView>(LongSettingView::Fallback(EncodeFallback::Subchar('?'))))) by {
        reveal_strlit("--fb-subchar");
        reveal_strlit("--ic=");
        lemma_not_prefix("--fb-subchar"@, "--ic="@, 2);
        reveal_strlit("--oc=");
        lemma_not_prefix("--fb-subchar"@, "--oc="@, 2);
        reveal_strlit("--guess");
        assert("--fb-subchar"@.len() != "--guess"@.len());
        reveal_strlit("--guess=");
        lemma_not_prefix("--fb-subchar"@, "--guess="@, 2);
        reveal_strlit("--utf8mac-input");
        assert("--fb-subchar"@.len() != "--utf8mac-input"@.len());
        reveal_strlit("--hiragana");
        assert("--fb-subchar"@.len() != "--hiragana"@.len());
        reveal_strlit("--katakana");
        assert("--fb-subchar"@.len() != "--katakana"@.len());
        reveal_strlit("--katakana-hiragana");
        assert("--fb-subchar"@.len() != "--katakana-hiragana"@.len());
        reveal_strlit("--cap-input");
        assert("--fb-subchar"@.len() != "--cap-input"@.len());
        reveal_strlit("--url-input");
        assert("--fb-subchar"@.len() != "--url-input"@.len());
        reveal_strlit("--numchar-input");
        assert("--fb-subchar"@.len() != "--numchar-input"@.len());
        reveal_strlit("--no-output");
        assert("--fb-subchar"@.len() != "--no-output"@.len());
        reveal_strlit("--prefix=");
        lemma_not_prefix("--fb-subchar"@, "--prefix="@, 2);
        reveal_strlit("--cp932");
        assert("--fb-subchar"@.len() != "--cp932"@.len());
        reveal_strlit("--no-cp932");
        assert("--fb-subchar"@.len() != "--no-cp932"@.len());
        reveal_strlit("--cp932inv");
        assert("--fb-subchar"@.len() != "--cp932inv"@.len());
        reveal_strlit("--no-cp932ext");
        assert("--fb-subchar"@.len() != "--no-cp932ext"@.len());
        reveal_strlit("--no-best-fit-chars");
        assert("--fb-subchar"@.len() != "--no-best-fit-chars"@.len());
        reveal_strlit("--ms-ucs-map");
        assert("--fb-subchar"@[2] != "--ms-ucs-map"@[2]);
        reveal_strlit("--debug");
        assert("--fb-subchar"@.len() != "--debug"@.len());
        reveal_strlit("--x0212");
        assert("--fb-subchar"@.len() != "--x0212"@.len());
        reveal_strlit("--fb-skip");
        assert("--fb-subchar"@.len() != "--fb-skip"@.len());
        reveal_strlit("--fb-html");
        assert("--fb-subchar"@.len() != "--fb-html"@.len());
        reveal_strlit("--fb-xml");
        assert("--fb-subchar"@.len() != "--fb-xml"@.len());
        reveal_strlit("--fb-java");
        assert("--fb-subchar"@.len() != "--fb-java"@.len());
        reveal_strlit("--fb-perl");
        assert("--fb-subchar"@.len() != "--fb-perl"@.len());
    }
    assert(spec_long_flag("--overwrite"@) == Some(Ok::<LongSettingView, ErrorView>(LongSettingView::Overwrite(true, None)))) by {
        reveal_strlit("--overwrite");
        reveal_strlit("--ic=");
        lemma_not_prefix("--overwrite"@, "--ic="@, 2);
        reveal_strlit("--oc=");
        lemma_not_prefix("--overwrite"@, "--oc="@, 3);
        reveal_strlit("--guess");
        assert("--overwrite"@.len() != "--guess"@.len());
        reveal_strlit("--guess=");
        lemma_not_prefix("--overwrite"@, "--guess="@, 2);
        reveal_strlit("--utf8mac-input");
        assert("--overwrite"@.len() != "--utf8mac-input"@.len());
        reveal_strlit("--hiragana");
        assert("--overwrite"@.len() != "--hiragana"@.len());
        reveal_strlit("--katakana");
        assert("--overwrite"@.len() != "--katakana"@.len());
        reveal_strlit("--katakana-hiragana");
        assert("--overwrite"@.len() != "--katakana-hiragana"@.len());
        reveal_strlit("--cap-input");
        assert("--overwrite"@[2] != "--cap-input"@[2]);
        reveal_strlit("--url-input");
        assert("--overwrite"@[2] != "--url-input"@[2]);
        reveal_strlit("--numchar-input");
        assert("--overwrite"@.len() != "--numchar-input"@.len());
        reveal_strlit("--no-output");
        assert("--overwrite"@[2] != "--no-output"@[2]);
        reveal_strlit("--prefix=");
        lemma_not_prefix("--overwrite"@, "--prefix="@, 2);
        reveal_strlit("--cp932");
        assert("--overwrite"@.len() != "--cp932"@.len());
        reveal_strlit("--no-cp932");
        assert("--overwrite"@.len() != "--no-cp932"@.len());
        reveal_strlit("--cp932inv");
        assert("--overwrite"@.len() != "--cp932inv"@.len());
        reveal_strlit("--no-cp932ext");
        assert("--overwrite"@.len() != "--no-cp932ext"@.len());
        reveal_strlit("--no-best-fit-chars");
        assert("--overwrite"@.len() != "--no-best-fit-chars"@.len());
        reveal_strlit("--ms-ucs-map");
        assert("--overwrite"@.len() != "--ms-ucs-map"@.len());
        reveal_strlit("--debug");
        assert("--overwrite"@.len() != "--debug"@.len());
        reveal_strlit("--x0212");
        assert("--overwrite"@.len() != "--x0212"@.len());
        reveal_strlit("--fb-skip");
        assert("--overwrite"@.len() != "--fb-skip"@.len());
        reveal_strlit("--fb-html");
        assert("--overwrite"@.len() != "--fb-html"@.len());
        reveal_strlit("--fb-xml");
        assert("--overwrite"@.len() != "--fb-xml"@.len());
        reveal_strlit("--fb-java");
        assert("--overwrite"@.len() != "--fb-java"@.len());
        reveal_strlit("--fb-perl");
        assert("--overwrite"@.len() != "--fb-perl"@.len());
        reveal_strlit("--fb-subchar");
        assert("--overwrite"@.len() != "--fb-subchar"@.len());
        reveal_strlit("--fb-subchar=");
        lemma_not_prefix("--overwrite"@, "--fb-subchar="@, 11);
    }
    assert(spec_long_flag("--in-place"@) == Some(Ok::<LongSettingView, ErrorView>(LongSettingView::Overwrite(false, None)))) by {
        reveal_strlit("--in-place");
        reveal_strlit("--ic=");
        lemma_not_prefix("--in-place"@, "--ic="@, 3);
        reveal_strlit("--oc=");
        lemma_not_prefix("--in-place"@, "--oc="@, 2);
        reveal_strlit("--guess");
        assert("--in-place"@.len() != "--guess"@.len());
        reveal_strlit("--guess=");
        lemma_not_prefix("--in-place"@, "--guess="@, 2);
        reveal_strlit("--utf8mac-input");
        assert("--in-place"@.len() != "--utf8mac-input"@.len());
        reveal_strlit("--hiragana");
        assert("--in-place"@[2] != "--hiragana"@[2]);
        reveal_strlit("--katakana");
        assert("--in-place"@[2] != "--katakana"@[2]);
        reveal_strlit("--katakana-hiragana");
        assert("--in-place"@.len() != "--katakana-hiragana"@.len());
        reveal_strlit("--cap-input");
        assert("--in-place"@.len() != "--cap-input"@.len());
        reveal_strlit("--url-input");
        assert("--in-place"@.len() != "--url-input"@.len());
        reveal_strlit("--numchar-input");
        assert("--in-place"@.len() != "--numchar-input"@.len());
        reveal_strlit("--no-output");
        assert("--in-place"@.len() != "--no-output"@.len());
        reveal_strlit("--prefix=");
        lemma_not_prefix("--in-place"@, "--prefix="@, 2);
        reveal_strlit("--cp932");
        assert("--in-place"@.len() != "--cp932"@.len());
        reveal_strlit("--no-cp932");
        assert("--in-place"@[2] != "--no-cp932"@[2]);
        reveal_strlit("--cp932inv");
        assert("--in-place"@[2] != "--cp932inv"@[2]);
        reveal_strlit("--no-cp932ext");
        assert("--in-place"@.len() != "--no-cp932ext"@.len());
        reveal_strlit("--no-best-fit-chars");
        assert("--in-place"@.len() != "--no-best-fit-chars"@.len());
        reveal_strlit("--ms-ucs-map");
        assert("--in-place"@.len() != "--ms-ucs-map"@.len());
        reveal_strlit("--debug");
        assert("--in-place"@.len() != "--debug"@.len());
        reveal_strlit("--x0212");
        assert("--in-place"@.len() != "--x0212"@.len());
        reveal_strlit("--fb-skip");
        assert("--in-place"@.len() != "--fb-skip"@.len());
        reveal_strlit("--fb-html");
        assert("--in-place"@.len() != "--fb-html"@.len());
        reveal_strlit("--fb-xml");
        assert("--in-place"@.len() != "--fb-xml"@.len());
        reveal_strlit("--fb-java");
        assert("--in-place"@.len() != "--fb-java"@.len());
        reveal_strlit("--fb-perl");
        assert("--in-place"@.len() != "--fb-perl"@.len());
        reveal_strlit("--fb-subchar");
        assert("--in-place"@.len() != "--fb-subchar"@.len());
        reveal_strlit("--fb-subchar=");
        lemma_not_prefix("--in-place"@, "--fb-subchar="@, 10);
        reveal_strlit("--overwrite");
        assert("--in-place"@.len() != "--overwrite"@.len());
        reveal_strlit("--overwrite=");
        lemma_not_prefix("--in-place"@, "--overwrite="@, 10);
    }
    reveal_strlit("--ic=");
    reveal_strlit("--oc=");
    let ic = "--ic="@ + v;
    let oc = "--oc="@ + v;
    assert(ic[0] == '-' && ic[1] == '-' && ic[2] == 'i' && ic[3] == 'c' && ic[4] == '=');
    assert(oc[0] == '-' && oc[1] == '-' && oc[2] == 'o' && oc[3] == 'c' && oc[4] == '=');
    lemma_prefix_chars(ic, "--ic="@);
    lemma_prefix_chars(oc, "--oc="@);
    lemma_not_prefix(oc, "--ic="@, 2);
    assert(ic.skip(5) =~= v);
    assert(oc.skip(5) =~= v);
}

/// Where a command line ends: the settings of a conversion, a request to print and stop, an
/// error, or a number too large for its type.
pub enum ParseView {
    Run(ConfigView),
    Exit(CliExit),
    Fail(ErrorView),
    Overflow,
}

/// One step over the arguments: go on at an index with new settings, or end.
pub enum ParseStep {
    Next(int, ConfigView),
    End(ParseView),
}

/// An option argument read as a long alias or a run of short options.
#[verifier::opaque]
pub open spec fn spec_parse_short_arg(args: Seq<Seq<char>>, i: int, c: ConfigView) -> ParseStep {
    let a = args[i];
    let next: Option<Seq<char>> = if i + 1 < args.len() {
        Some(args[i + 1])
    } else {
        None
    };
    let src: Option<Seq<char>> = if has_prefix(a, "--"@) {
        spec_long_alias(a)
    } else {
        Some(a)
    };
    match src {
        None => ParseStep::End(ParseView::Fail(ErrorView::UnsupportedOption(a))),
        Some(body) => match spec_short(spec_trim_dashes(body), 0, c, next) {
            ShortView::Done(c2, took) => ParseStep::Next(if took {
                i + 2
            } else {
                i + 1
            }, c2),
            ShortView::Exit(x) => ParseStep::End(ParseView::Exit(x)),
            ShortView::Fail(e) => ParseStep::End(ParseView::Fail(e)),
            ShortView::Overflow => ParseStep::End(ParseView::Overflow),
        },
    }
}

/// An option argument that is not a one-setting long option: `--exec-in` and `--exec-out` (the
/// rest of the line is the command), `--help`, `--version`, or else a long alias or short options.
#[verifier::opaque]
pub open spec fn spec_parse_other(args: Seq<Seq<char>>, i: int, c: ConfigView) -> ParseStep {
    let a = args[i];
    if a == "--exec-in"@ {
        ParseStep::End(ParseView::Run(ConfigView { exec_mode: Some(ExecMode::Input), exec_command: c.exec_command + args.skip(i + 1), ..c }))
    } else if a == "--exec-out"@ {
        ParseStep::End(ParseView::Run(ConfigView { exec_mode: Some(ExecMode::Output), exec_command: c.exec_command + args.skip(i + 1), ..c }))
    } else if a == "--help"@ {
        ParseStep::End(ParseView::Exit(CliExit::Help))
    } else if a == "--version"@ {
        ParseStep::End(ParseView::Exit(CliExit::Version))
    } else {
        spec_parse_short_arg(args, i, c)
    }
}

/// An option argument: a one-setting long option, or else the rest.
#[verifier::opaque]
pub open spec fn spec_parse_option(args: Seq<Seq<char>>, i: int, c: ConfigView) -> ParseStep {
    match spec_long_flag(args[i]) {
        Some(Ok(s)) => ParseStep::Next(i + 1, spec_apply_long(c, s)),
        Some(Err(e)) => ParseStep::End(ParseView::Fail(e)),
        None => spec_parse_other(args, i, c),
    }
}

/// An argument other than `--`: one not starting with `-` (or `-` alone) is an input file,
/// anything else an option.
#[verifier::opaque]
pub open spec fn spec_parse_arg(args: Seq<Seq<char>>, i: int, c: ConfigView) -> ParseStep {
    let a = args[i];
    if !(a.len() > 0 && a[0] == '-') || a == "-"@ {
        ParseStep::Next(i + 1, ConfigView { inputs: c.inputs.push(a), ..c })
    } else {
        spec_parse_option(args, i, c)
    }
}

/// The argument at index `i` read into the settings `c`: `--` ends the options and makes the
/// rest input files.
#[verifier::opaque]
pub open spec fn spec_parse_step(args: Seq<Seq<char>>, i: int, c: ConfigView) -> ParseStep {
    if args[i] == "--"@ {
        ParseStep::End(ParseView::Run(ConfigView { inputs: c.inputs + args.skip(i + 1), ..c }))
    } else {
        spec_parse_arg(args, i, c)
    }
}

/// The arguments from index `i` on, read into the settings `c`.
pub open spec fn spec_parse(args: Seq<Seq<char>>, i: int, c: ConfigView) -> ParseView
    decreases args.len() - i,
{
    if i < 0 || i >= args.len() {
        ParseView::Run(c)
    } else {
        match spec_parse_step(args, i, c) {
            ParseStep::Next(j, c2) => if i < j <= args.len() {
                spec_parse(args, j, c2)
            } else {
                ParseView::Run(c2)
            },
            ParseStep::End(v) => v,
        }
    }
}

/// What a whole command line (the arguments after the program name) asks for.
pub open spec fn spec_parse_args(args: Seq<Seq<char>>) -> ParseView {
    spec_parse(args, 0, default_view())
}

/// The one setting a long option changes.
pub enum LongSetting {
    Input(String),
    Output(String),
    Guess(u8),
    Utf8Mac,
    KanaOr(u8),
    CapInput,
    UrlInput,
    NumcharInput,
    NoOutput,
    Prefix(String),
    Cp932,
    NoCp932,
    Cp932Inv,
    NoCp932Ext,
    NoBestFit,
    MsUcsMap,
    Debug,
    Unchanged,
    Fallback(EncodeFallback),
    Overwrite(bool, Option<String>),
}

impl View for LongSetting {
    type V = LongSettingView;

    open spec fn view(&self) -> LongSettingView {
        match self {
            LongSetting::Input(v) => LongSettingView::Input(v@),
            LongSetting::Output(v) => LongSettingView::Output(v@),
            LongSetting::Guess(g) => LongSettingView::Guess(*g),
            LongSetting::Utf8Mac => LongSettingView::Utf8Mac,
            LongSetting::KanaOr(b) => LongSettingView::KanaOr(*b),
            LongSetting::CapInput => LongSettingView::CapInput,
            LongSetting::UrlInput => LongSettingView::UrlInput,
            LongSetting::NumcharInput => LongSettingView::NumcharInput,
            LongSetting::NoOutput => LongSettingView::NoOutput,
            LongSetting::Prefix(v) => LongSettingView::Prefix(v@),
            LongSetting::Cp932 => LongSettingView::Cp932,
            LongSetting::NoCp932 => LongSettingView::NoCp932,
            LongSetting::Cp932Inv => LongSettingView::Cp932Inv,
            LongSetting::NoCp932Ext => LongSettingView::NoCp932Ext,
            LongSetting::NoBestFit => LongSettingView::NoBestFit,
            LongSetting::MsUcsMap => LongSettingView::MsUcsMap,
            LongSetting::Debug => LongSettingView::Debug,
            LongSetting::Unchanged => LongSettingView::Unchanged,
            LongSetting::Fallback(f) => LongSettingView::Fallback(*f),
            LongSetting::Overwrite(keep, suffix) => LongSettingView::Overwrite(*keep, opt_text(*suffix)),
        }
    }
}

/// The view of a long-option reading.
pub open spec fn long_view(r: Option<Result<LongSetting, NkfError>>) -> Option<Result<LongSettingView, ErrorView>> {
    match r {
        None => None,
        Some(Ok(s)) => Some(Ok(s@)),
        Some(Err(e)) => Some(Err(e@)),
    }
}

fn text_after(a: &[char], n: usize) -> (r: String)
    requires
        n <= a@.len(),
    ensures
        r@ == a@.skip(n as int),
{
    let rest = chars_from(a, n);
    chars_to_string(rest.as_slice())
}

fn ok(s: LongSetting) -> (r: Option<Result<LongSetting, NkfError>>)
    ensures
        r == Some(Ok::<LongSetting, NkfError>(s)),
{
    Some(Ok(s))
}

/// Reads a long option that changes one setting.
#[verifier::rlimit(60)]
pub fn long_flag(a: &[char]) -> (r: Option<Result<LongSetting, NkfError>>)
    ensures
        long_view(r) == spec_long_flag(a@),
{
    reveal(spec_long_flag);
    proof {
        reveal_strlit("--ic=");
        reveal_strlit("--oc=");
        reveal_strlit("--guess=");
        reveal_strlit("--prefix=");
        reveal_strlit("--fb-subchar=");
        reveal_strlit("--overwrite=");
        reveal_strlit("--in-place=");
    }
    if chars_start_with_str(a, "--ic=") {
        let v = text_after(a, 5);
        ok(LongSetting::Input(normalize_encoding(v.as_str())))
    } else if chars_start_with_str(a, "--oc=") {
        let v = text_after(a, 5);
        ok(LongSetting::Output(normalize_encoding(v.as_str())))
    } else if chars_eq_str(a, "--guess") {
        ok(LongSetting::Guess(2))
    } else if chars_start_with_str(a, "--guess=") {
        let v = chars_from(a, 8);
        let g: u8 = if chars_eq_str(v.as_slice(), "0") || chars_eq_str(v.as_slice(), "1") { 1 } else { 2 };
        ok(LongSetting::Guess(g))
    } else if chars_eq_str(a, "--utf8mac-input") {
        ok(LongSetting::Utf8Mac)
    } else if chars_eq_str(a, "--hiragana") {
        ok(LongSetting::KanaOr(1))
    } else if chars_eq_str(a, "--katakana") {
        ok(LongSetting::KanaOr(2))
    } else if chars_eq_str(a, "--katakana-hiragana") {
        ok(LongSetting::KanaOr(3))
    } else if chars_eq_str(a, "--cap-input") {
        ok(LongSetting::CapInput)
    } else if chars_eq_str(a, "--url-input") {
        ok(LongSetting::UrlInput)
    } else if chars_eq_str(a, "--numchar-input") {
        ok(LongSetting::NumcharInput)
    } else if chars_eq_str(a, "--no-output") {
        ok(LongSetting::NoOutput)
    } else if chars_start_with_str(a, "--prefix=") {
        ok(LongSetting::Prefix(text_after(a, 9)))
    } else if chars_eq_str(a, "--cp932") {
        ok(LongSetting::Cp932)
    } else if chars_eq_str(a, "--no-cp932") {
        ok(LongSetting::NoCp932)
    } else if chars_eq_str(a, "--cp932inv") {
        ok(LongSetting::Cp932Inv)
    } else if chars_eq_str(a, "--no-cp932ext") {
        ok(LongSetting::NoCp932Ext)
    } else if chars_eq_str(a, "--no-best-fit-chars") {
        ok(LongSetting::NoBestFit)
    } else if chars_eq_str(a, "--ms-ucs-map") {
        ok(LongSetting::MsUcsMap)
    } else if chars_eq_str(a, "--debug") {
        ok(LongSetting::Debug)
    } else if chars_eq_str(a, "--x0212") {
        ok(LongSetting::Unchanged)
    } else if chars_eq_str(a, "--fb-skip") {
        ok(LongSetting::Fallback(EncodeFallback::Skip))
    } else if chars_eq_str(a, "--fb-html") {
        ok(LongSetting::Fallback(EncodeFallback::Html))
    } else if chars_eq_str(a, "--fb-xml") {
        ok(LongSetting::Fallback(EncodeFallback::Xml))
    } else if chars_eq_str(a, "--fb-java") {
        ok(LongSetting::Fallback(EncodeFallback::Java))
    } else if chars_eq_str(a, "--fb-perl") {
        ok(LongSetting::Fallback(EncodeFallback::Perl))
    } else if chars_eq_str(a, "--fb-subchar") {
        ok(LongSetting::Fallback(EncodeFallback::Subchar('?')))
    } else if chars_start_with_str(a, "--fb-subchar=") {
        let v = chars_from(a, 13);
        match parse_subchar(v.as_slice()) {
            Ok(ch) => ok(LongSetting::Fallback(EncodeFallback::Subchar(ch))),
            Err(e) => Some(Err(e)),
        }
    } else if chars_eq_str(a, "--overwrite") {
        ok(LongSetting::Overwrite(true, None))
    } else if chars_start_with_str(a, "--overwrite=") {
        ok(LongSetting::Overwrite(true, Some(text_after(a, 12))))
    } else if chars_eq_str(a, "--in-place") {
        ok(LongSetting::Overwrite(false, None))
    } else if chars_start_with_str(a, "--in-place=") {
        ok(LongSetting::Overwrite(false, Some(text_after(a, 11))))
    } else {
        None
    }
}

fn apply_long_names(config: &mut Config, s: LongSetting)
    requires
        s is Input || s is Output || s is Guess || s is Utf8Mac || s is KanaOr || s is Prefix,
    ensures
        final(config)@ == spec_apply_long(old(config)@, s@),
{
    match s {
        LongSetting::Input(v) => {
            config.input = Some(v);
        },
        LongSetting::Output(v) => {
            config.output = v;
        },
        LongSetting::Guess(g) => {
            config.guess = g;
        },
        LongSetting::Utf8Mac => {
            config.normalize_utf8_mac = true;
        },
        LongSetting::KanaOr(b) => {
            config.kana_flags = config.kana_flags | b;
        },
        LongSetting::Prefix(v) => {
            add_prefix_rule(config, v.as_str());
        },
        _ => {},
    }
}

fn apply_long_switches(config: &mut Config, s: LongSetting)
    requires
        s is CapInput || s is UrlInput || s is NumcharInput || s is NoOutput || s is Debug,
    ensures
        final(config)@ == spec_apply_long(old(config)@, s@),
{
    match s {
        LongSetting::CapInput => {
            config.cap_input = true;
        },
        LongSetting::UrlInput => {
            config.url_input = true;
        },
        LongSetting::NumcharInput => {
            config.numchar_input = true;
        },
        LongSetting::NoOutput => {
            config.no_output = true;
        },
        LongSetting::Debug => {
            config.debug = true;
        },
        _ => {},
    }
}

fn apply_long_cp932(config: &mut Config, s: LongSetting)
    requires
        s is Cp932 || s is NoCp932 || s is Cp932Inv || s is NoCp932Ext || s is NoBestFit || s is MsUcsMap,
    ensures
        final(config)@ == spec_apply_long(old(config)@, s@),
{
    match s {
        LongSetting::Cp932 => {
            config.cp932_compat = true;
            config.cp932inv = true;
            config.ms_ucs_map = MsUcsMap::Cp932;
        },
        LongSetting::NoCp932 => {
            config.cp932_compat = false;
            config.cp932inv = false;
            config.ms_ucs_map = MsUcsMap::Ascii;
        },
        LongSetting::Cp932Inv => {
            config.cp932inv = true;
        },
        LongSetting::NoCp932Ext => {
            config.no_cp932ext = true;
        },
        LongSetting::NoBestFit => {
            config.no_best_fit_chars = true;
        },
        LongSetting::MsUcsMap => {
            config.ms_ucs_map = MsUcsMap::Ms;
        },
        _ => {},
    }
}

fn apply_long_output(config: &mut Config, s: LongSetting)
    requires
        s is Unchanged || s is Fallback || s is Overwrite,
    ensures
        final(config)@ == spec_apply_long(old(config)@, s@),
{
    match s {
        LongSetting::Fallback(f) => {
            config.encode_fallback = f;
        },
        LongSetting::Overwrite(keep, suffix) => {
            config.overwrite = Some(OverwriteConfig { preserve_time: keep, backup_suffix: suffix });
        },
        _ => {},
    }
}

/// Applies the change a long option makes.
pub fn apply_long_setting(config: &mut Config, s: LongSetting)
    ensures
        final(config)@ == spec_apply_long(old(config)@, s@),
{
    match s {
        LongSetting::Input(..) | LongSetting::Output(..) | LongSetting::Guess(..) | LongSetting::Utf8Mac
        | LongSetting::KanaOr(..) | LongSetting::Prefix(..) => apply_long_names(config, s),
        LongSetting::CapInput | LongSetting::UrlInput | LongSetting::NumcharInput | LongSetting::NoOutput
        | LongSetting::Debug => apply_long_switches(config, s),
        LongSetting::Cp932 | LongSetting::NoCp932 | LongSetting::Cp932Inv | LongSetting::NoCp932Ext
        | LongSetting::NoBestFit | LongSetting::MsUcsMap => apply_long_cp932(config, s),
        LongSetting::Unchanged | LongSetting::Fallback(..) | LongSetting::Overwrite(..) => apply_long_output(config, s),
    }
}

/// Where a command line ends.
#[derive(Debug)]
pub enum ParseOutcome {
    /// The settings of a conversion.
    Run(Config),
    /// A request to print something and stop.
    Exit(CliExit),
    /// An option that is not known, or a value that does not parse.
    Fail(NkfError),
    /// A number too large for its type (`-B8`, `-B9`, or a fold width past `usize::MAX`).
    Overflow,
}

/// The view of a command-line reading.
pub open spec fn parse_view(r: ParseOutcome) -> ParseView {
    match r {
        ParseOutcome::Run(c) => ParseView::Run(c@),
        ParseOutcome::Exit(x) => ParseView::Exit(x),
        ParseOutcome::Fail(e) => ParseView::Fail(e@),
        ParseOutcome::Overflow => ParseView::Overflow,
    }
}

/// Appends a copy of one argument.
fn push_arg(dst: &mut Vec<String>, arg: &String)
    ensures
        texts(final(dst)@) == texts(old(dst)@).push(arg@),
{
    dst.push(arg.clone());
    assert(texts(dst@) =~= texts(old(dst)@).push(arg@));
}

/// Appends copies of the arguments from index `from` on.
fn append_args(dst: &mut Vec<String>, args: &Vec<String>, from: usize)
    requires
        from <= args@.len(),
    ensures
        texts(final(dst)@) == texts(old(dst)@) + texts(args@).skip(from as int),
{
    let mut j = from;
    while j < args.len()
        invariant
            from <= j <= args@.len(),
            texts(dst@) == texts(old(dst)@) + texts(args@).subrange(from as int, j as int),
        decreases args@.len() - j,
    {
        let ghost before = dst@;
        dst.push(args[j].clone());
        assert(texts(dst@) =~= texts(before).push(args@[j as int]@));
        j += 1;
        assert(texts(dst@) =~= texts(old(dst)@) + texts(args@).subrange(from as int, j as int));
    }
    assert(texts(args@).subrange(from as int, j as int) =~= texts(args@).skip(from as int));
}

/// One step over the arguments, as carried out.
pub enum ParseStepResult {
    /// Go on at this index.
    Next(usize),
    /// The command line is read: convert with the settings as they stand.
    Finish,
    /// Stop without converting.
    End(ParseOutcome),
}

/// Reads an option argument as a long alias or a run of short options.
fn parse_short_arg(args: &Vec<String>, i: usize, a: Vec<char>, config: &mut Config) -> (r: ParseStepResult)
    requires
        i < args@.len(),
        a@ == texts(args@)[i as int],
    ensures
        match r {
            ParseStepResult::Next(j) => spec_parse_short_arg(texts(args@), i as int, old(config)@) == ParseStep::Next(j as int, final(config)@) && i < j <= args@.len(),
            ParseStepResult::Finish => spec_parse_short_arg(texts(args@), i as int, old(config)@) == ParseStep::End(ParseView::Run(final(config)@)),
            ParseStepResult::End(o) => spec_parse_short_arg(texts(args@), i as int, old(config)@) == ParseStep::End(parse_view(o)),
        },
{
    reveal(spec_parse_short_arg);
    let ghost av = texts(args@);
    let ghost before = config@;
    let n = args.len();
    let next: Option<&String> = if i + 1 < n { Some(&args[i + 1]) } else { None };
    assert(opt_ref_text(next) == (if i + 1 < av.len() { Some(av[i + 1]) } else { None::<Seq<char>> }));
    let src: Vec<char> = if chars_start_with_str(a.as_slice(), "--") {
        match long_option_alias(a.as_slice()) {
            Some(al) => str_chars(al),
            None => {
                return ParseStepResult::End(ParseOutcome::Fail(NkfError::UnsupportedOption(args[i].clone())));
            },
        }
    } else {
        a
    };
    proof {
        lemma_short_takes_next(spec_trim_dashes(src@), 0, before, opt_ref_text(next));
    }
    match parse_short_options(src.as_slice(), config, next) {
        ShortOutcome::Done(took) => {
            ParseStepResult::Next(if took { i + 2 } else { i + 1 })
        },
        ShortOutcome::Exit(x) => ParseStepResult::End(ParseOutcome::Exit(x)),
        ShortOutcome::Fail(e) => ParseStepResult::End(ParseOutcome::Fail(e)),
        ShortOutcome::Overflow => ParseStepResult::End(ParseOutcome::Overflow),
    }
}

/// Reads an option argument that is not a one-setting long option.
fn parse_other(args: &Vec<String>, i: usize, a: Vec<char>, config: &mut Config) -> (r: ParseStepResult)
    requires
        i < args@.len(),
        a@ == texts(args@)[i as int],
    ensures
        match r {
            ParseStepResult::Next(j) => spec_parse_other(texts(args@), i as int, old(config)@) == ParseStep::Next(j as int, final(config)@) && i < j <= args@.len(),
            ParseStepResult::Finish => spec_parse_other(texts(args@), i as int, old(config)@) == ParseStep::End(ParseView::Run(final(config)@)),
            ParseStepResult::End(o) => spec_parse_other(texts(args@), i as int, old(config)@) == ParseStep::End(parse_view(o)),
        },
{
    reveal(spec_parse_other);
    let n = args.len();
    if chars_eq_str(a.as_slice(), "--exec-in") || chars_eq_str(a.as_slice(), "--exec-out") {
        config.exec_mode = Some(if chars_eq_str(a.as_slice(), "--exec-in") { ExecMode::Input } else { ExecMode::Output });
        append_args(&mut config.exec_command, args, i + 1);
        return ParseStepResult::Finish;
    }
    if chars_eq_str(a.as_slice(), "--help") {
        return ParseStepResult::End(ParseOutcome::Exit(CliExit::Help));
    }
    if chars_eq_str(a.as_slice(), "--version") {
        return ParseStepResult::End(ParseOutcome::Exit(CliExit::Version));
    }
    parse_short_arg(args, i, a, config)
}

/// Reads an option argument.
fn parse_option(args: &Vec<String>, i: usize, a: Vec<char>, config: &mut Config) -> (r: ParseStepResult)
    requires
        i < args@.len(),
        a@ == texts(args@)[i as int],
    ensures
        match r {
            ParseStepResult::Next(j) => spec_parse_option(texts(args@), i as int, old(config)@) == ParseStep::Next(j as int, final(config)@) && i < j <= args@.len(),
            ParseStepResult::Finish => spec_parse_option(texts(args@), i as int, old(config)@) == ParseStep::End(ParseView::Run(final(config)@)),
            ParseStepResult::End(o) => spec_parse_option(texts(args@), i as int, old(config)@) == ParseStep::End(parse_view(o)),
        },
{
    reveal(spec_parse_option);
    let n = args.len();
    match long_flag(a.as_slice()) {
        Some(Ok(s)) => {
            apply_long_setting(config, s);
            ParseStepResult::Next(i + 1)
        },
        Some(Err(e)) => ParseStepResult::End(ParseOutcome::Fail(e)),
        None => parse_other(args, i, a, config),
    }
}

fn arg_chars(args: &Vec<String>, i: usize) -> (a: Vec<char>)
    requires
        i < args@.len(),
    ensures
        a@ == texts(args@)[i as int],
{
    str_chars(args[i].as_str())
}

/// Adds the argument at index `i` to the input files.
fn add_input(args: &Vec<String>, i: usize, config: &mut Config)
    requires
        i < args@.len(),
    ensures
        final(config)@ == (ConfigView { inputs: old(config)@.inputs.push(texts(args@)[i as int]), ..old(config)@ }),
{
    push_arg(&mut config.inputs, &args[i]);
    assert(args@[i as int]@ == texts(args@)[i as int]);
}

/// Reads an argument other than `--`.
fn parse_arg(args: &Vec<String>, i: usize, a: Vec<char>, config: &mut Config) -> (r: ParseStepResult)
    requires
        i < args@.len(),
        a@ == texts(args@)[i as int],
    ensures
        match r {
            ParseStepResult::Next(j) => spec_parse_arg(texts(args@), i as int, old(config)@) == ParseStep::Next(j as int, final(config)@) && i < j <= args@.len(),
            ParseStepResult::Finish => spec_parse_arg(texts(args@), i as int, old(config)@) == ParseStep::End(ParseView::Run(final(config)@)),
            ParseStepResult::End(o) => spec_parse_arg(texts(args@), i as int, old(config)@) == ParseStep::End(parse_view(o)),
        },
{
    reveal(spec_parse_arg);
    let n = args.len();
    if !(a.len() > 0 && a[0] == '-') || chars_eq_str(a.as_slice(), "-") {
        add_input(args, i, config);
        return ParseStepResult::Next(i + 1);
    }
    parse_option(args, i, a, config)
}

/// Reads the argument at index `i` into the settings.
fn parse_step(args: &Vec<String>, i: usize, config: &mut Config) -> (r: ParseStepResult)
    requires
        i < args@.len(),
    ensures
        match r {
            ParseStepResult::Next(j) => spec_parse_step(texts(args@), i as int, old(config)@) == ParseStep::Next(j as int, final(config)@) && i < j <= args@.len(),
            ParseStepResult::Finish => spec_parse_step(texts(args@), i as int, old(config)@) == ParseStep::End(ParseView::Run(final(config)@)),
            ParseStepResult::End(o) => spec_parse_step(texts(args@), i as int, old(config)@) == ParseStep::End(parse_view(o)),
        },
{
    reveal(spec_parse_step);
    let n = args.len();
    let a = arg_chars(args, i);
    if chars_eq_str(a.as_slice(), "--") {
        append_args(&mut config.inputs, args, i + 1);
        return ParseStepResult::Finish;
    }
    parse_arg(args, i, a, config)
}

/// Reads a command line (the arguments after the program name) into the settings of a
/// conversion, or finds a request to print and stop, an error, or a number too large for its type.
pub fn parse_options(args: &Vec<String>) -> (r: ParseOutcome)
    ensures
        parse_view(r) == spec_parse_args(texts(args@)),
{
    let ghost av = texts(args@);
    let mut config = Config::default();
    let n = args.len();
    let mut i: usize = 0;
    while i < n
        invariant
            n == args@.len(),
            av == texts(args@),
            i <= n,
            spec_parse_args(av) == spec_parse(av, i as int, config@),
        decreases n - i,
    {
        match parse_step(args, i, &mut config) {
            ParseStepResult::Next(j) => {
                i = j;
            },
            ParseStepResult::Finish => {
                return ParseOutcome::Run(config);
            },
            ParseStepResult::End(o) => {
                return o;
            },
        }
    }
    ParseOutcome::Run(config)
}

/// Whether reading the command line meets a number too large for its type (where the flag
/// arithmetic would overflow).
pub open spec fn spec_args_overflow(args: Seq<Seq<char>>) -> bool {
    spec_parse_args(args) is Overflow
}

/// A run of short options takes the next argument only when there is one.
pub proof fn lemma_short_takes_next(body: Seq<char>, i: int, c: ConfigView, next: Option<Seq<char>>)
    ensures
        spec_short(body, i, c, next) matches ShortView::Done(c2, took) ==> (took ==> next is Some),
    decreases body.len() - i,
{
    reveal(spec_step_misc);
    reveal(spec_step_encoding);
    reveal(spec_step_filter);
    if 0 <= i < body.len() {
        let (st, e) = spec_short_step(body, i, c, next);
        match e {
            StepEndView::Continue(j) => {
                if i < j <= body.len() {
                    lemma_short_takes_next(body, j, spec_apply(c, st), next);
                }
            },
            _ => {},
        }
    }
}

/// No one-setting long option is written with a single dash: an argument whose second character
/// is not `-` is none of them.
pub proof fn lemma_long_flag_needs_double_dash(a: Seq<char>)
    requires
        a.len() >= 2,
        a[1] != '-',
    ensures
        spec_long_flag(a) is None,
{
    reveal(spec_long_flag);
    assert forall|p: Seq<char>| p.len() >= 2 && p[1] == '-' implies !#[trigger] has_prefix(a, p) by {
        if has_prefix(a, p) {
            assert(a.take(p.len() as int)[1] == a[1]);
        }
    }
    reveal_strlit("--cap-input");
    reveal_strlit("--cp932");
    reveal_strlit("--cp932inv");
    reveal_strlit("--debug");
    reveal_strlit("--fb-html");
    reveal_strlit("--fb-java");
    reveal_strlit("--fb-perl");
    reveal_strlit("--fb-skip");
    reveal_strlit("--fb-subchar");
    reveal_strlit("--fb-subchar=");
    reveal_strlit("--fb-xml");
    reveal_strlit("--guess");
    reveal_strlit("--guess=");
    reveal_strlit("--hiragana");
    reveal_strlit("--ic=");
    reveal_strlit("--in-place");
    reveal_strlit("--in-place=");
    reveal_strlit("--katakana");
    reveal_strlit("--katakana-hiragana");
    reveal_strlit("--ms-ucs-map");
    reveal_strlit("--no-best-fit-chars");
    reveal_strlit("--no-cp932");
    reveal_strlit("--no-cp932ext");
    reveal_strlit("--no-output");
    reveal_strlit("--numchar-input");
    reveal_strlit("--oc=");
    reveal_strlit("--overwrite");
    reveal_strlit("--overwrite=");
    reveal_strlit("--prefix=");
    reveal_strlit("--url-input");
    reveal_strlit("--utf8mac-input");
    reveal_strlit("--x0212");
}

/// The short options that choose an encoding by one letter: `-j` and `-n` make the output
/// ISO-2022-JP, `-e` EUC-JP and `-s` Shift_JIS; `-J`, `-E` and `-S` read the input as
/// ISO-2022-JP, EUC-JP and Shift_JIS, and `-l` as ISO-8859-1. Nothing else changes, and the run of
/// options goes on with the next letter.
pub proof fn lemma_encoding_letters(body: Seq<char>, i: int, c: ConfigView, next: Option<Seq<char>>)
    requires
        0 <= i < body.len(),
    ensures
        (body[i] == 'j' || body[i] == 'n') ==> spec_short(body, i, c, next) == spec_short(body, i + 1, (ConfigView { output: "ISO-2022-JP"@, ..c }), next),
        body[i] == 'e' ==> spec_short(body, i, c, next) == spec_short(body, i + 1, (ConfigView { output: "EUC-JP"@, ..c }), next),
        body[i] == 's' ==> spec_short(body, i, c, next) == spec_short(body, i + 1, (ConfigView { output: "SHIFT_JIS"@, ..c }), next),
        body[i] == 'J' ==> spec_short(body, i, c, next) == spec_short(body, i + 1, (ConfigView { input: Some("ISO-2022-JP"@), ..c }), next),
        body[i] == 'E' ==> spec_short(body, i, c, next) == spec_short(body, i + 1, (ConfigView { input: Some("EUC-JP"@), ..c }), next),
        body[i] == 'S' ==> spec_short(body, i, c, next) == spec_short(body, i + 1, (ConfigView { input: Some("SHIFT_JIS"@), ..c }), next),
        body[i] == 'l' ==> spec_short(body, i, c, next) == spec_short(body, i + 1, (ConfigView { input: Some("ISO-8859-1"@), ..c }), next),
{
    reveal(spec_step_encoding);
}

/// What the mode letters read as steps.
proof fn lemma_misc_steps(body: Seq<char>, i: int, next: Option<Seq<char>>)
    requires
        0 <= i < body.len(),
    ensures
        body[i] == 'T' ==> spec_step_misc(body, i, next) == Some((SettingView::Unchanged, StepEndView::Continue(i + 1))),
        body[i] == 'b' ==> spec_step_misc(body, i, next) == Some((SettingView::Buffering(BufferingMode::Buffered), StepEndView::Continue(i + 1))),
        body[i] == 'u' ==> spec_step_misc(body, i, next) == Some((SettingView::Buffering(BufferingMode::Unbuffered), StepEndView::Continue(i + 1))),
        body[i] == 'd' ==> spec_step_misc(body, i, next) == Some((SettingView::LineEnd(LineEnding::Unix), StepEndView::Continue(i + 1))),
        body[i] == 'c' ==> spec_step_misc(body, i, next) == Some((SettingView::LineEnd(LineEnding::Windows), StepEndView::Continue(i + 1))),
        body[i] == 'L' && i + 1 < body.len() && (body[i + 1] == 'u' || body[i + 1] == 'f')
            ==> spec_step_misc(body, i, next) == Some((SettingView::LineEnd(LineEnding::Unix), StepEndView::Continue(i + 2))),
        body[i] == 'L' && i + 1 < body.len() && body[i + 1] == 'w'
            ==> spec_step_misc(body, i, next) == Some((SettingView::LineEnd(LineEnding::Windows), StepEndView::Continue(i + 2))),
        body[i] == 'L' && i + 1 < body.len() && body[i + 1] == 'm'
            ==> spec_step_misc(body, i, next) == Some((SettingView::LineEnd(LineEnding::Mac), StepEndView::Continue(i + 2))),
        body[i] == 'v' ==> spec_step_misc(body, i, next) == Some((SettingView::Unchanged, StepEndView::Exit(CliExit::Version))),
        body[i] == 'V' ==> spec_step_misc(body, i, next) == Some((SettingView::Unchanged, StepEndView::Exit(CliExit::Configuration))),
        body[i] == 'X' || body[i] == 'x' || body[i] == 'r' || body[i] == 'h' ==> spec_step_misc(body, i, next) is None,
{
    reveal(spec_step_misc);
}

/// What the filter letters read as steps.
proof fn lemma_filter_steps(body: Seq<char>, i: int, z: u8, kana: u8, broken: u8)
    requires
        0 <= i < body.len(),
    ensures
        body[i] == 'X' ==> spec_step_filter(body, i, z, kana, broken) == Some((SettingView::X0201(X0201Mode::Fullwidth), StepEndView::Continue(i + 1))),
        body[i] == 'x' ==> spec_step_filter(body, i, z, kana, broken) == Some((SettingView::X0201(X0201Mode::Preserve), StepEndView::Continue(i + 1))),
        body[i] == 'r' ==> spec_step_filter(body, i, z, kana, broken) == Some((SettingView::Rot, StepEndView::Continue(i + 1))),
        body[i] == 'h' && i + 1 < body.len() && body[i + 1] == '1'
            ==> spec_step_filter(body, i, z, kana, broken) == Some((SettingView::KanaFlags(kana | 1u8), StepEndView::Continue(i + 2))),
        body[i] == 'h' && i + 1 < body.len() && body[i + 1] == '2'
            ==> spec_step_filter(body, i, z, kana, broken) == Some((SettingView::KanaFlags(kana | 2u8), StepEndView::Continue(i + 2))),
        body[i] == 'h' && i + 1 < body.len() && body[i + 1] == '3'
            ==> spec_step_filter(body, i, z, kana, broken) == Some((SettingView::KanaFlags(kana | 3u8), StepEndView::Continue(i + 2))),
{
    reveal(spec_step_filter);
}

/// A step that goes on at a later index leaves the run to go on there with its setting made.
proof fn lemma_short_continue(body: Seq<char>, i: int, c: ConfigView, next: Option<Seq<char>>, st: SettingView, j: int)
    requires
        0 <= i < j <= body.len(),
        spec_short_step(body, i, c, next) == (st, StepEndView::Continue(j)),
    ensures
        spec_short(body, i, c, next) == spec_short(body, j, spec_apply(c, st), next),
{
}

/// The short options that set a mode by one letter: `-I` makes the output strict ISO-2022-JP,
/// `-b` and `-u` choose buffered and unbuffered output, `-d` and `-Lu` (or `-Lf`) Unix line ends,
/// `-c` and `-Lw` Windows ones, `-Lm` Mac ones, `-T` changes nothing; `-v` and `-V` stop to print
/// the version or the settings.
pub proof fn lemma_mode_letters(body: Seq<char>, i: int, c: ConfigView, next: Option<Seq<char>>)
    requires
        0 <= i < body.len(),
    ensures
        body[i] == 'I' ==> spec_short(body, i, c, next) == spec_short(body, i + 1, (ConfigView { output: "ISO-2022-JP"@, iso2022jp_strict: true, ..c }), next),
        body[i] == 'T' ==> spec_short(body, i, c, next) == spec_short(body, i + 1, c, next),
        body[i] == 'b' ==> spec_short(body, i, c, next) == spec_short(body, i + 1, (ConfigView { buffering: BufferingMode::Buffered, ..c }), next),
        body[i] == 'u' ==> spec_short(body, i, c, next) == spec_short(body, i + 1, (ConfigView { buffering: BufferingMode::Unbuffered, ..c }), next),
        body[i] == 'd' ==> spec_short(body, i, c, next) == spec_short(body, i + 1, (ConfigView { line_ending: LineEnding::Unix, ..c }), next),
        body[i] == 'c' ==> spec_short(body, i, c, next) == spec_short(body, i + 1, (ConfigView { line_ending: LineEnding::Windows, ..c }), next),
        body[i] == 'L' && i + 1 < body.len() && (body[i + 1] == 'u' || body[i + 1] == 'f')
            ==> spec_short(body, i, c, next) == spec_short(body, i + 2, (ConfigView { line_ending: LineEnding::Unix, ..c }), next),
        body[i] == 'L' && i + 1 < body.len() && body[i + 1] == 'w'
            ==> spec_short(body, i, c, next) == spec_short(body, i + 2, (ConfigView { line_ending: LineEnding::Windows, ..c }), next),
        body[i] == 'L' && i + 1 < body.len() && body[i + 1] == 'm'
            ==> spec_short(body, i, c, next) == spec_short(body, i + 2, (ConfigView { line_ending: LineEnding::Mac, ..c }), next),
        body[i] == 'v' ==> spec_short(body, i, c, next) == ShortView::Exit(CliExit::Version),
        body[i] == 'V' ==> spec_short(body, i, c, next) == ShortView::Exit(CliExit::Configuration),
{
    reveal(spec_step_encoding);
    lemma_misc_steps(body, i, next);
    if body[i] == 'I' {
        assert(spec_short_step(body, i, c, next).1 == StepEndView::Continue(i + 1));
        lemma_short_continue(body, i, c, next, spec_short_step(body, i, c, next).0, i + 1);
    }
    if body[i] == 'T' {
        assert(spec_short_step(body, i, c, next).1 == StepEndView::Continue(i + 1));
        lemma_short_continue(body, i, c, next, spec_short_step(body, i, c, next).0, i + 1);
    }
    if body[i] == 'b' {
        assert(spec_short_step(body, i, c, next).1 == StepEndView::Continue(i + 1));
        lemma_short_continue(body, i, c, next, spec_short_step(body, i, c, next).0, i + 1);
    }
    if body[i] == 'u' {
        assert(spec_short_step(body, i, c, next).1 == StepEndView::Continue(i + 1));
        lemma_short_continue(body, i, c, next, spec_short_step(body, i, c, next).0, i + 1);
    }
    if body[i] == 'd' {
        assert(spec_short_step(body, i, c, next).1 == StepEndView::Continue(i + 1));
        lemma_short_continue(body, i, c, next, spec_short_step(body, i, c, next).0, i + 1);
    }
    if body[i] == 'c' {
        assert(spec_short_step(body, i, c, next).1 == StepEndView::Continue(i + 1));
        lemma_short_continue(body, i, c, next, spec_short_step(body, i, c, next).0, i + 1);
    }
    if body[i] == 'L' && i + 1 < body.len() && (body[i + 1] == 'u' || body[i + 1] == 'f') {
        assert(spec_short_step(body, i, c, next).1 == StepEndView::Continue(i + 2));
        lemma_short_continue(body, i, c, next, spec_short_step(body, i, c, next).0, i + 2);
    }
    if body[i] == 'L' && i + 1 < body.len() && body[i + 1] == 'w' {
        assert(spec_short_step(body, i, c, next).1 == StepEndView::Continue(i + 2));
        lemma_short_continue(body, i, c, next, spec_short_step(body, i, c, next).0, i + 2);
    }
    if body[i] == 'L' && i + 1 < body.len() && body[i + 1] == 'm' {
        assert(spec_short_step(body, i, c, next).1 == StepEndView::Continue(i + 2));
        lemma_short_continue(body, i, c, next, spec_short_step(body, i, c, next).0, i + 2);
    }
}

/// The short options for the width and kana filters and ROT13: `-X` and `-x` widen or keep
/// halfwidth katakana, `-r` turns on ROT13, and `-h1`, `-h2` and `-h3` add the hiragana, katakana
/// or both kana flags to those set so far.
pub proof fn lemma_filter_letters(body: Seq<char>, i: int, c: ConfigView, next: Option<Seq<char>>)
    requires
        0 <= i < body.len(),
    ensures
        body[i] == 'X' ==> spec_short(body, i, c, next) == spec_short(body, i + 1, (ConfigView { x0201_mode: X0201Mode::Fullwidth, ..c }), next),
        body[i] == 'x' ==> spec_short(body, i, c, next) == spec_short(body, i + 1, (ConfigView { x0201_mode: X0201Mode::Preserve, ..c }), next),
        body[i] == 'r' ==> spec_short(body, i, c, next) == spec_short(body, i + 1, (ConfigView { rot: true, ..c }), next),
        body[i] == 'h' && i + 1 < body.len() && body[i + 1] == '1'
            ==> spec_short(body, i, c, next) == spec_short(body, i + 2, (ConfigView { kana_flags: c.kana_flags | 1u8, ..c }), next),
        body[i] == 'h' && i + 1 < body.len() && body[i + 1] == '2'
            ==> spec_short(body, i, c, next) == spec_short(body, i + 2, (ConfigView { kana_flags: c.kana_flags | 2u8, ..c }), next),
        body[i] == 'h' && i + 1 < body.len() && body[i + 1] == '3'
            ==> spec_short(body, i, c, next) == spec_short(body, i + 2, (ConfigView { kana_flags: c.kana_flags | 3u8, ..c }), next),
{
    reveal(spec_step_encoding);
    lemma_misc_steps(body, i, next);
    lemma_filter_steps(body, i, c.z_flags, c.kana_flags, c.broken_jis_flags);
    if body[i] == 'X' {
        assert(spec_short_step(body, i, c, next).1 == StepEndView::Continue(i + 1));
        lemma_short_continue(body, i, c, next, spec_short_step(body, i, c, next).0, i + 1);
    }
    if body[i] == 'x' {
        assert(spec_short_step(body, i, c, next).1 == StepEndView::Continue(i + 1));
        lemma_short_continue(body, i, c, next, spec_short_step(body, i, c, next).0, i + 1);
    }
    if body[i] == 'r' {
        assert(spec_short_step(body, i, c, next).1 == StepEndView::Continue(i + 1));
        lemma_short_continue(body, i, c, next, spec_short_step(body, i, c, next).0, i + 1);
    }
    if body[i] == 'h' && i + 1 < body.len() && body[i + 1] == '1' {
        assert(spec_short_step(body, i, c, next).1 == StepEndView::Continue(i + 2));
        lemma_short_continue(body, i, c, next, spec_short_step(body, i, c, next).0, i + 2);
    }
    if body[i] == 'h' && i + 1 < body.len() && body[i + 1] == '2' {
        assert(spec_short_step(body, i, c, next).1 == StepEndView::Continue(i + 2));
        lemma_short_continue(body, i, c, next, spec_short_step(body, i, c, next).0, i + 2);
    }
    if body[i] == 'h' && i + 1 < body.len() && body[i + 1] == '3' {
        assert(spec_short_step(body, i, c, next).1 == StepEndView::Continue(i + 2));
        lemma_short_continue(body, i, c, next, spec_short_step(body, i, c, next).0, i + 2);
    }
}

/// An argument that is one of these letters after a single dash (`-e`, `-s`, `-j`, `-n`, `-E`,
/// `-S`, `-J`, `-l`) sets that encoding, and reading goes on with the next argument: so the
/// command line `nkf -e` converts to EUC-JP with every other setting at its default.
pub proof fn lemma_encoding_option_args(args: Seq<Seq<char>>, i: int, c: ConfigView, x: char)
    requires
        0 <= i < args.len(),
        args[i] == seq!['-', x],
    ensures
        (x == 'j' || x == 'n') ==> spec_parse(args, i, c) == spec_parse(args, i + 1, (ConfigView { output: "ISO-2022-JP"@, ..c })),
        x == 'e' ==> spec_parse(args, i, c) == spec_parse(args, i + 1, (ConfigView { output: "EUC-JP"@, ..c })),
        x == 's' ==> spec_parse(args, i, c) == spec_parse(args, i + 1, (ConfigView { output: "SHIFT_JIS"@, ..c })),
        x == 'J' ==> spec_parse(args, i, c) == spec_parse(args, i + 1, (ConfigView { input: Some("ISO-2022-JP"@), ..c })),
        x == 'E' ==> spec_parse(args, i, c) == spec_parse(args, i + 1, (ConfigView { input: Some("EUC-JP"@), ..c })),
        x == 'S' ==> spec_parse(args, i, c) == spec_parse(args, i + 1, (ConfigView { input: Some("SHIFT_JIS"@), ..c })),
        x == 'l' ==> spec_parse(args, i, c) == spec_parse(args, i + 1, (ConfigView { input: Some("ISO-8859-1"@), ..c })),
        args.len() == 1 && x == 'e' ==> spec_parse_args(args) == ParseView::Run((ConfigView { output: "EUC-JP"@, ..default_view() })),
{
    reveal(spec_step_encoding);
    if x == 'j' || x == 'n' {
        lemma_single_letter_run(args, i, c, x, SettingView::Output("ISO-2022-JP"@));
    }
    if x == 'e' {
        lemma_single_letter_run(args, i, c, x, SettingView::Output("EUC-JP"@));
    }
    if x == 's' {
        lemma_single_letter_run(args, i, c, x, SettingView::Output("SHIFT_JIS"@));
    }
    if x == 'J' {
        lemma_single_letter_run(args, i, c, x, SettingView::Input("ISO-2022-JP"@));
    }
    if x == 'E' {
        lemma_single_letter_run(args, i, c, x, SettingView::Input("EUC-JP"@));
    }
    if x == 'S' {
        lemma_single_letter_run(args, i, c, x, SettingView::Input("SHIFT_JIS"@));
    }
    if x == 'l' {
        lemma_single_letter_run(args, i, c, x, SettingView::Input("ISO-8859-1"@));
    }
    if args.len() == 1 && x == 'e' {
        lemma_single_letter_run(args, 0, default_view(), x, SettingView::Output("EUC-JP"@));
    }
}

/// A single-dash argument of one letter that chooses the setting `s` and goes on leaves reading
/// to go on at the next argument with that setting made.
proof fn lemma_single_letter_run(args: Seq<Seq<char>>, i: int, c: ConfigView, x: char, s: SettingView)
    requires
        0 <= i < args.len(),
        args[i] == seq!['-', x],
        x != '-',
        spec_step_encoding(seq![x], 0) == Some((s, StepEndView::Continue(1))),
    ensures
        spec_parse(args, i, c) == spec_parse(args, i + 1, spec_apply(c, s)),
{
    lemma_single_dash_step(args, i, c, x);
    reveal(spec_parse_short_arg);
    reveal_strlit("--");
    let a = args[i];
    assert(a.take(2) =~= a);
    assert(a.take(2)[1] != "--"@[1]);
    assert(!has_prefix(a, "--"@));
    let body = seq![x];
    assert(a.skip(1) =~= body);
    assert(spec_trim_dashes(body) == body);
    assert(spec_trim_dashes(a) == body);
    let next: Option<Seq<char>> = if i + 1 < args.len() {
        Some(args[i + 1])
    } else {
        None
    };
    assert(spec_short(body, 1, spec_apply(c, s), next) == ShortView::Done(spec_apply(c, s), false));
    assert(spec_short(body, 0, c, next) == ShortView::Done(spec_apply(c, s), false));
}

/// An argument of one character other than `-` after a single dash is read as a run of short
/// options.
proof fn lemma_single_dash_step(args: Seq<Seq<char>>, i: int, c: ConfigView, x: char)
    requires
        0 <= i < args.len(),
        args[i] == seq!['-', x],
        x != '-',
    ensures
        spec_parse_step(args, i, c) == spec_parse_short_arg(args, i, c),
{
    let a = args[i];
    reveal(spec_parse_step);
    reveal(spec_parse_arg);
    reveal(spec_parse_option);
    reveal(spec_parse_other);
    reveal_strlit("--");
    reveal_strlit("-");
    reveal_strlit("--exec-in");
    reveal_strlit("--exec-out");
    reveal_strlit("--help");
    reveal_strlit("--version");
    lemma_long_flag_needs_double_dash(a);
    assert(a[1] != "--"@[1] && a.len() != "-"@.len());
    assert(a != "--"@ && a != "-"@);
    assert(a != "--exec-in"@ && a != "--exec-out"@ && a != "--help"@ && a != "--version"@);
}

/// What a command line asks for when it is not a conversion.
pub enum CliAction {
    /// Convert with these settings.
    Run(Config),
    /// Print something and stop.
    Exit(CliExit),
}

/// Reads a command line into the settings of a conversion, or a request to print and stop.
pub fn parse_args(args: &Vec<String>) -> (r: Result<CliAction, NkfError>)
    requires
        !spec_args_overflow(texts(args@)),
    ensures
        match r {
            Ok(CliAction::Run(c)) => spec_parse_args(texts(args@)) == ParseView::Run(c@),
            Ok(CliAction::Exit(x)) => spec_parse_args(texts(args@)) == ParseView::Exit(x),
            Err(e) => spec_parse_args(texts(args@)) == ParseView::Fail(e@),
        },
{
    match parse_options(args) {
        ParseOutcome::Run(c) => Ok(CliAction::Run(c)),
        ParseOutcome::Exit(x) => Ok(CliAction::Exit(x)),
        ParseOutcome::Fail(e) => Err(e),
        ParseOutcome::Overflow => {
            assert(false);
            Err(NkfError::MissingOutputName)
        },
    }
}

} // verus!
