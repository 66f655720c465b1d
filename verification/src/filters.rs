//! Byte-level filters: line endings, prefix rules, and the input preprocessors for `:XX`, `%XX`
//! and numeric character references.

use crate::config::{Config, ConfigView, LineEnding};
use crate::error::{bytes_result, ErrorView, NkfError};
use crate::config::EncodeFallback;
use crate::fallback::{digit_value, digits_value, is_digit_of, lemma_digits_write_value, spec_decimal, spec_fallback_string, spec_hex_char};
use crate::mime::{hex_value, lemma_hex_round_trip, spec_hex_byte, spec_hex_value};
use crate::text::{extend_bytes, is_alnum, push_utf8, spec_is_alnum};
use crate::unicode::char_from_u32;
use vstd::prelude::*;
use vstd::utf8::{encode_scalar, is_scalar};

verus! {

broadcast use vstd::seq::group_seq_axioms;

/// Every CR LF pair and every lone CR made a LF.
pub open spec fn spec_to_lf(s: Seq<u8>) -> Seq<u8>
    decreases s.len(),
{
    if s.len() == 0 {
        seq![]
    } else if s[0] == 0x0d && s.len() >= 2 && s[1] == 0x0a {
        seq![0x0au8] + spec_to_lf(s.skip(2))
    } else if s[0] == 0x0d {
        seq![0x0au8] + spec_to_lf(s.skip(1))
    } else {
        seq![s[0]] + spec_to_lf(s.skip(1))
    }
}

/// Every LF written as CR LF.
pub open spec fn spec_lf_to_crlf(s: Seq<u8>) -> Seq<u8>
    decreases s.len(),
{
    if s.len() == 0 {
        seq![]
    } else if s.last() == 0x0a {
        spec_lf_to_crlf(s.drop_last()) + seq![0x0du8, 0x0a]
    } else {
        spec_lf_to_crlf(s.drop_last()).push(s.last())
    }
}

/// Every LF written as CR.
pub open spec fn spec_lf_to_cr(s: Seq<u8>) -> Seq<u8> {
    s.map_values(|b: u8| if b == 0x0a {
        0x0du8
    } else {
        b
    })
}

/// Line endings rewritten for the mode.
pub open spec fn spec_line_endings(s: Seq<u8>, mode: LineEnding) -> Seq<u8> {
    match mode {
        LineEnding::Preserve => s,
        LineEnding::Unix => spec_to_lf(s),
        LineEnding::Windows => spec_lf_to_crlf(spec_to_lf(s)),
        LineEnding::Mac => spec_lf_to_cr(spec_to_lf(s)),
    }
}

/// Rewrites line endings for the mode.
pub fn apply_line_endings(bytes: Vec<u8>, mode: LineEnding) -> (out: Vec<u8>)
    ensures
        out@ == spec_line_endings(bytes@, mode),
{
    if mode == LineEnding::Preserve {
        return bytes;
    }
    let mut normalized: Vec<u8> = Vec::new();
    let mut i: usize = 0;
    assert(bytes@.skip(0) =~= bytes@);
    while i < bytes.len()
        invariant
            i <= bytes@.len(),
            spec_to_lf(bytes@) == normalized@ + spec_to_lf(bytes@.skip(i as int)),
        decreases bytes@.len() - i,
    {
        let ghost tail = bytes@.skip(i as int);
        let ghost before = normalized@;
        assert(tail[0] == bytes@[i as int]);
        if bytes[i] == 0x0d && bytes.len() - i >= 2 && bytes[i + 1] == 0x0a {
            assert(tail[1] == bytes@[i + 1]);
            normalized.push(0x0a);
            assert(tail.skip(2) =~= bytes@.skip(i + 2));
            i += 2;
        } else {
            proof {
                if tail.len() >= 2 {
                    assert(tail[1] == bytes@[i + 1]);
                }
            }
            if bytes[i] == 0x0d {
                normalized.push(0x0a);
            } else {
                normalized.push(bytes[i]);
            }
            assert(tail.skip(1) =~= bytes@.skip(i + 1));
            i += 1;
        }
        proof {
            let rest = spec_to_lf(bytes@.skip(i as int));
            assert(before + (normalized@.subrange(before.len() as int, normalized@.len() as int) + rest) =~= normalized@ + rest);
        }
    }
    assert(bytes@.skip(i as int) =~= Seq::<u8>::empty());
    assert(normalized@ + Seq::<u8>::empty() =~= normalized@);
    match mode {
        LineEnding::Windows => {
            let mut out: Vec<u8> = Vec::new();
            let mut j: usize = 0;
            while j < normalized.len()
                invariant
                    j <= normalized@.len(),
                    out@ == spec_lf_to_crlf(normalized@.take(j as int)),
                decreases normalized@.len() - j,
            {
                assert(normalized@.take(j + 1).drop_last() =~= normalized@.take(j as int));
                if normalized[j] == 0x0a {
                    out.push(0x0d);
                    out.push(0x0a);
                } else {
                    out.push(normalized[j]);
                }
                j += 1;
                assert(out@ =~= spec_lf_to_crlf(normalized@.take(j as int)));
            }
            assert(normalized@.take(j as int) =~= normalized@);
            out
        },
        LineEnding::Mac => {
            let mut out: Vec<u8> = Vec::new();
            let mut j: usize = 0;
            while j < normalized.len()
                invariant
                    j <= normalized@.len(),
                    out@ == spec_lf_to_cr(normalized@.take(j as int)),
                decreases normalized@.len() - j,
            {
                if normalized[j] == 0x0a {
                    out.push(0x0d);
                } else {
                    out.push(normalized[j]);
                }
                j += 1;
                assert(out@ =~= spec_lf_to_cr(normalized@.take(j as int)));
            }
            assert(normalized@.take(j as int) =~= normalized@);
            out
        },
        _ => normalized,
    }
}

/// The prefix the first rule for a byte asks for.
pub open spec fn spec_prefix_for(rules: Seq<(u8, u8)>, b: u8) -> Option<u8>
    decreases rules.len(),
{
    if rules.len() == 0 {
        None
    } else if rules[0].0 == b {
        Some(rules[0].1)
    } else {
        spec_prefix_for(rules.drop_first(), b)
    }
}

/// Each byte preceded by the prefix its first rule names, if any.
pub open spec fn spec_prefixed(rules: Seq<(u8, u8)>, s: Seq<u8>) -> Seq<u8>
    decreases s.len(),
{
    if s.len() == 0 {
        seq![]
    } else {
        let head = match spec_prefix_for(rules, s.last()) {
            Some(p) => seq![p, s.last()],
            None => seq![s.last()],
        };
        spec_prefixed(rules, s.drop_last()) + head
    }
}

/// The prefix rules applied to bytes.
pub open spec fn spec_prefix_rules(config: Config, s: Seq<u8>) -> Seq<u8> {
    if config.prefix_rules@.len() == 0 {
        s
    } else {
        spec_prefixed(config.prefix_rules@, s)
    }
}

fn prefix_for(rules: &Vec<(u8, u8)>, b: u8) -> (r: Option<u8>)
    ensures
        r == spec_prefix_for(rules@, b),
{
    let mut k: usize = 0;
    assert(rules@.skip(0) =~= rules@);
    while k < rules.len()
        invariant
            k <= rules@.len(),
            spec_prefix_for(rules@, b) == spec_prefix_for(rules@.skip(k as int), b),
        decreases rules@.len() - k,
    {
        assert(rules@.skip(k as int)[0] == rules@[k as int]);
        let (target, prefix) = rules[k];
        if target == b {
            return Some(prefix);
        }
        assert(rules@.skip(k as int).drop_first() =~= rules@.skip(k + 1));
        k += 1;
    }
    assert(rules@.skip(k as int).len() == 0);
    None
}

/// Puts the configured prefix byte before each byte a rule names.
pub fn apply_prefix_rules(config: &Config, input: &[u8]) -> (out: Vec<u8>)
    ensures
        out@ == spec_prefix_rules(*config, input@),
{
    if config.prefix_rules.len() == 0 {
        return crate::text::bytes_copy(input);
    }
    let mut out: Vec<u8> = Vec::new();
    let mut i: usize = 0;
    while i < input.len()
        invariant
            i <= input@.len(),
            config.prefix_rules@.len() > 0,
            out@ == spec_prefixed(config.prefix_rules@, input@.take(i as int)),
        decreases input@.len() - i,
    {
        assert(input@.take(i + 1).drop_last() =~= input@.take(i as int));
        let b = input[i];
        if let Some(p) = prefix_for(&config.prefix_rules, b) {
            out.push(p);
        }
        out.push(b);
        i += 1;
        assert(out@ =~= spec_prefixed(config.prefix_rules@, input@.take(i as int)));
    }
    assert(input@.take(i as int) =~= input@);
    out
}

/// The rules a `--prefix=` value adds: its first byte prefixes each of the following bytes.
pub open spec fn spec_prefix_rules_of(value: Seq<char>) -> Seq<(u8, u8)> {
    let bytes = vstd::utf8::encode_utf8(value);
    if bytes.len() == 0 {
        seq![]
    } else {
        bytes.skip(1).map_values(|t: u8| (t, bytes[0]))
    }
}

/// Adds the rules of a `--prefix=` value: its first byte prefixes each of the following bytes.
pub fn add_prefix_rule(config: &mut Config, value: &str)
    ensures
        final(config)@ == (ConfigView { prefix_rules: old(config)@.prefix_rules + spec_prefix_rules_of(value@), ..old(config)@ }),
{
    let bytes = value.as_bytes();
    if bytes.len() == 0 {
        assert(old(config)@.prefix_rules + spec_prefix_rules_of(value@) =~= old(config)@.prefix_rules);
        return;
    }
    let prefix = bytes[0];
    let ghost start = config.prefix_rules@;
    let mut i: usize = 1;
    while i < bytes.len()
        invariant
            1 <= i <= bytes@.len(),
            bytes@ == vstd::utf8::encode_utf8(value@),
            prefix == bytes@[0],
            start == old(config)@.prefix_rules,
            config.prefix_rules@ == start + bytes@.subrange(1, i as int).map_values(|t: u8| (t, prefix)),
            config@ == (ConfigView { prefix_rules: config.prefix_rules@, ..old(config)@ }),
        decreases bytes@.len() - i,
    {
        config.prefix_rules.push((bytes[i], prefix));
        i += 1;
        assert(config.prefix_rules@ =~= start + bytes@.subrange(1, i as int).map_values(|t: u8| (t, prefix)));
    }
    assert(bytes@.subrange(1, i as int) =~= bytes@.skip(1));
}

/// `MXX` escapes (with the marker byte `M`) decoded to the byte `XX`.
pub open spec fn spec_hex_marker(s: Seq<u8>, marker: u8) -> Seq<u8>
    decreases s.len(),
{
    if s.len() == 0 {
        seq![]
    } else if s[0] == marker && s.len() >= 3 && spec_hex_value(s[1]) is Some && spec_hex_value(s[2]) is Some {
        seq![spec_hex_byte(spec_hex_value(s[1]).unwrap(), spec_hex_value(s[2]).unwrap())] + spec_hex_marker(s.skip(3), marker)
    } else {
        seq![s[0]] + spec_hex_marker(s.skip(1), marker)
    }
}

/// Decodes `MXX` hexadecimal escapes introduced by the marker byte.
pub fn decode_hex_marker_input(input: &[u8], marker: u8) -> (out: Vec<u8>)
    ensures
        out@ == spec_hex_marker(input@, marker),
{
    let mut out: Vec<u8> = Vec::new();
    let mut i: usize = 0;
    assert(input@.skip(0) =~= input@);
    while i < input.len()
        invariant
            i <= input@.len(),
            spec_hex_marker(input@, marker) == out@ + spec_hex_marker(input@.skip(i as int), marker),
        decreases input@.len() - i,
    {
        let ghost tail = input@.skip(i as int);
        let ghost before = out@;
        assert(tail[0] == input@[i as int]);
        let mut done = false;
        if input[i] == marker && input.len() - i >= 3 {
            assert(tail[1] == input@[i + 1] && tail[2] == input@[i + 2]);
            if let (Some(hi), Some(lo)) = (hex_value(input[i + 1]), hex_value(input[i + 2])) {
                out.push(hi * 16 + lo);
                assert(tail.skip(3) =~= input@.skip(i + 3));
                i += 3;
                done = true;
            }
        }
        if !done {
            proof {
                if tail.len() >= 3 {
                    assert(tail[1] == input@[i + 1] && tail[2] == input@[i + 2]);
                }
            }
            out.push(input[i]);
            assert(tail.skip(1) =~= input@.skip(i + 1));
            i += 1;
        }
        proof {
            let rest = spec_hex_marker(input@.skip(i as int), marker);
            assert(before + (out@.subrange(before.len() as int, out@.len() as int) + rest) =~= out@ + rest);
        }
    }
    assert(input@.skip(i as int) =~= Seq::<u8>::empty());
    assert(out@ + Seq::<u8>::empty() =~= out@);
    out
}

/// The value of a digit in the given radix (hexadecimal or decimal).
pub open spec fn spec_digit(b: u8, hex: bool) -> Option<u8> {
    if hex {
        spec_hex_value(b)
    } else if 0x30 <= b <= 0x39 {
        Some((b - 0x30) as u8)
    } else {
        None
    }
}

/// One past the largest value of `count` digits.
pub open spec fn spec_digit_limit(count: int, hex: bool) -> int {
    if hex {
        if count <= 0 { 1 } else if count == 1 { 0x10 } else if count == 2 { 0x100 } else if count == 3 { 0x1000 }
        else if count == 4 { 0x10000 } else if count == 5 { 0x100000 } else if count == 6 { 0x1000000 } else { 0x10000000 }
    } else {
        if count <= 0 { 1 } else if count == 1 { 10 } else if count == 2 { 100 } else if count == 3 { 1000 }
        else if count == 4 { 10000 } else if count == 5 { 100000 } else if count == 6 { 1000000 }
        else if count == 7 { 10000000 } else { 100000000 }
    }
}

/// Reading at most `max` digits from index `i` on (the run started at `start`): the value and
/// the index after the last digit.
pub open spec fn spec_scan_digits(s: Seq<u8>, i: int, start: int, hex: bool, max: int, value: int) -> (int, int)
    decreases s.len() - i,
{
    if 0 <= i < s.len() && i - start < max && spec_digit(s[i], hex) is Some {
        spec_scan_digits(s, i + 1, start, hex, max, value * (if hex {
            16int
        } else {
            10
        }) + spec_digit(s[i], hex).unwrap())
    } else {
        (value, i)
    }
}

/// A numeric character reference `&#NNN;` or `&#xHHH;` at the front: the character and its
/// length; the `;` may be missing unless a letter, digit or `#` follows the digits.
pub open spec fn spec_decode_one_numchar(s: Seq<u8>) -> Option<(char, int)> {
    if !(s.len() >= 2 && s[0] == 0x26 && s[1] == 0x23) {
        None
    } else {
        let hex = s.len() >= 3 && (s[2] == 0x78 || s[2] == 0x58);
        let start: int = if hex {
            3
        } else {
            2
        };
        let max: int = if hex {
            7
        } else {
            8
        };
        let (value, i) = spec_scan_digits(s, start, start, hex, max, 0);
        if i == start {
            None
        } else {
            let end: Option<int> = if i < s.len() && s[i] == 0x3b {
                Some(i + 1)
            } else if i < s.len() && (spec_is_alnum(s[i]) || s[i] == 0x23) {
                None
            } else {
                Some(i)
            };
            match end {
                None => None,
                Some(e) => if 0 <= value < 0x1_0000_0000 && is_scalar(value as u32) {
                    Some(((value as u32) as char, e))
                } else {
                    None
                },
            }
        }
    }
}

proof fn lemma_scan_bounds(s: Seq<u8>, i: int, start: int, hex: bool, max: int, value: int)
    requires
        start <= i <= s.len(),
        0 <= value < spec_digit_limit(i - start, hex),
        i - start <= max,
        max == (if hex { 7int } else { 8 }),
    ensures
        ({
            let (v, j) = spec_scan_digits(s, i, start, hex, max, value);
            &&& i <= j <= s.len()
            &&& 0 <= v < spec_digit_limit(j - start, hex)
            &&& j - start <= max
        }),
    decreases s.len() - i,
{
    if 0 <= i < s.len() && i - start < max && spec_digit(s[i], hex) is Some {
        let d = spec_digit(s[i], hex).unwrap();
        assert(d < (if hex { 16int } else { 10 }));
        lemma_scan_bounds(s, i + 1, start, hex, max, value * (if hex { 16int } else { 10 }) + d);
    }
}

/// Decodes a numeric character reference at the front of the bytes.
pub fn decode_one_numchar(input: &[u8]) -> (r: Result<Option<(char, usize)>, NkfError>)
    ensures
        match r {
            Ok(Some((c, n))) => spec_decode_one_numchar(input@) == Some((c, n as int)),
            Ok(None) => spec_decode_one_numchar(input@) is None,
            Err(_) => false,
        },
{
    if !(input.len() >= 2 && input[0] == 0x26 && input[1] == 0x23) {
        return Ok(None);
    }
    let hex = input.len() >= 3 && (input[2] == 0x78 || input[2] == 0x58);
    let start: usize = if hex { 3 } else { 2 };
    let max: usize = if hex { 7 } else { 8 };
    let radix: u32 = if hex { 16 } else { 10 };
    let mut value: u32 = 0;
    let mut i: usize = start;
    assert(spec_digit_limit(0, hex) == 1);
    while i < input.len() && i - start < max
        invariant
            start <= i <= input@.len(),
            start == (if hex { 3int } else { 2 }),
            max == (if hex { 7int } else { 8 }),
            radix == (if hex { 16int } else { 10 }),
            i - start <= max,
            0 <= value < spec_digit_limit(i - start, hex),
            spec_scan_digits(input@, start as int, start as int, hex, max as int, 0) == spec_scan_digits(input@, i as int, start as int, hex, max as int, value as int),
        ensures
            start <= i <= input@.len(),
            0 <= value < spec_digit_limit(i - start, hex),
            spec_scan_digits(input@, start as int, start as int, hex, max as int, 0) == (value as int, i as int),
        decreases input@.len() - i,
    {
        let b = input[i];
        let digit = if hex {
            hex_value(b)
        } else if 0x30 <= b && b <= 0x39 {
            Some(b - 0x30)
        } else {
            None
        };
        assert(digit == spec_digit(b, hex));
        match digit {
            None => {
                break;
            },
            Some(d) => {
                assert(d < radix);
                value = value * radix + (d as u32);
                i += 1;
            },
        }
    }
    if i == start {
        return Ok(None);
    }
    let mut end = i;
    if i < input.len() && input[i] == 0x3b {
        end = i + 1;
    } else if i < input.len() && (is_alnum(input[i]) || input[i] == 0x23) {
        return Ok(None);
    }
    match char_from_u32(value) {
        Some(c) => Ok(Some((c, end))),
        None => Ok(None),
    }
}

/// A decoded reference spans at least three bytes and no more than the input.
proof fn lemma_numchar_span(s: Seq<u8>)
    ensures
        spec_decode_one_numchar(s) matches Some((c, n)) ==> 3 <= n <= s.len(),
{
    if s.len() >= 2 && s[0] == 0x26 && s[1] == 0x23 {
        let hex = s.len() >= 3 && (s[2] == 0x78 || s[2] == 0x58);
        let start: int = if hex { 3 } else { 2 };
        let max: int = if hex { 7 } else { 8 };
        lemma_scan_bounds(s, start, start, hex, max, 0);
    }
}

/// Numeric character references decoded to UTF-8; other bytes kept.
pub open spec fn spec_numchar(s: Seq<u8>) -> Seq<u8>
    decreases s.len(),
{
    if s.len() == 0 {
        seq![]
    } else {
        match spec_decode_one_numchar(s) {
            Some((c, n)) => if 0 < n <= s.len() {
                encode_scalar(c as u32) + spec_numchar(s.skip(n))
            } else {
                seq![s[0]] + spec_numchar(s.skip(1))
            },
            None => seq![s[0]] + spec_numchar(s.skip(1)),
        }
    }
}

/// Decodes numeric character references to UTF-8.
pub fn decode_numchar_input(input: &[u8]) -> (r: Result<Vec<u8>, NkfError>)
    ensures
        r matches Ok(v) && v@ == spec_numchar(input@),
{
    let mut out: Vec<u8> = Vec::new();
    let mut i: usize = 0;
    assert(input@.skip(0) =~= input@);
    while i < input.len()
        invariant
            i <= input@.len(),
            spec_numchar(input@) == out@ + spec_numchar(input@.skip(i as int)),
        decreases input@.len() - i,
    {
        let ghost before = out@;
        let (_, tail) = input.split_at(i);
        assert(tail@ =~= input@.skip(i as int));
        assert(tail@[0] == input@[i as int]);
        let one = if input[i] == 0x26 && input.len() - i >= 2 && input[i + 1] == 0x23 {
            match decode_one_numchar(tail) {
                Ok(o) => o,
                Err(e) => return Err(e),
            }
        } else {
            None
        };
        match one {
            Some((c, n)) => {
                proof {
                    lemma_numchar_span(tail@);
                }
                push_utf8(&mut out, c);
                assert(tail@.skip(n as int) =~= input@.skip(i + n));
                i = i + n;
            },
            None => {
                proof {
                    if !(tail@.len() >= 2 && tail@[0] == 0x26 && tail@[1] == 0x23) {
                        assert(spec_decode_one_numchar(tail@) is None);
                    }
                }
                out.push(input[i]);
                assert(tail@.skip(1) =~= input@.skip(i + 1));
                i += 1;
            },
        }
        proof {
            let rest = spec_numchar(input@.skip(i as int));
            assert(before + (out@.subrange(before.len() as int, out@.len() as int) + rest) =~= out@ + rest);
        }
    }
    assert(input@.skip(i as int) =~= Seq::<u8>::empty());
    assert(out@ + Seq::<u8>::empty() =~= out@);
    Ok(out)
}

/// The input preprocessors the settings enable, in order: `:XX`, `%XX`, numeric references.
pub open spec fn spec_preprocess(config: Config, input: Seq<u8>) -> Seq<u8> {
    let a = if config.cap_input {
        spec_hex_marker(input, 0x3a)
    } else {
        input
    };
    let b = if config.url_input {
        spec_hex_marker(a, 0x25)
    } else {
        a
    };
    if config.numchar_input {
        spec_numchar(b)
    } else {
        b
    }
}

/// Runs the input preprocessors the settings enable.
pub fn apply_input_preprocessors(config: &Config, input: &[u8]) -> (r: Result<Vec<u8>, NkfError>)
    ensures
        r matches Ok(v) && v@ == spec_preprocess(*config, input@),
{
    let mut out = crate::text::bytes_copy(input);
    if config.cap_input {
        out = decode_hex_marker_input(out.as_slice(), 0x3a);
    }
    if config.url_input {
        out = decode_hex_marker_input(out.as_slice(), 0x25);
    }
    if config.numchar_input {
        out = decode_numchar_input(out.as_slice())?;
    }
    Ok(out)
}

/// Whether the bytes hold no carriage return.
pub open spec fn no_cr_bytes(s: Seq<u8>) -> bool {
    forall|k: int| 0 <= k < s.len() ==> s[k] != 0x0d
}

/// Normalising to LF leaves no carriage return.
pub proof fn lemma_to_lf_no_cr(s: Seq<u8>)
    ensures
        no_cr_bytes(spec_to_lf(s)),
    decreases s.len(),
{
    if s.len() > 0 {
        if s[0] == 0x0d && s.len() >= 2 && s[1] == 0x0a {
            lemma_to_lf_no_cr(s.skip(2));
        } else {
            lemma_to_lf_no_cr(s.skip(1));
        }
    }
}

/// Bytes without a carriage return are already normalised to LF.
pub proof fn lemma_to_lf_identity(s: Seq<u8>)
    requires
        no_cr_bytes(s),
    ensures
        spec_to_lf(s) == s,
    decreases s.len(),
{
    if s.len() > 0 {
        lemma_to_lf_identity(s.skip(1));
        assert(seq![s[0]] + s.skip(1) =~= s);
    }
}

/// Normalising to LF works piece by piece when the first piece does not end in a carriage return.
pub proof fn lemma_to_lf_concat(a: Seq<u8>, b: Seq<u8>)
    requires
        a.len() == 0 || a.last() != 0x0d,
    ensures
        spec_to_lf(a + b) == spec_to_lf(a) + spec_to_lf(b),
    decreases a.len(),
{
    if a.len() == 0 {
        assert(a + b =~= b);
        assert(spec_to_lf(a) + spec_to_lf(b) =~= spec_to_lf(b));
    } else if a[0] == 0x0d && a.len() >= 2 && a[1] == 0x0a {
        lemma_to_lf_concat(a.skip(2), b);
        assert((a + b).skip(2) =~= a.skip(2) + b);
        assert(seq![0x0au8] + (spec_to_lf(a.skip(2)) + spec_to_lf(b)) =~= (seq![0x0au8] + spec_to_lf(a.skip(2))) + spec_to_lf(b));
    } else if a[0] == 0x0d {
        assert(a.len() == 1 ==> a.last() == 0x0d);
        lemma_to_lf_concat(a.skip(1), b);
        assert((a + b).skip(1) =~= a.skip(1) + b);
        assert(seq![0x0au8] + (spec_to_lf(a.skip(1)) + spec_to_lf(b)) =~= (seq![0x0au8] + spec_to_lf(a.skip(1))) + spec_to_lf(b));
    } else {
        lemma_to_lf_concat(a.skip(1), b);
        assert((a + b).skip(1) =~= a.skip(1) + b);
        assert(seq![a[0]] + (spec_to_lf(a.skip(1)) + spec_to_lf(b)) =~= (seq![a[0]] + spec_to_lf(a.skip(1))) + spec_to_lf(b));
    }
}

/// Writing LF as CR LF and normalising back gives the text again, when it held no carriage return.
pub proof fn lemma_crlf_round_trip(t: Seq<u8>)
    requires
        no_cr_bytes(t),
    ensures
        spec_to_lf(spec_lf_to_crlf(t)) == t,
        spec_lf_to_crlf(t).len() == 0 || spec_lf_to_crlf(t).last() != 0x0d,
    decreases t.len(),
{
    if t.len() > 0 {
        let d = t.drop_last();
        lemma_crlf_round_trip(d);
        if t.last() == 0x0a {
            lemma_to_lf_concat(spec_lf_to_crlf(d), seq![0x0du8, 0x0a]);
            assert(seq![0x0du8, 0x0a].skip(2) =~= Seq::<u8>::empty());
            assert(spec_to_lf(Seq::<u8>::empty()) =~= Seq::<u8>::empty());
            assert(spec_to_lf(seq![0x0du8, 0x0a]) =~= seq![0x0au8]);
            assert(spec_to_lf(spec_lf_to_crlf(t)) =~= d + seq![0x0au8]);
        } else {
            assert(spec_lf_to_crlf(t) =~= spec_lf_to_crlf(d) + seq![t.last()]);
            lemma_to_lf_concat(spec_lf_to_crlf(d), seq![t.last()]);
            assert(seq![t.last()].skip(1) =~= Seq::<u8>::empty());
            assert(spec_to_lf(Seq::<u8>::empty()) =~= Seq::<u8>::empty());
            assert(spec_to_lf(seq![t.last()]) =~= seq![t.last()]);
            assert(spec_to_lf(spec_lf_to_crlf(t)) =~= d + seq![t.last()]);
        }
        assert(d.push(t.last()) =~= t);
    }
}

/// Writing LF as CR and normalising back gives the text again, when it held no carriage return.
pub proof fn lemma_cr_round_trip(t: Seq<u8>)
    requires
        no_cr_bytes(t),
    ensures
        spec_to_lf(spec_lf_to_cr(t)) == t,
    decreases t.len(),
{
    if t.len() > 0 {
        let u = spec_lf_to_cr(t);
        lemma_cr_round_trip(t.skip(1));
        assert(u.skip(1) =~= spec_lf_to_cr(t.skip(1)));
        assert(u.len() >= 2 ==> u[1] != 0x0a);
        assert(seq![t[0]] + t.skip(1) =~= t);
    }
}

/// Rewriting line endings twice for the same mode is the same as once; after `Unix` no carriage
/// return is left.
pub proof fn lemma_line_endings_idempotent(s: Seq<u8>, mode: LineEnding)
    ensures
        spec_line_endings(spec_line_endings(s, mode), mode) == spec_line_endings(s, mode),
        mode == LineEnding::Unix ==> no_cr_bytes(spec_line_endings(s, mode)),
{
    let t = spec_to_lf(s);
    lemma_to_lf_no_cr(s);
    match mode {
        LineEnding::Preserve => {},
        LineEnding::Unix => {
            lemma_to_lf_identity(t);
        },
        LineEnding::Windows => {
            lemma_crlf_round_trip(t);
        },
        LineEnding::Mac => {
            lemma_cr_round_trip(t);
        },
    }
}

/// Whether bytes hold no line feed.
pub open spec fn no_lf_bytes(s: Seq<u8>) -> bool {
    forall|k: int| 0 <= k < s.len() ==> s[k] != 0x0a
}

/// How the line-ending modes relate: `Preserve` leaves the bytes as they are, `Mac` leaves no
/// line feed, `Unix` no carriage return, and `Windows` (like `Mac`) gives the same on the bytes
/// as on their `Unix` form, since every CR LF, lone CR and lone LF counts as one line break.
pub proof fn lemma_line_endings_modes(s: Seq<u8>)
    ensures
        spec_line_endings(s, LineEnding::Preserve) == s,
        no_cr_bytes(spec_line_endings(s, LineEnding::Unix)),
        no_lf_bytes(spec_line_endings(s, LineEnding::Mac)),
        spec_line_endings(s, LineEnding::Windows) == spec_line_endings(spec_line_endings(s, LineEnding::Unix), LineEnding::Windows),
        spec_line_endings(s, LineEnding::Mac) == spec_line_endings(spec_line_endings(s, LineEnding::Unix), LineEnding::Mac),
{
    let t = spec_to_lf(s);
    lemma_to_lf_no_cr(s);
    lemma_to_lf_identity(t);
}

/// The byte a hexadecimal digit of a nibble is written with (upper case).
pub open spec fn hex_digit_byte(n: u8) -> u8 {
    (spec_hex_char(n) as u32) as u8
}

/// An escape of any byte, the marker and the byte's two hexadecimal digits, decodes to that byte,
/// and decoding goes on after it; bytes with no marker among them are left as they are.
pub proof fn lemma_hex_marker_escape(m: u8, b: u8, rest: Seq<u8>)
    ensures
        spec_hex_marker(seq![m, hex_digit_byte(b / 16), hex_digit_byte(b % 16)] + rest, m)
            == seq![b] + spec_hex_marker(rest, m),
        (forall|k: int| 0 <= k < rest.len() ==> rest[k] != m) ==> spec_hex_marker(rest, m) == rest,
{
    lemma_hex_round_trip(b / 16);
    lemma_hex_round_trip(b % 16);
    let s = seq![m, hex_digit_byte(b / 16), hex_digit_byte(b % 16)] + rest;
    assert(s[0] == m && s[1] == hex_digit_byte(b / 16) && s[2] == hex_digit_byte(b % 16));
    assert(s.skip(3) =~= rest);
    assert(spec_hex_byte(b / 16, b % 16) == b);
    lemma_hex_marker_plain(rest, m);
}

/// Bytes with no marker among them decode to themselves.
proof fn lemma_hex_marker_plain(s: Seq<u8>, m: u8)
    ensures
        (forall|k: int| 0 <= k < s.len() ==> s[k] != m) ==> spec_hex_marker(s, m) == s,
    decreases s.len(),
{
    if s.len() > 0 && (forall|k: int| 0 <= k < s.len() ==> s[k] != m) {
        assert(s[0] != m);
        assert forall|k: int| 0 <= k < s.skip(1).len() implies s.skip(1)[k] != m by {
            assert(s.skip(1)[k] == s[k + 1]);
        }
        lemma_hex_marker_plain(s.skip(1), m);
        assert(seq![s[0]] + s.skip(1) =~= s);
    }
}

/// The bytes of an ASCII text.
pub open spec fn ascii_bytes(t: Seq<char>) -> Seq<u8> {
    t.map_values(|c: char| (c as u32) as u8)
}

/// A number below 10 to the power `k` has at most `k` decimal digits.
proof fn lemma_decimal_len_k(v: u32, k: nat)
    requires
        1 <= k <= 9,
        v < pow10(k),
    ensures
        spec_decimal(v).len() <= k,
    decreases v,
{
    if v >= 10 {
        assert(pow10(0) == 1);
        assert(pow10(1) == 10 * pow10(0));
        assert(k >= 2);
        assert(pow10(k) == 10 * pow10((k - 1) as nat));
        lemma_decimal_len_k(v / 10, (k - 1) as nat);
    }
}

/// Ten to the power `k`.
pub open spec fn pow10(k: nat) -> int
    decreases k,
{
    if k == 0 {
        1
    } else {
        10 * pow10((k - 1) as nat)
    }
}

/// Reading decimal digits from the `j`-th of `n` on, having read the value of the first `j`,
/// ends with the value of all `n` at the byte after them.
proof fn lemma_scan_decimal(s: Seq<u8>, d: Seq<char>, j: int)
    requires
        1 <= d.len() <= 8,
        0 <= j <= d.len(),
        s.len() > 2 + d.len(),
        forall|k: int| 0 <= k < d.len() ==> is_digit_of(#[trigger] d[k], 10),
        forall|k: int| 0 <= k < d.len() ==> #[trigger] s[2 + k] == (d[k] as u32) as u8,
        !(0x30 <= s[2 + d.len() as int] <= 0x39),
    ensures
        spec_scan_digits(s, 2 + j, 2, false, 8, digits_value(d.take(j), 10)) == (digits_value(d, 10), 2 + d.len() as int),
    decreases d.len() - j,
{
    if j < d.len() {
        let c = d[j];
        assert(is_digit_of(c, 10));
        assert(s[2 + j] == (c as u32) as u8);
        assert(spec_digit(s[2 + j], false) == Some(((c as u32) - 0x30) as u8));
        assert(d.take(j + 1).drop_last() =~= d.take(j));
        assert(d.take(j + 1).last() == c);
        assert(digits_value(d.take(j + 1), 10) == digits_value(d.take(j), 10) * 10 + digit_value(c));
        lemma_scan_decimal(s, d, j + 1);
    } else {
        assert(d.take(j) =~= d);
    }
}

/// What `--fb-html` writes for a character, `&#`, its decimal code point and `;`, reads back
/// through `--numchar-input` as that character, whatever follows it.
pub proof fn lemma_html_fallback_numchar(c: char, rest: Seq<u8>)
    ensures
        ({
            let html = ascii_bytes(spec_fallback_string(c, EncodeFallback::Html));
            &&& spec_decode_one_numchar(html + rest) == Some((c, html.len() as int))
            &&& spec_numchar(html + rest) == encode_scalar(c as u32) + spec_numchar(rest)
        }),
{
    let v = c as u32;
    let d = spec_decimal(v);
    lemma_digits_write_value(v);
    vstd::utf8::char_is_scalar(c);
    assert(v <= 0x10FFFF);
    assert(pow10(7) == 10000000) by {
        reveal_with_fuel(pow10, 8);
    }
    lemma_decimal_len_k(v, 7);
    let html = ascii_bytes(spec_fallback_string(c, EncodeFallback::Html));
    let s = html + rest;
    let n = d.len() as int;
    assert(spec_fallback_string(c, EncodeFallback::Html) == seq!['&', '#'] + d + seq![';']);
    assert(html.len() == n + 3);
    assert(s[0] == 0x26 && s[1] == 0x23);
    assert forall|k: int| 0 <= k < n implies #[trigger] s[2 + k] == (d[k] as u32) as u8 by {
        assert(s[2 + k] == html[2 + k]);
    }
    assert(s[2 + n] == 0x3b);
    assert(is_digit_of(d[0], 10));
    assert(s[2] == (d[0] as u32) as u8);
    assert(!(s[2] == 0x78 || s[2] == 0x58));
    assert(d.take(0) =~= Seq::<char>::empty());
    assert(digits_value(Seq::<char>::empty(), 10) == 0);
    lemma_scan_decimal(s, d, 0);
    vstd::utf8::char_u32_cast(c, v);
    assert(s.skip(n + 3) =~= rest);
}

} // verus!
