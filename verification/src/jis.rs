//! ISO-2022-JP byte streams: repairing broken escapes, ROT13/47, designator overrides, and the
//! strict character set.

use crate::codec::{rs_encode, rs_encoded};
use crate::config::Config;
use crate::error::RsCodec;
use crate::names::{normalize_encoding, spec_normalize};
use crate::text::{chars_eq_str, encode_chars, str_chars, utf8_decode_lossy, utf8_lossy};
use vstd::prelude::*;
use vstd::utf8::encode_utf8;

verus! {

broadcast use vstd::seq::group_seq_axioms;

/// The character set an ISO-2022-JP stream is in.
#[derive(Clone, Copy, PartialEq, Eq, Structural)]
pub enum JisState {
    Ascii,
    Jis0208,
    Kana,
}

/// Repairing broken JIS escapes from a state: flag 1 restores a missing ESC before `$@`, `$B`,
/// `(B`, `(J`; flag 2 accepts any designator after `ESC $` or `ESC (`; flag 4 returns to ASCII at
/// each line break.
pub open spec fn spec_repair(s: Seq<u8>, flags: u8, state: JisState, last_esc: bool) -> Seq<u8>
    decreases s.len(),
{
    if s.len() == 0 {
        seq![]
    } else {
        let repair = flags & 1 != 0;
        let any = flags & 2 != 0;
        let reset = flags & 4 != 0;
        let b = s[0];
        if b == 0x1b && s.len() >= 3 && s[1] == 0x24 && (s[2] == 0x40 || s[2] == 0x42) {
            s.take(3) + spec_repair(s.skip(3), flags, JisState::Jis0208, true)
        } else if b == 0x1b && s.len() >= 3 && s[1] == 0x28 && (s[2] == 0x42 || s[2] == 0x4a || s[2] == 0x49) {
            s.take(3) + spec_repair(s.skip(3), flags, if s[2] == 0x49 {
                JisState::Kana
            } else {
                JisState::Ascii
            }, true)
        } else if b == 0x1b && s.len() >= 3 && any && (s[1] == 0x24 || s[1] == 0x28) {
            seq![0x1bu8, s[1], 0x42] + spec_repair(s.skip(3), flags, if s[1] == 0x24 {
                JisState::Jis0208
            } else {
                JisState::Ascii
            }, true)
        } else if repair && b == 0x24 && !last_esc && (state == JisState::Ascii || state == JisState::Kana) && s.len() >= 2 && (s[1] == 0x40 || s[1] == 0x42) {
            seq![0x1bu8, 0x24, s[1]] + spec_repair(s.skip(2), flags, JisState::Jis0208, false)
        } else if repair && b == 0x28 && !last_esc && (state == JisState::Jis0208 || state == JisState::Kana) && s.len() >= 2 && (s[1] == 0x42 || s[1] == 0x4a) {
            seq![0x1bu8, 0x28, s[1]] + spec_repair(s.skip(2), flags, JisState::Ascii, false)
        } else if reset && (b == 0x0a || b == 0x0d) && state != JisState::Ascii {
            seq![0x1bu8, 0x28, 0x42, b] + spec_repair(s.skip(1), flags, JisState::Ascii, b == 0x1b)
        } else {
            seq![b] + spec_repair(s.skip(1), flags, state, b == 0x1b)
        }
    }
}

/// Repairs broken JIS escape sequences as the flags ask.
#[verifier::rlimit(60)]
pub fn repair_broken_jis(input: &[u8], flags: u8) -> (out: Vec<u8>)
    ensures
        out@ == spec_repair(input@, flags, JisState::Ascii, false),
{
    let repair = flags & 1 != 0;
    let any = flags & 2 != 0;
    let reset = flags & 4 != 0;
    let mut out: Vec<u8> = Vec::new();
    let mut state = JisState::Ascii;
    let mut last_esc = false;
    let mut i: usize = 0;
    assert(input@.skip(0) =~= input@);
    while i < input.len()
        invariant
            i <= input@.len(),
            repair == (flags & 1 != 0),
            any == (flags & 2 != 0),
            reset == (flags & 4 != 0),
            spec_repair(input@, flags, JisState::Ascii, false) == out@ + spec_repair(input@.skip(i as int), flags, state, last_esc),
        decreases input@.len() - i,
    {
        let ghost tail = input@.skip(i as int);
        let ghost before = out@;
        let left = input.len() - i;
        let b = input[i];
        let b1: u8 = if left >= 2 { input[i + 1] } else { 0 };
        let b2: u8 = if left >= 3 { input[i + 2] } else { 0 };
        proof {
            assert(tail[0] == b);
            if left >= 2 {
                assert(tail[1] == b1);
            }
            if left >= 3 {
                assert(tail[2] == b2);
                assert(tail.take(3) =~= seq![b, b1, b2]);
            }
        }
        if b == 0x1b && left >= 3 && b1 == 0x24 && (b2 == 0x40 || b2 == 0x42) {
            out.push(b);
            out.push(b1);
            out.push(b2);
            state = JisState::Jis0208;
            last_esc = true;
            assert(tail.skip(3) =~= input@.skip(i + 3));
            i += 3;
        } else if b == 0x1b && left >= 3 && b1 == 0x28 && (b2 == 0x42 || b2 == 0x4a || b2 == 0x49) {
            out.push(b);
            out.push(b1);
            out.push(b2);
            state = if b2 == 0x49 {
                JisState::Kana
            } else {
                JisState::Ascii
            };
            last_esc = true;
            assert(tail.skip(3) =~= input@.skip(i + 3));
            i += 3;
        } else if b == 0x1b && left >= 3 && any && (b1 == 0x24 || b1 == 0x28) {
            out.push(0x1b);
            out.push(b1);
            out.push(0x42);
            state = if b1 == 0x24 {
                JisState::Jis0208
            } else {
                JisState::Ascii
            };
            last_esc = true;
            assert(tail.skip(3) =~= input@.skip(i + 3));
            i += 3;
        } else if repair && b == 0x24 && !last_esc && (state == JisState::Ascii || state == JisState::Kana) && left >= 2 && (b1 == 0x40 || b1 == 0x42) {
            out.push(0x1b);
            out.push(0x24);
            out.push(b1);
            state = JisState::Jis0208;
            last_esc = false;
            assert(tail.skip(2) =~= input@.skip(i + 2));
            i += 2;
        } else if repair && b == 0x28 && !last_esc && (state == JisState::Jis0208 || state == JisState::Kana) && left >= 2 && (b1 == 0x42 || b1 == 0x4a) {
            out.push(0x1b);
            out.push(0x28);
            out.push(b1);
            state = JisState::Ascii;
            last_esc = false;
            assert(tail.skip(2) =~= input@.skip(i + 2));
            i += 2;
        } else {
            if reset && (b == 0x0a || b == 0x0d) && state != JisState::Ascii {
                out.push(0x1b);
                out.push(0x28);
                out.push(0x42);
                state = JisState::Ascii;
            }
            out.push(b);
            last_esc = b == 0x1b;
            assert(tail.skip(1) =~= input@.skip(i + 1));
            i += 1;
        }
        proof {
            let rest = spec_repair(input@.skip(i as int), flags, state, last_esc);
            assert(before + (out@.subrange(before.len() as int, out@.len() as int) + rest) =~= out@ + rest);
        }
    }
    assert(input@.skip(i as int) =~= Seq::<u8>::empty());
    assert(out@ + Seq::<u8>::empty() =~= out@);
    out
}

/// ROT13 of an ASCII letter; other bytes unchanged.
pub open spec fn spec_rot13(b: u8) -> u8 {
    if 0x61 <= b <= 0x7a {
        (0x61 + (b - 0x61 + 13) % 26) as u8
    } else if 0x41 <= b <= 0x5a {
        (0x41 + (b - 0x41 + 13) % 26) as u8
    } else {
        b
    }
}

/// ROT13 of an ASCII letter.
pub fn rot13_byte(b: u8) -> (r: u8)
    ensures
        r == spec_rot13(b),
{
    if 0x61 <= b && b <= 0x7a {
        0x61 + (b - 0x61 + 13) % 26
    } else if 0x41 <= b && b <= 0x5a {
        0x41 + (b - 0x41 + 13) % 26
    } else {
        b
    }
}

/// ROT47 of a printable ASCII byte; other bytes unchanged.
pub open spec fn spec_rot47(b: u8) -> u8 {
    if 0x21 <= b <= 0x7e {
        (0x21 + (b - 0x21 + 47) % 94) as u8
    } else {
        b
    }
}

/// ROT47 of a printable ASCII byte.
pub fn rot47_byte(b: u8) -> (r: u8)
    ensures
        r == spec_rot47(b),
{
    if 0x21 <= b && b <= 0x7e {
        0x21 + (b - 0x21 + 47) % 94
    } else {
        b
    }
}

/// ROT13 of ASCII text and ROT47 of JIS X 0208 text in an ISO-2022-JP stream; escape sequences
/// are copied and switch the mode.
pub open spec fn spec_rot(s: Seq<u8>, jis: bool) -> Seq<u8>
    decreases s.len(),
{
    if s.len() == 0 {
        seq![]
    } else if s[0] == 0x1b && s.len() >= 3 {
        let next = if s[1] == 0x24 && (s[2] == 0x40 || s[2] == 0x42) {
            true
        } else if s[1] == 0x28 {
            false
        } else {
            jis
        };
        s.take(3) + spec_rot(s.skip(3), next)
    } else {
        seq![if jis {
            spec_rot47(s[0])
        } else {
            spec_rot13(s[0])
        }] + spec_rot(s.skip(1), jis)
    }
}

/// Applies ROT13 to ASCII letters and ROT47 to JIS X 0208 bytes.
pub fn apply_rot_filter(input: &[u8]) -> (out: Vec<u8>)
    ensures
        out@ == spec_rot(input@, false),
{
    let mut out: Vec<u8> = Vec::new();
    let mut i: usize = 0;
    let mut jis = false;
    assert(input@.skip(0) =~= input@);
    while i < input.len()
        invariant
            i <= input@.len(),
            spec_rot(input@, false) == out@ + spec_rot(input@.skip(i as int), jis),
        decreases input@.len() - i,
    {
        let ghost tail = input@.skip(i as int);
        let ghost before = out@;
        assert(tail[0] == input@[i as int]);
        if input[i] == 0x1b && input.len() - i >= 3 {
            let b1 = input[i + 1];
            let b2 = input[i + 2];
            assert(tail[1] == b1 && tail[2] == b2);
            assert(tail.take(3) =~= seq![0x1bu8, b1, b2]);
            if b1 == 0x24 && (b2 == 0x40 || b2 == 0x42) {
                jis = true;
            } else if b1 == 0x28 {
                jis = false;
            }
            out.push(0x1b);
            out.push(b1);
            out.push(b2);
            assert(tail.skip(3) =~= input@.skip(i + 3));
            i += 3;
        } else {
            let b = if jis {
                rot47_byte(input[i])
            } else {
                rot13_byte(input[i])
            };
            out.push(b);
            assert(tail.skip(1) =~= input@.skip(i + 1));
            i += 1;
        }
        proof {
            let rest = spec_rot(input@.skip(i as int), jis);
            assert(before + (out@.subrange(before.len() as int, out@.len() as int) + rest) =~= out@ + rest);
        }
    }
    assert(input@.skip(i as int) =~= Seq::<u8>::empty());
    assert(out@ + Seq::<u8>::empty() =~= out@);
    out
}

/// Designator rewriting from the front: the final byte of each JIS X 0208 designator becomes
/// `kanji` and that of each ASCII/Roman designator becomes `ascii`.
pub open spec fn spec_intro(s: Seq<u8>, kanji: u8, ascii: u8) -> Seq<u8>
    decreases s.len(),
{
    if s.len() < 3 {
        s
    } else if s[0] == 0x1b && s[1] == 0x24 && (s[2] == 0x40 || s[2] == 0x42) {
        seq![0x1bu8, 0x24, kanji] + spec_intro(s.skip(3), kanji, ascii)
    } else if s[0] == 0x1b && s[1] == 0x28 && (s[2] == 0x4a || s[2] == 0x42 || s[2] == 0x48) {
        seq![0x1bu8, 0x28, ascii] + spec_intro(s.skip(3), kanji, ascii)
    } else {
        seq![s[0]] + spec_intro(s.skip(1), kanji, ascii)
    }
}

/// Designator overrides for ISO-2022-JP output: unchanged unless the output is ISO-2022-JP and an
/// override is set; a missing override writes `B`.
pub open spec fn spec_intro_overrides(config: Config, input: Seq<u8>) -> Seq<u8> {
    if spec_normalize(config.output@) != "ISO-2022-JP"@ || (config.iso2022_kanji_intro is None
        && config.iso2022_ascii_intro is None) {
        input
    } else {
        let k = match config.iso2022_kanji_intro {
            Some(x) => x,
            None => 0x42u8,
        };
        let a = match config.iso2022_ascii_intro {
            Some(x) => x,
            None => 0x42u8,
        };
        spec_intro(input, k, a)
    }
}

/// Rewrites the ISO-2022-JP designators as the settings ask.
pub fn apply_iso2022_intro_overrides(config: &Config, input: &[u8]) -> (out: Vec<u8>)
    ensures
        out@ == spec_intro_overrides(*config, input@),
{
    let n = normalize_encoding(config.output.as_str());
    let nv = str_chars(n.as_str());
    if !chars_eq_str(nv.as_slice(), "ISO-2022-JP") || (config.iso2022_kanji_intro.is_none()
        && config.iso2022_ascii_intro.is_none()) {
        return crate::text::bytes_copy(input);
    }
    let kanji = match config.iso2022_kanji_intro {
        Some(x) => x,
        None => 0x42u8,
    };
    let ascii = match config.iso2022_ascii_intro {
        Some(x) => x,
        None => 0x42u8,
    };
    let mut out: Vec<u8> = Vec::new();
    let mut i: usize = 0;
    assert(input@.skip(0) =~= input@);
    while i < input.len() && input.len() - i >= 3
        invariant
            i <= input@.len(),
            spec_intro(input@, kanji, ascii) == out@ + spec_intro(input@.skip(i as int), kanji, ascii),
        decreases input@.len() - i,
    {
        let ghost tail = input@.skip(i as int);
        let ghost before = out@;
        let b0 = input[i];
        let b1 = input[i + 1];
        let b2 = input[i + 2];
        assert(tail[0] == b0 && tail[1] == b1 && tail[2] == b2);
        if b0 == 0x1b && b1 == 0x24 && (b2 == 0x40 || b2 == 0x42) {
            out.push(0x1b);
            out.push(0x24);
            out.push(kanji);
            assert(tail.skip(3) =~= input@.skip(i + 3));
            i += 3;
        } else if b0 == 0x1b && b1 == 0x28 && (b2 == 0x4a || b2 == 0x42 || b2 == 0x48) {
            out.push(0x1b);
            out.push(0x28);
            out.push(ascii);
            assert(tail.skip(3) =~= input@.skip(i + 3));
            i += 3;
        } else {
            out.push(b0);
            assert(tail.skip(1) =~= input@.skip(i + 1));
            i += 1;
        }
        proof {
            let rest = spec_intro(input@.skip(i as int), kanji, ascii);
            assert(before + (out@.subrange(before.len() as int, out@.len() as int) + rest) =~= out@ + rest);
        }
    }
    let ghost before = out@;
    let (_, rest) = input.split_at(i);
    assert(rest@ =~= input@.skip(i as int));
    crate::text::extend_bytes(&mut out, rest);
    out
}

/// Whether the strict ISO-2022-JP character set applies.
pub open spec fn spec_should_apply_strict(config: Config) -> bool {
    config.iso2022jp_strict && spec_normalize(config.output@) == "ISO-2022-JP"@
}

/// Whether the strict ISO-2022-JP character set applies.
pub fn should_apply_iso2022jp_strict(config: &Config) -> (r: bool)
    ensures
        r == spec_should_apply_strict(*config),
{
    if !config.iso2022jp_strict {
        return false;
    }
    let n = normalize_encoding(config.output.as_str());
    let nv = str_chars(n.as_str());
    chars_eq_str(nv.as_slice(), "ISO-2022-JP")
}

/// Whether a JIS X 0208 row/cell pair lies outside the blocks the strict set refuses.
pub open spec fn spec_safe_jis_pair(c2: u8, c1: u8) -> bool {
    let c = c2 * 256 + c1;
    0x21 <= c2 <= 0x74 && 0x21 <= c1 <= 0x7e && !((0x222f <= c <= 0x2239) || (0x2242 <= c <= 0x2249) || (0x2251 <= c <= 0x225b) || (0x226b <= c <= 0x2271) || (0x227a <= c <= 0x227d) || (0x2321 <= c <= 0x232f) || (0x233a <= c <= 0x2340) || (0x235b <= c <= 0x2360) || (0x237b <= c <= 0x237e) || (0x2474 <= c <= 0x247e) || (0x2577 <= c <= 0x257e) || (0x2639 <= c <= 0x2640) || (0x2659 <= c <= 0x267e) || (0x2742 <= c <= 0x2750) || (0x2772 <= c <= 0x277e) || (0x2841 <= c <= 0x287e) || (0x4f54 <= c <= 0x4f7e) || (0x7425 <= c <= 0x747e))
}

/// Whether a JIS X 0208 row/cell pair lies outside the blocks the strict set refuses.
pub fn iso2022jp_strict_safe_jis_pair(c2: u8, c1: u8) -> (r: bool)
    ensures
        r == spec_safe_jis_pair(c2, c1),
{
    if !(0x21 <= c2 && c2 <= 0x74) || !(0x21 <= c1 && c1 <= 0x7e) {
        return false;
    }
    let c: u32 = (c2 as u32) * 256 + (c1 as u32);
    !((0x222f <= c && c <= 0x2239) || (0x2242 <= c && c <= 0x2249) || (0x2251 <= c && c <= 0x225b) || (0x226b <= c && c <= 0x2271) || (0x227a <= c && c <= 0x227d) || (0x2321 <= c && c <= 0x232f) || (0x233a <= c && c <= 0x2340) || (0x235b <= c && c <= 0x2360) || (0x237b <= c && c <= 0x237e) || (0x2474 <= c && c <= 0x247e) || (0x2577 <= c && c <= 0x257e) || (0x2639 <= c && c <= 0x2640) || (0x2659 <= c && c <= 0x267e) || (0x2742 <= c && c <= 0x2750) || (0x2772 <= c && c <= 0x277e) || (0x2841 <= c && c <= 0x287e) || (0x4f54 <= c && c <= 0x4f7e) || (0x7425 <= c && c <= 0x747e))
}

/// Whether ISO-2022-JP bytes use only ASCII/Roman and the safe JIS X 0208 pairs.
pub open spec fn spec_strict_bytes(s: Seq<u8>, jis: bool) -> bool
    decreases s.len(),
{
    if s.len() == 0 {
        true
    } else if s[0] == 0x1b {
        if s.len() >= 3 && s[1] == 0x24 && (s[2] == 0x42 || s[2] == 0x40) {
            spec_strict_bytes(s.skip(3), true)
        } else if s.len() >= 3 && s[1] == 0x28 && (s[2] == 0x42 || s[2] == 0x4a) {
            spec_strict_bytes(s.skip(3), false)
        } else {
            false
        }
    } else if jis {
        s.len() >= 2 && spec_safe_jis_pair(s[0], s[1]) && spec_strict_bytes(s.skip(2), true)
    } else {
        s[0] <= 0x7f && spec_strict_bytes(s.skip(1), false)
    }
}

/// Whether ISO-2022-JP bytes use only ASCII/Roman and the safe JIS X 0208 pairs.
pub fn iso2022jp_encoded_bytes_are_strict(bytes: &[u8]) -> (r: bool)
    ensures
        r == spec_strict_bytes(bytes@, false),
{
    let mut i: usize = 0;
    let mut jis = false;
    assert(bytes@.skip(0) =~= bytes@);
    while i < bytes.len()
        invariant
            i <= bytes@.len(),
            spec_strict_bytes(bytes@, false) == spec_strict_bytes(bytes@.skip(i as int), jis),
        decreases bytes@.len() - i,
    {
        let ghost tail = bytes@.skip(i as int);
        let left = bytes.len() - i;
        assert(tail[0] == bytes@[i as int]);
        if bytes[i] == 0x1b {
            if left >= 3 {
                let b1 = bytes[i + 1];
                let b2 = bytes[i + 2];
                assert(tail[1] == b1 && tail[2] == b2);
                assert(tail.skip(3) =~= bytes@.skip(i + 3));
                if b1 == 0x24 && (b2 == 0x42 || b2 == 0x40) {
                    jis = true;
                    i += 3;
                    continue;
                }
                if b1 == 0x28 && (b2 == 0x42 || b2 == 0x4a) {
                    jis = false;
                    i += 3;
                    continue;
                }
            }
            return false;
        }
        if jis {
            if left < 2 {
                return false;
            }
            assert(tail[1] == bytes@[i + 1]);
            if !iso2022jp_strict_safe_jis_pair(bytes[i], bytes[i + 1]) {
                return false;
            }
            assert(tail.skip(2) =~= bytes@.skip(i + 2));
            i += 2;
        } else if bytes[i] <= 0x7f {
            assert(tail.skip(1) =~= bytes@.skip(i + 1));
            i += 1;
        } else {
            return false;
        }
    }
    assert(bytes@.skip(i as int).len() == 0);
    true
}

/// Whether a character stays under the strict ISO-2022-JP set: ASCII, or a character the
/// ISO-2022-JP codec maps to safe JIS X 0208 pairs.
pub open spec fn spec_strict_safe_char(ch: char) -> bool {
    if (ch as u32) < 0x80 {
        true
    } else {
        let (encoded, bad) = rs_encoded(RsCodec::Iso2022Jp, seq![ch]);
        !bad && spec_strict_bytes(encoded, false)
    }
}

/// Whether a character stays under the strict ISO-2022-JP set.
pub fn iso2022jp_strict_safe_char(ch: char) -> (r: bool)
    ensures
        r == spec_strict_safe_char(ch),
{
    if (ch as u32) < 0x80 {
        return true;
    }
    proof {
        crate::codec::lemma_iso2022jp_codec();
    }
    let codec = match crate::codec::codec_for_name("ISO-2022-JP") {
        Some(c) => c,
        None => return false,
    };
    let mut single: Vec<char> = Vec::new();
    single.push(ch);
    assert(single@ =~= seq![ch]);
    let (encoded, bad) = rs_encode(codec, single.as_slice());
    if bad {
        return false;
    }
    iso2022jp_encoded_bytes_are_strict(encoded.as_slice())
}

/// The geta mark U+3013 that replaces characters outside the strict set.
pub const GETA: char = '\u{3013}';

/// Text with every character outside the strict set replaced by the geta mark.
pub open spec fn spec_strict_text(text: Seq<char>) -> Seq<char> {
    text.map_values(|c: char| if spec_strict_safe_char(c) {
        c
    } else {
        GETA
    })
}

/// The strict filter: the input read as UTF-8 (lossily), characters outside the strict set
/// replaced by U+3013, written back as UTF-8.
pub open spec fn spec_strict_filter(input: Seq<u8>) -> Seq<u8> {
    encode_utf8(spec_strict_text(utf8_lossy(input)))
}

/// Replaces characters outside the strict ISO-2022-JP set by the geta mark.
pub fn apply_iso2022jp_strict_filter(input: &[u8]) -> (out: Vec<u8>)
    ensures
        out@ == spec_strict_filter(input@),
{
    let text = utf8_decode_lossy(input);
    let mut chars: Vec<char> = Vec::new();
    let mut i: usize = 0;
    while i < text.len()
        invariant
            i <= text@.len(),
            chars@ == spec_strict_text(text@.take(i as int)),
        decreases text@.len() - i,
    {
        let c = text[i];
        if iso2022jp_strict_safe_char(c) {
            chars.push(c);
        } else {
            chars.push(GETA);
        }
        i += 1;
        assert(chars@ =~= spec_strict_text(text@.take(i as int)));
    }
    assert(text@.take(i as int) =~= text@);
    encode_chars(chars.as_slice())
}

/// The strict filter when it applies, else the input unchanged.
pub open spec fn spec_strict_if_needed(config: Config, input: Seq<u8>) -> Seq<u8> {
    if spec_should_apply_strict(config) {
        spec_strict_filter(input)
    } else {
        input
    }
}

/// Applies the strict filter when the settings ask for it.
pub fn apply_iso2022jp_strict_if_needed(config: &Config, input: &[u8]) -> (out: Vec<u8>)
    ensures
        out@ == spec_strict_if_needed(*config, input@),
{
    if should_apply_iso2022jp_strict(config) {
        apply_iso2022jp_strict_filter(input)
    } else {
        crate::text::bytes_copy(input)
    }
}


/// ROT13 moves each ASCII letter 13 places along the alphabet, keeping its case (`a`..`m` to
/// `n`..`z` and back), and leaves every other byte; ROT47 moves each printable ASCII byte other
/// than space 47 places along `!`..`~` and leaves every other byte.
pub proof fn lemma_rot_shifts(b: u8)
    ensures
        0x61 <= b <= 0x6d || 0x41 <= b <= 0x4d ==> spec_rot13(b) == b + 13,
        0x6e <= b <= 0x7a || 0x4e <= b <= 0x5a ==> spec_rot13(b) == b - 13,
        !(0x61 <= b <= 0x7a || 0x41 <= b <= 0x5a) ==> spec_rot13(b) == b,
        0x21 <= b <= 0x4f ==> spec_rot47(b) == b + 47,
        0x50 <= b <= 0x7e ==> spec_rot47(b) == b - 47,
        !(0x21 <= b <= 0x7e) ==> spec_rot47(b) == b,
{
}

/// ROT13 undoes itself.
pub proof fn lemma_rot13_involution(b: u8)
    ensures
        spec_rot13(spec_rot13(b)) == b,
{
}

/// ROT47 undoes itself.
pub proof fn lemma_rot47_involution(b: u8)
    ensures
        spec_rot47(spec_rot47(b)) == b,
{
}

/// The ROT filter keeps the length.
pub proof fn lemma_rot_len(s: Seq<u8>, jis: bool)
    ensures
        spec_rot(s, jis).len() == s.len(),
    decreases s.len(),
{
    if s.len() == 0 {
    } else if s[0] == 0x1b && s.len() >= 3 {
        let next = if s[1] == 0x24 && (s[2] == 0x40 || s[2] == 0x42) {
            true
        } else if s[1] == 0x28 {
            false
        } else {
            jis
        };
        lemma_rot_len(s.skip(3), next);
    } else {
        lemma_rot_len(s.skip(1), jis);
    }
}

/// The ROT filter undoes itself: escape sequences pass unchanged, so the second pass reads the
/// same character sets as the first, and ROT13 and ROT47 each undo themselves.
pub proof fn lemma_rot_involution(s: Seq<u8>, jis: bool)
    ensures
        spec_rot(spec_rot(s, jis), jis) == s,
    decreases s.len(),
{
    let t = spec_rot(s, jis);
    if s.len() == 0 {
    } else if s[0] == 0x1b && s.len() >= 3 {
        let next = if s[1] == 0x24 && (s[2] == 0x40 || s[2] == 0x42) {
            true
        } else if s[1] == 0x28 {
            false
        } else {
            jis
        };
        lemma_rot_involution(s.skip(3), next);
        lemma_rot_len(s.skip(3), next);
        assert(t.take(3) =~= s.take(3));
        assert(t.skip(3) =~= spec_rot(s.skip(3), next));
        assert(s.take(3) + s.skip(3) =~= s);
    } else {
        lemma_rot_involution(s.skip(1), jis);
        lemma_rot_len(s.skip(1), jis);
        lemma_rot13_involution(s[0]);
        lemma_rot47_involution(s[0]);
        assert(t.skip(1) =~= spec_rot(s.skip(1), jis));
        assert(seq![s[0]] + s.skip(1) =~= s);
    }
}

/// With no repair flag, repairing leaves the bytes as they are.
pub proof fn lemma_repair_without_flags(s: Seq<u8>, state: JisState, last_esc: bool)
    ensures
        spec_repair(s, 0, state, last_esc) == s,
    decreases s.len(),
{
    assert(0u8 & 1u8 == 0 && 0u8 & 2u8 == 0 && 0u8 & 4u8 == 0) by (bit_vector);
    if s.len() == 0 {
    } else if s[0] == 0x1b && s.len() >= 3 && s[1] == 0x24 && (s[2] == 0x40 || s[2] == 0x42) {
        lemma_repair_without_flags(s.skip(3), JisState::Jis0208, true);
        assert(s.take(3) + s.skip(3) =~= s);
    } else if s[0] == 0x1b && s.len() >= 3 && s[1] == 0x28 && (s[2] == 0x42 || s[2] == 0x4a || s[2] == 0x49) {
        lemma_repair_without_flags(s.skip(3), if s[2] == 0x49 { JisState::Kana } else { JisState::Ascii }, true);
        assert(s.take(3) + s.skip(3) =~= s);
    } else {
        lemma_repair_without_flags(s.skip(1), state, s[0] == 0x1b);
        assert(seq![s[0]] + s.skip(1) =~= s);
    }
}

/// Whether `a` can be had from `b` by deleting bytes.
pub open spec fn spec_subsequence(a: Seq<u8>, b: Seq<u8>) -> bool
    decreases b.len(),
{
    if a.len() == 0 {
        true
    } else if b.len() == 0 {
        false
    } else {
        (a[0] == b[0] && spec_subsequence(a.skip(1), b.skip(1))) || spec_subsequence(a, b.skip(1))
    }
}

proof fn lemma_subsequence_refl(a: Seq<u8>)
    ensures
        spec_subsequence(a, a),
    decreases a.len(),
{
    if a.len() > 0 {
        lemma_subsequence_refl(a.skip(1));
    }
}

proof fn lemma_subsequence_prefix(a: Seq<u8>, p: Seq<u8>, b: Seq<u8>)
    requires
        spec_subsequence(a, b),
    ensures
        spec_subsequence(a, p + b),
    decreases p.len(),
{
    if p.len() == 0 {
        assert(p + b =~= b);
    } else if a.len() > 0 {
        lemma_subsequence_prefix(a, p.skip(1), b);
        assert((p + b).skip(1) =~= p.skip(1) + b);
    }
}

proof fn lemma_subsequence_concat(a1: Seq<u8>, b1: Seq<u8>, a2: Seq<u8>, b2: Seq<u8>)
    requires
        spec_subsequence(a1, b1),
        spec_subsequence(a2, b2),
    ensures
        spec_subsequence(a1 + a2, b1 + b2),
    decreases b1.len(),
{
    if a1.len() == 0 {
        assert(a1 + a2 =~= a2);
        lemma_subsequence_prefix(a2, b1, b2);
    } else {
        assert((b1 + b2).skip(1) =~= b1.skip(1) + b2);
        assert((a1 + a2)[0] == a1[0] && (b1 + b2)[0] == b1[0]);
        if a1[0] == b1[0] && spec_subsequence(a1.skip(1), b1.skip(1)) {
            lemma_subsequence_concat(a1.skip(1), b1.skip(1), a2, b2);
            assert((a1 + a2).skip(1) =~= a1.skip(1) + a2);
        } else {
            lemma_subsequence_concat(a1, b1.skip(1), a2, b2);
        }
    }
}

/// Without flag 2, repairing only inserts bytes: the input can be had from the output by
/// deleting what the repair added.
pub proof fn lemma_repair_only_inserts(s: Seq<u8>, flags: u8, state: JisState, last_esc: bool)
    requires
        flags & 2 == 0,
    ensures
        spec_subsequence(s, spec_repair(s, flags, state, last_esc)),
    decreases s.len(),
{
    if s.len() > 0 {
        let repair = flags & 1 != 0;
        let reset = flags & 4 != 0;
        let b = s[0];
        if b == 0x1b && s.len() >= 3 && s[1] == 0x24 && (s[2] == 0x40 || s[2] == 0x42) {
            lemma_repair_only_inserts(s.skip(3), flags, JisState::Jis0208, true);
            lemma_subsequence_refl(s.take(3));
            lemma_subsequence_concat(s.take(3), s.take(3), s.skip(3), spec_repair(s.skip(3), flags, JisState::Jis0208, true));
            assert(s.take(3) + s.skip(3) =~= s);
        } else if b == 0x1b && s.len() >= 3 && s[1] == 0x28 && (s[2] == 0x42 || s[2] == 0x4a || s[2] == 0x49) {
            let st = if s[2] == 0x49 { JisState::Kana } else { JisState::Ascii };
            lemma_repair_only_inserts(s.skip(3), flags, st, true);
            lemma_subsequence_refl(s.take(3));
            lemma_subsequence_concat(s.take(3), s.take(3), s.skip(3), spec_repair(s.skip(3), flags, st, true));
            assert(s.take(3) + s.skip(3) =~= s);
        } else if repair && b == 0x24 && !last_esc && (state == JisState::Ascii || state == JisState::Kana) && s.len() >= 2 && (s[1] == 0x40 || s[1] == 0x42) {
            lemma_repair_only_inserts(s.skip(2), flags, JisState::Jis0208, false);
            lemma_subsequence_refl(s.take(2));
            lemma_subsequence_prefix(s.take(2), seq![0x1bu8], s.take(2));
            assert(seq![0x1bu8] + s.take(2) =~= seq![0x1bu8, 0x24, s[1]]);
            lemma_subsequence_concat(s.take(2), seq![0x1bu8, 0x24, s[1]], s.skip(2), spec_repair(s.skip(2), flags, JisState::Jis0208, false));
            assert(s.take(2) + s.skip(2) =~= s);
        } else if repair && b == 0x28 && !last_esc && (state == JisState::Jis0208 || state == JisState::Kana) && s.len() >= 2 && (s[1] == 0x42 || s[1] == 0x4a) {
            lemma_repair_only_inserts(s.skip(2), flags, JisState::Ascii, false);
            lemma_subsequence_refl(s.take(2));
            lemma_subsequence_prefix(s.take(2), seq![0x1bu8], s.take(2));
            assert(seq![0x1bu8] + s.take(2) =~= seq![0x1bu8, 0x28, s[1]]);
            lemma_subsequence_concat(s.take(2), seq![0x1bu8, 0x28, s[1]], s.skip(2), spec_repair(s.skip(2), flags, JisState::Ascii, false));
            assert(s.take(2) + s.skip(2) =~= s);
        } else if reset && (b == 0x0a || b == 0x0d) && state != JisState::Ascii {
            lemma_repair_only_inserts(s.skip(1), flags, JisState::Ascii, b == 0x1b);
            lemma_subsequence_refl(seq![b]);
            lemma_subsequence_prefix(seq![b], seq![0x1bu8, 0x28, 0x42], seq![b]);
            assert(seq![0x1bu8, 0x28, 0x42] + seq![b] =~= seq![0x1bu8, 0x28, 0x42, b]);
            lemma_subsequence_concat(seq![b], seq![0x1bu8, 0x28, 0x42, b], s.skip(1), spec_repair(s.skip(1), flags, JisState::Ascii, b == 0x1b));
            assert(seq![b] + s.skip(1) =~= s);
        } else {
            lemma_repair_only_inserts(s.skip(1), flags, state, b == 0x1b);
            lemma_subsequence_refl(seq![b]);
            lemma_subsequence_concat(seq![b], seq![b], s.skip(1), spec_repair(s.skip(1), flags, state, b == 0x1b));
            assert(seq![b] + s.skip(1) =~= s);
        }
    }
}

} // verus!
