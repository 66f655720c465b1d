//! Width and kana filters: fullwidth to ASCII, katakana narrowing and widening, hiragana and
//! katakana exchange, HTML escaping.

use crate::config::{Config, X0201Mode};
use crate::text::{chars_to_string, encode_chars, str_chars, utf8_decode_lossy, utf8_lossy};
use kanaria::string::UCSStr;
use kanaria::utils::{ConvertTarget, KanaUtils};
use vstd::prelude::*;
use vstd::utf8::encode_utf8;

verus! {

broadcast use vstd::seq::group_seq_axioms;

/// Hiragana as the kana utilities count it: U+3041..U+3096 and U+309D..U+309F.
pub open spec fn spec_is_hiragana(c: char) -> bool {
    (0x3041 <= c as u32 <= 0x3096) || (0x309D <= c as u32 <= 0x309F)
}

/// Fullwidth katakana that has a hiragana counterpart: U+30A1..U+30F6 and U+30FD..U+30FF.
pub open spec fn spec_is_convertible_katakana(c: char) -> bool {
    (0x30A1 <= c as u32 <= 0x30F6) || (0x30FD <= c as u32 <= 0x30FF)
}

/// Katakana turned into hiragana (0x60 code points lower); anything else kept.
pub open spec fn spec_to_hiragana(c: char) -> char {
    if spec_is_convertible_katakana(c) {
        ((c as u32) - 0x60) as char
    } else {
        c
    }
}

/// Hiragana turned into katakana (0x60 code points higher); anything else kept.
pub open spec fn spec_to_katakana(c: char) -> char {
    if spec_is_hiragana(c) {
        ((c as u32) + 0x60) as char
    } else {
        c
    }
}

/// `KanaUtils::is_hiragana` on a `char`: whether it lies in U+3041..U+3096 or U+309D..U+309F.
#[verifier::external_body]
fn kana_is_hiragana(c: char) -> (r: bool)
    ensures
        r == spec_is_hiragana(c),
{
    KanaUtils::is_hiragana(c)
}

/// `KanaUtils::is_can_convert_hiragana` on a `char`: whether it lies in U+30A1..U+30F6 or
/// U+30FD..U+30FF.
#[verifier::external_body]
fn kana_is_convertible_katakana(c: char) -> (r: bool)
    ensures
        r == spec_is_convertible_katakana(c),
{
    KanaUtils::is_can_convert_hiragana(c)
}

/// `KanaUtils::convert_to_hiragana` on a `char`: a convertible katakana moved down by 0x60,
/// anything else returned as it is.
#[verifier::external_body]
fn kana_to_hiragana(c: char) -> (r: char)
    ensures
        r == spec_to_hiragana(c),
{
    KanaUtils::convert_to_hiragana(c)
}

/// `KanaUtils::convert_to_katakana` on a `char`: a hiragana moved up by 0x60, anything else
/// returned as it is.
#[verifier::external_body]
fn kana_to_katakana(c: char) -> (r: char)
    ensures
        r == spec_to_katakana(c),
{
    KanaUtils::convert_to_katakana(c)
}

/// What the kana filter makes of one character: flag 1 asks for hiragana, flag 2 for katakana,
/// both for an exchange of the two.
pub open spec fn spec_kana_char(flags: u8, c: char) -> char {
    let hira = flags & 1u8 != 0;
    let kata = flags & 2u8 != 0;
    if hira && kata {
        if spec_is_convertible_katakana(c) {
            spec_to_hiragana(c)
        } else if spec_is_hiragana(c) {
            spec_to_katakana(c)
        } else {
            c
        }
    } else if hira {
        spec_to_hiragana(c)
    } else if kata {
        spec_to_katakana(c)
    } else {
        c
    }
}

/// The kana filter on one character.
pub fn kana_filter_char(flags: u8, c: char) -> (r: char)
    ensures
        r == spec_kana_char(flags, c),
{
    let hira = flags & 1 != 0;
    let kata = flags & 2 != 0;
    if hira && kata {
        if kana_is_convertible_katakana(c) {
            kana_to_hiragana(c)
        } else if kana_is_hiragana(c) {
            kana_to_katakana(c)
        } else {
            c
        }
    } else if hira {
        kana_to_hiragana(c)
    } else if kata {
        kana_to_katakana(c)
    } else {
        c
    }
}

/// The kana filter over the characters of the bytes (read as UTF-8, malformed parts replaced).
pub fn kana_filter_chars(flags: u8, input: &[u8]) -> (out: Vec<char>)
    ensures
        out@ == utf8_lossy(input@).map_values(|c: char| spec_kana_char(flags, c)),
{
    let text = utf8_decode_lossy(input);
    let mut out: Vec<char> = Vec::new();
    let mut i: usize = 0;
    while i < text.len()
        invariant
            i <= text@.len(),
            text@ == utf8_lossy(input@),
            out@ == text@.take(i as int).map_values(|c: char| spec_kana_char(flags, c)),
        decreases text@.len() - i,
    {
        out.push(kana_filter_char(flags, text[i]));
        i += 1;
        assert(out@ =~= text@.take(i as int).map_values(|c: char| spec_kana_char(flags, c)));
    }
    assert(text@.take(i as int) =~= text@);
    out
}

/// Hiragana and katakana exchanged as the flags ask, over the text of the bytes.
pub fn apply_hiragana_katakana_filter(flags: u8, input: &[u8]) -> (out: String)
    ensures
        out@ == utf8_lossy(input@).map_values(|c: char| spec_kana_char(flags, c)),
{
    let chars = kana_filter_chars(flags, input);
    chars_to_string(chars.as_slice())
}

/// What `UCSStr::wide(ConvertTarget::KATAKANA)` makes of a text: halfwidth katakana widened,
/// with voiced and semi-voiced marks joined to the kana before them.
pub uninterp spec fn kanaria_widened(text: Seq<char>) -> Seq<char>;

/// What `UCSStr::narrow(ConvertTarget::KATAKANA)` makes of a one-character text.
pub uninterp spec fn kanaria_narrowed(c: char) -> Seq<char>;

/// `UCSStr::from_str(text).wide(ConvertTarget::KATAKANA).to_string()`: the result is named, not
/// described.
#[verifier::external_body]
fn widen_katakana(text: &str) -> (r: String)
    ensures
        r@ == kanaria_widened(text@),
{
    UCSStr::from_str(text).wide(ConvertTarget::KATAKANA).to_string()
}

/// `UCSStr::from_str(&c.to_string()).narrow(ConvertTarget::KATAKANA).to_string()` as characters:
/// the result is named, not described.
#[verifier::external_body]
fn kanaria_narrow_katakana_char(c: char) -> (r: Vec<char>)
    ensures
        r@ == kanaria_narrowed(c),
{
    UCSStr::from_str(&c.to_string()).narrow(ConvertTarget::KATAKANA).to_string().chars().collect()
}

/// Halfwidth punctuation left after widening, turned into its fullwidth form.
pub open spec fn spec_widen_punct(c: char) -> char {
    if c == '\u{FF61}' {
        '\u{3002}'
    } else if c == '\u{FF62}' {
        '\u{300C}'
    } else if c == '\u{FF63}' {
        '\u{300D}'
    } else if c == '\u{FF64}' {
        '\u{3001}'
    } else if c == '\u{FF65}' {
        '\u{30FB}'
    } else {
        c
    }
}

fn widen_punct(c: char) -> (r: char)
    ensures
        r == spec_widen_punct(c),
{
    if c == '\u{FF61}' {
        '\u{3002}'
    } else if c == '\u{FF62}' {
        '\u{300C}'
    } else if c == '\u{FF63}' {
        '\u{300D}'
    } else if c == '\u{FF64}' {
        '\u{3001}'
    } else if c == '\u{FF65}' {
        '\u{30FB}'
    } else {
        c
    }
}

/// Halfwidth katakana widened, and the halfwidth punctuation with it.
pub open spec fn spec_wide_katakana(text: Seq<char>) -> Seq<char> {
    kanaria_widened(text).map_values(|c: char| spec_widen_punct(c))
}

/// Turns the halfwidth Japanese punctuation left in a widened text into its fullwidth forms.
pub fn widen_punctuation(widened: &[char]) -> (out: Vec<char>)
    ensures
        out@ == widened@.map_values(|c: char| spec_widen_punct(c)),
{
    let mut out: Vec<char> = Vec::new();
    let mut i: usize = 0;
    while i < widened.len()
        invariant
            i <= widened@.len(),
            out@ == widened@.take(i as int).map_values(|c: char| spec_widen_punct(c)),
        decreases widened@.len() - i,
    {
        out.push(widen_punct(widened[i]));
        i += 1;
        assert(out@ =~= widened@.take(i as int).map_values(|c: char| spec_widen_punct(c)));
    }
    assert(widened@.take(i as int) =~= widened@);
    out
}

/// Widens halfwidth katakana and halfwidth Japanese punctuation.
pub fn kanaria_wide_katakana(input: &[char]) -> (out: Vec<char>)
    ensures
        out@ == spec_wide_katakana(input@),
{
    let s = chars_to_string(input);
    let widened = str_chars(widen_katakana(s.as_str()).as_str());
    widen_punctuation(widened.as_slice())
}

/// A fullwidth ASCII form (U+FF01..U+FF5E) as its ASCII character.
pub open spec fn spec_fullwidth_ascii(c: char) -> Option<char> {
    if 0xFF01 <= c as u32 <= 0xFF5E {
        Some(((c as u32) - 0xFEE0) as char)
    } else {
        None
    }
}

/// A fullwidth ASCII form (U+FF01..U+FF5E) as its ASCII character.
pub fn fullwidth_ascii_to_ascii(c: char) -> (r: Option<char>)
    ensures
        r == spec_fullwidth_ascii(c),
{
    let v = c as u32;
    if 0xFF01 <= v && v <= 0xFF5E {
        Some(crate::text::char_from_ascii(v - 0xFEE0))
    } else {
        None
    }
}

/// Japanese punctuation and fullwidth symbols that have a plain ASCII stand-in.
pub open spec fn spec_fullwidth_symbol(c: char) -> Option<char> {
    if c == '\u{3001}' || c == '\u{FF0C}' {
        Some(',')
    } else if c == '\u{3002}' || c == '\u{FF0E}' {
        Some('.')
    } else if c == '\u{30FB}' {
        Some('/')
    } else if c == '\u{FF1A}' {
        Some(':')
    } else if c == '\u{FF1B}' {
        Some(';')
    } else if c == '\u{FF1F}' {
        Some('?')
    } else if c == '\u{FF01}' {
        Some('!')
    } else if c == '\u{309B}' {
        Some('`')
    } else if c == '\u{309C}' || c == '\u{2018}' || c == '\u{2019}' {
        Some('\'')
    } else if c == '\u{FF3E}' {
        Some('^')
    } else if c == '\u{FF3F}' {
        Some('_')
    } else if c == '\u{2015}' || c == '\u{2010}' || c == '\u{30FC}' || c == '\u{2212}' {
        Some('-')
    } else if c == '\u{FFE5}' {
        Some('\\')
    } else if c == '\u{301C}' || c == '\u{FF5C}' {
        Some('|')
    } else if c == '\u{201C}' || c == '\u{201D}' {
        Some('"')
    } else if c == '\u{FF08}' {
        Some('(')
    } else if c == '\u{FF09}' {
        Some(')')
    } else if c == '\u{FF3B}' || c == '\u{300C}' {
        Some('[')
    } else if c == '\u{FF3D}' || c == '\u{300D}' {
        Some(']')
    } else if c == '\u{FF5B}' {
        Some('{')
    } else if c == '\u{FF5D}' {
        Some('}')
    } else if c == '\u{3008}' || c == '\u{FF1C}' {
        Some('<')
    } else if c == '\u{3009}' || c == '\u{FF1E}' {
        Some('>')
    } else if c == '\u{FF0B}' {
        Some('+')
    } else if c == '\u{FF1D}' {
        Some('=')
    } else if c == '\u{FF04}' {
        Some('$')
    } else if c == '\u{FF05}' {
        Some('%')
    } else if c == '\u{FF03}' {
        Some('#')
    } else if c == '\u{FF06}' {
        Some('&')
    } else if c == '\u{FF0A}' {
        Some('*')
    } else if c == '\u{FF20}' {
        Some('@')
    } else {
        None
    }
}

/// Japanese punctuation and fullwidth symbols that have a plain ASCII stand-in.
pub fn fullwidth_symbol_to_ascii(c: char) -> (r: Option<char>)
    ensures
        r == spec_fullwidth_symbol(c),
{
    if c == '\u{3001}' || c == '\u{FF0C}' {
        Some(',')
    } else if c == '\u{3002}' || c == '\u{FF0E}' {
        Some('.')
    } else if c == '\u{30FB}' {
        Some('/')
    } else if c == '\u{FF1A}' {
        Some(':')
    } else if c == '\u{FF1B}' {
        Some(';')
    } else if c == '\u{FF1F}' {
        Some('?')
    } else if c == '\u{FF01}' {
        Some('!')
    } else if c == '\u{309B}' {
        Some('`')
    } else if c == '\u{309C}' || c == '\u{2018}' || c == '\u{2019}' {
        Some('\'')
    } else if c == '\u{FF3E}' {
        Some('^')
    } else if c == '\u{FF3F}' {
        Some('_')
    } else if c == '\u{2015}' || c == '\u{2010}' || c == '\u{30FC}' || c == '\u{2212}' {
        Some('-')
    } else if c == '\u{FFE5}' {
        Some('\\')
    } else if c == '\u{301C}' || c == '\u{FF5C}' {
        Some('|')
    } else if c == '\u{201C}' || c == '\u{201D}' {
        Some('"')
    } else if c == '\u{FF08}' {
        Some('(')
    } else if c == '\u{FF09}' {
        Some(')')
    } else if c == '\u{FF3B}' || c == '\u{300C}' {
        Some('[')
    } else if c == '\u{FF3D}' || c == '\u{300D}' {
        Some(']')
    } else if c == '\u{FF5B}' {
        Some('{')
    } else if c == '\u{FF5D}' {
        Some('}')
    } else if c == '\u{3008}' || c == '\u{FF1C}' {
        Some('<')
    } else if c == '\u{3009}' || c == '\u{FF1E}' {
        Some('>')
    } else if c == '\u{FF0B}' {
        Some('+')
    } else if c == '\u{FF1D}' {
        Some('=')
    } else if c == '\u{FF04}' {
        Some('$')
    } else if c == '\u{FF05}' {
        Some('%')
    } else if c == '\u{FF03}' {
        Some('#')
    } else if c == '\u{FF06}' {
        Some('&')
    } else if c == '\u{FF0A}' {
        Some('*')
    } else if c == '\u{FF20}' {
        Some('@')
    } else {
        None
    }
}

/// Fullwidth Japanese punctuation and marks as their halfwidth forms.
pub open spec fn spec_kana_symbol_halfwidth(c: char) -> Option<char> {
    if c == '\u{3002}' {
        Some('\u{FF61}')
    } else if c == '\u{300C}' {
        Some('\u{FF62}')
    } else if c == '\u{300D}' {
        Some('\u{FF63}')
    } else if c == '\u{3001}' {
        Some('\u{FF64}')
    } else if c == '\u{30FB}' {
        Some('\u{FF65}')
    } else if c == '\u{30FC}' {
        Some('\u{FF70}')
    } else if c == '\u{309B}' {
        Some('\u{FF9E}')
    } else if c == '\u{309C}' {
        Some('\u{FF9F}')
    } else {
        None
    }
}

/// Fullwidth Japanese punctuation and marks as their halfwidth forms.
pub fn fullwidth_kana_symbol_to_halfwidth(c: char) -> (r: Option<char>)
    ensures
        r == spec_kana_symbol_halfwidth(c),
{
    if c == '\u{3002}' {
        Some('\u{FF61}')
    } else if c == '\u{300C}' {
        Some('\u{FF62}')
    } else if c == '\u{300D}' {
        Some('\u{FF63}')
    } else if c == '\u{3001}' {
        Some('\u{FF64}')
    } else if c == '\u{30FB}' {
        Some('\u{FF65}')
    } else if c == '\u{30FC}' {
        Some('\u{FF70}')
    } else if c == '\u{309B}' {
        Some('\u{FF9E}')
    } else if c == '\u{309C}' {
        Some('\u{FF9F}')
    } else {
        None
    }
}

/// The HTML escape of `>`, `<`, `"` and `&`; other characters as they are.
pub open spec fn spec_html_escape(c: char) -> Seq<char> {
    if c == '>' {
        seq!['&', 'g', 't', ';']
    } else if c == '<' {
        seq!['&', 'l', 't', ';']
    } else if c == '"' {
        seq!['&', 'q', 'u', 'o', 't', ';']
    } else if c == '&' {
        seq!['&', 'a', 'm', 'p', ';']
    } else {
        seq![c]
    }
}

fn push_html_escaped(out: &mut Vec<char>, c: char)
    ensures
        final(out)@ == old(out)@ + spec_html_escape(c),
{
    if c == '>' {
        out.push('&');
        out.push('g');
        out.push('t');
        out.push(';');
    } else if c == '<' {
        out.push('&');
        out.push('l');
        out.push('t');
        out.push(';');
    } else if c == '"' {
        out.push('&');
        out.push('q');
        out.push('u');
        out.push('o');
        out.push('t');
        out.push(';');
    } else if c == '&' {
        out.push('&');
        out.push('a');
        out.push('m');
        out.push('p');
        out.push(';');
    } else {
        out.push(c);
    }
    assert(out@ =~= old(out)@ + spec_html_escape(c));
}

/// What the `-Z` flags make of one character, given what narrowing makes of it: 16 narrows
/// katakana and Japanese punctuation, 1 turns fullwidth ASCII and symbols into ASCII (the
/// ideographic space into one space with 2, two with 4), 8 escapes `<`, `>`, `"`, `&` for HTML.
pub open spec fn spec_z_char_given(z: u8, c: char, narrowed: Seq<char>) -> Seq<char> {
    if z & 16u8 != 0 && spec_kana_symbol_halfwidth(c) is Some {
        seq![spec_kana_symbol_halfwidth(c).unwrap()]
    } else if z & 16u8 != 0 && narrowed != seq![c] {
        narrowed
    } else if z & 1u8 != 0 && c == '\u{3000}' {
        if z & 4u8 != 0 {
            seq![' ', ' ']
        } else if z & 2u8 != 0 {
            seq![' ']
        } else {
            seq![c]
        }
    } else if z & 1u8 != 0 && spec_fullwidth_ascii(c) is Some {
        if z & 8u8 != 0 {
            spec_html_escape(spec_fullwidth_ascii(c).unwrap())
        } else {
            seq![spec_fullwidth_ascii(c).unwrap()]
        }
    } else if z & 1u8 != 0 && spec_fullwidth_symbol(c) is Some {
        seq![spec_fullwidth_symbol(c).unwrap()]
    } else if z & 8u8 != 0 {
        spec_html_escape(c)
    } else {
        seq![c]
    }
}

/// What the `-Z` flags make of one character, narrowing done by `kanaria`.
pub open spec fn spec_z_char(z: u8, c: char) -> Seq<char> {
    spec_z_char_given(z, c, kanaria_narrowed(c))
}

/// The `-Z` filter over a text, character by character.
pub open spec fn spec_z_chars(z: u8, text: Seq<char>) -> Seq<char>
    decreases text.len(),
{
    if text.len() == 0 {
        seq![]
    } else {
        spec_z_chars(z, text.drop_last()) + spec_z_char(z, text.last())
    }
}

/// Appends what the `-Z` flags make of one character, given what narrowing makes of it
/// (consulted only under flag 16).
pub fn push_z_char_given(out: &mut Vec<char>, z: u8, c: char, narrowed: &[char])
    ensures
        final(out)@ == old(out)@ + spec_z_char_given(z, c, narrowed@),
{
    if z & 16 != 0 {
        match fullwidth_kana_symbol_to_halfwidth(c) {
            Some(h) => {
                out.push(h);
                assert(out@ =~= old(out)@ + spec_z_char_given(z, c, narrowed@));
                return;
            },
            None => {},
        }
        if !(narrowed.len() == 1 && narrowed[0] == c) {
            assert(narrowed@ != seq![c]);
            crate::text::extend_chars(out, narrowed);
            return;
        }
        assert(narrowed@ =~= seq![c]);
    }
    if z & 1 != 0 {
        if c == '\u{3000}' {
            if z & 4 != 0 {
                out.push(' ');
                out.push(' ');
            } else if z & 2 != 0 {
                out.push(' ');
            } else {
                out.push(c);
            }
            assert(out@ =~= old(out)@ + spec_z_char_given(z, c, narrowed@));
            return;
        }
        match fullwidth_ascii_to_ascii(c) {
            Some(a) => {
                if z & 8 != 0 {
                    push_html_escaped(out, a);
                } else {
                    out.push(a);
                    assert(out@ =~= old(out)@ + spec_z_char_given(z, c, narrowed@));
                }
                return;
            },
            None => {},
        }
        match fullwidth_symbol_to_ascii(c) {
            Some(s) => {
                out.push(s);
                assert(out@ =~= old(out)@ + spec_z_char_given(z, c, narrowed@));
                return;
            },
            None => {},
        }
    }
    if z & 8 != 0 {
        push_html_escaped(out, c);
    } else {
        out.push(c);
        assert(out@ =~= old(out)@ + spec_z_char_given(z, c, narrowed@));
    }
}

/// Appends what the `-Z` flags make of one character.
fn push_z_char(out: &mut Vec<char>, z: u8, c: char)
    ensures
        final(out)@ == old(out)@ + spec_z_char(z, c),
{
    if z & 16 != 0 {
        let narrowed = kanaria_narrow_katakana_char(c);
        push_z_char_given(out, z, c, narrowed.as_slice());
    } else {
        let none: Vec<char> = Vec::new();
        push_z_char_given(out, z, c, none.as_slice());
    }
}

/// What the `-Z` flags and `-X` make of the bytes: unchanged when neither is set, otherwise the
/// text (malformed UTF-8 replaced), widened under `-X`, filtered and re-encoded as UTF-8.
pub open spec fn spec_z_x(config: Config, input: Seq<u8>) -> Seq<u8> {
    if config.z_flags == 0 && config.x0201_mode != X0201Mode::Fullwidth {
        input
    } else {
        let text0 = utf8_lossy(input);
        let text = if config.x0201_mode == X0201Mode::Fullwidth {
            spec_wide_katakana(text0)
        } else {
            text0
        };
        encode_utf8(spec_z_chars(config.z_flags, text))
    }
}

/// Applies `-X` widening and the `-Z` filters.
pub fn apply_z_x_filters(config: &Config, input: &[u8]) -> (out: Vec<u8>)
    ensures
        out@ == spec_z_x(*config, input@),
{
    if config.z_flags == 0 && config.x0201_mode != X0201Mode::Fullwidth {
        return crate::text::bytes_copy(input);
    }
    let mut text = utf8_decode_lossy(input);
    if config.x0201_mode == X0201Mode::Fullwidth {
        text = kanaria_wide_katakana(text.as_slice());
    }
    let ghost t = text@;
    let z = config.z_flags;
    let mut out: Vec<char> = Vec::new();
    let mut i: usize = 0;
    while i < text.len()
        invariant
            i <= text@.len(),
            text@ == t,
            out@ == spec_z_chars(z, t.take(i as int)),
        decreases text@.len() - i,
    {
        proof {
            assert(t.take(i + 1).drop_last() =~= t.take(i as int));
            assert(t.take(i + 1).last() == t[i as int]);
        }
        push_z_char(&mut out, z, text[i]);
        i += 1;
    }
    assert(t.take(i as int) =~= t);
    encode_chars(out.as_slice())
}

/// What the text filters make of the bytes: `-X`/`-Z` first, then the kana filter when its flags
/// are set.
pub open spec fn spec_text_filters(config: Config, input: Seq<u8>) -> Seq<u8> {
    let a = spec_z_x(config, input);
    if config.kana_flags != 0 {
        encode_utf8(utf8_lossy(a).map_values(|c: char| spec_kana_char(config.kana_flags, c)))
    } else {
        a
    }
}

/// Applies the width filters and then the kana filter.
pub fn apply_text_filters(config: &Config, input: &[u8]) -> (out: Vec<u8>)
    ensures
        out@ == spec_text_filters(*config, input@),
{
    let bytes = apply_z_x_filters(config, input);
    if config.kana_flags != 0 {
        let chars = kana_filter_chars(config.kana_flags, bytes.as_slice());
        encode_chars(chars.as_slice())
    } else {
        bytes
    }
}

/// Exchanging hiragana and katakana (both kana flags) undoes itself.
pub proof fn lemma_kana_exchange_involution(c: char)
    ensures
        spec_kana_char(3, spec_kana_char(3, c)) == c,
{
    assert(3u8 & 1u8 != 0 && 3u8 & 2u8 != 0) by (bit_vector);
}

/// Katakana made hiragana comes back as the same katakana, and hiragana made katakana comes back
/// as the same hiragana.
pub proof fn lemma_kana_round_trip(c: char)
    ensures
        spec_is_convertible_katakana(c) ==> spec_to_katakana(spec_to_hiragana(c)) == c,
        spec_is_hiragana(c) ==> spec_to_hiragana(spec_to_katakana(c)) == c,
{
}

/// What each kana flag does to one character: `-h1` (flag 1) moves fullwidth katakana
/// U+30A1..U+30F6 and U+30FD..U+30FF down by 0x60 into hiragana and leaves every other character,
/// hiragana included, as it is; `-h2` (flag 2) moves hiragana U+3041..U+3096 and U+309D..U+309F up
/// by 0x60 into katakana and leaves every other character, katakana included; `-h3` does both,
/// each kana to the other kind.
pub proof fn lemma_kana_flags(c: char)
    ensures
        ({
            let v = c as u32;
            let kata = (0x30A1 <= v <= 0x30F6) || (0x30FD <= v <= 0x30FF);
            let hira = (0x3041 <= v <= 0x3096) || (0x309D <= v <= 0x309F);
            &&& kata ==> spec_kana_char(1, c) == ((v - 0x60) as u32) as char
            &&& !kata ==> spec_kana_char(1, c) == c
            &&& hira ==> spec_kana_char(2, c) == ((v + 0x60) as u32) as char
            &&& !hira ==> spec_kana_char(2, c) == c
            &&& kata ==> spec_kana_char(3, c) == ((v - 0x60) as u32) as char
            &&& hira ==> spec_kana_char(3, c) == ((v + 0x60) as u32) as char
            &&& !kata && !hira ==> spec_kana_char(3, c) == c
        }),
{
    assert(1u8 & 1u8 != 0 && 1u8 & 2u8 == 0) by (bit_vector);
    assert(2u8 & 1u8 == 0 && 2u8 & 2u8 != 0) by (bit_vector);
    assert(3u8 & 1u8 != 0 && 3u8 & 2u8 != 0) by (bit_vector);
}

/// What the `-Z` flags do to one character: `-Z` (flag 1) turns each fullwidth ASCII form
/// U+FF01..U+FF5E into the ASCII character 0xFEE0 below it and leaves ASCII as it is; the
/// ideographic space U+3000 stays with `-Z` alone, becomes one space with `-Z1` (flags 1 and 2)
/// and two with `-Z2` (flags 1 and 4); `-Z3` (flags 1 and 8) writes `<`, `>`, `"` and `&` as HTML
/// entities, the fullwidth `＜` included.
pub proof fn lemma_z_flags(c: char, narrowed: Seq<char>)
    ensures
        ({
            let v = c as u32;
            &&& 0xFF01 <= v <= 0xFF5E ==> spec_z_char_given(1, c, narrowed) == seq![((v - 0xFEE0) as u32) as char]
            &&& v < 0x80 ==> spec_z_char_given(1, c, narrowed) == seq![c]
            &&& v == 0x3000 ==> spec_z_char_given(1, c, narrowed) == seq![c]
            &&& v == 0x3000 ==> spec_z_char_given(3, c, narrowed) == seq![' ']
            &&& v == 0x3000 ==> spec_z_char_given(5, c, narrowed) == seq![' ', ' ']
            &&& c == '<' ==> spec_z_char_given(9, c, narrowed) == seq!['&', 'l', 't', ';']
            &&& c == '>' ==> spec_z_char_given(9, c, narrowed) == seq!['&', 'g', 't', ';']
            &&& c == '&' ==> spec_z_char_given(9, c, narrowed) == seq!['&', 'a', 'm', 'p', ';']
            &&& c == '"' ==> spec_z_char_given(9, c, narrowed) == seq!['&', 'q', 'u', 'o', 't', ';']
            &&& v == 0xFF1C ==> spec_z_char_given(9, c, narrowed) == seq!['&', 'l', 't', ';']
        }),
{
    assert(1u8 & 16u8 == 0 && 1u8 & 1u8 != 0 && 1u8 & 2u8 == 0 && 1u8 & 4u8 == 0 && 1u8 & 8u8 == 0) by (bit_vector);
    assert(3u8 & 16u8 == 0 && 3u8 & 1u8 != 0 && 3u8 & 2u8 != 0 && 3u8 & 4u8 == 0) by (bit_vector);
    assert(5u8 & 16u8 == 0 && 5u8 & 1u8 != 0 && 5u8 & 4u8 != 0) by (bit_vector);
    assert(9u8 & 16u8 == 0 && 9u8 & 1u8 != 0 && 9u8 & 8u8 != 0) by (bit_vector);
    let v = c as u32;
    if v < 0x80 {
        assert(spec_fullwidth_ascii(c) is None);
        assert(spec_fullwidth_symbol(c) is None);
    }
    if v == 0xFF1C {
        assert(((v - 0xFEE0) as u32) as char == '<');
    }
}

} // verus!
