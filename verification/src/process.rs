//! One whole conversion as the settings ask: input repairs and decoders, the character
//! conversion with its filters, and the output rewrites.

use crate::config::{Config, LineEnding, MimeDecodeMode, MimeEncodeMode, MimeEncoding, X0201Mode};
use crate::convert::{convert, convert_for_config, spec_convert, spec_convert_for_config};
use crate::error::{bytes_result, ErrorView, NkfError};
use crate::filters::{apply_input_preprocessors, apply_line_endings, apply_prefix_rules, spec_line_endings, spec_prefix_rules, spec_preprocess};
use crate::fold::{fold_chars, fold_utf8_lossy, spec_fold};
use crate::guess::{guess_encoding, spec_guess_encoding};
use crate::jis::{apply_iso2022_intro_overrides, apply_iso2022jp_strict_if_needed, apply_rot_filter, repair_broken_jis, should_apply_iso2022jp_strict, spec_intro_overrides, spec_repair, spec_rot, spec_should_apply_strict, spec_strict_if_needed, JisState};
use crate::kana::{apply_text_filters, spec_text_filters};
use crate::mime::{byte_lines_within, decode_base64_input, decode_mime_encoded_words_strict, decode_mime_q, encode_mime_output, spec_decode_base64_input, spec_decode_mime_q, spec_decode_words, spec_encode_mime_output};
use crate::names::spec_mime_charset_name;
use crate::text::{bytes_copy, chars_to_string, encode_chars, str_chars, utf8_decode_lossy, utf8_lossy};
use unicode_normalization::UnicodeNormalization;
use vstd::prelude::*;
use vstd::utf8::encode_utf8;

verus! {

broadcast use vstd::seq::group_seq_axioms;

/// What `s.nfc().collect::<String>()` makes of a text (Unicode canonical composition).
pub uninterp spec fn nfc_of(text: Seq<char>) -> Seq<char>;

/// `UnicodeNormalization::nfc` collected into a `String`: the result is named, not described.
#[verifier::external_body]
fn nfc(text: &str) -> (r: String)
    ensures
        r@ == nfc_of(text@),
{
    text.nfc().collect::<String>()
}

/// The input after the JIS repairs, the preprocessors and the MIME decoder the settings enable.
pub open spec fn spec_prepare_input(config: Config, input: Seq<u8>) -> Result<Seq<u8>, ErrorView> {
    let a = if config.broken_jis_flags != 0 {
        spec_repair(input, config.broken_jis_flags, JisState::Ascii, false)
    } else {
        input
    };
    let b = if config.cap_input || config.url_input || config.numchar_input {
        spec_preprocess(config, a)
    } else {
        a
    };
    match config.mime_decode_mode {
        MimeDecodeMode::Base64 => spec_decode_base64_input(b),
        MimeDecodeMode::QuotedPrintable => Ok(spec_decode_mime_q(b)),
        MimeDecodeMode::Strict => spec_decode_words(b, true),
        MimeDecodeMode::Nonstrict => spec_decode_words(b, false),
        MimeDecodeMode::Off => Ok(b),
    }
}

/// Repairs, preprocesses and MIME-decodes the input as the settings ask.
pub fn prepare_input(config: &Config, input: &[u8]) -> (r: Result<Vec<u8>, NkfError>)
    ensures
        bytes_result(r) == spec_prepare_input(*config, input@),
{
    let mut bytes = if config.broken_jis_flags != 0 {
        repair_broken_jis(input, config.broken_jis_flags)
    } else {
        bytes_copy(input)
    };
    if config.cap_input || config.url_input || config.numchar_input {
        bytes = apply_input_preprocessors(config, bytes.as_slice())?;
    }
    match config.mime_decode_mode {
        MimeDecodeMode::Base64 => decode_base64_input(bytes.as_slice()),
        MimeDecodeMode::QuotedPrintable => decode_mime_q(bytes.as_slice()),
        MimeDecodeMode::Strict => decode_mime_encoded_words_strict(bytes.as_slice(), true),
        MimeDecodeMode::Nonstrict => decode_mime_encoded_words_strict(bytes.as_slice(), false),
        MimeDecodeMode::Off => Ok(bytes),
    }
}

/// The output MIME-encoded as the settings ask: Base64 or quoted-printable encoded-words in the
/// output charset; `Auto` (what `-M` selects) writes Base64 words.
pub open spec fn spec_mime_output(config: Config, bytes: Seq<u8>) -> Seq<u8> {
    match config.mime_encode_mode {
        MimeEncodeMode::Base64 => spec_encode_mime_output(bytes, MimeEncoding::Base64, config.output@),
        MimeEncodeMode::QuotedPrintable => spec_encode_mime_output(bytes, MimeEncoding::QuotedPrintable, config.output@),
        MimeEncodeMode::Auto => spec_encode_mime_output(bytes, MimeEncoding::Base64, config.output@),
        MimeEncodeMode::Unencoded => bytes,
    }
}

/// MIME-encodes the output as the settings ask; encoded output has no line over 76 bytes, and
/// output encoded in words labelled UTF-8 decodes back to the bytes, strictly or not.
pub fn mime_output(config: &Config, bytes: Vec<u8>) -> (out: Vec<u8>)
    ensures
        out@ == spec_mime_output(*config, bytes@),
        config.mime_encode_mode != MimeEncodeMode::Unencoded ==> byte_lines_within(out@, 76),
        config.mime_encode_mode != MimeEncodeMode::Unencoded && spec_mime_charset_name(config.output@) == "UTF-8"@
            ==> spec_decode_words(out@, false) == Ok::<Seq<u8>, ErrorView>(bytes@)
                && spec_decode_words(out@, true) == Ok::<Seq<u8>, ErrorView>(bytes@),
{
    match config.mime_encode_mode {
        MimeEncodeMode::Base64 => encode_mime_output(bytes.as_slice(), MimeEncoding::Base64, config.output.as_str()),
        MimeEncodeMode::QuotedPrintable => encode_mime_output(bytes.as_slice(), MimeEncoding::QuotedPrintable, config.output.as_str()),
        MimeEncodeMode::Auto => encode_mime_output(bytes.as_slice(), MimeEncoding::Base64, config.output.as_str()),
        MimeEncodeMode::Unencoded => bytes,
    }
}

/// Whether a fold setting keeps its width arithmetic within `usize`.
pub open spec fn fold_fits(config: Config) -> bool {
    config.fold matches Some(f) ==> f.len + f.margin + 2 <= usize::MAX
}

/// Transparent mode: no character conversion, only the byte filters.
pub open spec fn spec_transparent(config: Config, input: Seq<u8>) -> Seq<u8> {
    let a = match config.fold {
        Some(f) => encode_utf8(spec_fold(f, utf8_lossy(input))),
        None => input,
    };
    let b = spec_text_filters(config, a);
    let c = if config.rot {
        spec_rot(b, false)
    } else {
        b
    };
    spec_mime_output(config, spec_prefix_rules(config, spec_line_endings(c, config.line_ending)))
}

/// Whether the conversion goes through UTF-8 to apply the text filters.
pub open spec fn spec_filters_needed(config: Config) -> bool {
    config.z_flags != 0 || config.x0201_mode == X0201Mode::Fullwidth || config.kana_flags != 0
        || spec_should_apply_strict(config)
}

/// Text on its way to the output encoding: the text filters, then the strict ISO-2022-JP set,
/// then the conversion from UTF-8 with the settings applied.
pub open spec fn spec_filter_and_encode(config: Config, utf8: Seq<u8>) -> Result<Seq<u8>, ErrorView> {
    spec_filter_and_encode_to(config, config.output@, utf8)
}

/// Text on its way to the named encoding, with the settings applied.
pub open spec fn spec_filter_and_encode_to(config: Config, to: Seq<char>, utf8: Seq<u8>) -> Result<Seq<u8>, ErrorView> {
    spec_convert_for_config(config, "UTF-8"@, to, spec_strict_if_needed(config, spec_text_filters(config, utf8)))
}

/// Normalized text folded when the settings ask, then filtered and encoded.
pub open spec fn spec_fold_and_encode(config: Config, text: Seq<char>) -> Result<Seq<u8>, ErrorView> {
    spec_fold_and_encode_to(config, config.output@, text)
}

/// Normalized text folded when the settings ask, then filtered and encoded in the named encoding.
pub open spec fn spec_fold_and_encode_to(config: Config, to: Seq<char>, text: Seq<char>) -> Result<Seq<u8>, ErrorView> {
    let t = match config.fold {
        Some(f) => spec_fold(f, text),
        None => text,
    };
    spec_filter_and_encode_to(config, to, encode_utf8(t))
}

/// The character conversion with the settings applied, before the output rewrites.
pub open spec fn spec_convert_text(config: Config, from: Seq<char>, input: Seq<u8>) -> Result<Seq<u8>, ErrorView> {
    spec_convert_text_to(config, from, config.output@, input)
}

/// The character conversion with the settings applied, into the named encoding.
pub open spec fn spec_convert_text_to(config: Config, from: Seq<char>, to: Seq<char>, input: Seq<u8>) -> Result<Seq<u8>, ErrorView> {
    if config.normalize_utf8_mac {
        match spec_convert(from, "UTF-8"@, input) {
            Err(e) => Err(e),
            Ok(u) => {
                spec_fold_and_encode_to(config, to, nfc_of(utf8_lossy(u)))
            },
        }
    } else if config.fold is Some {
        match spec_convert(from, "UTF-8"@, input) {
            Err(e) => Err(e),
            Ok(u) => spec_filter_and_encode_to(config, to, encode_utf8(spec_fold(config.fold.unwrap(), utf8_lossy(u)))),
        }
    } else if spec_filters_needed(config) {
        match spec_convert(from, "UTF-8"@, input) {
            Err(e) => Err(e),
            Ok(u) => spec_filter_and_encode_to(config, to, u),
        }
    } else {
        spec_convert_for_config(config, from, to, input)
    }
}

/// The output rewrites after the conversion: ROT13/47, the ISO-2022-JP designators, line endings,
/// prefix rules and MIME encoding.
pub open spec fn spec_finish(config: Config, converted: Seq<u8>) -> Seq<u8> {
    let a = if config.rot {
        spec_rot(converted, false)
    } else {
        converted
    };
    let b = spec_intro_overrides(config, a);
    spec_mime_output(config, spec_prefix_rules(config, spec_line_endings(b, config.line_ending)))
}

/// The encoding the input is read in: the configured one, or the guess.
pub open spec fn spec_input_encoding(config: Config, input: Seq<u8>) -> Seq<char> {
    match config.input {
        Some(s) => s@,
        None => spec_guess_encoding(input),
    }
}

/// One whole conversion as the settings ask.
pub open spec fn spec_process(config: Config, input: Seq<u8>) -> Result<Seq<u8>, ErrorView> {
    match spec_prepare_input(config, input) {
        Err(e) => Err(e),
        Ok(p) => if config.transparent {
            Ok(spec_transparent(config, p))
        } else {
            match spec_convert_text(config, spec_input_encoding(config, p), p) {
                Err(e) => Err(e),
                Ok(c) => Ok(spec_finish(config, c)),
            }
        },
    }
}

/// Filters UTF-8 text and converts it to the output encoding.
pub fn filter_and_encode(config: &Config, utf8: &[u8]) -> (r: Result<Vec<u8>, NkfError>)
    ensures
        bytes_result(r) == spec_filter_and_encode(*config, utf8@),
{
    filter_and_encode_to(config, config.output.as_str(), utf8)
}

/// Filters UTF-8 text and converts it to the named encoding.
pub fn filter_and_encode_to(config: &Config, to: &str, utf8: &[u8]) -> (r: Result<Vec<u8>, NkfError>)
    ensures
        bytes_result(r) == spec_filter_and_encode_to(*config, to@, utf8@),
{
    let filtered = apply_text_filters(config, utf8);
    let strict = apply_iso2022jp_strict_if_needed(config, filtered.as_slice());
    convert_for_config(config, "UTF-8", to, strict.as_slice())
}

/// Folds normalized text when the settings ask, then filters it and converts it to the output
/// encoding.
pub fn fold_and_encode(config: &Config, text: &[char]) -> (r: Result<Vec<u8>, NkfError>)
    requires
        fold_fits(*config),
    ensures
        bytes_result(r) == spec_fold_and_encode(*config, text@),
{
    fold_and_encode_to(config, config.output.as_str(), text)
}

/// Folds normalized text when the settings ask, then filters it and converts it to the named
/// encoding.
pub fn fold_and_encode_to(config: &Config, to: &str, text: &[char]) -> (r: Result<Vec<u8>, NkfError>)
    requires
        fold_fits(*config),
    ensures
        bytes_result(r) == spec_fold_and_encode_to(*config, to@, text@),
{
    let bytes = match config.fold {
        Some(f) => {
            let t = fold_chars(text, f);
            encode_chars(t.as_slice())
        },
        None => encode_chars(text),
    };
    filter_and_encode_to(config, to, bytes.as_slice())
}

/// The character conversion with the settings applied.
pub fn convert_text(config: &Config, from: &str, input: &[u8]) -> (r: Result<Vec<u8>, NkfError>)
    requires
        fold_fits(*config),
    ensures
        bytes_result(r) == spec_convert_text(*config, from@, input@),
{
    convert_text_to(config, from, config.output.as_str(), input)
}

/// The character conversion with the settings applied, into the named encoding.
pub fn convert_text_to(config: &Config, from: &str, to: &str, input: &[u8]) -> (r: Result<Vec<u8>, NkfError>)
    requires
        fold_fits(*config),
    ensures
        bytes_result(r) == spec_convert_text_to(*config, from@, to@, input@),
{
    if config.normalize_utf8_mac {
        let utf8 = convert(from, "UTF-8", input)?;
        let text = utf8_decode_lossy(utf8.as_slice());
        let s = chars_to_string(text.as_slice());
        let normalized = str_chars(nfc(s.as_str()).as_str());
        fold_and_encode_to(config, to, normalized.as_slice())
    } else if let Some(f) = config.fold {
        let utf8 = convert(from, "UTF-8", input)?;
        let folded = fold_utf8_lossy(utf8.as_slice(), f);
        let fv = str_chars(folded.as_str());
        let bytes = encode_chars(fv.as_slice());
        filter_and_encode_to(config, to, bytes.as_slice())
    } else if config.z_flags != 0 || config.x0201_mode == X0201Mode::Fullwidth || config.kana_flags != 0
        || should_apply_iso2022jp_strict(config) {
        let utf8 = convert(from, "UTF-8", input)?;
        filter_and_encode_to(config, to, utf8.as_slice())
    } else {
        convert_for_config(config, from, to, input)
    }
}

/// The output rewrites after the conversion.
pub fn finish_output(config: &Config, converted: Vec<u8>) -> (out: Vec<u8>)
    ensures
        out@ == spec_finish(*config, converted@),
        config.mime_encode_mode != MimeEncodeMode::Unencoded ==> byte_lines_within(out@, 76),
{
    let rotated = if config.rot {
        apply_rot_filter(converted.as_slice())
    } else {
        converted
    };
    let introduced = apply_iso2022_intro_overrides(config, rotated.as_slice());
    let ended = apply_line_endings(introduced, config.line_ending);
    let prefixed = apply_prefix_rules(config, ended.as_slice());
    mime_output(config, prefixed)
}

/// Runs one whole conversion as the settings ask. MIME-encoded output has no line over 76 bytes.
pub fn process_bytes(config: &Config, input: &[u8]) -> (r: Result<Vec<u8>, NkfError>)
    requires
        fold_fits(*config),
    ensures
        bytes_result(r) == spec_process(*config, input@),
        config.mime_encode_mode != MimeEncodeMode::Unencoded ==> (r matches Ok(v) ==> byte_lines_within(v@, 76)),
{
    let prepared = prepare_input(config, input)?;
    if config.transparent {
        let mut bytes = prepared;
        if let Some(f) = config.fold {
            let folded = fold_utf8_lossy(bytes.as_slice(), f);
            let fv = str_chars(folded.as_str());
            bytes = encode_chars(fv.as_slice());
        }
        bytes = apply_text_filters(config, bytes.as_slice());
        if config.rot {
            bytes = apply_rot_filter(bytes.as_slice());
        }
        bytes = apply_line_endings(bytes, config.line_ending);
        bytes = apply_prefix_rules(config, bytes.as_slice());
        return Ok(mime_output(config, bytes));
    }
    let from: String = match &config.input {
        Some(s) => s.clone(),
        None => String::from_str(guess_encoding(prepared.as_slice())),
    };
    let converted = convert_text(config, from.as_str(), prepared.as_slice())?;
    Ok(finish_output(config, converted))
}

} // verus!
