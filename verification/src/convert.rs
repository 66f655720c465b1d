//! Conversion between two named encodings.

use crate::codec::{codec_decode, codec_encode, codec_for_name, convert_with_encoding_rs, spec_codec_decode, spec_codec_encode, spec_codec_for_name, spec_convert_with_codecs};
use crate::config::{Config, EncodeFallback};
use crate::error::{bytes_result, opt_bytes_result, unit_result, ErrorView, NkfError};
use crate::fallback::{convert_with_encoding_rs_fallback, spec_convert_with_fallback};
use crate::names::{is_ms_compat_japanese_output, spec_is_ms_compat_japanese};
use crate::sjis::{reject_cp932_extensions, remap_shiftjis_cp932_input, remap_shiftjis_cp932_output, spec_reject_cp932_extensions, spec_remap_input, spec_remap_output};
use crate::euc::{convert_with_nkf_euc_tables, spec_convert_euc_tables};
use crate::names::{lemma_canonical_names_fixed, is_jis_x0213_encoding, is_unicode_encoding, normalize_encoding, same_encoding, spec_is_jis_x0213, spec_is_unicode, spec_normalize, spec_same_encoding};
use crate::text::{bytes_copy, chars_eq_str, encode_chars, str_chars, utf8_decode};
use crate::unicode::{decode_unicode_bytes, encode_unicode_bytes, lemma_unicode_names_distinct, lemma_unicode_names_encode, spec_decode_unicode, spec_decode_utf16, spec_encode_unicode, spec_encode_utf16, Endian};
use crate::x0213::{decode_jis_x0213_subset, encode_jis_x0213_subset, spec_decode_jis_x0213, spec_encode_jis_x0213};
use vstd::prelude::*;
use vstd::utf8::{decode_utf8, encode_utf8, valid_utf8};

verus! {

/// Conversion where one side is a Unicode transformation format; `None` when neither is, or the
/// other side has no decoder or encoder.
pub open spec fn spec_convert_unicode(from: Seq<char>, to: Seq<char>, input: Seq<u8>) -> Result<Option<Seq<u8>>, ErrorView> {
    let f = spec_normalize(from);
    let t = spec_normalize(to);
    if !spec_is_unicode(f) && !spec_is_unicode(t) {
        Ok(None)
    } else {
        let decoded: Result<Option<Seq<char>>, ErrorView> = if spec_is_unicode(f) {
            match spec_decode_unicode(f, input) {
                Ok(d) => Ok(Some(d)),
                Err(e) => Err(e),
            }
        } else {
            match spec_codec_for_name(f) {
                Some(c) => match spec_codec_decode(c, input) {
                    Ok(d) => Ok(Some(d)),
                    Err(e) => Err(e),
                },
                None => Ok(None),
            }
        };
        match decoded {
            Err(e) => Err(e),
            Ok(None) => Ok(None),
            Ok(Some(d)) => if spec_is_unicode(t) {
                match spec_encode_unicode(t, d) {
                    Ok(b) => Ok(Some(b)),
                    Err(e) => Err(e),
                }
            } else {
                match spec_codec_for_name(t) {
                    Some(c) => match spec_codec_encode(c, d) {
                        Ok(b) => Ok(Some(b)),
                        Err(e) => Err(e),
                    },
                    None => Ok(None),
                }
            },
        }
    }
}

/// Converts where one side is a Unicode transformation format.
pub fn convert_with_unicode_encoding(from: &str, to: &str, input: &[u8]) -> (r: Result<Option<Vec<u8>>, NkfError>)
    ensures
        opt_bytes_result(r) == spec_convert_unicode(from@, to@, input@),
{
    let f = normalize_encoding(from);
    let t = normalize_encoding(to);
    let fu = is_unicode_encoding(f.as_str());
    let tu = is_unicode_encoding(t.as_str());
    if !fu && !tu {
        return Ok(None);
    }
    let decoded = if fu {
        decode_unicode_bytes(f.as_str(), input)?
    } else {
        match codec_for_name(f.as_str()) {
            Some(c) => codec_decode(c, input)?,
            None => return Ok(None),
        }
    };
    if tu {
        return Ok(Some(encode_unicode_bytes(t.as_str(), decoded.as_slice())?));
    }
    match codec_for_name(t.as_str()) {
        Some(c) => Ok(Some(codec_encode(c, decoded.as_slice())?)),
        None => Ok(None),
    }
}

/// Conversion where one side is a JIS X 0213 encoding; `None` when neither is, or the other side
/// has no decoder or encoder.
pub open spec fn spec_convert_x0213(from: Seq<char>, to: Seq<char>, input: Seq<u8>) -> Result<Option<Seq<u8>>, ErrorView> {
    let f = spec_normalize(from);
    let t = spec_normalize(to);
    if !spec_is_jis_x0213(f) && !spec_is_jis_x0213(t) {
        Ok(None)
    } else {
        let text: Result<Option<Seq<char>>, ErrorView> = if f == "UTF-8"@ {
            if valid_utf8(input) {
                Ok(Some(decode_utf8(input)))
            } else {
                Err(ErrorView::Undecodable("UTF-8"@))
            }
        } else if spec_is_jis_x0213(f) {
            match spec_decode_jis_x0213(f, input) {
                Ok(d) => Ok(Some(d)),
                Err(e) => Err(e),
            }
        } else {
            match spec_codec_for_name(f) {
                Some(c) => match spec_codec_decode(c, input) {
                    Ok(d) => Ok(Some(d)),
                    Err(e) => Err(e),
                },
                None => Ok(None),
            }
        };
        match text {
            Err(e) => Err(e),
            Ok(None) => Ok(None),
            Ok(Some(d)) => if t == "UTF-8"@ {
                Ok(Some(encode_utf8(d)))
            } else if spec_is_jis_x0213(t) {
                match spec_encode_jis_x0213(t, d) {
                    Ok(b) => Ok(Some(b)),
                    Err(e) => Err(e),
                }
            } else {
                match spec_codec_for_name(t) {
                    Some(c) => match spec_codec_encode(c, d) {
                        Ok(b) => Ok(Some(b)),
                        Err(e) => Err(e),
                    },
                    None => Ok(None),
                }
            },
        }
    }
}

/// Converts where one side is a JIS X 0213 encoding.
pub fn convert_with_jis_x0213(from: &str, to: &str, input: &[u8]) -> (r: Result<Option<Vec<u8>>, NkfError>)
    ensures
        opt_bytes_result(r) == spec_convert_x0213(from@, to@, input@),
{
    let f = normalize_encoding(from);
    let t = normalize_encoding(to);
    let fx = is_jis_x0213_encoding(f.as_str());
    let tx = is_jis_x0213_encoding(t.as_str());
    if !fx && !tx {
        return Ok(None);
    }
    let fv = str_chars(f.as_str());
    let tv = str_chars(t.as_str());
    let text = if chars_eq_str(fv.as_slice(), "UTF-8") {
        match utf8_decode(input) {
            Some(d) => d,
            None => return Err(NkfError::Undecodable(String::from_str("UTF-8"))),
        }
    } else if fx {
        decode_jis_x0213_subset(f.as_str(), input)?
    } else {
        match codec_for_name(f.as_str()) {
            Some(c) => codec_decode(c, input)?,
            None => return Ok(None),
        }
    };
    if chars_eq_str(tv.as_slice(), "UTF-8") {
        Ok(Some(encode_chars(text.as_slice())))
    } else if tx {
        Ok(Some(encode_jis_x0213_subset(t.as_str(), text.as_slice())?))
    } else {
        match codec_for_name(t.as_str()) {
            Some(c) => Ok(Some(codec_encode(c, text.as_slice())?)),
            None => Ok(None),
        }
    }
}

/// Conversion between two named encodings: unchanged when they are the same, else through the
/// first converter that serves the pair (EUC tables, `encoding_rs`, Unicode formats, JIS X 0213).
/// A pair none of them serves is `UnsupportedConversion`; `system::convert_request` turns exactly
/// that error into a request for the system converter (`iconv(3)`), which the program serves.
pub open spec fn spec_convert(from: Seq<char>, to: Seq<char>, input: Seq<u8>) -> Result<Seq<u8>, ErrorView> {
    if spec_same_encoding(from, to) {
        Ok(input)
    } else {
        match spec_convert_euc_tables(from, to, input, None) {
            Err(e) => Err(e),
            Ok(Some(o)) => Ok(o),
            Ok(None) => match spec_convert_with_codecs(from, to, input) {
                Err(e) => Err(e),
                Ok(Some(o)) => Ok(o),
                Ok(None) => match spec_convert_unicode(from, to, input) {
                    Err(e) => Err(e),
                    Ok(Some(o)) => Ok(o),
                    Ok(None) => match spec_convert_x0213(from, to, input) {
                        Err(e) => Err(e),
                        Ok(Some(o)) => Ok(o),
                        Ok(None) => Err(ErrorView::UnsupportedConversion(spec_normalize(from), spec_normalize(to))),
                    },
                },
            },
        }
    }
}

/// Converts bytes from one named encoding to another.
pub fn convert(from: &str, to: &str, input: &[u8]) -> (r: Result<Vec<u8>, NkfError>)
    ensures
        bytes_result(r) == spec_convert(from@, to@, input@),
{
    if same_encoding(from, to) {
        return Ok(bytes_copy(input));
    }
    if let Some(output) = convert_with_nkf_euc_tables(from, to, input, None)? {
        return Ok(output);
    }
    if let Some(output) = convert_with_encoding_rs(from, to, input)? {
        return Ok(output);
    }
    if let Some(output) = convert_with_unicode_encoding(from, to, input)? {
        return Ok(output);
    }
    if let Some(output) = convert_with_jis_x0213(from, to, input)? {
        return Ok(output);
    }
    Err(NkfError::UnsupportedConversion(normalize_encoding(from), normalize_encoding(to)))
}

/// Characters whose mapping into the Microsoft-compatible Japanese encodings is only a best fit.
pub open spec fn spec_is_no_best_fit_char(ch: char) -> bool {
    let v = ch as u32;
    v == 0x00a2 || v == 0x00a3 || v == 0x00a5 || v == 0x00a6 || v == 0x00ac || v == 0x00af || v == 0x00b8 || v == 0x2014 || v == 0x2016 || v == 0x203e || v == 0x2212 || v == 0x301c
}

/// Whether a character's mapping into the Microsoft-compatible Japanese encodings is only a best fit.
pub fn is_no_best_fit_char(ch: char) -> (r: bool)
    ensures
        r == spec_is_no_best_fit_char(ch),
{
    let v: u32 = ch as u32;
    v == 0x00a2 || v == 0x00a3 || v == 0x00a5 || v == 0x00a6 || v == 0x00ac || v == 0x00af || v == 0x00b8 || v == 0x2014 || v == 0x2016 || v == 0x203e || v == 0x2212 || v == 0x301c
}

/// The first best-fit-only character of a text.
pub open spec fn spec_first_no_best_fit(text: Seq<char>) -> Option<char>
    decreases text.len(),
{
    if text.len() == 0 {
        None
    } else if spec_is_no_best_fit_char(text[0]) {
        Some(text[0])
    } else {
        spec_first_no_best_fit(text.drop_first())
    }
}

/// The first best-fit-only character of a text.
fn first_no_best_fit(text: &[char]) -> (r: Option<char>)
    ensures
        r == spec_first_no_best_fit(text@),
{
    let mut i: usize = 0;
    assert(text@.skip(0) =~= text@);
    while i < text.len()
        invariant
            i <= text@.len(),
            spec_first_no_best_fit(text@) == spec_first_no_best_fit(text@.skip(i as int)),
        decreases text@.len() - i,
    {
        assert(text@.skip(i as int)[0] == text@[i as int]);
        if is_no_best_fit_char(text[i]) {
            return Some(text[i]);
        }
        assert(text@.skip(i as int).drop_first() =~= text@.skip(i + 1));
        i += 1;
    }
    assert(text@.skip(i as int).len() == 0);
    None
}

/// The text the best-fit check reads: the input itself if it is UTF-8, else its conversion to
/// UTF-8.
pub open spec fn spec_best_fit_text(from: Seq<char>, input: Seq<u8>) -> Result<Seq<char>, ErrorView> {
    if spec_normalize(from) == "UTF-8"@ {
        if valid_utf8(input) {
            Ok(decode_utf8(input))
        } else {
            Err(ErrorView::Undecodable("UTF-8"@))
        }
    } else {
        match spec_convert(from, "UTF-8"@, input) {
            Err(e) => Err(e),
            Ok(b) => if valid_utf8(b) {
                Ok(decode_utf8(b))
            } else {
                Err(ErrorView::Undecodable(from))
            },
        }
    }
}

/// Whether the input is refused for holding a character with only a best-fit mapping into the
/// Microsoft-compatible output encoding, when best-fit mappings are disabled.
pub open spec fn spec_reject_no_best_fit(config: Config, from: Seq<char>, to: Seq<char>, input: Seq<u8>) -> Result<(), ErrorView> {
    if !config.no_best_fit_chars || !spec_is_ms_compat_japanese(to) {
        Ok(())
    } else {
        match spec_best_fit_text(from, input) {
            Err(e) => Err(e),
            Ok(text) => match spec_first_no_best_fit(text) {
                Some(ch) => Err(ErrorView::BestFitDisabled(ch)),
                None => Ok(()),
            },
        }
    }
}

/// Refuses input holding a best-fit-only character when best-fit mappings are disabled.
pub fn reject_no_best_fit_chars(config: &Config, from: &str, to: &str, input: &[u8]) -> (r: Result<(), NkfError>)
    ensures
        unit_result(r) == spec_reject_no_best_fit(*config, from@, to@, input@),
{
    if !config.no_best_fit_chars || !is_ms_compat_japanese_output(to) {
        return Ok(());
    }
    let f = normalize_encoding(from);
    let fv = str_chars(f.as_str());
    let text = if chars_eq_str(fv.as_slice(), "UTF-8") {
        match utf8_decode(input) {
            Some(t) => t,
            None => return Err(NkfError::Undecodable(String::from_str("UTF-8"))),
        }
    } else {
        let converted = convert(from, "UTF-8", input)?;
        match utf8_decode(converted.as_slice()) {
            Some(t) => t,
            None => return Err(NkfError::Undecodable(String::from_str(from))),
        }
    };
    match first_no_best_fit(text.as_slice()) {
        Some(ch) => Err(NkfError::BestFitDisabled(ch)),
        None => Ok(()),
    }
}

/// Conversion with the settings applied: the best-fit check, the CP932 remappings, the EUC tables
/// with the configured mapping, the encode fallback, and the CP932 extension check.
pub open spec fn spec_convert_for_config(config: Config, from: Seq<char>, to: Seq<char>, input: Seq<u8>) -> Result<Seq<u8>, ErrorView> {
    match spec_reject_no_best_fit(config, from, to, input) {
        Err(e) => Err(e),
        Ok(()) => {
            let inp = match spec_remap_input(config, from, input) {
                Some(b) => b,
                None => input,
            };
            let converted: Result<Seq<u8>, ErrorView> = match spec_convert_euc_tables(from, to, inp, Some(config.ms_ucs_map)) {
                Err(e) => Err(e),
                Ok(Some(o)) => Ok(o),
                Ok(None) => if config.encode_fallback == EncodeFallback::Skip {
                    spec_convert(from, to, inp)
                } else {
                    match spec_convert_with_fallback(from, to, inp, config.encode_fallback) {
                        Err(e) => Err(e),
                        Ok(Some(o)) => Ok(o),
                        Ok(None) => spec_convert(from, to, inp),
                    }
                },
            };
            match converted {
                Err(e) => Err(e),
                Ok(o) => {
                    let remapped = spec_remap_output(config, to, o);
                    match spec_reject_cp932_extensions(config, to, remapped) {
                        Err(e) => Err(e),
                        Ok(()) => Ok(remapped),
                    }
                },
            }
        },
    }
}

/// Converts with the settings applied.
pub fn convert_for_config(config: &Config, from: &str, to: &str, input: &[u8]) -> (r: Result<Vec<u8>, NkfError>)
    ensures
        bytes_result(r) == spec_convert_for_config(*config, from@, to@, input@),
{
    reject_no_best_fit_chars(config, from, to, input)?;
    let remapped_input = remap_shiftjis_cp932_input(config, from, input);
    let input: &[u8] = match &remapped_input {
        Some(bytes) => bytes.as_slice(),
        None => input,
    };
    let mut output = if let Some(output) = convert_with_nkf_euc_tables(from, to, input, Some(config.ms_ucs_map))? {
        output
    } else if config.encode_fallback == EncodeFallback::Skip {
        convert(from, to, input)?
    } else if let Some(output) = convert_with_encoding_rs_fallback(from, to, input, config.encode_fallback)? {
        output
    } else {
        convert(from, to, input)?
    };
    remap_shiftjis_cp932_output(config, to, &mut output);
    match reject_cp932_extensions(config, to, output.as_slice()) {
        Ok(()) => Ok(output),
        Err(e) => Err(e),
    }
}

/// Converting between two names of the same encoding gives the input back; in particular
/// converting from an encoding to itself.
pub proof fn lemma_convert_same_encoding(from: Seq<char>, to: Seq<char>, input: Seq<u8>)
    ensures
        spec_same_encoding(from, to) ==> spec_convert(from, to, input) == Ok::<Seq<u8>, ErrorView>(input),
        spec_convert(from, from, input) == Ok::<Seq<u8>, ErrorView>(input),
{
}

/// Converting from UTF-8 to UTF-16BE or UTF-16LE decodes the UTF-8 and writes the text's UTF-16
/// code units in that byte order, with no byte-order mark, and fails only on input that is not
/// UTF-8; converting from UTF-16BE or UTF-16LE to UTF-8 reads the code units in that byte order
/// and writes the text as UTF-8.
pub proof fn lemma_convert_utf8_utf16(input: Seq<u8>)
    ensures
        valid_utf8(input) ==> spec_convert("UTF-8"@, "UTF-16BE"@, input) == Ok::<Seq<u8>, ErrorView>(spec_encode_utf16(decode_utf8(input), Endian::Big)),
        valid_utf8(input) ==> spec_convert("UTF-8"@, "UTF-16LE"@, input) == Ok::<Seq<u8>, ErrorView>(spec_encode_utf16(decode_utf8(input), Endian::Little)),
        !valid_utf8(input) ==> spec_convert("UTF-8"@, "UTF-16BE"@, input) == Err::<Seq<u8>, ErrorView>(ErrorView::Undecodable("UTF-8"@)),
        spec_convert("UTF-16BE"@, "UTF-8"@, input) == match spec_decode_utf16(input, Endian::Big) {
            Ok(t) => Ok(encode_utf8(t)),
            Err(e) => Err(e),
        },
        spec_convert("UTF-16LE"@, "UTF-8"@, input) == match spec_decode_utf16(input, Endian::Little) {
            Ok(t) => Ok(encode_utf8(t)),
            Err(e) => Err(e),
        },
{
    lemma_canonical_names_fixed();
    lemma_unicode_names_distinct();
    lemma_unicode_names_encode(decode_utf8(input));
    reveal_strlit("CP10001");
    reveal_strlit("CP50220");
    reveal_strlit("CP50221");
    reveal_strlit("CP50222");
    reveal_strlit("CP51932");
    reveal_strlit("CP932");
    reveal_strlit("EUC-JIS-2004");
    reveal_strlit("EUC-JISX0213");
    reveal_strlit("EUC-JP");
    reveal_strlit("EUCJP-ASCII");
    reveal_strlit("EUCJP-MS");
    reveal_strlit("ISO-2022-JP");
    reveal_strlit("ISO-8859-1");
    reveal_strlit("SHIFT_JIS");
    reveal_strlit("UTF-16BE");
    reveal_strlit("UTF-16LE");
    reveal_strlit("UTF-8");
    assert("UTF-8"@.len() != "EUC-JP"@.len());
    assert("UTF-8"@.len() != "CP51932"@.len());
    assert("UTF-8"@.len() != "EUCJP-MS"@.len());
    assert("UTF-8"@.len() != "EUCJP-ASCII"@.len());
    assert("UTF-8"@.len() != "CP10001"@.len());
    assert("UTF-8"@.len() != "EUC-JISX0213"@.len());
    assert("UTF-8"@.len() != "EUC-JIS-2004"@.len());
    assert("UTF-8"@.len() != "ISO-2022-JP"@.len());
    assert("UTF-8"@.len() != "CP50220"@.len());
    assert("UTF-8"@.len() != "CP50221"@.len());
    assert("UTF-8"@.len() != "CP50222"@.len());
    assert("UTF-8"@.len() != "ISO-8859-1"@.len());
    assert("UTF-8"@.len() != "SHIFT_JIS"@.len());
    assert("UTF-8"@[0] != "CP932"@[0]);
    assert("UTF-8"@.len() != "UTF-16BE"@.len());
    assert("UTF-8"@.len() != "UTF-16LE"@.len());
    assert("UTF-16BE"@.len() != "EUC-JP"@.len());
    assert("UTF-16BE"@.len() != "CP51932"@.len());
    assert("UTF-16BE"@[0] != "EUCJP-MS"@[0]);
    assert("UTF-16BE"@.len() != "EUCJP-ASCII"@.len());
    assert("UTF-16BE"@.len() != "CP10001"@.len());
    assert("UTF-16BE"@.len() != "EUC-JISX0213"@.len());
    assert("UTF-16BE"@.len() != "EUC-JIS-2004"@.len());
    assert("UTF-16BE"@.len() != "ISO-2022-JP"@.len());
    assert("UTF-16BE"@.len() != "CP50220"@.len());
    assert("UTF-16BE"@.len() != "CP50221"@.len());
    assert("UTF-16BE"@.len() != "CP50222"@.len());
    assert("UTF-16BE"@.len() != "ISO-8859-1"@.len());
    assert("UTF-16BE"@.len() != "SHIFT_JIS"@.len());
    assert("UTF-16BE"@.len() != "CP932"@.len());
    assert("UTF-16BE"@.len() != "UTF-8"@.len());
    assert("UTF-16BE"@[6] != "UTF-16LE"@[6]);
    assert("UTF-16LE"@.len() != "EUC-JP"@.len());
    assert("UTF-16LE"@.len() != "CP51932"@.len());
    assert("UTF-16LE"@[0] != "EUCJP-MS"@[0]);
    assert("UTF-16LE"@.len() != "EUCJP-ASCII"@.len());
    assert("UTF-16LE"@.len() != "CP10001"@.len());
    assert("UTF-16LE"@.len() != "EUC-JISX0213"@.len());
    assert("UTF-16LE"@.len() != "EUC-JIS-2004"@.len());
    assert("UTF-16LE"@.len() != "ISO-2022-JP"@.len());
    assert("UTF-16LE"@.len() != "CP50220"@.len());
    assert("UTF-16LE"@.len() != "CP50221"@.len());
    assert("UTF-16LE"@.len() != "CP50222"@.len());
    assert("UTF-16LE"@.len() != "ISO-8859-1"@.len());
    assert("UTF-16LE"@.len() != "SHIFT_JIS"@.len());
    assert("UTF-16LE"@.len() != "CP932"@.len());
    assert("UTF-16LE"@.len() != "UTF-8"@.len());
    assert("UTF-16LE"@[6] != "UTF-16BE"@[6]);
}

} // verus!
