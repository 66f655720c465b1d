//! The `encoding_rs` codecs: which names they serve, and conversion through them.

use crate::error::{opt_bytes_result, ErrorView, NkfError, RsCodec};
use crate::names::{normalize_encoding, spec_normalize};
use crate::text::{chars_eq_str, str_chars};
use vstd::prelude::*;
use vstd::utf8::encode_utf8;

verus! {

/// The largest input, in bytes, handed to an `encoding_rs` decoder: below it the decoder's
/// output-capacity computation cannot overflow.
pub const MAX_DECODE_INPUT: usize = usize::MAX / 8;

/// The largest text, in characters, handed to an `encoding_rs` encoder (its UTF-8 form stays
/// below a quarter of the address space, so the capacity computation cannot overflow).
pub const MAX_ENCODE_INPUT: usize = usize::MAX / 32;

/// What `Encoding::decode` gives for the codec and input: the text (BOM sniffed, malformed
/// sequences replaced by U+FFFD) and whether malformed sequences were found.
pub uninterp spec fn rs_decoded(codec: RsCodec, input: Seq<u8>) -> (Seq<char>, bool);

/// What `Encoding::encode` gives for the codec and text: the bytes (unmappable characters written
/// as decimal character references) and whether unmappable characters were found.
pub uninterp spec fn rs_encoded(codec: RsCodec, text: Seq<char>) -> (Seq<u8>, bool);

/// `Encoding::decode` of `encoding_rs` on the static encoding the codec names (`UTF_8`, `EUC_JP`,
/// `ISO_2022_JP`, `SHIFT_JIS`, `WINDOWS_1252`): the decoded text and the malformed flag, as the
/// name `rs_decoded` gives them. The call panics only when its capacity computation overflows,
/// which the length bound rules out.
#[verifier::external_body]
pub(crate) fn rs_decode(codec: RsCodec, input: &[u8]) -> (r: (Vec<char>, bool))
    requires
        input@.len() <= MAX_DECODE_INPUT,
    ensures
        (r.0@, r.1) == rs_decoded(codec, input@),
{
    let encoding = match codec {
        RsCodec::Utf8 => encoding_rs::UTF_8,
        RsCodec::EucJp => encoding_rs::EUC_JP,
        RsCodec::Iso2022Jp => encoding_rs::ISO_2022_JP,
        RsCodec::ShiftJis => encoding_rs::SHIFT_JIS,
        RsCodec::Latin1 => encoding_rs::WINDOWS_1252,
    };
    let (text, _, had_errors) = encoding.decode(input);
    (text.chars().collect(), had_errors)
}

/// `Encoding::encode` of `encoding_rs` on the static encoding the codec names: the bytes and the
/// unmappable flag, as the name `rs_encoded` gives them. For UTF-8 `encode` returns the text's
/// own UTF-8 bytes with no error. The call panics only when its capacity computation overflows,
/// which the length bound rules out.
#[verifier::external_body]
pub(crate) fn rs_encode(codec: RsCodec, text: &[char]) -> (r: (Vec<u8>, bool))
    requires
        text@.len() <= MAX_ENCODE_INPUT,
    ensures
        (r.0@, r.1) == rs_encoded(codec, text@),
        codec == RsCodec::Utf8 ==> r.0@ == encode_utf8(text@) && !r.1,
{
    let encoding = match codec {
        RsCodec::Utf8 => encoding_rs::UTF_8,
        RsCodec::EucJp => encoding_rs::EUC_JP,
        RsCodec::Iso2022Jp => encoding_rs::ISO_2022_JP,
        RsCodec::ShiftJis => encoding_rs::SHIFT_JIS,
        RsCodec::Latin1 => encoding_rs::WINDOWS_1252,
    };
    let s: String = text.iter().collect();
    let (bytes, _, had_errors) = encoding.encode(&s);
    (bytes.into_owned(), had_errors)
}

/// The codec that serves a name, if any.
pub open spec fn spec_codec_for_name(name: Seq<char>) -> Option<RsCodec> {
    let n = spec_normalize(name);
    if n == "UTF-8"@ {
        Some(RsCodec::Utf8)
    } else if n == "EUC-JP"@ || n == "CP51932"@ || n == "EUCJP-MS"@ || n == "EUCJP-ASCII"@ {
        Some(RsCodec::EucJp)
    } else if n == "ISO-2022-JP"@ || n == "CP50220"@ || n == "CP50221"@ || n == "CP50222"@ {
        Some(RsCodec::Iso2022Jp)
    } else if n == "ISO-8859-1"@ {
        Some(RsCodec::Latin1)
    } else if n == "SHIFT_JIS"@ || n == "CP932"@ || n == "CP10001"@ {
        Some(RsCodec::ShiftJis)
    } else {
        None
    }
}

/// What `Encoding::for_label` of `encoding_rs` finds for a label, as the codec standing for the
/// encoding found; `None` for an unknown label or an encoding none of the codecs stands for.
pub uninterp spec fn rs_label_codec(label: Seq<char>) -> Option<RsCodec>;

/// `Encoding::for_label` of `encoding_rs` (the Encoding Standard's "get an encoding": labels
/// matched after ASCII lower-casing and trimming white space), its result told apart among the
/// five static encodings the codecs stand for. The crate's label table maps `utf-8`, `euc-jp`,
/// `iso-2022-jp`, `iso-8859-1` and `windows-31j` to `UTF_8`, `EUC_JP`, `ISO_2022_JP`,
/// `WINDOWS_1252` and `SHIFT_JIS`; for other labels the result is named, not described.
#[verifier::external_body]
fn rs_codec_for_label(label: &str) -> (r: Option<RsCodec>)
    ensures
        r == rs_label_codec(label@),
        label@ == "UTF-8"@ ==> r == Some(RsCodec::Utf8),
        label@ == "EUC-JP"@ ==> r == Some(RsCodec::EucJp),
        label@ == "ISO-2022-JP"@ ==> r == Some(RsCodec::Iso2022Jp),
        label@ == "ISO-8859-1"@ ==> r == Some(RsCodec::Latin1),
        label@ == "windows-31j"@ ==> r == Some(RsCodec::ShiftJis),
{
    match encoding_rs::Encoding::for_label(label.as_bytes()) {
        Some(e) if e == encoding_rs::UTF_8 => Some(RsCodec::Utf8),
        Some(e) if e == encoding_rs::EUC_JP => Some(RsCodec::EucJp),
        Some(e) if e == encoding_rs::ISO_2022_JP => Some(RsCodec::Iso2022Jp),
        Some(e) if e == encoding_rs::WINDOWS_1252 => Some(RsCodec::Latin1),
        Some(e) if e == encoding_rs::SHIFT_JIS => Some(RsCodec::ShiftJis),
        _ => None,
    }
}

/// The codec that serves a name, if any: the encoding `encoding_rs` finds for the label the name
/// stands for.
pub fn codec_for_name(name: &str) -> (r: Option<RsCodec>)
    ensures
        r == spec_codec_for_name(name@),
{
    let norm = normalize_encoding(name);
    let v = str_chars(norm.as_str());
    let n = v.as_slice();
    let label: &str = if chars_eq_str(n, "UTF-8") {
        "UTF-8"
    } else if chars_eq_str(n, "EUC-JP") || chars_eq_str(n, "CP51932") || chars_eq_str(n, "EUCJP-MS")
        || chars_eq_str(n, "EUCJP-ASCII") {
        "EUC-JP"
    } else if chars_eq_str(n, "ISO-2022-JP") || chars_eq_str(n, "CP50220") || chars_eq_str(n, "CP50221")
        || chars_eq_str(n, "CP50222") {
        "ISO-2022-JP"
    } else if chars_eq_str(n, "ISO-8859-1") {
        "ISO-8859-1"
    } else if chars_eq_str(n, "SHIFT_JIS") || chars_eq_str(n, "CP932") || chars_eq_str(n, "CP10001") {
        "windows-31j"
    } else {
        return None;
    };
    rs_codec_for_label(label)
}

/// Which codec serves each name: UTF-8 the UTF-8 one; EUC-JP, CP51932, eucJP-ms and
/// eucJP-ascii the EUC-JP one; ISO-2022-JP, CP50220, CP50221 and CP50222 the ISO-2022-JP one;
/// ISO-8859-1 the Latin-1 one; Shift_JIS, CP932 and CP10001 the Shift_JIS one.
pub proof fn lemma_codec_table()
    ensures
        spec_codec_for_name("UTF-8"@) == Some(RsCodec::Utf8),
        spec_codec_for_name("EUC-JP"@) == Some(RsCodec::EucJp),
        spec_codec_for_name("CP51932"@) == Some(RsCodec::EucJp),
        spec_codec_for_name("EUCJP-MS"@) == Some(RsCodec::EucJp),
        spec_codec_for_name("EUCJP-ASCII"@) == Some(RsCodec::EucJp),
        spec_codec_for_name("ISO-2022-JP"@) == Some(RsCodec::Iso2022Jp),
        spec_codec_for_name("CP50220"@) == Some(RsCodec::Iso2022Jp),
        spec_codec_for_name("CP50221"@) == Some(RsCodec::Iso2022Jp),
        spec_codec_for_name("CP50222"@) == Some(RsCodec::Iso2022Jp),
        spec_codec_for_name("ISO-8859-1"@) == Some(RsCodec::Latin1),
        spec_codec_for_name("SHIFT_JIS"@) == Some(RsCodec::ShiftJis),
        spec_codec_for_name("CP932"@) == Some(RsCodec::ShiftJis),
        spec_codec_for_name("CP10001"@) == Some(RsCodec::ShiftJis),
{
    crate::names::lemma_canonical_names_fixed();
    assert(spec_codec_for_name("UTF-8"@) == Some(RsCodec::Utf8)) by {
        reveal_strlit("UTF-8");
    }
    assert(spec_codec_for_name("EUC-JP"@) == Some(RsCodec::EucJp)) by {
        reveal_strlit("EUC-JP");
        reveal_strlit("UTF-8");
        assert("EUC-JP"@.len() != "UTF-8"@.len());
    }
    assert(spec_codec_for_name("CP51932"@) == Some(RsCodec::EucJp)) by {
        reveal_strlit("CP51932");
        reveal_strlit("UTF-8");
        assert("CP51932"@.len() != "UTF-8"@.len());
    }
    assert(spec_codec_for_name("EUCJP-MS"@) == Some(RsCodec::EucJp)) by {
        reveal_strlit("EUCJP-MS");
        reveal_strlit("UTF-8");
        assert("EUCJP-MS"@.len() != "UTF-8"@.len());
    }
    assert(spec_codec_for_name("EUCJP-ASCII"@) == Some(RsCodec::EucJp)) by {
        reveal_strlit("EUCJP-ASCII");
        reveal_strlit("UTF-8");
        assert("EUCJP-ASCII"@.len() != "UTF-8"@.len());
    }
    assert(spec_codec_for_name("ISO-2022-JP"@) == Some(RsCodec::Iso2022Jp)) by {
        reveal_strlit("ISO-2022-JP");
        reveal_strlit("UTF-8");
        assert("ISO-2022-JP"@.len() != "UTF-8"@.len());
        reveal_strlit("EUC-JP");
        assert("ISO-2022-JP"@.len() != "EUC-JP"@.len());
        reveal_strlit("CP51932");
        assert("ISO-2022-JP"@.len() != "CP51932"@.len());
        reveal_strlit("EUCJP-MS");
        assert("ISO-2022-JP"@.len() != "EUCJP-MS"@.len());
        reveal_strlit("EUCJP-ASCII");
        assert("ISO-2022-JP"@[0] != "EUCJP-ASCII"@[0]);
    }
    assert(spec_codec_for_name("CP50220"@) == Some(RsCodec::Iso2022Jp)) by {
        reveal_strlit("CP50220");
        reveal_strlit("UTF-8");
        assert("CP50220"@.len() != "UTF-8"@.len());
        reveal_strlit("EUC-JP");
        assert("CP50220"@.len() != "EUC-JP"@.len());
        reveal_strlit("CP51932");
        assert("CP50220"@[3] != "CP51932"@[3]);
        reveal_strlit("EUCJP-MS");
        assert("CP50220"@.len() != "EUCJP-MS"@.len());
        reveal_strlit("EUCJP-ASCII");
        assert("CP50220"@.len() != "EUCJP-ASCII"@.len());
    }
    assert(spec_codec_for_name("CP50221"@) == Some(RsCodec::Iso2022Jp)) by {
        reveal_strlit("CP50221");
        reveal_strlit("UTF-8");
        assert("CP50221"@.len() != "UTF-8"@.len());
        reveal_strlit("EUC-JP");
        assert("CP50221"@.len() != "EUC-JP"@.len());
        reveal_strlit("CP51932");
        assert("CP50221"@[3] != "CP51932"@[3]);
        reveal_strlit("EUCJP-MS");
        assert("CP50221"@.len() != "EUCJP-MS"@.len());
        reveal_strlit("EUCJP-ASCII");
        assert("CP50221"@.len() != "EUCJP-ASCII"@.len());
    }
    assert(spec_codec_for_name("CP50222"@) == Some(RsCodec::Iso2022Jp)) by {
        reveal_strlit("CP50222");
        reveal_strlit("UTF-8");
        assert("CP50222"@.len() != "UTF-8"@.len());
        reveal_strlit("EUC-JP");
        assert("CP50222"@.len() != "EUC-JP"@.len());
        reveal_strlit("CP51932");
        assert("CP50222"@[3] != "CP51932"@[3]);
        reveal_strlit("EUCJP-MS");
        assert("CP50222"@.len() != "EUCJP-MS"@.len());
        reveal_strlit("EUCJP-ASCII");
        assert("CP50222"@.len() != "EUCJP-ASCII"@.len());
    }
    assert(spec_codec_for_name("ISO-8859-1"@) == Some(RsCodec::Latin1)) by {
        reveal_strlit("ISO-8859-1");
        reveal_strlit("UTF-8");
        assert("ISO-8859-1"@.len() != "UTF-8"@.len());
        reveal_strlit("EUC-JP");
        assert("ISO-8859-1"@.len() != "EUC-JP"@.len());
        reveal_strlit("CP51932");
        assert("ISO-8859-1"@.len() != "CP51932"@.len());
        reveal_strlit("EUCJP-MS");
        assert("ISO-8859-1"@.len() != "EUCJP-MS"@.len());
        reveal_strlit("EUCJP-ASCII");
        assert("ISO-8859-1"@.len() != "EUCJP-ASCII"@.len());
        reveal_strlit("ISO-2022-JP");
        assert("ISO-8859-1"@.len() != "ISO-2022-JP"@.len());
        reveal_strlit("CP50220");
        assert("ISO-8859-1"@.len() != "CP50220"@.len());
        reveal_strlit("CP50221");
        assert("ISO-8859-1"@.len() != "CP50221"@.len());
        reveal_strlit("CP50222");
        assert("ISO-8859-1"@.len() != "CP50222"@.len());
    }
    assert(spec_codec_for_name("SHIFT_JIS"@) == Some(RsCodec::ShiftJis)) by {
        reveal_strlit("SHIFT_JIS");
        reveal_strlit("UTF-8");
        assert("SHIFT_JIS"@.len() != "UTF-8"@.len());
        reveal_strlit("EUC-JP");
        assert("SHIFT_JIS"@.len() != "EUC-JP"@.len());
        reveal_strlit("CP51932");
        assert("SHIFT_JIS"@.len() != "CP51932"@.len());
        reveal_strlit("EUCJP-MS");
        assert("SHIFT_JIS"@.len() != "EUCJP-MS"@.len());
        reveal_strlit("EUCJP-ASCII");
        assert("SHIFT_JIS"@.len() != "EUCJP-ASCII"@.len());
        reveal_strlit("ISO-2022-JP");
        assert("SHIFT_JIS"@.len() != "ISO-2022-JP"@.len());
        reveal_strlit("CP50220");
        assert("SHIFT_JIS"@.len() != "CP50220"@.len());
        reveal_strlit("CP50221");
        assert("SHIFT_JIS"@.len() != "CP50221"@.len());
        reveal_strlit("CP50222");
        assert("SHIFT_JIS"@.len() != "CP50222"@.len());
        reveal_strlit("ISO-8859-1");
        assert("SHIFT_JIS"@.len() != "ISO-8859-1"@.len());
    }
    assert(spec_codec_for_name("CP932"@) == Some(RsCodec::ShiftJis)) by {
        reveal_strlit("CP932");
        reveal_strlit("UTF-8");
        assert("CP932"@[0] != "UTF-8"@[0]);
        reveal_strlit("EUC-JP");
        assert("CP932"@.len() != "EUC-JP"@.len());
        reveal_strlit("CP51932");
        assert("CP932"@.len() != "CP51932"@.len());
        reveal_strlit("EUCJP-MS");
        assert("CP932"@.len() != "EUCJP-MS"@.len());
        reveal_strlit("EUCJP-ASCII");
        assert("CP932"@.len() != "EUCJP-ASCII"@.len());
        reveal_strlit("ISO-2022-JP");
        assert("CP932"@.len() != "ISO-2022-JP"@.len());
        reveal_strlit("CP50220");
        assert("CP932"@.len() != "CP50220"@.len());
        reveal_strlit("CP50221");
        assert("CP932"@.len() != "CP50221"@.len());
        reveal_strlit("CP50222");
        assert("CP932"@.len() != "CP50222"@.len());
        reveal_strlit("ISO-8859-1");
        assert("CP932"@.len() != "ISO-8859-1"@.len());
    }
    assert(spec_codec_for_name("CP10001"@) == Some(RsCodec::ShiftJis)) by {
        reveal_strlit("CP10001");
        reveal_strlit("UTF-8");
        assert("CP10001"@.len() != "UTF-8"@.len());
        reveal_strlit("EUC-JP");
        assert("CP10001"@.len() != "EUC-JP"@.len());
        reveal_strlit("CP51932");
        assert("CP10001"@[2] != "CP51932"@[2]);
        reveal_strlit("EUCJP-MS");
        assert("CP10001"@.len() != "EUCJP-MS"@.len());
        reveal_strlit("EUCJP-ASCII");
        assert("CP10001"@.len() != "EUCJP-ASCII"@.len());
        reveal_strlit("ISO-2022-JP");
        assert("CP10001"@.len() != "ISO-2022-JP"@.len());
        reveal_strlit("CP50220");
        assert("CP10001"@[2] != "CP50220"@[2]);
        reveal_strlit("CP50221");
        assert("CP10001"@[2] != "CP50221"@[2]);
        reveal_strlit("CP50222");
        assert("CP10001"@[2] != "CP50222"@[2]);
        reveal_strlit("ISO-8859-1");
        assert("CP10001"@.len() != "ISO-8859-1"@.len());
    }
}

/// The name ISO-2022-JP is served by the ISO-2022-JP codec.
pub proof fn lemma_iso2022jp_codec()
    ensures
        spec_codec_for_name("ISO-2022-JP"@) == Some(RsCodec::Iso2022Jp),
{
    crate::names::lemma_canonical_names_fixed();
    reveal_strlit("ISO-2022-JP");
    reveal_strlit("UTF-8");
    reveal_strlit("EUC-JP");
    reveal_strlit("CP51932");
    reveal_strlit("EUCJP-MS");
    reveal_strlit("EUCJP-ASCII");
}

/// Decoding through a codec, malformed input refused.
pub open spec fn spec_codec_decode(codec: RsCodec, input: Seq<u8>) -> Result<Seq<char>, ErrorView> {
    if input.len() > MAX_DECODE_INPUT {
        Err(ErrorView::TooLarge)
    } else if rs_decoded(codec, input).1 {
        Err(ErrorView::CodecUndecodable(codec))
    } else {
        Ok(rs_decoded(codec, input).0)
    }
}

/// Decodes through a codec, refusing malformed input.
pub fn codec_decode(codec: RsCodec, input: &[u8]) -> (r: Result<Vec<char>, NkfError>)
    ensures
        crate::error::chars_result(r) == spec_codec_decode(codec, input@),
{
    if input.len() > MAX_DECODE_INPUT {
        return Err(NkfError::TooLarge);
    }
    let (text, bad) = rs_decode(codec, input);
    if bad {
        Err(NkfError::CodecUndecodable(codec))
    } else {
        Ok(text)
    }
}

/// Encoding through a codec, unmappable characters refused.
pub open spec fn spec_codec_encode(codec: RsCodec, text: Seq<char>) -> Result<Seq<u8>, ErrorView> {
    if text.len() > MAX_ENCODE_INPUT {
        Err(ErrorView::TooLarge)
    } else if rs_encoded(codec, text).1 {
        Err(ErrorView::CodecUnencodable(codec))
    } else {
        Ok(rs_encoded(codec, text).0)
    }
}

/// Encodes through a codec, refusing unmappable characters.
pub fn codec_encode(codec: RsCodec, text: &[char]) -> (r: Result<Vec<u8>, NkfError>)
    ensures
        crate::error::bytes_result(r) == spec_codec_encode(codec, text@),
{
    if text.len() > MAX_ENCODE_INPUT {
        return Err(NkfError::TooLarge);
    }
    let (bytes, bad) = rs_encode(codec, text);
    if bad {
        Err(NkfError::CodecUnencodable(codec))
    } else {
        Ok(bytes)
    }
}

/// Conversion when both names have a codec: decode, then encode; `None` when either has none.
pub open spec fn spec_convert_with_codecs(from: Seq<char>, to: Seq<char>, input: Seq<u8>) -> Result<
    Option<Seq<u8>>,
    ErrorView,
> {
    match (spec_codec_for_name(from), spec_codec_for_name(to)) {
        (Some(f), Some(t)) => match spec_codec_decode(f, input) {
            Err(e) => Err(e),
            Ok(text) => match spec_codec_encode(t, text) {
                Err(e) => Err(e),
                Ok(out) => Ok(Some(out)),
            },
        },
        _ => Ok(None),
    }
}

/// Converts between two encodings that `encoding_rs` serves.
pub fn convert_with_encoding_rs(from: &str, to: &str, input: &[u8]) -> (r: Result<
    Option<Vec<u8>>,
    NkfError,
>)
    ensures
        opt_bytes_result(r) == spec_convert_with_codecs(from@, to@, input@),
{
    let f = match codec_for_name(from) {
        Some(f) => f,
        None => return Ok(None),
    };
    let t = match codec_for_name(to) {
        Some(t) => t,
        None => return Ok(None),
    };
    let text = codec_decode(f, input)?;
    let out = codec_encode(t, text.as_slice())?;
    Ok(Some(out))
}

} // verus!
