//! The errors a conversion can end in.

use vstd::prelude::*;

verus! {

/// The `encoding_rs` codecs the library drives, by the label it asks for.
#[derive(Clone, Copy, Debug, PartialEq, Eq, Structural)]
pub enum RsCodec {
    /// `UTF-8`
    Utf8,
    /// `EUC-JP`
    EucJp,
    /// `ISO-2022-JP`
    Iso2022Jp,
    /// `windows-31j` (Shift_JIS with the Microsoft extensions)
    ShiftJis,
    /// `ISO-8859-1` (which the Encoding Standard reads as windows-1252)
    Latin1,
}

/// Why a number did not parse, as `u32::from_str_radix` tells it.
#[derive(Clone, Copy, Debug, PartialEq, Eq, Structural)]
pub enum NumberError {
    /// Nothing to parse.
    Empty,
    /// A character that is no digit of the radix.
    InvalidDigit,
    /// A value past `u32::MAX`.
    PosOverflow,
}

/// Why a conversion or an option was refused.
#[derive(Debug)]
pub enum NkfError {
    /// No converter knows the pair of encodings (both names normalised).
    UnsupportedConversion(String, String),
    /// The input is not a valid byte sequence in the named encoding.
    Undecodable(String),
    /// Some character has no encoding in the named encoding.
    Unencodable(String),
    /// `encoding_rs` found malformed input for the codec.
    CodecUndecodable(RsCodec),
    /// `encoding_rs` found unmappable characters for the codec.
    CodecUnencodable(RsCodec),
    /// A fallback replacement could not be encoded with the codec.
    FallbackUnencodable(RsCodec),
    /// A Unicode transformation format that has no decoder or encoder of its own.
    UnsupportedUnicode(String),
    /// A JIS X 0213 encoding with no converter of its own.
    UnsupportedJisX0213(String),
    /// UTF-16 input of odd length.
    Utf16OddLength,
    /// UTF-16 input with an unpaired surrogate.
    Utf16Surrogate,
    /// UTF-32 input whose length is not a multiple of four.
    Utf32Length,
    /// UTF-32 input holding a value that is no Unicode scalar.
    Utf32CodePoint,
    /// Base64 input that does not decode.
    InvalidBase64,
    /// A MIME encoded-word whose Base64 payload does not decode.
    InvalidMimeBase64,
    /// A MIME encoded-word whose charset is not UTF-8 text.
    InvalidCharsetLabel,
    /// The character has only a best-fit mapping, which was disabled.
    BestFitDisabled(char),
    /// The output holds a CP932 extension pair, which was disabled.
    Cp932ExtensionDisabled(u8, u8),
    /// An option the command line does not know.
    UnsupportedOption(String),
    /// `-O` without a file name.
    MissingOutputName,
    /// A buffer too large for the codec to size its output.
    TooLarge,
    /// A `--fb-subchar=` value that names no Unicode scalar.
    InvalidSubchar(String),
    /// A number that does not parse.
    InvalidNumber(NumberError),
    /// Overwriting asked for with no input file.
    OverwriteWithoutFiles,
    /// Overwriting asked for together with `-O`.
    OverwriteWithOutputFile,
}

/// The mathematical content of an error.
pub enum ErrorView {
    UnsupportedConversion(Seq<char>, Seq<char>),
    Undecodable(Seq<char>),
    Unencodable(Seq<char>),
    CodecUndecodable(RsCodec),
    CodecUnencodable(RsCodec),
    FallbackUnencodable(RsCodec),
    UnsupportedUnicode(Seq<char>),
    UnsupportedJisX0213(Seq<char>),
    Utf16OddLength,
    Utf16Surrogate,
    Utf32Length,
    Utf32CodePoint,
    InvalidBase64,
    InvalidMimeBase64,
    InvalidCharsetLabel,
    BestFitDisabled(char),
    Cp932ExtensionDisabled(u8, u8),
    UnsupportedOption(Seq<char>),
    MissingOutputName,
    TooLarge,
    InvalidSubchar(Seq<char>),
    InvalidNumber(NumberError),
    OverwriteWithoutFiles,
    OverwriteWithOutputFile,
}

impl View for NkfError {
    type V = ErrorView;

    open spec fn view(&self) -> ErrorView {
        match self {
            NkfError::UnsupportedConversion(a, b) => ErrorView::UnsupportedConversion(a@, b@),
            NkfError::Undecodable(a) => ErrorView::Undecodable(a@),
            NkfError::Unencodable(a) => ErrorView::Unencodable(a@),
            NkfError::CodecUndecodable(c) => ErrorView::CodecUndecodable(*c),
            NkfError::CodecUnencodable(c) => ErrorView::CodecUnencodable(*c),
            NkfError::FallbackUnencodable(c) => ErrorView::FallbackUnencodable(*c),
            NkfError::UnsupportedUnicode(a) => ErrorView::UnsupportedUnicode(a@),
            NkfError::UnsupportedJisX0213(a) => ErrorView::UnsupportedJisX0213(a@),
            NkfError::Utf16OddLength => ErrorView::Utf16OddLength,
            NkfError::Utf16Surrogate => ErrorView::Utf16Surrogate,
            NkfError::Utf32Length => ErrorView::Utf32Length,
            NkfError::Utf32CodePoint => ErrorView::Utf32CodePoint,
            NkfError::InvalidBase64 => ErrorView::InvalidBase64,
            NkfError::InvalidMimeBase64 => ErrorView::InvalidMimeBase64,
            NkfError::InvalidCharsetLabel => ErrorView::InvalidCharsetLabel,
            NkfError::BestFitDisabled(c) => ErrorView::BestFitDisabled(*c),
            NkfError::Cp932ExtensionDisabled(a, b) => ErrorView::Cp932ExtensionDisabled(*a, *b),
            NkfError::UnsupportedOption(a) => ErrorView::UnsupportedOption(a@),
            NkfError::MissingOutputName => ErrorView::MissingOutputName,
            NkfError::TooLarge => ErrorView::TooLarge,
            NkfError::InvalidSubchar(a) => ErrorView::InvalidSubchar(a@),
            NkfError::InvalidNumber(e) => ErrorView::InvalidNumber(*e),
            NkfError::OverwriteWithoutFiles => ErrorView::OverwriteWithoutFiles,
            NkfError::OverwriteWithOutputFile => ErrorView::OverwriteWithOutputFile,
        }
    }
}

/// A byte result read as its mathematical content.
pub open spec fn bytes_result(r: Result<Vec<u8>, NkfError>) -> Result<Seq<u8>, ErrorView> {
    match r {
        Ok(v) => Ok(v@),
        Err(e) => Err(e@),
    }
}

/// A text result read as its mathematical content.
pub open spec fn chars_result(r: Result<Vec<char>, NkfError>) -> Result<Seq<char>, ErrorView> {
    match r {
        Ok(v) => Ok(v@),
        Err(e) => Err(e@),
    }
}

/// A result with no value read as its mathematical content.
pub open spec fn unit_result(r: Result<(), NkfError>) -> Result<(), ErrorView> {
    match r {
        Ok(()) => Ok(()),
        Err(e) => Err(e@),
    }
}

/// An optional byte result read as its mathematical content.
pub open spec fn opt_bytes_result(r: Result<Option<Vec<u8>>, NkfError>) -> Result<
    Option<Seq<u8>>,
    ErrorView,
> {
    match r {
        Ok(Some(v)) => Ok(Some(v@)),
        Ok(None) => Ok(None),
        Err(e) => Err(e@),
    }
}

} // verus!
