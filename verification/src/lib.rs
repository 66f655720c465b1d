//! Japanese character-encoding conversion in the manner of nkf.

pub mod text;
pub mod names;
pub mod error;
pub mod config;
pub mod unicode;
pub mod codec;
pub mod fallback;
pub mod euc;
pub mod x0213;
pub mod convert;
pub mod sjis;
pub mod guess;
pub mod mime;
pub mod jis;
pub mod filters;
pub mod kana;
pub mod fold;
pub mod process;
pub mod system;
pub mod inputs;

pub use config::{
    BufferingMode, Config, EncodeFallback, ExecMode, FoldConfig, LineEnding, MimeDecodeMode,
    MimeEncodeMode, MimeEncoding, MsUcsMap, OverwriteConfig, X0201Mode,
};
pub use error::NkfError;

use crate::convert::spec_convert;
use crate::error::bytes_result;
use crate::guess::{spec_guess_encoding, spec_guess_report};
use crate::mime::byte_lines_within;
use crate::names::spec_normalize;
use crate::process::{fold_fits, spec_process};
use vstd::prelude::*;

verus! {

/// Converts bytes from one encoding to another, both named as nkf names them.
pub fn convert_bytes(from: &str, to: &str, input: &[u8]) -> (r: Result<Vec<u8>, NkfError>)
    ensures
        bytes_result(r) == spec_convert(from@, to@, input@),
{
    convert::convert(from, to, input)
}

/// Runs one whole conversion with the given settings. MIME-encoded output has no line over 76
/// bytes.
pub fn process_with_config(config: &Config, input: &[u8]) -> (r: Result<Vec<u8>, NkfError>)
    requires
        fold_fits(*config),
    ensures
        bytes_result(r) == spec_process(*config, input@),
        config.mime_encode_mode != MimeEncodeMode::Unencoded ==> (r matches Ok(v) ==> byte_lines_within(v@, 76)),
{
    process::process_bytes(config, input)
}

/// The guess report for the bytes: the encoding, and from level 2 on the byte order, a BOM and
/// the line endings.
pub fn guess_report_text(input: &[u8], level: u8) -> (r: String)
    ensures
        r@ == spec_guess_report(input@, level),
{
    guess::guess_report(input, level)
}

/// The encoding a guess finds for the bytes, as a name the converters take.
pub fn guess_encoding_name(input: &[u8]) -> (r: &'static str)
    ensures
        r@ == spec_guess_encoding(input@),
{
    guess::guess_encoding(input)
}

/// The canonical spelling of an encoding name.
pub fn normalize_encoding_name(name: &str) -> (r: String)
    ensures
        r@ == spec_normalize(name@),
{
    names::normalize_encoding(name)
}

} // verus!
pub mod options;
pub mod report;
