//! Encodings none of this crate's converters serve are handed to the system converter
//! (`iconv(3)`), which the program runs: the library says what to convert and what to do with
//! the result, and the program performs the conversion and hands the result back.

use crate::codec::{codec_for_name, spec_codec_for_name};
use crate::config::Config;
use crate::convert::{convert, spec_convert};
use crate::error::{bytes_result, ErrorView, NkfError};
use crate::guess::guess_encoding;
use crate::names::{is_euc_table_encoding, is_jis_x0213_encoding, is_unicode_encoding, normalize_encoding, spec_is_euc_table, spec_is_jis_x0213, spec_is_unicode, spec_normalize};
use crate::process::{convert_text_to, finish_output, fold_fits, prepare_input, process_bytes, spec_convert_text_to, spec_finish, spec_input_encoding, spec_prepare_input, spec_process};
use vstd::prelude::*;

verus! {

/// Whether one of this crate's converters serves the encoding name.
pub open spec fn spec_served(name: Seq<char>) -> bool {
    spec_is_euc_table(name) || spec_codec_for_name(name) is Some || spec_is_unicode(name) || spec_is_jis_x0213(name)
}

/// Whether one of this crate's converters serves the encoding name.
pub fn is_served(name: &str) -> (r: bool)
    ensures
        r == spec_served(name@),
{
    is_euc_table_encoding(name) || codec_for_name(name).is_some() || is_unicode_encoding(name) || is_jis_x0213_encoding(name)
}

/// A request to the system converter, or the end of a conversion.
pub enum SystemStep {
    /// Convert `bytes` from `from` to `to` with the system converter and hand back the result,
    /// `None` if it cannot.
    Convert { from: String, to: String, bytes: Vec<u8> },
    /// The conversion is over.
    Done(Result<Vec<u8>, NkfError>),
}

/// A step as plain values.
pub enum SystemStepView {
    Convert(Seq<char>, Seq<char>, Seq<u8>),
    Done(Result<Seq<u8>, ErrorView>),
}

/// The view of a step.
pub open spec fn step_view(s: SystemStep) -> SystemStepView {
    match s {
        SystemStep::Convert { from, to, bytes } => SystemStepView::Convert(from@, to@, bytes@),
        SystemStep::Done(r) => SystemStepView::Done(bytes_result(r)),
    }
}

/// What a conversion handed to the system converter waits for: the input read into UTF-8, or
/// the output written in its encoding.
#[derive(Clone, Copy, PartialEq, Eq, Structural)]
pub enum SystemStage {
    InputDecoded,
    OutputEncoded,
}

/// One conversion of bytes between two names: done by this crate, or, where its converters
/// serve neither direction of the pair (the error `UnsupportedConversion`), a request to the
/// system converter.
pub open spec fn spec_convert_request(from: Seq<char>, to: Seq<char>, input: Seq<u8>) -> SystemStepView {
    match spec_convert(from, to, input) {
        Err(ErrorView::UnsupportedConversion(_, _)) => SystemStepView::Convert(from, to, input),
        r => SystemStepView::Done(r),
    }
}

/// Converts bytes between two names, or asks the system converter for a pair this crate's
/// converters do not serve.
pub fn convert_request(from: &str, to: &str, input: &[u8]) -> (r: SystemStep)
    ensures
        step_view(r) == spec_convert_request(from@, to@, input@),
{
    match convert(from, to, input) {
        Err(NkfError::UnsupportedConversion(_, _)) => SystemStep::Convert {
            from: String::from_str(from),
            to: String::from_str(to),
            bytes: crate::text::bytes_copy(input),
        },
        r => SystemStep::Done(r),
    }
}

/// What the system converter's answer makes of a conversion: its bytes, or, when it cannot
/// convert either, the pair reported as unsupported.
pub open spec fn spec_system_answer(from: Seq<char>, to: Seq<char>, answer: Option<Seq<u8>>) -> Result<Seq<u8>, ErrorView> {
    match answer {
        Some(b) => Ok(b),
        None => Err(ErrorView::UnsupportedConversion(spec_normalize(from), spec_normalize(to))),
    }
}

/// What the system converter's answer makes of a conversion.
pub fn system_answer(from: &str, to: &str, answer: Option<Vec<u8>>) -> (r: Result<Vec<u8>, NkfError>)
    ensures
        bytes_result(r) == spec_system_answer(from@, to@, match answer {
            Some(b) => Some(b@),
            None => None,
        }),
{
    match answer {
        Some(b) => Ok(b),
        None => Err(NkfError::UnsupportedConversion(normalize_encoding(from), normalize_encoding(to))),
    }
}

/// Whether the settings name an input encoding none of this crate's converters serve.
pub open spec fn spec_input_external(config: Config) -> bool {
    !config.transparent && match config.input {
        Some(f) => !spec_served(f@),
        None => false,
    }
}

/// Whether the settings name an output encoding none of this crate's converters serve.
pub open spec fn spec_output_external(config: Config) -> bool {
    !config.transparent && !spec_served(config.output@)
}

/// The encoding this crate converts the text into: UTF-8 when the system converter writes the
/// output, else the output encoding.
pub open spec fn spec_internal_output(config: Config) -> Seq<char> {
    if spec_output_external(config) {
        "UTF-8"@
    } else {
        config.output@
    }
}

/// After the character conversion: a request to write UTF-8 in the output encoding when the
/// system converter serves it, else the output rewrites.
pub open spec fn spec_after_text(config: Config, converted: Result<Seq<u8>, ErrorView>) -> (Option<SystemStage>, SystemStepView) {
    match converted {
        Err(e) => (None, SystemStepView::Done(Err(e))),
        Ok(c) => if spec_output_external(config) {
            (Some(SystemStage::OutputEncoded), SystemStepView::Convert("UTF-8"@, config.output@, c))
        } else {
            (None, SystemStepView::Done(Ok(spec_finish(config, c))))
        },
    }
}

/// The start of a whole conversion. With encodings this crate serves it is the conversion
/// itself. Otherwise the input is prepared, then handed to the system converter to be read into
/// UTF-8 if its encoding is not served, or else converted here into UTF-8 and handed to the
/// system converter to be written in the output encoding.
pub open spec fn spec_system_start(config: Config, input: Seq<u8>) -> (Option<SystemStage>, SystemStepView) {
    if !spec_input_external(config) && !spec_output_external(config) {
        (None, SystemStepView::Done(spec_process(config, input)))
    } else {
        match spec_prepare_input(config, input) {
            Err(e) => (None, SystemStepView::Done(Err(e))),
            Ok(p) => if spec_input_external(config) {
                (Some(SystemStage::InputDecoded), SystemStepView::Convert(config.input.unwrap()@, "UTF-8"@, p))
            } else {
                spec_after_text(config, spec_convert_text_to(config, spec_input_encoding(config, p), spec_internal_output(config), p))
            },
        }
    }
}

/// The conversion after the system converter's answer: read into UTF-8, the text is converted
/// here (and, if need be, handed back to be written in the output encoding); written in the
/// output encoding, it gets the output rewrites. No answer ends the conversion with the pair
/// reported as unsupported.
pub open spec fn spec_system_resume(config: Config, stage: SystemStage, answer: Option<Seq<u8>>) -> (Option<SystemStage>, SystemStepView) {
    match stage {
        SystemStage::InputDecoded => match answer {
            None => (None, SystemStepView::Done(spec_system_answer(config.input.unwrap()@, "UTF-8"@, None))),
            Some(u) => spec_after_text(config, spec_convert_text_to(config, "UTF-8"@, spec_internal_output(config), u)),
        },
        SystemStage::OutputEncoded => match answer {
            None => (None, SystemStepView::Done(spec_system_answer("UTF-8"@, config.output@, None))),
            Some(o) => (None, SystemStepView::Done(Ok(spec_finish(config, o)))),
        },
    }
}

fn after_text(config: &Config, converted: Result<Vec<u8>, NkfError>) -> (r: (Option<SystemStage>, SystemStep))
    ensures
        (r.0, step_view(r.1)) == spec_after_text(*config, bytes_result(converted)),
{
    match converted {
        Err(e) => (None, SystemStep::Done(Err(e))),
        Ok(c) => if !config.transparent && !is_served(config.output.as_str()) {
            (Some(SystemStage::OutputEncoded), SystemStep::Convert {
                from: String::from_str("UTF-8"),
                to: config.output.clone(),
                bytes: c,
            })
        } else {
            (None, SystemStep::Done(Ok(finish_output(config, c))))
        },
    }
}

/// Starts a whole conversion; encodings this crate's converters do not serve are handed to the
/// system converter.
pub fn system_start(config: &Config, input: &[u8]) -> (r: (Option<SystemStage>, SystemStep))
    requires
        fold_fits(*config),
    ensures
        (r.0, step_view(r.1)) == spec_system_start(*config, input@),
{
    let input_external = match &config.input {
        Some(f) => !config.transparent && !is_served(f.as_str()),
        None => false,
    };
    let output_external = !config.transparent && !is_served(config.output.as_str());
    if !input_external && !output_external {
        return (None, SystemStep::Done(process_bytes(config, input)));
    }
    let prepared = match prepare_input(config, input) {
        Ok(p) => p,
        Err(e) => return (None, SystemStep::Done(Err(e))),
    };
    if input_external {
        let from = match &config.input {
            Some(f) => f.clone(),
            None => String::from_str("UTF-8"),
        };
        return (Some(SystemStage::InputDecoded), SystemStep::Convert { from, to: String::from_str("UTF-8"), bytes: prepared });
    }
    let from: String = match &config.input {
        Some(s) => s.clone(),
        None => String::from_str(guess_encoding(prepared.as_slice())),
    };
    let to: &str = if output_external { "UTF-8" } else { config.output.as_str() };
    let converted = convert_text_to(config, from.as_str(), to, prepared.as_slice());
    after_text(config, converted)
}

/// Goes on with a conversion once the system converter has answered (`None` when it could not
/// convert).
pub fn system_resume(config: &Config, stage: SystemStage, answer: Option<Vec<u8>>) -> (r: (Option<SystemStage>, SystemStep))
    requires
        fold_fits(*config),
        stage == SystemStage::InputDecoded ==> config.input is Some,
    ensures
        (r.0, step_view(r.1)) == spec_system_resume(*config, stage, match answer {
            Some(b) => Some(b@),
            None => None,
        }),
{
    match stage {
        SystemStage::InputDecoded => match answer {
            None => {
                let from = match &config.input {
                    Some(f) => f.as_str(),
                    None => "UTF-8",
                };
                (None, SystemStep::Done(system_answer(from, "UTF-8", None)))
            },
            Some(u) => {
                let output_external = !config.transparent && !is_served(config.output.as_str());
                let to: &str = if output_external { "UTF-8" } else { config.output.as_str() };
                let converted = convert_text_to(config, "UTF-8", to, u.as_slice());
                after_text(config, converted)
            },
        },
        SystemStage::OutputEncoded => match answer {
            None => (None, SystemStep::Done(system_answer("UTF-8", config.output.as_str(), None))),
            Some(o) => (None, SystemStep::Done(Ok(finish_output(config, o)))),
        },
    }
}

} // verus!
