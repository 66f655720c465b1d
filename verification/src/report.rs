//! Texts the command line prints: the build configuration, the debug report of the settings, and
//! the names of backup files.

use crate::config::{opt_text, texts, BufferingMode, Config, ConfigView, ExecMode, LineEnding, MimeDecodeMode, MimeEncodeMode, MsUcsMap};
use crate::text::{chars_to_string, extend_chars, str_chars};
use vstd::prelude::*;

verus! {

broadcast use vstd::seq::group_seq_axioms;

/// The version string the command line reports.
pub open spec fn spec_version() -> Seq<char> {
    "2.1.5-rust"@
}

/// The version string the command line reports.
pub fn version() -> (r: &'static str)
    ensures
        r@ == spec_version(),
{
    "2.1.5-rust"
}

/// `value` with each `*` replaced by `with`.
pub open spec fn spec_replace_star(value: Seq<char>, with: Seq<char>) -> Seq<char>
    decreases value.len(),
{
    if value.len() == 0 {
        seq![]
    } else {
        (if value[0] == '*' {
            with
        } else {
            seq![value[0]]
        }) + spec_replace_star(value.skip(1), with)
    }
}

/// The name a file is renamed to before it is overwritten: the suffix with each `*` replaced by
/// the file name when it holds a `*`, else the file name followed by the suffix.
pub open spec fn spec_backup_filename(suffix: Seq<char>, filename: Seq<char>) -> Seq<char> {
    if suffix.contains('*') {
        spec_replace_star(suffix, filename)
    } else {
        filename + suffix
    }
}

/// The name a file is renamed to before it is overwritten.
pub fn backup_filename(suffix: &str, filename: &str) -> (r: String)
    ensures
        r@ == spec_backup_filename(suffix@, filename@),
{
    let s = str_chars(suffix);
    let f = str_chars(filename);
    let mut has_star = false;
    let mut k: usize = 0;
    while k < s.len()
        invariant
            k <= s@.len(),
            has_star == (exists|j: int| 0 <= j < k && s@[j] == '*'),
        decreases s@.len() - k,
    {
        if s[k] == '*' {
            has_star = true;
        }
        k += 1;
    }
    if !has_star {
        let mut out = f.clone();
        extend_chars(&mut out, s.as_slice());
        assert(!s@.contains('*'));
        return chars_to_string(out.as_slice());
    }
    assert(s@[choose|j: int| 0 <= j < s@.len() && s@[j] == '*'] == '*');
    let mut out: Vec<char> = Vec::new();
    let mut i: usize = 0;
    assert(s@.skip(0) =~= s@);
    while i < s.len()
        invariant
            i <= s@.len(),
            spec_replace_star(s@, f@) == out@ + spec_replace_star(s@.skip(i as int), f@),
        decreases s@.len() - i,
    {
        let ghost before = out@;
        if s[i] == '*' {
            extend_chars(&mut out, f.as_slice());
        } else {
            out.push(s[i]);
        }
        assert(s@.skip(i as int).skip(1) =~= s@.skip(i + 1));
        i += 1;
        proof {
            let rest = spec_replace_star(s@.skip(i as int), f@);
            assert(before + (out@.subrange(before.len() as int, out@.len() as int) + rest) =~= out@ + rest);
        }
    }
    assert(s@.skip(i as int) =~= Seq::<char>::empty());
    assert(out@ + Seq::<char>::empty() =~= out@);
    chars_to_string(out.as_slice())
}

/// What `-V` prints: the version and what this build supports.
pub open spec fn spec_configuration_report() -> Seq<char> {
    spec_version() + "\n"@ + "Configuration:\n"@ + "  implementation: pure Rust\n"@
        + "  external iconv: disabled\n"@ + "  native C linkage: disabled\n"@
        + "  Unicode normalization: enabled\n"@ + "  MIME decode/encode: enabled\n"@
        + "  JIS X 0213 tables: enabled\n"@ + "  X0212 tables: enabled\n"@ + "  CP932 tables: enabled\n"@
        + "  exec-in/exec-out: enabled via direct process execution\n"@
        + "  buffering options: -b buffered, -u flush-on-complete\n"@
        + "  encodings: UTF-8, UTF-16, UTF-32, ISO-2022-JP, EUC-JP, Shift_JIS, CP932, CP51932, EUCJP-MS, EUCJP-ASCII, CP50220/21/22, CP10001\n"@
}

fn push_str(out: &mut Vec<char>, s: &str)
    ensures
        final(out)@ == old(out)@ + s@,
{
    let v = str_chars(s);
    extend_chars(out, v.as_slice());
}

/// What `-V` prints: the version and what this build supports.
pub fn configuration_report() -> (r: String)
    ensures
        r@ == spec_configuration_report(),
{
    let mut out: Vec<char> = Vec::new();
    push_str(&mut out, version());
    push_str(&mut out, "\n");
    push_str(&mut out, "Configuration:\n");
    push_str(&mut out, "  implementation: pure Rust\n");
    push_str(&mut out, "  external iconv: disabled\n");
    push_str(&mut out, "  native C linkage: disabled\n");
    push_str(&mut out, "  Unicode normalization: enabled\n");
    push_str(&mut out, "  MIME decode/encode: enabled\n");
    push_str(&mut out, "  JIS X 0213 tables: enabled\n");
    push_str(&mut out, "  X0212 tables: enabled\n");
    push_str(&mut out, "  CP932 tables: enabled\n");
    push_str(&mut out, "  exec-in/exec-out: enabled via direct process execution\n");
    push_str(&mut out, "  buffering options: -b buffered, -u flush-on-complete\n");
    push_str(&mut out, "  encodings: UTF-8, UTF-16, UTF-32, ISO-2022-JP, EUC-JP, Shift_JIS, CP932, CP51932, EUCJP-MS, EUCJP-ASCII, CP50220/21/22, CP10001\n");
    chars_to_string(out.as_slice())
}

/// What `format!("{:?}", v)` makes of a list of strings (quoted, escaped, in brackets).
pub uninterp spec fn debug_list_text(v: Seq<Seq<char>>) -> Seq<char>;

/// `format!("{:?}", v)` for a list of strings: the result is named, not described.
#[verifier::external_body]
fn debug_list(v: &Vec<String>) -> (r: String)
    ensures
        r@ == debug_list_text(texts(v@)),
{
    format!("{:?}", v)
}

/// A flag as `{}` prints it.
pub open spec fn spec_bool_text(b: bool) -> Seq<char> {
    if b {
        "true"@
    } else {
        "false"@
    }
}

fn bool_text(b: bool) -> (r: &'static str)
    ensures
        r@ == spec_bool_text(b),
{
    if b {
        "true"
    } else {
        "false"
    }
}

/// The variant names the debug report prints for the settings' modes.
pub open spec fn spec_line_ending_name(m: LineEnding) -> Seq<char> {
    match m {
        LineEnding::Preserve => "Preserve"@,
        LineEnding::Unix => "Unix"@,
        LineEnding::Windows => "Windows"@,
        LineEnding::Mac => "Mac"@,
    }
}

fn line_ending_name(m: LineEnding) -> (r: &'static str)
    ensures
        r@ == spec_line_ending_name(m),
{
    match m {
        LineEnding::Preserve => "Preserve",
        LineEnding::Unix => "Unix",
        LineEnding::Windows => "Windows",
        LineEnding::Mac => "Mac",
    }
}

pub open spec fn spec_buffering_name(m: BufferingMode) -> Seq<char> {
    match m {
        BufferingMode::Buffered => "Buffered"@,
        BufferingMode::Unbuffered => "Unbuffered"@,
    }
}

fn buffering_name(m: BufferingMode) -> (r: &'static str)
    ensures
        r@ == spec_buffering_name(m),
{
    match m {
        BufferingMode::Buffered => "Buffered",
        BufferingMode::Unbuffered => "Unbuffered",
    }
}

pub open spec fn spec_mime_decode_name(m: MimeDecodeMode) -> Seq<char> {
    match m {
        MimeDecodeMode::Off => "Off"@,
        MimeDecodeMode::Strict => "Strict"@,
        MimeDecodeMode::Nonstrict => "Nonstrict"@,
        MimeDecodeMode::Base64 => "Base64"@,
        MimeDecodeMode::QuotedPrintable => "QuotedPrintable"@,
    }
}

fn mime_decode_name(m: MimeDecodeMode) -> (r: &'static str)
    ensures
        r@ == spec_mime_decode_name(m),
{
    match m {
        MimeDecodeMode::Off => "Off",
        MimeDecodeMode::Strict => "Strict",
        MimeDecodeMode::Nonstrict => "Nonstrict",
        MimeDecodeMode::Base64 => "Base64",
        MimeDecodeMode::QuotedPrintable => "QuotedPrintable",
    }
}

/// The output MIME mode as the report names it (no encoding is reported as `None`).
pub open spec fn spec_mime_encode_name(m: MimeEncodeMode) -> Seq<char> {
    match m {
        MimeEncodeMode::Unencoded => "None"@,
        MimeEncodeMode::Base64 => "Base64"@,
        MimeEncodeMode::QuotedPrintable => "QuotedPrintable"@,
        MimeEncodeMode::Auto => "Auto"@,
    }
}

fn mime_encode_name(m: MimeEncodeMode) -> (r: &'static str)
    ensures
        r@ == spec_mime_encode_name(m),
{
    match m {
        MimeEncodeMode::Unencoded => "None",
        MimeEncodeMode::Base64 => "Base64",
        MimeEncodeMode::QuotedPrintable => "QuotedPrintable",
        MimeEncodeMode::Auto => "Auto",
    }
}

pub open spec fn spec_ms_ucs_map_name(m: MsUcsMap) -> Seq<char> {
    match m {
        MsUcsMap::Ascii => "Ascii"@,
        MsUcsMap::Ms => "Ms"@,
        MsUcsMap::Cp932 => "Cp932"@,
        MsUcsMap::Cp10001 => "Cp10001"@,
    }
}

fn ms_ucs_map_name(m: MsUcsMap) -> (r: &'static str)
    ensures
        r@ == spec_ms_ucs_map_name(m),
{
    match m {
        MsUcsMap::Ascii => "Ascii",
        MsUcsMap::Ms => "Ms",
        MsUcsMap::Cp932 => "Cp932",
        MsUcsMap::Cp10001 => "Cp10001",
    }
}

pub open spec fn spec_exec_mode_name(m: ExecMode) -> Seq<char> {
    match m {
        ExecMode::Input => "Input"@,
        ExecMode::Output => "Output"@,
    }
}

fn exec_mode_name(m: ExecMode) -> (r: &'static str)
    ensures
        r@ == spec_exec_mode_name(m),
{
    match m {
        ExecMode::Input => "Input",
        ExecMode::Output => "Output",
    }
}

/// One `  name: value` line of the debug report.
pub open spec fn spec_field(name: Seq<char>, value: Seq<char>) -> Seq<char> {
    "  "@ + name + ": "@ + value + "\n"@
}

fn push_field(out: &mut Vec<char>, name: &str, value: &str)
    ensures
        final(out)@ == old(out)@ + spec_field(name@, value@),
{
    push_str(out, "  ");
    push_str(out, name);
    push_str(out, ": ");
    push_str(out, value);
    push_str(out, "\n");
    assert(out@ =~= old(out)@ + spec_field(name@, value@));
}

/// The first lines of the debug report (the encodings and the modes), appended to `acc`.
pub open spec fn spec_debug_head(acc: Seq<char>, c: ConfigView, guessed: Option<Seq<char>>) -> Seq<char> {
    let a1 = acc + "nkf-rust debug:\n"@;
    let a2 = a1 + spec_field("input"@, match c.input {
        Some(s) => s,
        None => "(guess)"@,
    });
    let a3 = match guessed {
        Some(g) => a2 + spec_field("guessed-input"@, g),
        None => a2,
    };
    let a4 = a3 + spec_field("output"@, c.output);
    let a5 = a4 + spec_field("line-ending"@, spec_line_ending_name(c.line_ending));
    let a6 = a5 + spec_field("buffering"@, spec_buffering_name(c.buffering));
    let a7 = a6 + spec_field("mime-decode"@, spec_mime_decode_name(c.mime_decode_mode));
    a7 + spec_field("mime-encode"@, spec_mime_encode_name(c.mime_encode_mode))
}

/// The last lines of the debug report (the CP932 switches and the external command), appended
/// to `acc`.
pub open spec fn spec_debug_tail(acc: Seq<char>, c: ConfigView, exec_command: Seq<char>) -> Seq<char> {
    let a1 = acc + spec_field("cp932-compat"@, spec_bool_text(c.cp932_compat));
    let a2 = a1 + spec_field("cp932inv"@, spec_bool_text(c.cp932inv));
    let a3 = a2 + spec_field("no-cp932ext"@, spec_bool_text(c.no_cp932ext));
    let a4 = a3 + spec_field("no-best-fit-chars"@, spec_bool_text(c.no_best_fit_chars));
    let a5 = a4 + spec_field("ms-ucs-map"@, spec_ms_ucs_map_name(c.ms_ucs_map));
    match c.exec_mode {
        Some(m) => a5 + spec_field("exec-mode"@, spec_exec_mode_name(m)) + spec_field("exec-command"@, exec_command),
        None => a5,
    }
}

/// What `--debug` prints about the settings (and the guessed input encoding, if any).
pub open spec fn spec_debug_report(c: ConfigView, guessed: Option<Seq<char>>) -> Seq<char> {
    spec_debug_tail(spec_debug_head(Seq::empty(), c, guessed), c, debug_list_text(c.exec_command))
}

/// A borrowed string option read as its characters.
pub open spec fn opt_str_text(o: Option<&str>) -> Option<Seq<char>> {
    match o {
        Some(g) => Some(g@),
        None => None,
    }
}

fn debug_head(config: &Config, guessed_input: Option<&str>, out: &mut Vec<char>)
    ensures
        final(out)@ == spec_debug_head(old(out)@, config@, opt_str_text(guessed_input)),
{
    push_str(out, "nkf-rust debug:\n");
    match &config.input {
        Some(s) => push_field(out, "input", s.as_str()),
        None => push_field(out, "input", "(guess)"),
    }
    if let Some(g) = guessed_input {
        push_field(out, "guessed-input", g);
    }
    push_field(out, "output", config.output.as_str());
    push_field(out, "line-ending", line_ending_name(config.line_ending));
    push_field(out, "buffering", buffering_name(config.buffering));
    push_field(out, "mime-decode", mime_decode_name(config.mime_decode_mode));
    push_field(out, "mime-encode", mime_encode_name(config.mime_encode_mode));
}

fn debug_tail(config: &Config, out: &mut Vec<char>)
    ensures
        final(out)@ == spec_debug_tail(old(out)@, config@, debug_list_text(config@.exec_command)),
{
    push_field(out, "cp932-compat", bool_text(config.cp932_compat));
    push_field(out, "cp932inv", bool_text(config.cp932inv));
    push_field(out, "no-cp932ext", bool_text(config.no_cp932ext));
    push_field(out, "no-best-fit-chars", bool_text(config.no_best_fit_chars));
    push_field(out, "ms-ucs-map", ms_ucs_map_name(config.ms_ucs_map));
    if let Some(m) = config.exec_mode {
        push_field(out, "exec-mode", exec_mode_name(m));
        let listed = debug_list(&config.exec_command);
        push_field(out, "exec-command", listed.as_str());
    }
}

/// What `--debug` prints about the settings (and the guessed input encoding, if any).
pub fn debug_report(config: &Config, guessed_input: Option<&str>) -> (r: String)
    ensures
        r@ == spec_debug_report(config@, opt_str_text(guessed_input)),
{
    let mut out: Vec<char> = Vec::new();
    debug_head(config, guessed_input, &mut out);
    debug_tail(config, &mut out);
    chars_to_string(out.as_slice())
}

} // verus!
