//! The settings one conversion runs with.

use vstd::prelude::*;

verus! {

/// How line endings are rewritten.
#[derive(Clone, Copy, Debug, PartialEq, Eq, Structural)]
pub enum LineEnding {
    Preserve,
    Unix,
    Windows,
    Mac,
}

/// How MIME-encoded input is decoded.
#[derive(Clone, Copy, Debug, PartialEq, Eq, Structural)]
pub enum MimeDecodeMode {
    Off,
    Strict,
    Nonstrict,
    Base64,
    QuotedPrintable,
}

/// How the output is MIME-encoded.
#[derive(Clone, Copy, Debug, PartialEq, Eq, Structural)]
pub enum MimeEncodeMode {
    Unencoded,
    Base64,
    QuotedPrintable,
    Auto,
}

/// Line folding: the width, the margin allowed past it, and whether input newlines are kept.
#[derive(Clone, Copy, Debug, PartialEq, Eq, Structural)]
pub struct FoldConfig {
    pub len: usize,
    pub margin: usize,
    pub preserve_newlines: bool,
}

/// In-place rewriting of input files.
#[derive(Clone, Debug, PartialEq, Eq)]
pub struct OverwriteConfig {
    pub preserve_time: bool,
    pub backup_suffix: Option<String>,
}

/// The payload encoding of a MIME encoded-word.
#[derive(Clone, Copy, Debug, PartialEq, Eq, Structural)]
pub enum MimeEncoding {
    Base64,
    QuotedPrintable,
}

/// Treatment of JIS X 0201 halfwidth katakana.
#[derive(Clone, Copy, Debug, PartialEq, Eq, Structural)]
pub enum X0201Mode {
    Default,
    Preserve,
    Fullwidth,
}

/// Which Unicode mapping the EUC tables follow.
#[derive(Clone, Copy, Debug, PartialEq, Eq, Structural)]
pub enum MsUcsMap {
    Ascii,
    Ms,
    Cp932,
    Cp10001,
}

/// Output buffering.
#[derive(Clone, Copy, Debug, PartialEq, Eq, Structural)]
pub enum BufferingMode {
    Buffered,
    Unbuffered,
}

/// Which side of the conversion an external command stands on.
#[derive(Clone, Copy, Debug, PartialEq, Eq, Structural)]
pub enum ExecMode {
    Input,
    Output,
}

/// What replaces a character the output encoding cannot hold.
#[derive(Clone, Copy, Debug, PartialEq, Eq, Structural)]
pub enum EncodeFallback {
    Skip,
    Html,
    Xml,
    Java,
    Perl,
    Subchar(char),
}

/// Every setting of one conversion.
#[derive(Clone, Debug)]
pub struct Config {
    pub input: Option<String>,
    pub output: String,
    pub guess: u8,
    pub transparent: bool,
    pub no_output: bool,
    pub line_ending: LineEnding,
    pub fold: Option<FoldConfig>,
    pub normalize_utf8_mac: bool,
    pub mime_decode_mode: MimeDecodeMode,
    pub mime_encode_mode: MimeEncodeMode,
    pub z_flags: u8,
    pub x0201_mode: X0201Mode,
    pub kana_flags: u8,
    pub rot: bool,
    pub cap_input: bool,
    pub url_input: bool,
    pub numchar_input: bool,
    pub broken_jis_flags: u8,
    pub iso2022jp_strict: bool,
    pub iso2022_kanji_intro: Option<u8>,
    pub iso2022_ascii_intro: Option<u8>,
    pub cp932_compat: bool,
    pub cp932inv: bool,
    pub no_cp932ext: bool,
    pub no_best_fit_chars: bool,
    pub ms_ucs_map: MsUcsMap,
    pub debug: bool,
    pub buffering: BufferingMode,
    pub exec_mode: Option<ExecMode>,
    pub exec_command: Vec<String>,
    pub prefix_rules: Vec<(u8, u8)>,
    pub encode_fallback: EncodeFallback,
    pub file_output: Option<String>,
    pub overwrite: Option<OverwriteConfig>,
    pub inputs: Vec<String>,
}

/// A `String` option read as its characters.
pub open spec fn opt_text(o: Option<String>) -> Option<Seq<char>> {
    match o {
        Some(s) => Some(s@),
        None => None,
    }
}

/// A list of strings read as their characters.
pub open spec fn texts(v: Seq<String>) -> Seq<Seq<char>> {
    v.map_values(|s: String| s@)
}

/// The mathematical content of the settings: strings as their characters.
pub struct ConfigView {
    pub input: Option<Seq<char>>,
    pub output: Seq<char>,
    pub guess: u8,
    pub transparent: bool,
    pub no_output: bool,
    pub line_ending: LineEnding,
    pub fold: Option<FoldConfig>,
    pub normalize_utf8_mac: bool,
    pub mime_decode_mode: MimeDecodeMode,
    pub mime_encode_mode: MimeEncodeMode,
    pub z_flags: u8,
    pub x0201_mode: X0201Mode,
    pub kana_flags: u8,
    pub rot: bool,
    pub cap_input: bool,
    pub url_input: bool,
    pub numchar_input: bool,
    pub broken_jis_flags: u8,
    pub iso2022jp_strict: bool,
    pub iso2022_kanji_intro: Option<u8>,
    pub iso2022_ascii_intro: Option<u8>,
    pub cp932_compat: bool,
    pub cp932inv: bool,
    pub no_cp932ext: bool,
    pub no_best_fit_chars: bool,
    pub ms_ucs_map: MsUcsMap,
    pub debug: bool,
    pub buffering: BufferingMode,
    pub exec_mode: Option<ExecMode>,
    pub exec_command: Seq<Seq<char>>,
    pub prefix_rules: Seq<(u8, u8)>,
    pub encode_fallback: EncodeFallback,
    pub file_output: Option<Seq<char>>,
    pub overwrite: Option<(bool, Option<Seq<char>>)>,
    pub inputs: Seq<Seq<char>>,
}

impl View for Config {
    type V = ConfigView;

    open spec fn view(&self) -> ConfigView {
        ConfigView {
            input: opt_text(self.input),
            output: self.output@,
            guess: self.guess,
            transparent: self.transparent,
            no_output: self.no_output,
            line_ending: self.line_ending,
            fold: self.fold,
            normalize_utf8_mac: self.normalize_utf8_mac,
            mime_decode_mode: self.mime_decode_mode,
            mime_encode_mode: self.mime_encode_mode,
            z_flags: self.z_flags,
            x0201_mode: self.x0201_mode,
            kana_flags: self.kana_flags,
            rot: self.rot,
            cap_input: self.cap_input,
            url_input: self.url_input,
            numchar_input: self.numchar_input,
            broken_jis_flags: self.broken_jis_flags,
            iso2022jp_strict: self.iso2022jp_strict,
            iso2022_kanji_intro: self.iso2022_kanji_intro,
            iso2022_ascii_intro: self.iso2022_ascii_intro,
            cp932_compat: self.cp932_compat,
            cp932inv: self.cp932inv,
            no_cp932ext: self.no_cp932ext,
            no_best_fit_chars: self.no_best_fit_chars,
            ms_ucs_map: self.ms_ucs_map,
            debug: self.debug,
            buffering: self.buffering,
            exec_mode: self.exec_mode,
            exec_command: texts(self.exec_command@),
            prefix_rules: self.prefix_rules@,
            encode_fallback: self.encode_fallback,
            file_output: opt_text(self.file_output),
            overwrite: match self.overwrite {
                Some(o) => Some((o.preserve_time, opt_text(o.backup_suffix))),
                None => None,
            },
            inputs: texts(self.inputs@),
        }
    }
}

/// The settings of a conversion with no option given.
pub open spec fn default_view() -> ConfigView {
    ConfigView {
        input: None,
        output: "UTF-8"@,
        guess: 0,
        transparent: false,
        no_output: false,
        line_ending: LineEnding::Preserve,
        fold: None,
        normalize_utf8_mac: false,
        mime_decode_mode: MimeDecodeMode::Off,
        mime_encode_mode: MimeEncodeMode::Unencoded,
        z_flags: 0,
        x0201_mode: X0201Mode::Default,
        kana_flags: 0,
        rot: false,
        cap_input: false,
        url_input: false,
        numchar_input: false,
        broken_jis_flags: 0,
        iso2022jp_strict: false,
        iso2022_kanji_intro: None,
        iso2022_ascii_intro: None,
        cp932_compat: true,
        cp932inv: true,
        no_cp932ext: false,
        no_best_fit_chars: false,
        ms_ucs_map: MsUcsMap::Ascii,
        debug: false,
        buffering: BufferingMode::Buffered,
        exec_mode: None,
        exec_command: Seq::empty(),
        prefix_rules: Seq::empty(),
        encode_fallback: EncodeFallback::Skip,
        file_output: None,
        overwrite: None,
        inputs: Seq::empty(),
    }
}

impl Default for Config {
    fn default() -> (c: Self)
        ensures
            c@ == default_view(),
    {
        let c = Config {
            input: None,
            output: String::from_str("UTF-8"),
            guess: 0,
            transparent: false,
            no_output: false,
            line_ending: LineEnding::Preserve,
            fold: None,
            normalize_utf8_mac: false,
            mime_decode_mode: MimeDecodeMode::Off,
            mime_encode_mode: MimeEncodeMode::Unencoded,
            z_flags: 0,
            x0201_mode: X0201Mode::Default,
            kana_flags: 0,
            rot: false,
            cap_input: false,
            url_input: false,
            numchar_input: false,
            broken_jis_flags: 0,
            iso2022jp_strict: false,
            iso2022_kanji_intro: None,
            iso2022_ascii_intro: None,
            cp932_compat: true,
            cp932inv: true,
            no_cp932ext: false,
            no_best_fit_chars: false,
            ms_ucs_map: MsUcsMap::Ascii,
            debug: false,
            buffering: BufferingMode::Buffered,
            exec_mode: None,
            exec_command: Vec::new(),
            prefix_rules: Vec::new(),
            encode_fallback: EncodeFallback::Skip,
            file_output: None,
            overwrite: None,
            inputs: Vec::new(),
        };
        assert(texts(c.exec_command@) =~= Seq::<Seq<char>>::empty());
        assert(texts(c.inputs@) =~= Seq::<Seq<char>>::empty());
        c
    }
}

} // verus!
