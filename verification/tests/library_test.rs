use nkf::system::{convert_request, system_answer, system_resume, system_start, SystemStage, SystemStep};
use nkf::config::FoldConfig;
use nkf::error::{NkfError, NumberError};
use nkf::filters::{apply_line_endings, decode_hex_marker_input, decode_numchar_input};
use nkf::fold::fold_utf8_lossy;
use nkf::jis::{apply_rot_filter, repair_broken_jis};
use nkf::kana::{apply_hiragana_katakana_filter, fullwidth_ascii_to_ascii};
use nkf::mime::{decode_mime_q, encode_mime_q};
use nkf::options::{parse_options, CliExit, ParseOutcome};
use nkf::report::{backup_filename, configuration_report, debug_report};
use nkf::{
    convert_bytes, guess_encoding_name, guess_report_text, normalize_encoding_name,
    process_with_config, Config, EncodeFallback, LineEnding, MimeDecodeMode, X0201Mode,
};

fn args(list: &[&str]) -> Vec<String> {
    list.iter().map(|s| s.to_string()).collect()
}

fn run(list: &[&str]) -> Config {
    match parse_options(&args(list)) {
        ParseOutcome::Run(c) => c,
        other => panic!("unexpected outcome {:?}", other),
    }
}

#[test]
fn rot_filter_undoes_itself() {
    let input = b"Hello, \x1b$B$3$s\x1b(B World!".to_vec();
    let once = apply_rot_filter(&input);
    assert_eq!(once, b"Uryyb, \x1b$BSbSD\x1b(B Jbeyq!".to_vec());
    assert_eq!(apply_rot_filter(&once), input);
}

#[test]
fn line_endings_are_idempotent() {
    let input = b"a\r\nb\rc\nd".to_vec();
    let unix = apply_line_endings(input.clone(), LineEnding::Unix);
    assert_eq!(unix, b"a\nb\nc\nd".to_vec());
    assert_eq!(apply_line_endings(unix.clone(), LineEnding::Unix), unix);
    let windows = apply_line_endings(input.clone(), LineEnding::Windows);
    assert_eq!(windows, b"a\r\nb\r\nc\r\nd".to_vec());
    assert_eq!(apply_line_endings(windows.clone(), LineEnding::Windows), windows);
    let mac = apply_line_endings(input.clone(), LineEnding::Mac);
    assert_eq!(mac, b"a\rb\rc\rd".to_vec());
    assert_eq!(apply_line_endings(mac.clone(), LineEnding::Mac), mac);
    assert_eq!(apply_line_endings(input.clone(), LineEnding::Preserve), input);
}

#[test]
fn quoted_printable_round_trip() {
    let input = "a b=_\u{3042}\n".as_bytes();
    let encoded: String = encode_mime_q(input).into_iter().collect();
    assert_eq!(encoded, "a_b=3D=5F=E3=81=82=0A");
    assert_eq!(decode_mime_q(encoded.as_bytes()).unwrap(), input.to_vec());
    assert_eq!(decode_mime_q(b"A=\r\nB=4").unwrap(), b"AB=4".to_vec());
}

#[test]
fn kana_exchange_undoes_itself() {
    let input = "あいカナ、ヴゝヾ漢".as_bytes();
    let once = apply_hiragana_katakana_filter(3, input);
    assert_eq!(once, "アイかな、ゔヽゞ漢");
    let twice = apply_hiragana_katakana_filter(3, once.as_bytes());
    assert_eq!(twice.as_bytes(), input);
    assert_eq!(apply_hiragana_katakana_filter(1, "カタカナ".as_bytes()), "かたかな");
    assert_eq!(apply_hiragana_katakana_filter(2, "ひらがな".as_bytes()), "ヒラガナ");
}

#[test]
fn kana_filter_replaces_malformed_utf8() {
    assert_eq!(apply_hiragana_katakana_filter(2, b"a\xffb"), "a\u{fffd}b");
}

#[test]
fn repair_without_flags_keeps_bytes() {
    let input = b"$B$3$s(B \x1b$B$K\x1b(B".to_vec();
    assert_eq!(repair_broken_jis(&input, 0), input);
    assert_eq!(repair_broken_jis(b"$B$3(B", 1), b"\x1b$B$3\x1b(B".to_vec());
}

#[test]
fn converting_to_the_same_encoding_keeps_bytes() {
    let input = b"\xff\xfe not even valid".to_vec();
    assert_eq!(convert_bytes("sjis", "Shift_JIS", &input).unwrap(), input);
    assert_eq!(convert_bytes("UTF-8", "utf8", &input).unwrap(), input);
}

#[test]
fn shift_jis_round_trip_through_encoding_rs() {
    let sjis = convert_bytes("UTF-8", "Shift_JIS", "漢字テスト".as_bytes()).unwrap();
    assert_eq!(sjis, vec![0x8a, 0xbf, 0x8e, 0x9a, 0x83, 0x65, 0x83, 0x58, 0x83, 0x67]);
    assert_eq!(convert_bytes("Shift_JIS", "UTF-8", &sjis).unwrap(), "漢字テスト".as_bytes());
}

#[test]
fn unknown_encodings_are_refused() {
    match convert_bytes("FOO", "bar", b"x") {
        Err(NkfError::UnsupportedConversion(a, b)) => {
            assert_eq!(a, "FOO");
            assert_eq!(b, "BAR");
        }
        other => panic!("unexpected {:?}", other),
    }
}

#[test]
fn utf16_errors() {
    assert!(matches!(
        convert_bytes("UTF-16BE", "UTF-8", &[0x00]),
        Err(NkfError::Utf16OddLength)
    ));
    assert!(matches!(
        convert_bytes("UTF-16BE", "UTF-8", &[0xd8, 0x00, 0x00, 0x41]),
        Err(NkfError::Utf16Surrogate)
    ));
    assert_eq!(
        convert_bytes("UTF-16BE", "UTF-8", &[0xd8, 0x3d, 0xde, 0x00]).unwrap(),
        "\u{1f600}".as_bytes()
    );
}

#[test]
fn utf32_errors() {
    assert!(matches!(
        convert_bytes("UTF-32BE", "UTF-8", &[0x00, 0x00, 0x41]),
        Err(NkfError::Utf32Length)
    ));
    assert!(matches!(
        convert_bytes("UTF-32BE", "UTF-8", &[0x00, 0x11, 0x00, 0x00]),
        Err(NkfError::Utf32CodePoint)
    ));
    assert_eq!(
        convert_bytes("UTF-8", "UTF-32LE", "A".as_bytes()).unwrap(),
        vec![0x41, 0x00, 0x00, 0x00]
    );
}

#[test]
fn base64_input_errors() {
    let mut config = Config::default();
    config.mime_decode_mode = MimeDecodeMode::Base64;
    assert!(matches!(
        process_with_config(&config, b"!!!!"),
        Err(NkfError::InvalidBase64)
    ));
    assert_eq!(process_with_config(&config, b"QUJD\nREVG").unwrap(), b"ABCDEF".to_vec());
}

#[test]
fn mime_word_errors() {
    let mut config = Config::default();
    config.input = Some("UTF-8".to_string());
    config.mime_decode_mode = MimeDecodeMode::Strict;
    assert!(matches!(
        process_with_config(&config, b"=?UTF-8?B?!!!!?="),
        Err(NkfError::InvalidMimeBase64)
    ));
}

#[test]
fn best_fit_and_extension_guards() {
    let mut config = Config::default();
    config.input = Some("UTF-8".to_string());
    config.output = "CP932".to_string();
    config.no_best_fit_chars = true;
    assert!(matches!(
        process_with_config(&config, "\u{a5}".as_bytes()),
        Err(NkfError::BestFitDisabled('\u{a5}'))
    ));
    config.no_best_fit_chars = false;
    config.no_cp932ext = true;
    assert!(matches!(
        process_with_config(&config, "\u{2460}".as_bytes()),
        Err(NkfError::Cp932ExtensionDisabled(0x87, 0x40))
    ));
}

#[test]
fn html_fallback_writes_references() {
    let mut config = Config::default();
    config.input = Some("UTF-8".to_string());
    config.output = "Shift_JIS".to_string();
    config.encode_fallback = EncodeFallback::Xml;
    let out = process_with_config(&config, "a\u{1f600}".as_bytes()).unwrap();
    assert_eq!(out, b"a&#x1F600;".to_vec());
    config.output = "EUC-JP".to_string();
    assert!(matches!(
        process_with_config(&config, "a\u{1f600}".as_bytes()),
        Err(NkfError::Unencodable(_))
    ));
}

#[test]
fn normalized_names() {
    assert_eq!(normalize_encoding_name("  euc_jp "), "EUC-JP");
    assert_eq!(normalize_encoding_name("utf-16le-bom"), "UTF-16LE-BOM");
    assert_eq!(normalize_encoding_name("x-unknown"), "X-UNKNOWN");
    assert_eq!(normalize_encoding_name(&normalize_encoding_name("sjis")), "SHIFT_JIS");
}

#[test]
fn guess_names_and_reports() {
    let sjis = convert_bytes("UTF-8", "Shift_JIS", "日本語のテキスト".as_bytes()).unwrap();
    assert_eq!(guess_encoding_name(&sjis), "SHIFT_JIS");
    assert_eq!(guess_report_text("日本語\r\n".as_bytes(), 2), "UTF-8 (CRLF)");
    assert_eq!(guess_report_text(&sjis, 1), "Shift_JIS");
}

#[test]
fn utf8_mac_input_composes() {
    let mut config = Config::default();
    config.input = Some("UTF-8".to_string());
    config.normalize_utf8_mac = true;
    let out = process_with_config(&config, "\u{304b}\u{3099}".as_bytes()).unwrap();
    assert_eq!(out, "\u{304c}".as_bytes());
}

#[test]
fn hex_markers_and_numeric_references() {
    assert_eq!(decode_hex_marker_input(b"%41%4a%zz", b'%'), b"AJ%zz".to_vec());
    assert_eq!(
        decode_numchar_input(b"&#65;&#x3042;&#1114112;&#12a").unwrap(),
        "A\u{3042}&#1114112;&#12a".as_bytes()
    );
}

#[test]
fn fullwidth_forms() {
    assert_eq!(fullwidth_ascii_to_ascii('\u{ff21}'), Some('A'));
    assert_eq!(fullwidth_ascii_to_ascii('A'), None);
    let mut config = Config::default();
    config.z_flags = 1 | 4 | 8;
    config.input = Some("UTF-8".to_string());
    let out = process_with_config(&config, "\u{ff21}\u{3000}\u{ff1c}".as_bytes()).unwrap();
    assert_eq!(out, b"A  &lt;".to_vec());
    config = Config::default();
    config.x0201_mode = X0201Mode::Fullwidth;
    config.input = Some("UTF-8".to_string());
    let out = process_with_config(&config, "\u{ff76}\u{ff9e}".as_bytes()).unwrap();
    assert_eq!(out, "\u{30ac}".as_bytes());
}

#[test]
fn folding_breaks_lines() {
    let fold = FoldConfig {
        len: 10,
        margin: 2,
        preserve_newlines: false,
    };
    assert_eq!(fold_utf8_lossy(b"aaaa bbbb cccc dddd", fold), "aaaa bbbb\ncccc dddd");
    assert_eq!(fold_utf8_lossy(b"abc\r\n\r\ndef  ", fold), "abc\n\ndef");
}

#[test]
fn options_build_settings() {
    let config = run(&["-w16L", "-Lu", "--ic=sjis", "a.txt", "-f20-5", "--", "-b"]);
    assert_eq!(config.output, "UTF-16LE-BOM");
    assert_eq!(config.line_ending, LineEnding::Unix);
    assert_eq!(config.input, Some("SHIFT_JIS".to_string()));
    assert_eq!(config.inputs, vec!["a.txt".to_string(), "-b".to_string()]);
    let fold = config.fold.unwrap();
    assert_eq!((fold.len, fold.margin, fold.preserve_newlines), (20, 5, false));
    let config = run(&["-Z3", "-h", "-B2", "--fb-subchar=0x3013", "-O", "out.txt", "x"]);
    assert_eq!(config.z_flags, 1 | 8);
    assert_eq!(config.kana_flags, 1);
    assert_eq!(config.broken_jis_flags, 4);
    assert_eq!(config.encode_fallback, EncodeFallback::Subchar('\u{3013}'));
    assert_eq!(config.file_output, Some("out.txt".to_string()));
    assert_eq!(config.inputs, vec!["x".to_string()]);
    let config = run(&["--mime", "--exec-in", "cmd", "-x"]);
    assert_eq!(config.output, "ISO-2022-JP");
    assert_eq!(config.mime_encode_mode, nkf::MimeEncodeMode::Auto);
    assert_eq!(config.exec_command, vec!["cmd".to_string(), "-x".to_string()]);
    let empty = run(&[]);
    assert_eq!(empty.output, "UTF-8");
}

#[test]
fn options_stop_or_fail() {
    assert!(matches!(parse_options(&args(&["--help", "-q"])), ParseOutcome::Exit(CliExit::Help)));
    assert!(matches!(parse_options(&args(&["-jV", "-q"])), ParseOutcome::Exit(CliExit::Configuration)));
    assert!(matches!(parse_options(&args(&["-B8"])), ParseOutcome::Overflow));
    match parse_options(&args(&["-jq"])) {
        ParseOutcome::Fail(NkfError::UnsupportedOption(s)) => assert_eq!(s, "-q"),
        other => panic!("unexpected {:?}", other),
    }
    match parse_options(&args(&["--nonsense"])) {
        ParseOutcome::Fail(NkfError::UnsupportedOption(s)) => assert_eq!(s, "--nonsense"),
        other => panic!("unexpected {:?}", other),
    }
    assert!(matches!(parse_options(&args(&["-O"])), ParseOutcome::Fail(NkfError::MissingOutputName)));
    assert!(matches!(
        parse_options(&args(&["--fb-subchar=0xD800"])),
        ParseOutcome::Fail(NkfError::InvalidSubchar(_))
    ));
    assert!(matches!(
        parse_options(&args(&["--fb-subchar=12z"])),
        ParseOutcome::Fail(NkfError::InvalidNumber(NumberError::InvalidDigit))
    ));
    assert!(matches!(
        parse_options(&args(&["--fb-subchar=99999999999"])),
        ParseOutcome::Fail(NkfError::InvalidNumber(NumberError::PosOverflow))
    ));
}

#[test]
fn reports_and_backup_names() {
    assert_eq!(backup_filename("*.bak", "a.txt"), "a.txt.bak");
    assert_eq!(backup_filename(".orig", "a.txt"), "a.txt.orig");
    assert!(configuration_report().starts_with("2.1.5-rust\nConfiguration:\n"));
    let mut config = Config::default();
    config.exec_mode = Some(nkf::ExecMode::Input);
    config.exec_command = vec!["cat".to_string(), "a \"b\"".to_string()];
    let report = debug_report(&config, Some("EUC-JP"));
    assert!(report.starts_with("nkf-rust debug:\n  input: (guess)\n  guessed-input: EUC-JP\n  output: UTF-8\n"));
    assert!(report.contains("  mime-encode: None\n"));
    assert!(report.ends_with("  exec-mode: Input\n  exec-command: [\"cat\", \"a \\\"b\\\"\"]\n"));
}

#[test]
fn halfwidth_punctuation_is_widened() {
    let input: Vec<char> = "\u{FF61}\u{FF62}a\u{FF63}\u{FF64}\u{FF65}".chars().collect();
    let out = nkf::kana::widen_punctuation(&input);
    let expected: Vec<char> = "\u{3002}\u{300C}a\u{300D}\u{3001}\u{30FB}".chars().collect();
    assert_eq!(out, expected);
}

#[test]
fn halfwidth_katakana_and_punctuation_are_widened() {
    let input: Vec<char> = "\u{FF76}\u{FF9E}\u{FF61}".chars().collect();
    let out = nkf::kana::kanaria_wide_katakana(&input);
    let expected: Vec<char> = "\u{30AC}\u{3002}".chars().collect();
    assert_eq!(out, expected);
}

#[test]
fn z_filter_uses_the_given_narrowing() {
    let mut out: Vec<char> = Vec::new();
    nkf::kana::push_z_char_given(&mut out, 16, '\u{30AC}', &['\u{FF76}', '\u{FF9E}']);
    assert_eq!(out, vec!['\u{FF76}', '\u{FF9E}']);
    let mut out2: Vec<char> = Vec::new();
    nkf::kana::push_z_char_given(&mut out2, 1 | 8, '\u{FF1C}', &[]);
    assert_eq!(out2, vec!['&', 'l', 't', ';']);
    let mut out3: Vec<char> = Vec::new();
    nkf::kana::push_z_char_given(&mut out3, 1 | 4, '\u{3000}', &[]);
    assert_eq!(out3, vec![' ', ' ']);
}

#[test]
fn normalized_text_is_folded_and_encoded() {
    let mut config = Config::default();
    config.output = "UTF-8".to_string();
    config.fold = Some(FoldConfig { len: 10, margin: 2, preserve_newlines: false });
    let text: Vec<char> = "aaaa bbbb cccc dddd".chars().collect();
    let out = nkf::process::fold_and_encode(&config, &text).unwrap();
    assert_eq!(out, b"aaaa bbbb\ncccc dddd".to_vec());
    config.fold = None;
    let out2 = nkf::process::fold_and_encode(&config, &text).unwrap();
    assert_eq!(out2, b"aaaa bbbb cccc dddd".to_vec());
}

#[test]
fn filtered_text_reaches_the_output_encoding() {
    let mut config = Config::default();
    config.output = "Shift_JIS".to_string();
    let out = nkf::process::filter_and_encode(&config, "\u{3042}".as_bytes()).unwrap();
    assert_eq!(out, vec![0x82, 0xA0]);
}

#[test]
fn jis_x0213_codecs_read_what_they_write() {
    let text = "a\u{4FF1}b\u{4FF1}\u{4FF1}";
    let iso = convert_bytes("UTF-8", "ISO-2022-JP-3", text.as_bytes()).unwrap();
    assert_eq!(iso, b"a\x1b$(Q.!\x1b(Bb\x1b$(Q.!.!\x1b(B".to_vec());
    assert_eq!(convert_bytes("ISO-2022-JP-3", "UTF-8", &iso).unwrap(), text.as_bytes());
    let sjis = convert_bytes("UTF-8", "Shift_JIS-2004", text.as_bytes()).unwrap();
    assert_eq!(sjis, vec![b'a', 0x87, 0x9f, b'b', 0x87, 0x9f, 0x87, 0x9f]);
    assert_eq!(convert_bytes("Shift_JIS-2004", "UTF-8", &sjis).unwrap(), text.as_bytes());
}

#[test]
fn folded_lines_stay_within_width_and_margin() {
    let fold = FoldConfig {
        len: 10,
        margin: 2,
        preserve_newlines: false,
    };
    let input = "日本語のテキストを折り返します。長い文章、句読点。 and some ascii words here.";
    let out = fold_utf8_lossy(input.as_bytes(), fold);
    assert!(out.contains('\n'));
    for line in out.split('\n') {
        let width: usize = line.chars().map(|c| if (c as u32) < 0x80 { 1 } else { 2 }).sum();
        assert!(width <= 12, "line {:?} is {} columns", line, width);
    }
}

#[test]
fn base64_words_decode_back_to_their_input() {
    let text = "日本語のテキスト、とても長い文章をエンコードします。".repeat(4);
    let encoded = nkf::mime::encode_mime_output(text.as_bytes(), nkf::config::MimeEncoding::Base64, "UTF-8");
    assert!(encoded.windows(2).any(|w| w == b"\n "));
    let decoded = nkf::mime::decode_mime_encoded_words(&encoded).unwrap();
    assert_eq!(decoded, text.as_bytes());
    let strict = nkf::mime::decode_mime_encoded_words_strict(&encoded, true).unwrap();
    assert_eq!(strict, text.as_bytes());

    let mut config = Config::default();
    config.mime_encode_mode = nkf::MimeEncodeMode::Base64;
    let out = process_with_config(&config, text.as_bytes()).unwrap();
    let mut back = Config::default();
    back.input = Some("UTF-8".to_string());
    back.mime_decode_mode = MimeDecodeMode::Strict;
    assert_eq!(process_with_config(&back, &out).unwrap(), text.as_bytes());
}

#[test]
fn quoted_printable_words_decode_back_to_their_input() {
    let text = "Subject: hello world? a=b_c, 日本語 and a long tail of plain words to force folding";
    let encoded = nkf::mime::encode_mime_output(text.as_bytes(), nkf::config::MimeEncoding::QuotedPrintable, "UTF-8");
    assert!(encoded.windows(2).any(|w| w == b"\n "));
    assert!(encoded.split(|b| *b == b'\n').all(|line| line.len() <= 76));
    assert_eq!(nkf::mime::decode_mime_encoded_words(&encoded).unwrap(), text.as_bytes());
    assert_eq!(nkf::mime::decode_mime_encoded_words_strict(&encoded, true).unwrap(), text.as_bytes());
    let empty = nkf::mime::encode_mime_output(b"", nkf::config::MimeEncoding::QuotedPrintable, "UTF-8");
    assert_eq!(empty, b"=?UTF-8?Q??=".to_vec());
    assert_eq!(nkf::mime::decode_mime_encoded_words(&empty).unwrap(), Vec::<u8>::new());
}

#[test]
fn command_lines_become_actions() {
    match nkf::options::parse_args(&args(&["-s", "--ic=EUC-JP", "in.txt"])) {
        Ok(nkf::options::CliAction::Run(c)) => {
            assert_eq!(c.output, "SHIFT_JIS");
            assert_eq!(c.input, Some("EUC-JP".to_string()));
            assert_eq!(c.inputs, vec!["in.txt".to_string()]);
        }
        _ => panic!("expected settings"),
    }
    assert!(matches!(
        nkf::options::parse_args(&args(&["--version"])),
        Ok(nkf::options::CliAction::Exit(CliExit::Version))
    ));
    assert!(matches!(
        nkf::options::parse_args(&args(&["-O"])),
        Err(NkfError::MissingOutputName)
    ));
}

#[test]
fn latin1_label_reads_as_windows_1252() {
    assert_eq!(convert_bytes("ISO-8859-1", "UTF-8", &[0xE9]).unwrap(), "\u{E9}".as_bytes());
    assert_eq!(convert_bytes("ISO-8859-1", "UTF-8", &[0x80]).unwrap(), "\u{20AC}".as_bytes());
    assert_eq!(convert_bytes("UTF-8", "ISO-8859-1", "caf\u{E9}".as_bytes()).unwrap(), vec![b'c', b'a', b'f', 0xE9]);
}

#[test]
fn automatic_mime_encoding_writes_base64_words() {
    let mut config = Config::default();
    config.mime_encode_mode = nkf::MimeEncodeMode::Auto;
    assert_eq!(process_with_config(&config, b"hello").unwrap(), b"=?UTF-8?B?aGVsbG8=?=".to_vec());
    assert_eq!(
        process_with_config(&config, "日本語".as_bytes()).unwrap(),
        b"=?UTF-8?B?5pel5pys6Kqe?=".to_vec()
    );
}

#[test]
fn encoding_names_ignore_spelling() {
    for s in ["sjis", "Shift_JIS", "euc-jp", "utf_8", "iso2022jp", "windows-31j", "utf-16le-bom", "x-unknown_name"] {
        let n = normalize_encoding_name(s);
        assert_eq!(normalize_encoding_name(&n), n);
        assert_eq!(normalize_encoding_name(&s.to_ascii_lowercase()), n);
        assert_eq!(normalize_encoding_name(&s.replace('_', "-")), n);
        assert_eq!(normalize_encoding_name(&format!("  {s}\t")), n);
        assert!(!n.chars().any(|c| c.is_ascii_lowercase()));
    }
}

#[test]
fn guesses_name_canonical_encodings_and_report_line_endings() {
    let names = ["UTF-8", "UTF-16", "UTF-32", "SHIFT_JIS", "CP932", "EUC-JP", "EUC-JIS-2004", "ISO-2022-JP", "ISO-2022-JP-3"];
    let inputs: [&[u8]; 5] = [b"abc\n", &[0x82, 0xa0, 0x0a], &[0xa4, 0xa2, 0x0d, 0x0a], b"\x1b$B$3\x1b(B\r", &[0xef, 0xbb, 0xbf, b'a']];
    for x in inputs {
        let r = guess_encoding_name(x);
        assert!(names.contains(&r));
        assert_eq!(normalize_encoding_name(r), r);
        let base = guess_report_text(x, 1);
        let full = guess_report_text(x, 2);
        assert!(full.starts_with(&base));
        assert_eq!(full.ends_with(" (LF)"), x.contains(&b'\n') && !x.contains(&b'\r'));
    }
    assert_eq!(guess_report_text(b"abc", 2), guess_report_text(b"abc", 1));
}

#[test]
fn iso_2022_jp_3_writes_the_kanji_between_designations() {
    let b = convert_bytes("UTF-8", "ISO-2022-JP-3", "\u{4FF1}".as_bytes()).unwrap();
    assert_eq!(b, b"\x1b$(Q.!\x1b(B".to_vec());
    let t = "ab\u{4FF1}c";
    let b = convert_bytes("UTF-8", "ISO-2022-JP-3", t.as_bytes()).unwrap();
    assert_eq!(convert_bytes("ISO-2022-JP-3", "UTF-8", &b).unwrap(), t.as_bytes());
}

#[test]
fn line_ending_modes_relate() {
    let b = b"a\r\nb\rc\nd\n\r".to_vec();
    assert_eq!(apply_line_endings(b.clone(), LineEnding::Preserve), b);
    assert!(!apply_line_endings(b.clone(), LineEnding::Mac).contains(&b'\n'));
    assert!(!apply_line_endings(b.clone(), LineEnding::Unix).contains(&b'\r'));
    let unix = apply_line_endings(b.clone(), LineEnding::Unix);
    assert_eq!(apply_line_endings(b.clone(), LineEnding::Windows), apply_line_endings(unix, LineEnding::Windows));
}

#[test]
fn folding_changes_only_white_space() {
    let fold = FoldConfig { len: 8, margin: 0, preserve_newlines: false };
    let input = "alpha  beta\tgamma\ndelta epsilon zeta";
    let out = fold_utf8_lossy(input.as_bytes(), fold);
    let strip = |s: &str| s.chars().filter(|c| !c.is_whitespace()).collect::<String>();
    assert_eq!(strip(&out), strip(input));
    for line in out.split('\n') {
        assert!(!line.starts_with(' ') && !line.ends_with(' '));
    }
}

#[test]
fn repair_only_inserts_escapes() {
    let input = b"$B$3$s(Bxyz\n".to_vec();
    let out = repair_broken_jis(&input, 1 | 4);
    let mut it = out.iter();
    assert!(input.iter().all(|b| it.any(|o| o == b)));
    assert!(out.len() > input.len());
}

#[test]
fn unserved_encodings_go_to_the_system_converter() {
    match convert_request("UTF-8", "KOI8-R", b"A") {
        SystemStep::Convert { from, to, bytes } => {
            assert_eq!((from.as_str(), to.as_str(), bytes.as_slice()), ("UTF-8", "KOI8-R", &b"A"[..]));
        }
        SystemStep::Done(_) => panic!("expected a request"),
    }
    assert!(matches!(convert_request("UTF-8", "Shift_JIS", b"A"), SystemStep::Done(Ok(v)) if v == b"A".to_vec()));
    assert_eq!(system_answer("UTF-8", "KOI8-R", Some(b"A".to_vec())).unwrap(), b"A".to_vec());
    match system_answer("utf8", "koi8-r", None) {
        Err(NkfError::UnsupportedConversion(f, t)) => assert_eq!((f.as_str(), t.as_str()), ("UTF-8", "KOI8-R")),
        _ => panic!("expected an error"),
    }

    let mut config = Config::default();
    config.input = Some("UTF-8".to_string());
    config.output = "KOI8-R".to_string();
    config.line_ending = LineEnding::Windows;
    let (stage, step) = system_start(&config, b"a\nb");
    assert!(stage == Some(SystemStage::OutputEncoded));
    match step {
        SystemStep::Convert { from, to, bytes } => {
            assert_eq!((from.as_str(), to.as_str(), bytes.as_slice()), ("UTF-8", "KOI8-R", &b"a\nb"[..]));
        }
        SystemStep::Done(_) => panic!("expected a request"),
    }
    let (stage, step) = system_resume(&config, SystemStage::OutputEncoded, Some(b"a\nb".to_vec()));
    assert!(stage.is_none());
    assert!(matches!(step, SystemStep::Done(Ok(v)) if v == b"a\r\nb".to_vec()));

    let mut config = Config::default();
    config.input = Some("KOI8-R".to_string());
    config.output = "Shift_JIS".to_string();
    let (stage, step) = system_start(&config, b"xy");
    assert!(stage == Some(SystemStage::InputDecoded));
    assert!(matches!(step, SystemStep::Convert { ref from, .. } if from == "KOI8-R"));
    let (stage, step) = system_resume(&config, SystemStage::InputDecoded, Some("\u{3042}".as_bytes().to_vec()));
    assert!(stage.is_none());
    assert!(matches!(step, SystemStep::Done(Ok(v)) if v == vec![0x82, 0xa0]));
    let (_, step) = system_resume(&config, SystemStage::InputDecoded, None);
    assert!(matches!(step, SystemStep::Done(Err(NkfError::UnsupportedConversion(_, _)))));

    let plain = Config::default();
    let (stage, step) = system_start(&plain, b"hello");
    assert!(stage.is_none());
    assert!(matches!(step, SystemStep::Done(Ok(v)) if v == b"hello".to_vec()));
}

#[test]
fn input_files_join_and_overwrite_needs_files() {
    use_inputs_checks();
}

fn use_inputs_checks() {
    let one = vec![b"ab".to_vec()];
    assert_eq!(nkf::inputs::join_inputs(&one), b"ab".to_vec());
    let two = vec![b"ab".to_vec(), b"c".to_vec()];
    assert_eq!(nkf::inputs::join_inputs(&two), b"ab\nc\n".to_vec());
    let mut config = Config::default();
    assert!(matches!(nkf::inputs::overwrite_check(&config), Err(NkfError::OverwriteWithoutFiles)));
    config.inputs = vec!["a.txt".to_string()];
    assert!(nkf::inputs::overwrite_check(&config).is_ok());
    config.file_output = Some("out.txt".to_string());
    assert!(matches!(nkf::inputs::overwrite_check(&config), Err(NkfError::OverwriteWithOutputFile)));
    assert!(!guess_report_text(b"abc", 2).ends_with("LF)"));
    assert!(!guess_report_text(b"a\r\n", 2).ends_with(" (LF)"));
}
