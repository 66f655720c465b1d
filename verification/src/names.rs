//! Encoding names: their normal form and the families they belong to.

use crate::text::{leading_ws, lemma_leading_ws, lemma_trimmed_end, spec_is_whitespace, trimmed_end, ascii_upper, chars_eq_str, chars_to_string, spec_ascii_upper, spec_trim, str_chars, str_eq, trim_chars};
use vstd::prelude::*;

verus! {

/// One character of a name as its normal form spells it: `_` becomes `-`, ASCII letters are upper-cased.
pub open spec fn spec_name_char(c: char) -> char {
    if c == '_' {
        '-'
    } else {
        spec_ascii_upper(c)
    }
}

/// A name trimmed, with `_` replaced by `-` and upper-cased.
pub open spec fn spec_upper_name(name: Seq<char>) -> Seq<char> {
    spec_trim(name).map_values(|c: char| spec_name_char(c))
}

/// The canonical spelling of an encoding name.
pub open spec fn spec_normalize(name: Seq<char>) -> Seq<char> {
    let u = spec_upper_name(name);
    if u == "SJIS"@ || u == "SHIFT-JIS"@ {
        "SHIFT_JIS"@
    }     else if u == "SHIFT-JISX0213"@ || u == "SHIFT-JIS-X0213"@ {
        "SHIFT_JISX0213"@
    }     else if u == "SHIFT-JIS-2004"@ {
        "SHIFT_JIS-2004"@
    }     else if u == "WINDOWS-31J"@ || u == "CSWINDOWS31J"@ || u == "MS932"@ || u == "CP932"@ {
        "CP932"@
    }     else if u == "EUCJP"@ || u == "EUC-JP"@ || u == "EUCJP-NKF"@ {
        "EUC-JP"@
    }     else if u == "CP51932"@ {
        "CP51932"@
    }     else if u == "EUCJP-MS"@ || u == "EUC-JP-MS"@ || u == "EUCJPMS"@ {
        "EUCJP-MS"@
    }     else if u == "EUCJP-ASCII"@ || u == "EUC-JP-ASCII"@ {
        "EUCJP-ASCII"@
    }     else if u == "JIS"@ || u == "ISO2022JP"@ || u == "ISO-2022-JP"@ {
        "ISO-2022-JP"@
    }     else if u == "ISO2022JP-1"@ || u == "ISO-2022-JP-1"@ {
        "ISO-2022-JP-1"@
    }     else if u == "ISO2022JP-3"@ || u == "ISO-2022-JP-3"@ {
        "ISO-2022-JP-3"@
    }     else if u == "ISO2022JP-2004"@ || u == "ISO-2022-JP-2004"@ {
        "ISO-2022-JP-2004"@
    }     else if u == "ISO2022JP-CP932"@ || u == "ISO-2022-JP-CP932"@ || u == "CP50220"@ {
        "CP50220"@
    }     else if u == "CSISO2022JP"@ || u == "CP50221"@ {
        "CP50221"@
    }     else if u == "CP50222"@ {
        "CP50222"@
    }     else if u == "CP10001"@ {
        "CP10001"@
    }     else if u == "LATIN1"@ || u == "LATIN-1"@ || u == "ISO8859-1"@ || u == "ISO-8859-1"@ {
        "ISO-8859-1"@
    }     else if u == "UTF8"@ || u == "UTF-8N"@ {
        "UTF-8"@
    }     else if u == "UTF8-BOM"@ || u == "UTF-8-BOM"@ {
        "UTF-8-BOM"@
    }     else if u == "UTF16"@ {
        "UTF-16"@
    }     else if u == "UTF16BE"@ {
        "UTF-16BE"@
    }     else if u == "UTF16BE-BOM"@ || u == "UTF-16BE-BOM"@ {
        "UTF-16BE-BOM"@
    }     else if u == "UTF16LE"@ {
        "UTF-16LE"@
    }     else if u == "UTF16LE-BOM"@ || u == "UTF-16LE-BOM"@ {
        "UTF-16LE-BOM"@
    }     else if u == "UTF32"@ {
        "UTF-32"@
    }     else if u == "UTF32BE"@ {
        "UTF-32BE"@
    }     else if u == "UTF32BE-BOM"@ || u == "UTF-32BE-BOM"@ {
        "UTF-32BE-BOM"@
    }     else if u == "UTF32LE"@ {
        "UTF-32LE"@
    }     else if u == "UTF32LE-BOM"@ || u == "UTF-32LE-BOM"@ {
        "UTF-32LE-BOM"@
    } else {
        u
    }
}

/// The upper-cased, trimmed spelling of a name.
fn upper_name(name: &str) -> (out: Vec<char>)
    ensures
        out@ == spec_upper_name(name@),
{
    let chars = str_chars(name);
    let trimmed = trim_chars(chars.as_slice());
    let mut out: Vec<char> = Vec::new();
    let mut i: usize = 0;
    while i < trimmed.len()
        invariant
            i <= trimmed@.len(),
            trimmed@ == spec_trim(name@),
            out@ == trimmed@.take(i as int).map_values(|c: char| spec_name_char(c)),
        decreases trimmed@.len() - i,
    {
        let c = trimmed[i];
        let d = if c == '_' {
            '-'
        } else {
            ascii_upper(c)
        };
        out.push(d);
        i += 1;
        assert(out@ =~= trimmed@.take(i as int).map_values(|c: char| spec_name_char(c)));
    }
    assert(trimmed@.take(i as int) =~= trimmed@);
    out
}

/// The canonical spelling of an encoding name: trimmed, upper-cased, `_` read as `-`, and
/// known aliases mapped to one name each.
pub fn normalize_encoding(name: &str) -> (out: String)
    ensures
        out@ == spec_normalize(name@),
{
    let u = upper_name(name);
    let u = u.as_slice();
    if chars_eq_str(u, "SJIS") || chars_eq_str(u, "SHIFT-JIS") {
        String::from_str("SHIFT_JIS")
    }     else if chars_eq_str(u, "SHIFT-JISX0213") || chars_eq_str(u, "SHIFT-JIS-X0213") {
        String::from_str("SHIFT_JISX0213")
    }     else if chars_eq_str(u, "SHIFT-JIS-2004") {
        String::from_str("SHIFT_JIS-2004")
    }     else if chars_eq_str(u, "WINDOWS-31J") || chars_eq_str(u, "CSWINDOWS31J") || chars_eq_str(u, "MS932") || chars_eq_str(u, "CP932") {
        String::from_str("CP932")
    }     else if chars_eq_str(u, "EUCJP") || chars_eq_str(u, "EUC-JP") || chars_eq_str(u, "EUCJP-NKF") {
        String::from_str("EUC-JP")
    }     else if chars_eq_str(u, "CP51932") {
        String::from_str("CP51932")
    }     else if chars_eq_str(u, "EUCJP-MS") || chars_eq_str(u, "EUC-JP-MS") || chars_eq_str(u, "EUCJPMS") {
        String::from_str("EUCJP-MS")
    }     else if chars_eq_str(u, "EUCJP-ASCII") || chars_eq_str(u, "EUC-JP-ASCII") {
        String::from_str("EUCJP-ASCII")
    }     else if chars_eq_str(u, "JIS") || chars_eq_str(u, "ISO2022JP") || chars_eq_str(u, "ISO-2022-JP") {
        String::from_str("ISO-2022-JP")
    }     else if chars_eq_str(u, "ISO2022JP-1") || chars_eq_str(u, "ISO-2022-JP-1") {
        String::from_str("ISO-2022-JP-1")
    }     else if chars_eq_str(u, "ISO2022JP-3") || chars_eq_str(u, "ISO-2022-JP-3") {
        String::from_str("ISO-2022-JP-3")
    }     else if chars_eq_str(u, "ISO2022JP-2004") || chars_eq_str(u, "ISO-2022-JP-2004") {
        String::from_str("ISO-2022-JP-2004")
    }     else if chars_eq_str(u, "ISO2022JP-CP932") || chars_eq_str(u, "ISO-2022-JP-CP932") || chars_eq_str(u, "CP50220") {
        String::from_str("CP50220")
    }     else if chars_eq_str(u, "CSISO2022JP") || chars_eq_str(u, "CP50221") {
        String::from_str("CP50221")
    }     else if chars_eq_str(u, "CP50222") {
        String::from_str("CP50222")
    }     else if chars_eq_str(u, "CP10001") {
        String::from_str("CP10001")
    }     else if chars_eq_str(u, "LATIN1") || chars_eq_str(u, "LATIN-1") || chars_eq_str(u, "ISO8859-1") || chars_eq_str(u, "ISO-8859-1") {
        String::from_str("ISO-8859-1")
    }     else if chars_eq_str(u, "UTF8") || chars_eq_str(u, "UTF-8N") {
        String::from_str("UTF-8")
    }     else if chars_eq_str(u, "UTF8-BOM") || chars_eq_str(u, "UTF-8-BOM") {
        String::from_str("UTF-8-BOM")
    }     else if chars_eq_str(u, "UTF16") {
        String::from_str("UTF-16")
    }     else if chars_eq_str(u, "UTF16BE") {
        String::from_str("UTF-16BE")
    }     else if chars_eq_str(u, "UTF16BE-BOM") || chars_eq_str(u, "UTF-16BE-BOM") {
        String::from_str("UTF-16BE-BOM")
    }     else if chars_eq_str(u, "UTF16LE") {
        String::from_str("UTF-16LE")
    }     else if chars_eq_str(u, "UTF16LE-BOM") || chars_eq_str(u, "UTF-16LE-BOM") {
        String::from_str("UTF-16LE-BOM")
    }     else if chars_eq_str(u, "UTF32") {
        String::from_str("UTF-32")
    }     else if chars_eq_str(u, "UTF32BE") {
        String::from_str("UTF-32BE")
    }     else if chars_eq_str(u, "UTF32BE-BOM") || chars_eq_str(u, "UTF-32BE-BOM") {
        String::from_str("UTF-32BE-BOM")
    }     else if chars_eq_str(u, "UTF32LE") {
        String::from_str("UTF-32LE")
    }     else if chars_eq_str(u, "UTF32LE-BOM") || chars_eq_str(u, "UTF-32LE-BOM") {
        String::from_str("UTF-32LE-BOM")
    } else {
        chars_to_string(u)
    }
}

/// Whether two names denote the same encoding.
pub open spec fn spec_same_encoding(left: Seq<char>, right: Seq<char>) -> bool {
    spec_normalize(left) == spec_normalize(right)
}

/// Whether two names denote the same encoding.
pub fn same_encoding(left: &str, right: &str) -> (r: bool)
    ensures
        r == spec_same_encoding(left@, right@),
{
    let a = normalize_encoding(left);
    let b = normalize_encoding(right);
    str_eq(a.as_str(), b.as_str())
}

/// Whether the name is one of the EUC variants decoded and encoded through the JIS tables.
pub open spec fn spec_is_euc_table(name: Seq<char>) -> bool {
    let n = spec_normalize(name);
    n == "EUC-JP"@ || n == "CP51932"@ || n == "EUCJP-MS"@ || n == "EUCJP-ASCII"@ || n == "CP10001"@ || n == "EUC-JISX0213"@ || n == "EUC-JIS-2004"@
}

/// Whether the name is one of the EUC variants decoded and encoded through the JIS tables.
pub fn is_euc_table_encoding(name: &str) -> (r: bool)
    ensures
        r == spec_is_euc_table(name@),
{
    let s = normalize_encoding(name);
    let v = str_chars(s.as_str());
    let n = v.as_slice();
    chars_eq_str(n, "EUC-JP") || chars_eq_str(n, "CP51932") || chars_eq_str(n, "EUCJP-MS") || chars_eq_str(n, "EUCJP-ASCII") || chars_eq_str(n, "CP10001") || chars_eq_str(n, "EUC-JISX0213") || chars_eq_str(n, "EUC-JIS-2004")
}

/// Whether the name is one of the JIS X 0213 encodings.
pub open spec fn spec_is_jis_x0213(name: Seq<char>) -> bool {
    let n = spec_normalize(name);
    n == "EUC-JISX0213"@ || n == "EUC-JIS-2004"@ || n == "SHIFT_JISX0213"@ || n == "SHIFT_JIS-2004"@ || n == "ISO-2022-JP-3"@ || n == "ISO-2022-JP-2004"@
}

/// Whether the name is one of the JIS X 0213 encodings.
pub fn is_jis_x0213_encoding(name: &str) -> (r: bool)
    ensures
        r == spec_is_jis_x0213(name@),
{
    let s = normalize_encoding(name);
    let v = str_chars(s.as_str());
    let n = v.as_slice();
    chars_eq_str(n, "EUC-JISX0213") || chars_eq_str(n, "EUC-JIS-2004") || chars_eq_str(n, "SHIFT_JISX0213") || chars_eq_str(n, "SHIFT_JIS-2004") || chars_eq_str(n, "ISO-2022-JP-3") || chars_eq_str(n, "ISO-2022-JP-2004")
}

/// Whether the name is one of the Unicode transformation formats.
pub open spec fn spec_is_unicode(name: Seq<char>) -> bool {
    let n = spec_normalize(name);
    n == "UTF-8"@ || n == "UTF-8-BOM"@ || n == "UTF-16"@ || n == "UTF-16LE"@ || n == "UTF-16LE-BOM"@ || n == "UTF-16BE"@ || n == "UTF-16BE-BOM"@ || n == "UTF-32"@ || n == "UTF-32LE"@ || n == "UTF-32LE-BOM"@ || n == "UTF-32BE"@ || n == "UTF-32BE-BOM"@
}

/// Whether the name is one of the Unicode transformation formats.
pub fn is_unicode_encoding(name: &str) -> (r: bool)
    ensures
        r == spec_is_unicode(name@),
{
    let s = normalize_encoding(name);
    let v = str_chars(s.as_str());
    let n = v.as_slice();
    chars_eq_str(n, "UTF-8") || chars_eq_str(n, "UTF-8-BOM") || chars_eq_str(n, "UTF-16") || chars_eq_str(n, "UTF-16LE") || chars_eq_str(n, "UTF-16LE-BOM") || chars_eq_str(n, "UTF-16BE") || chars_eq_str(n, "UTF-16BE-BOM") || chars_eq_str(n, "UTF-32") || chars_eq_str(n, "UTF-32LE") || chars_eq_str(n, "UTF-32LE-BOM") || chars_eq_str(n, "UTF-32BE") || chars_eq_str(n, "UTF-32BE-BOM")
}

/// Whether the name is one of the Japanese encodings with Microsoft-compatible best-fit mappings.
pub open spec fn spec_is_ms_compat_japanese(name: Seq<char>) -> bool {
    let n = spec_normalize(name);
    n == "CP932"@ || n == "SHIFT_JIS"@ || n == "CP51932"@ || n == "EUC-JP"@ || n == "EUCJP-MS"@ || n == "EUCJP-ASCII"@ || n == "CP50220"@ || n == "CP50221"@ || n == "CP50222"@ || n == "CP10001"@
}

/// Whether the name is one of the Japanese encodings with Microsoft-compatible best-fit mappings.
pub fn is_ms_compat_japanese_output(name: &str) -> (r: bool)
    ensures
        r == spec_is_ms_compat_japanese(name@),
{
    let s = normalize_encoding(name);
    let v = str_chars(s.as_str());
    let n = v.as_slice();
    chars_eq_str(n, "CP932") || chars_eq_str(n, "SHIFT_JIS") || chars_eq_str(n, "CP51932") || chars_eq_str(n, "EUC-JP") || chars_eq_str(n, "EUCJP-MS") || chars_eq_str(n, "EUCJP-ASCII") || chars_eq_str(n, "CP50220") || chars_eq_str(n, "CP50221") || chars_eq_str(n, "CP50222") || chars_eq_str(n, "CP10001")
}

/// Whether the name is Shift_JIS or CP932.
pub open spec fn spec_is_shift_jis_family(name: Seq<char>) -> bool {
    let n = spec_normalize(name);
    n == "CP932"@ || n == "SHIFT_JIS"@
}

/// Whether the name is Shift_JIS or CP932.
pub fn is_shift_jis_family_output(name: &str) -> (r: bool)
    ensures
        r == spec_is_shift_jis_family(name@),
{
    let s = normalize_encoding(name);
    let v = str_chars(s.as_str());
    let n = v.as_slice();
    chars_eq_str(n, "CP932") || chars_eq_str(n, "SHIFT_JIS")
}

/// The charset label a MIME encoded-word carries for output in the named encoding.
pub open spec fn spec_mime_charset_name(charset: Seq<char>) -> Seq<char> {
    let n = spec_normalize(charset);
    if n == "ISO-2022-JP"@ {
        "ISO-2022-JP"@
    }     else if n == "EUC-JP"@ {
        "EUC-JP"@
    }     else if n == "SHIFT_JIS"@ {
        "SHIFT_JIS"@
    }     else if n == "CP932"@ {
        "CP932"@
    }     else if n == "ISO-8859-1"@ {
        "ISO-8859-1"@
    } else {
        "UTF-8"@
    }
}

/// The charset label a MIME encoded-word carries for output in the named encoding.
pub fn mime_charset_name(charset: &str) -> (r: &'static str)
    ensures
        r@ == spec_mime_charset_name(charset@),
{
    let s = normalize_encoding(charset);
    let v = str_chars(s.as_str());
    let n = v.as_slice();
    if chars_eq_str(n, "ISO-2022-JP") {
        "ISO-2022-JP"
    }     else if chars_eq_str(n, "EUC-JP") {
        "EUC-JP"
    }     else if chars_eq_str(n, "SHIFT_JIS") {
        "SHIFT_JIS"
    }     else if chars_eq_str(n, "CP932") {
        "CP932"
    }     else if chars_eq_str(n, "ISO-8859-1") {
        "ISO-8859-1"
    } else {
        "UTF-8"
    }
}


/// Upper-casing a name keeps which characters are white space.
proof fn lemma_name_char(c: char)
    ensures
        spec_is_whitespace(spec_name_char(c)) == spec_is_whitespace(c),
        spec_name_char(spec_name_char(c)) == spec_name_char(c),
{
}

/// A text with no white space at either end is its own trim.
proof fn lemma_trim_fixed(s: Seq<char>)
    requires
        s.len() == 0 || (!spec_is_whitespace(s[0]) && !spec_is_whitespace(s.last())),
    ensures
        spec_trim(s) == s,
{
    if s.len() > 0 {
        assert(trimmed_end(s) == s.len());
        assert(s.take(s.len() as int) =~= s);
        assert(leading_ws(s) == 0);
        assert(s.skip(0) =~= s);
    }
}

/// A trimmed text has no white space at either end.
proof fn lemma_trim_ends(x: Seq<char>)
    ensures
        spec_trim(x).len() == 0 || (!spec_is_whitespace(spec_trim(x)[0]) && !spec_is_whitespace(spec_trim(x).last())),
{
    lemma_trimmed_end(x);
    let e = trimmed_end(x);
    let t = x.take(e);
    lemma_leading_ws(t);
    let l = leading_ws(t);
    let r = t.skip(l);
    if r.len() > 0 {
        assert(r[0] == t[l]);
        assert(r.last() == x[e - 1]);
    }
}

/// The upper-cased, trimmed spelling of a name is its own upper-cased, trimmed spelling.
pub proof fn lemma_upper_name_idempotent(x: Seq<char>)
    ensures
        spec_upper_name(spec_upper_name(x)) == spec_upper_name(x),
{
    let t = spec_trim(x);
    let m = t.map_values(|c: char| spec_name_char(c));
    lemma_trim_ends(x);
    if m.len() > 0 {
        lemma_name_char(t[0]);
        lemma_name_char(t.last());
        assert(m[0] == spec_name_char(t[0]));
        assert(m.last() == spec_name_char(t.last()));
    }
    lemma_trim_fixed(m);
    assert forall|k: int| 0 <= k < m.len() implies spec_name_char(m[k]) == m[k] by {
        lemma_name_char(t[k]);
    }
    assert(m.map_values(|c: char| spec_name_char(c)) =~= m);
}

/// The canonical names are their own canonical spelling.
pub proof fn lemma_canonical_names_fixed()
    ensures
        spec_normalize("SHIFT_JIS"@) == "SHIFT_JIS"@,
        spec_normalize("CP932"@) == "CP932"@,
        spec_normalize("EUC-JP"@) == "EUC-JP"@,
        spec_normalize("CP51932"@) == "CP51932"@,
        spec_normalize("EUCJP-MS"@) == "EUCJP-MS"@,
        spec_normalize("EUCJP-ASCII"@) == "EUCJP-ASCII"@,
        spec_normalize("ISO-2022-JP"@) == "ISO-2022-JP"@,
        spec_normalize("ISO-2022-JP-1"@) == "ISO-2022-JP-1"@,
        spec_normalize("ISO-2022-JP-3"@) == "ISO-2022-JP-3"@,
        spec_normalize("ISO-2022-JP-2004"@) == "ISO-2022-JP-2004"@,
        spec_normalize("CP50220"@) == "CP50220"@,
        spec_normalize("CP50221"@) == "CP50221"@,
        spec_normalize("CP50222"@) == "CP50222"@,
        spec_normalize("CP10001"@) == "CP10001"@,
        spec_normalize("ISO-8859-1"@) == "ISO-8859-1"@,
        spec_normalize("UTF-8"@) == "UTF-8"@,
        spec_normalize("UTF-8-BOM"@) == "UTF-8-BOM"@,
        spec_normalize("UTF-16"@) == "UTF-16"@,
        spec_normalize("UTF-16BE"@) == "UTF-16BE"@,
        spec_normalize("UTF-16BE-BOM"@) == "UTF-16BE-BOM"@,
        spec_normalize("UTF-16LE"@) == "UTF-16LE"@,
        spec_normalize("UTF-16LE-BOM"@) == "UTF-16LE-BOM"@,
        spec_normalize("UTF-32"@) == "UTF-32"@,
        spec_normalize("UTF-32BE"@) == "UTF-32BE"@,
        spec_normalize("UTF-32BE-BOM"@) == "UTF-32BE-BOM"@,
        spec_normalize("UTF-32LE"@) == "UTF-32LE"@,
        spec_normalize("UTF-32LE-BOM"@) == "UTF-32LE-BOM"@,
        spec_normalize("EUC-JIS-2004"@) == "EUC-JIS-2004"@,
{
    reveal_strlit("EUC-JIS-2004");
    reveal_strlit("CP10001");
    reveal_strlit("CP50220");
    reveal_strlit("CP50221");
    reveal_strlit("CP50222");
    reveal_strlit("CP51932");
    reveal_strlit("CP932");
    reveal_strlit("CSISO2022JP");
    reveal_strlit("CSWINDOWS31J");
    reveal_strlit("EUC-JP");
    reveal_strlit("EUC-JP-ASCII");
    reveal_strlit("EUC-JP-MS");
    reveal_strlit("EUCJP");
    reveal_strlit("EUCJP-ASCII");
    reveal_strlit("EUCJP-MS");
    reveal_strlit("EUCJP-NKF");
    reveal_strlit("EUCJPMS");
    reveal_strlit("ISO-2022-JP");
    reveal_strlit("ISO-2022-JP-1");
    reveal_strlit("ISO-2022-JP-2004");
    reveal_strlit("ISO-2022-JP-3");
    reveal_strlit("ISO-2022-JP-CP932");
    reveal_strlit("ISO-8859-1");
    reveal_strlit("ISO2022JP");
    reveal_strlit("ISO2022JP-1");
    reveal_strlit("ISO2022JP-2004");
    reveal_strlit("ISO2022JP-3");
    reveal_strlit("ISO2022JP-CP932");
    reveal_strlit("ISO8859-1");
    reveal_strlit("JIS");
    reveal_strlit("LATIN-1");
    reveal_strlit("LATIN1");
    reveal_strlit("MS932");
    reveal_strlit("SHIFT-JIS");
    reveal_strlit("SHIFT-JIS-2004");
    reveal_strlit("SHIFT-JIS-X0213");
    reveal_strlit("SHIFT-JISX0213");
    reveal_strlit("SHIFT_JIS");
    reveal_strlit("SHIFT_JIS-2004");
    reveal_strlit("SHIFT_JISX0213");
    reveal_strlit("SJIS");
    reveal_strlit("UTF-16");
    reveal_strlit("UTF-16BE");
    reveal_strlit("UTF-16BE-BOM");
    reveal_strlit("UTF-16LE");
    reveal_strlit("UTF-16LE-BOM");
    reveal_strlit("UTF-32");
    reveal_strlit("UTF-32BE");
    reveal_strlit("UTF-32BE-BOM");
    reveal_strlit("UTF-32LE");
    reveal_strlit("UTF-32LE-BOM");
    reveal_strlit("UTF-8");
    reveal_strlit("UTF-8-BOM");
    reveal_strlit("UTF-8N");
    reveal_strlit("UTF16");
    reveal_strlit("UTF16BE");
    reveal_strlit("UTF16BE-BOM");
    reveal_strlit("UTF16LE");
    reveal_strlit("UTF16LE-BOM");
    reveal_strlit("UTF32");
    reveal_strlit("UTF32BE");
    reveal_strlit("UTF32BE-BOM");
    reveal_strlit("UTF32LE");
    reveal_strlit("UTF32LE-BOM");
    reveal_strlit("UTF8");
    reveal_strlit("UTF8-BOM");
    reveal_strlit("WINDOWS-31J");
    lemma_upper_of_literal("SHIFT_JIS"@, "SHIFT-JIS"@);
    lemma_upper_of_literal("CP932"@, "CP932"@);
    lemma_upper_of_literal("EUC-JP"@, "EUC-JP"@);
    lemma_upper_of_literal("CP51932"@, "CP51932"@);
    lemma_upper_of_literal("EUCJP-MS"@, "EUCJP-MS"@);
    lemma_upper_of_literal("EUCJP-ASCII"@, "EUCJP-ASCII"@);
    lemma_upper_of_literal("ISO-2022-JP"@, "ISO-2022-JP"@);
    lemma_upper_of_literal("ISO-2022-JP-1"@, "ISO-2022-JP-1"@);
    lemma_upper_of_literal("ISO-2022-JP-3"@, "ISO-2022-JP-3"@);
    lemma_upper_of_literal("ISO-2022-JP-2004"@, "ISO-2022-JP-2004"@);
    lemma_upper_of_literal("CP50220"@, "CP50220"@);
    lemma_upper_of_literal("CP50221"@, "CP50221"@);
    lemma_upper_of_literal("CP50222"@, "CP50222"@);
    lemma_upper_of_literal("CP10001"@, "CP10001"@);
    lemma_upper_of_literal("ISO-8859-1"@, "ISO-8859-1"@);
    lemma_upper_of_literal("UTF-8"@, "UTF-8"@);
    lemma_upper_of_literal("UTF-8-BOM"@, "UTF-8-BOM"@);
    lemma_upper_of_literal("UTF-16"@, "UTF-16"@);
    lemma_upper_of_literal("UTF-16BE"@, "UTF-16BE"@);
    lemma_upper_of_literal("UTF-16BE-BOM"@, "UTF-16BE-BOM"@);
    lemma_upper_of_literal("UTF-16LE"@, "UTF-16LE"@);
    lemma_upper_of_literal("UTF-16LE-BOM"@, "UTF-16LE-BOM"@);
    lemma_upper_of_literal("UTF-32"@, "UTF-32"@);
    lemma_upper_of_literal("UTF-32BE"@, "UTF-32BE"@);
    lemma_upper_of_literal("UTF-32BE-BOM"@, "UTF-32BE-BOM"@);
    lemma_upper_of_literal("UTF-32LE"@, "UTF-32LE"@);
    lemma_upper_of_literal("UTF-32LE-BOM"@, "UTF-32LE-BOM"@);
    lemma_upper_of_literal("EUC-JIS-2004"@, "EUC-JIS-2004"@);
}

/// The Shift_JIS names with a JIS X 0213 suffix are their own canonical spelling.
proof fn lemma_shift_jis_names_fixed()
    ensures
        spec_normalize("SHIFT_JISX0213"@) == "SHIFT_JISX0213"@,
        spec_normalize("SHIFT_JIS-2004"@) == "SHIFT_JIS-2004"@,
{
    reveal_strlit("SHIFT_JISX0213");
    reveal_strlit("SHIFT-JISX0213");
    reveal_strlit("SHIFT_JIS-2004");
    reveal_strlit("SHIFT-JIS-2004");
    reveal_strlit("SHIFT-JIS-X0213");
    reveal_strlit("SJIS");
    reveal_strlit("SHIFT-JIS");
    lemma_upper_of_literal("SHIFT_JISX0213"@, "SHIFT-JISX0213"@);
    lemma_upper_of_literal("SHIFT_JIS-2004"@, "SHIFT-JIS-2004"@);
    assert(spec_upper_name("SHIFT_JISX0213"@) == "SHIFT-JISX0213"@);
    assert("SJIS"@.len() == 4);
    assert("SHIFT-JISX0213"@.len() == 14);
    assert("SHIFT-JISX0213"@ != "SJIS"@);
    assert("SHIFT-JISX0213"@ != "SHIFT-JIS"@);
    assert(spec_upper_name("SHIFT_JIS-2004"@) == "SHIFT-JIS-2004"@);
    assert("SHIFT-JIS-2004"@[9] == '-' && "SHIFT-JISX0213"@[9] == 'X');
    assert("SHIFT-JIS-2004"@ != "SHIFT-JISX0213"@);
    assert("SHIFT-JIS-2004"@.len() == 14 && "SHIFT-JIS-X0213"@.len() == 15);
    assert("SHIFT-JIS-2004"@ != "SHIFT-JIS-X0213"@);
    assert("SHIFT-JIS-2004"@ != "SJIS"@ && "SHIFT-JIS-2004"@ != "SHIFT-JIS"@);
}

/// A name written in capitals, digits, `-` and `_`, with no space, upper-cases to the same name
/// with `_` read as `-`.
proof fn lemma_upper_of_literal(s: Seq<char>, t: Seq<char>)
    requires
        forall|k: int| 0 <= k < s.len() ==> ('A' <= #[trigger] s[k] <= 'Z') || ('0' <= s[k] <= '9') || s[k] == '-' || s[k] == '_',
        t.len() == s.len(),
        forall|k: int| 0 <= k < s.len() ==> #[trigger] t[k] == if s[k] == '_' { '-' } else { s[k] },
    ensures
        spec_upper_name(s) == t,
{
    if s.len() > 0 {
        assert(!spec_is_whitespace(s[0]) && !spec_is_whitespace(s.last()));
    }
    lemma_trim_fixed(s);
    assert(s.map_values(|c: char| spec_name_char(c)) =~= t);
}

/// Spelling a name canonically twice is the same as once.
pub proof fn lemma_normalize_idempotent(x: Seq<char>)
    ensures
        spec_normalize(spec_normalize(x)) == spec_normalize(x),
{
    lemma_upper_name_idempotent(x);
    lemma_canonical_names_fixed();
    lemma_shift_jis_names_fixed();
}

/// ASCII lower-casing of one character (`char::to_ascii_lowercase`).
pub open spec fn spec_ascii_lower(c: char) -> char {
    if 'A' <= c && c <= 'Z' {
        ((c as u32) + 32) as char
    } else {
        c
    }
}

/// `_` written as `-`.
pub open spec fn spec_underscore_to_hyphen(c: char) -> char {
    if c == '_' {
        '-'
    } else {
        c
    }
}

/// Whether every character is white space.
pub open spec fn all_whitespace(s: Seq<char>) -> bool {
    forall|k: int| 0 <= k < s.len() ==> spec_is_whitespace(#[trigger] s[k])
}

/// Whether no character is an ASCII lower-case letter.
pub open spec fn no_ascii_lower(s: Seq<char>) -> bool {
    forall|k: int| 0 <= k < s.len() ==> !('a' <= #[trigger] s[k] && s[k] <= 'z')
}

/// Respelling characters in a way that keeps white space and the name spelling of each keeps the
/// trimmed, upper-cased name.
proof fn lemma_upper_name_respelled(s: Seq<char>, t: Seq<char>)
    requires
        t.len() == s.len(),
        forall|k: int| 0 <= k < s.len() ==> spec_is_whitespace(#[trigger] t[k]) == spec_is_whitespace(s[k]),
        forall|k: int| 0 <= k < s.len() ==> spec_name_char(#[trigger] t[k]) == spec_name_char(s[k]),
    ensures
        spec_upper_name(t) == spec_upper_name(s),
{
    lemma_same_trim_bounds(s, t);
    let e = trimmed_end(s);
    lemma_trimmed_end(s);
    let a = s.take(e);
    let b = t.take(e);
    lemma_same_leading(a, b);
    lemma_leading_ws(a);
    let l = leading_ws(a);
    let ts = spec_trim(s);
    let tt = spec_trim(t);
    assert(ts.len() == tt.len());
    assert(ts.map_values(|c: char| spec_name_char(c)) =~= tt.map_values(|c: char| spec_name_char(c))) by {
        assert forall|k: int| 0 <= k < ts.len() implies #[trigger] ts[k] == s[l + k] && tt[k] == t[l + k] by {}
    }
}

proof fn lemma_same_trim_bounds(s: Seq<char>, t: Seq<char>)
    requires
        t.len() == s.len(),
        forall|k: int| 0 <= k < s.len() ==> spec_is_whitespace(#[trigger] t[k]) == spec_is_whitespace(s[k]),
    ensures
        trimmed_end(t) == trimmed_end(s),
    decreases s.len(),
{
    if s.len() > 0 {
        assert(spec_is_whitespace(t[t.len() - 1]) == spec_is_whitespace(s[s.len() - 1]));
        lemma_same_trim_bounds(s.drop_last(), t.drop_last());
    }
}

proof fn lemma_same_leading(s: Seq<char>, t: Seq<char>)
    requires
        t.len() == s.len(),
        forall|k: int| 0 <= k < s.len() ==> spec_is_whitespace(#[trigger] t[k]) == spec_is_whitespace(s[k]),
    ensures
        leading_ws(t) == leading_ws(s),
    decreases s.len(),
{
    if s.len() > 0 {
        assert(spec_is_whitespace(t[0]) == spec_is_whitespace(s[0]));
        assert forall|k: int| 0 <= k < s.drop_first().len() implies spec_is_whitespace(#[trigger] t.drop_first()[k]) == spec_is_whitespace(s.drop_first()[k]) by {
            assert(t.drop_first()[k] == t[k + 1] && s.drop_first()[k] == s[k + 1]);
        }
        lemma_same_leading(s.drop_first(), t.drop_first());
    }
}

proof fn lemma_trimmed_end_padded(p: Seq<char>, s: Seq<char>)
    requires
        all_whitespace(p),
    ensures
        trimmed_end(p + s) == if trimmed_end(s) > 0 {
            p.len() + trimmed_end(s)
        } else {
            0
        },
    decreases s.len(),
{
    if s.len() == 0 {
        assert(p + s =~= p);
        lemma_trimmed_end(p);
        if trimmed_end(p) > 0 {
            assert(spec_is_whitespace(p[trimmed_end(p) - 1]));
        }
    } else {
        assert((p + s).drop_last() =~= p + s.drop_last());
        assert((p + s).last() == s.last());
        lemma_trimmed_end_padded(p, s.drop_last());
    }
}

proof fn lemma_trimmed_end_suffix(s: Seq<char>, q: Seq<char>)
    requires
        all_whitespace(q),
    ensures
        trimmed_end(s + q) == trimmed_end(s),
    decreases q.len(),
{
    if q.len() == 0 {
        assert(s + q =~= s);
    } else {
        assert((s + q).drop_last() =~= s + q.drop_last());
        assert((s + q).last() == q.last());
        assert(spec_is_whitespace(q[q.len() - 1]));
        lemma_trimmed_end_suffix(s, q.drop_last());
    }
}

proof fn lemma_leading_padded(p: Seq<char>, s: Seq<char>)
    requires
        all_whitespace(p),
    ensures
        leading_ws(p + s) == p.len() + leading_ws(s),
    decreases p.len(),
{
    if p.len() == 0 {
        assert(p + s =~= s);
    } else {
        assert((p + s).drop_first() =~= p.drop_first() + s);
        assert((p + s)[0] == p[0]);
        assert(all_whitespace(p.drop_first())) by {
            assert forall|k: int| 0 <= k < p.drop_first().len() implies spec_is_whitespace(#[trigger] p.drop_first()[k]) by {
                assert(p.drop_first()[k] == p[k + 1]);
            }
        }
        lemma_leading_padded(p.drop_first(), s);
    }
}

/// White space around a text leaves its trim unchanged.
proof fn lemma_trim_padded(p: Seq<char>, s: Seq<char>, q: Seq<char>)
    requires
        all_whitespace(p),
        all_whitespace(q),
    ensures
        spec_trim(p + s + q) == spec_trim(s),
{
    let x = p + s + q;
    assert(x =~= (p + s) + q);
    lemma_trimmed_end_suffix(p + s, q);
    lemma_trimmed_end_padded(p, s);
    lemma_trimmed_end(s);
    let e = trimmed_end(s);
    if e > 0 {
        assert(x.take(p.len() + e) =~= p + s.take(e));
        lemma_leading_padded(p, s.take(e));
        lemma_leading_ws(s.take(e));
        assert((p + s.take(e)).skip(p.len() + leading_ws(s.take(e))) =~= s.take(e).skip(leading_ws(s.take(e))));
    } else {
        assert(x.take(0) =~= Seq::<char>::empty());
        assert(s.take(0) =~= Seq::<char>::empty());
        assert(leading_ws(Seq::<char>::empty()) == 0);
        assert(Seq::<char>::empty().skip(0) =~= Seq::<char>::empty());
    }
}

/// The canonical spellings never hold an ASCII lower-case letter.
proof fn lemma_normalize_no_lower(x: Seq<char>)
    ensures
        no_ascii_lower(spec_normalize(x)),
{
    reveal_strlit("SHIFT_JIS");
    reveal_strlit("SHIFT_JISX0213");
    reveal_strlit("SHIFT_JIS-2004");
    reveal_strlit("CP932");
    reveal_strlit("EUC-JP");
    reveal_strlit("CP51932");
    reveal_strlit("EUCJP-MS");
    reveal_strlit("EUCJP-ASCII");
    reveal_strlit("ISO-2022-JP");
    reveal_strlit("ISO-2022-JP-1");
    reveal_strlit("ISO-2022-JP-3");
    reveal_strlit("ISO-2022-JP-2004");
    reveal_strlit("CP50220");
    reveal_strlit("CP50221");
    reveal_strlit("CP50222");
    reveal_strlit("CP10001");
    reveal_strlit("ISO-8859-1");
    reveal_strlit("UTF-8");
    reveal_strlit("UTF-8-BOM");
    reveal_strlit("UTF-16");
    reveal_strlit("UTF-16BE");
    reveal_strlit("UTF-16BE-BOM");
    reveal_strlit("UTF-16LE");
    reveal_strlit("UTF-16LE-BOM");
    reveal_strlit("UTF-32");
    reveal_strlit("UTF-32BE");
    reveal_strlit("UTF-32BE-BOM");
    reveal_strlit("UTF-32LE");
    reveal_strlit("UTF-32LE-BOM");
    let u = spec_upper_name(x);
    assert(no_ascii_lower(u)) by {
        assert forall|k: int| 0 <= k < u.len() implies !('a' <= #[trigger] u[k] && u[k] <= 'z') by {
            assert(u[k] == spec_name_char(spec_trim(x)[k]));
        }
    }
}

/// Encoding names are spelled canonically whatever their case, whether they write `_` or `-`,
/// and whatever white space surrounds them; the canonical spelling holds no lower-case letter.
pub proof fn lemma_normalize_ignores_spelling(s: Seq<char>, p: Seq<char>, q: Seq<char>)
    requires
        all_whitespace(p),
        all_whitespace(q),
    ensures
        spec_normalize(s.map_values(|c: char| spec_ascii_lower(c))) == spec_normalize(s),
        spec_normalize(s.map_values(|c: char| spec_underscore_to_hyphen(c))) == spec_normalize(s),
        spec_normalize(p + s + q) == spec_normalize(s),
        no_ascii_lower(spec_normalize(s)),
{
    let lo = s.map_values(|c: char| spec_ascii_lower(c));
    assert forall|k: int| 0 <= k < s.len() implies spec_is_whitespace(#[trigger] lo[k]) == spec_is_whitespace(s[k])
        && spec_name_char(lo[k]) == spec_name_char(s[k]) by {
        assert(lo[k] == spec_ascii_lower(s[k]));
    }
    lemma_upper_name_respelled(s, lo);
    let hy = s.map_values(|c: char| spec_underscore_to_hyphen(c));
    assert forall|k: int| 0 <= k < s.len() implies spec_is_whitespace(#[trigger] hy[k]) == spec_is_whitespace(s[k])
        && spec_name_char(hy[k]) == spec_name_char(s[k]) by {
        assert(hy[k] == spec_underscore_to_hyphen(s[k]));
    }
    lemma_upper_name_respelled(s, hy);
    lemma_trim_padded(p, s, q);
    lemma_normalize_no_lower(s);
}

/// A MIME encoded-word is labelled with the canonical name of the output encoding when that is
/// ISO-2022-JP, EUC-JP, Shift_JIS, CP932 or ISO-8859-1, and with UTF-8 for any other encoding.
pub proof fn lemma_mime_charset_label(s: Seq<char>)
    ensures
        ({
            let n = spec_normalize(s);
            let known = n == "ISO-2022-JP"@ || n == "EUC-JP"@ || n == "SHIFT_JIS"@ || n == "CP932"@ || n == "ISO-8859-1"@;
            &&& known ==> spec_mime_charset_name(s) == n
            &&& !known ==> spec_mime_charset_name(s) == "UTF-8"@
        }),
{
}

/// The Shift_JIS, Windows-31J and EUC-JP aliases, whatever their case, `_` or surrounding
/// white space, are spelled as these canonical names: `SJIS` and `Shift-JIS` as `SHIFT_JIS`,
/// `Windows-31J`, `csWindows31J` and `MS932` as `CP932`, `EUCJP` and `eucJP-nkf` as `EUC-JP`, and so on.
pub proof fn lemma_normalize_shift_jis_euc_aliases(s: Seq<char>)
    ensures
        spec_upper_name(s) == "SJIS"@ ==> spec_normalize(s) == "SHIFT_JIS"@,
        spec_upper_name(s) == "SHIFT-JIS"@ ==> spec_normalize(s) == "SHIFT_JIS"@,
        spec_upper_name(s) == "SHIFT-JISX0213"@ ==> spec_normalize(s) == "SHIFT_JISX0213"@,
        spec_upper_name(s) == "SHIFT-JIS-X0213"@ ==> spec_normalize(s) == "SHIFT_JISX0213"@,
        spec_upper_name(s) == "SHIFT-JIS-2004"@ ==> spec_normalize(s) == "SHIFT_JIS-2004"@,
        spec_upper_name(s) == "WINDOWS-31J"@ ==> spec_normalize(s) == "CP932"@,
        spec_upper_name(s) == "CSWINDOWS31J"@ ==> spec_normalize(s) == "CP932"@,
        spec_upper_name(s) == "MS932"@ ==> spec_normalize(s) == "CP932"@,
        spec_upper_name(s) == "CP932"@ ==> spec_normalize(s) == "CP932"@,
        spec_upper_name(s) == "EUCJP"@ ==> spec_normalize(s) == "EUC-JP"@,
        spec_upper_name(s) == "EUC-JP"@ ==> spec_normalize(s) == "EUC-JP"@,
        spec_upper_name(s) == "EUCJP-NKF"@ ==> spec_normalize(s) == "EUC-JP"@,
        spec_upper_name(s) == "CP51932"@ ==> spec_normalize(s) == "CP51932"@,
        spec_upper_name(s) == "EUCJP-MS"@ ==> spec_normalize(s) == "EUCJP-MS"@,
        spec_upper_name(s) == "EUC-JP-MS"@ ==> spec_normalize(s) == "EUCJP-MS"@,
        spec_upper_name(s) == "EUCJPMS"@ ==> spec_normalize(s) == "EUCJP-MS"@,
        spec_upper_name(s) == "EUCJP-ASCII"@ ==> spec_normalize(s) == "EUCJP-ASCII"@,
        spec_upper_name(s) == "EUC-JP-ASCII"@ ==> spec_normalize(s) == "EUCJP-ASCII"@,
{
    assert(spec_upper_name(s) == "SJIS"@ ==> spec_normalize(s) == "SHIFT_JIS"@) by {
        reveal_strlit("SJIS");
    }
    assert(spec_upper_name(s) == "SHIFT-JIS"@ ==> spec_normalize(s) == "SHIFT_JIS"@) by {
        reveal_strlit("SHIFT-JIS");
    }
    assert(spec_upper_name(s) == "SHIFT-JISX0213"@ ==> spec_normalize(s) == "SHIFT_JISX0213"@) by {
        reveal_strlit("SHIFT-JISX0213");
        reveal_strlit("SJIS");
        assert("SHIFT-JISX0213"@.len() != "SJIS"@.len());
        reveal_strlit("SHIFT-JIS");
        assert("SHIFT-JISX0213"@.len() != "SHIFT-JIS"@.len());
    }
    assert(spec_upper_name(s) == "SHIFT-JIS-X0213"@ ==> spec_normalize(s) == "SHIFT_JISX0213"@) by {
        reveal_strlit("SHIFT-JIS-X0213");
        reveal_strlit("SJIS");
        assert("SHIFT-JIS-X0213"@.len() != "SJIS"@.len());
        reveal_strlit("SHIFT-JIS");
        assert("SHIFT-JIS-X0213"@.len() != "SHIFT-JIS"@.len());
    }
    assert(spec_upper_name(s) == "SHIFT-JIS-2004"@ ==> spec_normalize(s) == "SHIFT_JIS-2004"@) by {
        reveal_strlit("SHIFT-JIS-2004");
        reveal_strlit("SJIS");
        assert("SHIFT-JIS-2004"@.len() != "SJIS"@.len());
        reveal_strlit("SHIFT-JIS");
        assert("SHIFT-JIS-2004"@.len() != "SHIFT-JIS"@.len());
        reveal_strlit("SHIFT-JISX0213");
        assert("SHIFT-JIS-2004"@[9] != "SHIFT-JISX0213"@[9]);
        assert("SHIFT-JIS-2004"@ != "SHIFT-JISX0213"@);
        reveal_strlit("SHIFT-JIS-X0213");
        assert("SHIFT-JIS-2004"@.len() != "SHIFT-JIS-X0213"@.len());
    }
    assert(spec_upper_name(s) == "WINDOWS-31J"@ ==> spec_normalize(s) == "CP932"@) by {
        reveal_strlit("WINDOWS-31J");
        reveal_strlit("SJIS");
        assert("WINDOWS-31J"@.len() != "SJIS"@.len());
        reveal_strlit("SHIFT-JIS");
        assert("WINDOWS-31J"@.len() != "SHIFT-JIS"@.len());
        reveal_strlit("SHIFT-JISX0213");
        assert("WINDOWS-31J"@.len() != "SHIFT-JISX0213"@.len());
        reveal_strlit("SHIFT-JIS-X0213");
        assert("WINDOWS-31J"@.len() != "SHIFT-JIS-X0213"@.len());
        reveal_strlit("SHIFT-JIS-2004");
        assert("WINDOWS-31J"@.len() != "SHIFT-JIS-2004"@.len());
    }
    assert(spec_upper_name(s) == "CSWINDOWS31J"@ ==> spec_normalize(s) == "CP932"@) by {
        reveal_strlit("CSWINDOWS31J");
        reveal_strlit("SJIS");
        assert("CSWINDOWS31J"@.len() != "SJIS"@.len());
        reveal_strlit("SHIFT-JIS");
        assert("CSWINDOWS31J"@.len() != "SHIFT-JIS"@.len());
        reveal_strlit("SHIFT-JISX0213");
        assert("CSWINDOWS31J"@.len() != "SHIFT-JISX0213"@.len());
        reveal_strlit("SHIFT-JIS-X0213");
        assert("CSWINDOWS31J"@.len() != "SHIFT-JIS-X0213"@.len());
        reveal_strlit("SHIFT-JIS-2004");
        assert("CSWINDOWS31J"@.len() != "SHIFT-JIS-2004"@.len());
    }
    assert(spec_upper_name(s) == "MS932"@ ==> spec_normalize(s) == "CP932"@) by {
        reveal_strlit("MS932");
        reveal_strlit("SJIS");
        assert("MS932"@.len() != "SJIS"@.len());
        reveal_strlit("SHIFT-JIS");
        assert("MS932"@.len() != "SHIFT-JIS"@.len());
        reveal_strlit("SHIFT-JISX0213");
        assert("MS932"@.len() != "SHIFT-JISX0213"@.len());
        reveal_strlit("SHIFT-JIS-X0213");
        assert("MS932"@.len() != "SHIFT-JIS-X0213"@.len());
        reveal_strlit("SHIFT-JIS-2004");
        assert("MS932"@.len() != "SHIFT-JIS-2004"@.len());
    }
    assert(spec_upper_name(s) == "CP932"@ ==> spec_normalize(s) == "CP932"@) by {
        reveal_strlit("CP932");
        reveal_strlit("SJIS");
        assert("CP932"@.len() != "SJIS"@.len());
        reveal_strlit("SHIFT-JIS");
        assert("CP932"@.len() != "SHIFT-JIS"@.len());
        reveal_strlit("SHIFT-JISX0213");
        assert("CP932"@.len() != "SHIFT-JISX0213"@.len());
        reveal_strlit("SHIFT-JIS-X0213");
        assert("CP932"@.len() != "SHIFT-JIS-X0213"@.len());
        reveal_strlit("SHIFT-JIS-2004");
        assert("CP932"@.len() != "SHIFT-JIS-2004"@.len());
    }
    assert(spec_upper_name(s) == "EUCJP"@ ==> spec_normalize(s) == "EUC-JP"@) by {
        reveal_strlit("EUCJP");
        reveal_strlit("SJIS");
        assert("EUCJP"@.len() != "SJIS"@.len());
        reveal_strlit("SHIFT-JIS");
        assert("EUCJP"@.len() != "SHIFT-JIS"@.len());
        reveal_strlit("SHIFT-JISX0213");
        assert("EUCJP"@.len() != "SHIFT-JISX0213"@.len());
        reveal_strlit("SHIFT-JIS-X0213");
        assert("EUCJP"@.len() != "SHIFT-JIS-X0213"@.len());
        reveal_strlit("SHIFT-JIS-2004");
        assert("EUCJP"@.len() != "SHIFT-JIS-2004"@.len());
        reveal_strlit("WINDOWS-31J");
        assert("EUCJP"@.len() != "WINDOWS-31J"@.len());
        reveal_strlit("CSWINDOWS31J");
        assert("EUCJP"@.len() != "CSWINDOWS31J"@.len());
        reveal_strlit("MS932");
        assert("EUCJP"@[0] != "MS932"@[0]);
        assert("EUCJP"@ != "MS932"@);
        reveal_strlit("CP932");
        assert("EUCJP"@[0] != "CP932"@[0]);
        assert("EUCJP"@ != "CP932"@);
    }
    assert(spec_upper_name(s) == "EUC-JP"@ ==> spec_normalize(s) == "EUC-JP"@) by {
        reveal_strlit("EUC-JP");
        reveal_strlit("SJIS");
        assert("EUC-JP"@.len() != "SJIS"@.len());
        reveal_strlit("SHIFT-JIS");
        assert("EUC-JP"@.len() != "SHIFT-JIS"@.len());
        reveal_strlit("SHIFT-JISX0213");
        assert("EUC-JP"@.len() != "SHIFT-JISX0213"@.len());
        reveal_strlit("SHIFT-JIS-X0213");
        assert("EUC-JP"@.len() != "SHIFT-JIS-X0213"@.len());
        reveal_strlit("SHIFT-JIS-2004");
        assert("EUC-JP"@.len() != "SHIFT-JIS-2004"@.len());
        reveal_strlit("WINDOWS-31J");
        assert("EUC-JP"@.len() != "WINDOWS-31J"@.len());
        reveal_strlit("CSWINDOWS31J");
        assert("EUC-JP"@.len() != "CSWINDOWS31J"@.len());
        reveal_strlit("MS932");
        assert("EUC-JP"@.len() != "MS932"@.len());
        reveal_strlit("CP932");
        assert("EUC-JP"@.len() != "CP932"@.len());
    }
    assert(spec_upper_name(s) == "EUCJP-NKF"@ ==> spec_normalize(s) == "EUC-JP"@) by {
        reveal_strlit("EUCJP-NKF");
        reveal_strlit("SJIS");
        assert("EUCJP-NKF"@.len() != "SJIS"@.len());
        reveal_strlit("SHIFT-JIS");
        assert("EUCJP-NKF"@[0] != "SHIFT-JIS"@[0]);
        assert("EUCJP-NKF"@ != "SHIFT-JIS"@);
        reveal_strlit("SHIFT-JISX0213");
        assert("EUCJP-NKF"@.len() != "SHIFT-JISX0213"@.len());
        reveal_strlit("SHIFT-JIS-X0213");
        assert("EUCJP-NKF"@.len() != "SHIFT-JIS-X0213"@.len());
        reveal_strlit("SHIFT-JIS-2004");
        assert("EUCJP-NKF"@.len() != "SHIFT-JIS-2004"@.len());
        reveal_strlit("WINDOWS-31J");
        assert("EUCJP-NKF"@.len() != "WINDOWS-31J"@.len());
        reveal_strlit("CSWINDOWS31J");
        assert("EUCJP-NKF"@.len() != "CSWINDOWS31J"@.len());
        reveal_strlit("MS932");
        assert("EUCJP-NKF"@.len() != "MS932"@.len());
        reveal_strlit("CP932");
        assert("EUCJP-NKF"@.len() != "CP932"@.len());
    }
    assert(spec_upper_name(s) == "CP51932"@ ==> spec_normalize(s) == "CP51932"@) by {
        reveal_strlit("CP51932");
        reveal_strlit("SJIS");
        assert("CP51932"@.len() != "SJIS"@.len());
        reveal_strlit("SHIFT-JIS");
        assert("CP51932"@.len() != "SHIFT-JIS"@.len());
        reveal_strlit("SHIFT-JISX0213");
        assert("CP51932"@.len() != "SHIFT-JISX0213"@.len());
        reveal_strlit("SHIFT-JIS-X0213");
        assert("CP51932"@.len() != "SHIFT-JIS-X0213"@.len());
        reveal_strlit("SHIFT-JIS-2004");
        assert("CP51932"@.len() != "SHIFT-JIS-2004"@.len());
        reveal_strlit("WINDOWS-31J");
        assert("CP51932"@.len() != "WINDOWS-31J"@.len());
        reveal_strlit("CSWINDOWS31J");
        assert("CP51932"@.len() != "CSWINDOWS31J"@.len());
        reveal_strlit("MS932");
        assert("CP51932"@.len() != "MS932"@.len());
        reveal_strlit("CP932");
        assert("CP51932"@.len() != "CP932"@.len());
        reveal_strlit("EUCJP");
        assert("CP51932"@.len() != "EUCJP"@.len());
        reveal_strlit("EUC-JP");
        assert("CP51932"@.len() != "EUC-JP"@.len());
        reveal_strlit("EUCJP-NKF");
        assert("CP51932"@.len() != "EUCJP-NKF"@.len());
    }
    assert(spec_upper_name(s) == "EUCJP-MS"@ ==> spec_normalize(s) == "EUCJP-MS"@) by {
        reveal_strlit("EUCJP-MS");
        reveal_strlit("SJIS");
        assert("EUCJP-MS"@.len() != "SJIS"@.len());
        reveal_strlit("SHIFT-JIS");
        assert("EUCJP-MS"@.len() != "SHIFT-JIS"@.len());
        reveal_strlit("SHIFT-JISX0213");
        assert("EUCJP-MS"@.len() != "SHIFT-JISX0213"@.len());
        reveal_strlit("SHIFT-JIS-X0213");
        assert("EUCJP-MS"@.len() != "SHIFT-JIS-X0213"@.len());
        reveal_strlit("SHIFT-JIS-2004");
        assert("EUCJP-MS"@.len() != "SHIFT-JIS-2004"@.len());
        reveal_strlit("WINDOWS-31J");
        assert("EUCJP-MS"@.len() != "WINDOWS-31J"@.len());
        reveal_strlit("CSWINDOWS31J");
        assert("EUCJP-MS"@.len() != "CSWINDOWS31J"@.len());
        reveal_strlit("MS932");
        assert("EUCJP-MS"@.len() != "MS932"@.len());
        reveal_strlit("CP932");
        assert("EUCJP-MS"@.len() != "CP932"@.len());
        reveal_strlit("EUCJP");
        assert("EUCJP-MS"@.len() != "EUCJP"@.len());
        reveal_strlit("EUC-JP");
        assert("EUCJP-MS"@.len() != "EUC-JP"@.len());
        reveal_strlit("EUCJP-NKF");
        assert("EUCJP-MS"@.len() != "EUCJP-NKF"@.len());
        reveal_strlit("CP51932");
        assert("EUCJP-MS"@.len() != "CP51932"@.len());
    }
    assert(spec_upper_name(s) == "EUC-JP-MS"@ ==> spec_normalize(s) == "EUCJP-MS"@) by {
        reveal_strlit("EUC-JP-MS");
        reveal_strlit("SJIS");
        assert("EUC-JP-MS"@.len() != "SJIS"@.len());
        reveal_strlit("SHIFT-JIS");
        assert("EUC-JP-MS"@[0] != "SHIFT-JIS"@[0]);
        assert("EUC-JP-MS"@ != "SHIFT-JIS"@);
        reveal_strlit("SHIFT-JISX0213");
        assert("EUC-JP-MS"@.len() != "SHIFT-JISX0213"@.len());
        reveal_strlit("SHIFT-JIS-X0213");
        assert("EUC-JP-MS"@.len() != "SHIFT-JIS-X0213"@.len());
        reveal_strlit("SHIFT-JIS-2004");
        assert("EUC-JP-MS"@.len() != "SHIFT-JIS-2004"@.len());
        reveal_strlit("WINDOWS-31J");
        assert("EUC-JP-MS"@.len() != "WINDOWS-31J"@.len());
        reveal_strlit("CSWINDOWS31J");
        assert("EUC-JP-MS"@.len() != "CSWINDOWS31J"@.len());
        reveal_strlit("MS932");
        assert("EUC-JP-MS"@.len() != "MS932"@.len());
        reveal_strlit("CP932");
        assert("EUC-JP-MS"@.len() != "CP932"@.len());
        reveal_strlit("EUCJP");
        assert("EUC-JP-MS"@.len() != "EUCJP"@.len());
        reveal_strlit("EUC-JP");
        assert("EUC-JP-MS"@.len() != "EUC-JP"@.len());
        reveal_strlit("EUCJP-NKF");
        assert("EUC-JP-MS"@[3] != "EUCJP-NKF"@[3]);
        assert("EUC-JP-MS"@ != "EUCJP-NKF"@);
        reveal_strlit("CP51932");
        assert("EUC-JP-MS"@.len() != "CP51932"@.len());
    }
    assert(spec_upper_name(s) == "EUCJPMS"@ ==> spec_normalize(s) == "EUCJP-MS"@) by {
        reveal_strlit("EUCJPMS");
        reveal_strlit("SJIS");
        assert("EUCJPMS"@.len() != "SJIS"@.len());
        reveal_strlit("SHIFT-JIS");
        assert("EUCJPMS"@.len() != "SHIFT-JIS"@.len());
        reveal_strlit("SHIFT-JISX0213");
        assert("EUCJPMS"@.len() != "SHIFT-JISX0213"@.len());
        reveal_strlit("SHIFT-JIS-X0213");
        assert("EUCJPMS"@.len() != "SHIFT-JIS-X0213"@.len());
        reveal_strlit("SHIFT-JIS-2004");
        assert("EUCJPMS"@.len() != "SHIFT-JIS-2004"@.len());
        reveal_strlit("WINDOWS-31J");
        assert("EUCJPMS"@.len() != "WINDOWS-31J"@.len());
        reveal_strlit("CSWINDOWS31J");
        assert("EUCJPMS"@.len() != "CSWINDOWS31J"@.len());
        reveal_strlit("MS932");
        assert("EUCJPMS"@.len() != "MS932"@.len());
        reveal_strlit("CP932");
        assert("EUCJPMS"@.len() != "CP932"@.len());
        reveal_strlit("EUCJP");
        assert("EUCJPMS"@.len() != "EUCJP"@.len());
        reveal_strlit("EUC-JP");
        assert("EUCJPMS"@.len() != "EUC-JP"@.len());
        reveal_strlit("EUCJP-NKF");
        assert("EUCJPMS"@.len() != "EUCJP-NKF"@.len());
        reveal_strlit("CP51932");
        assert("EUCJPMS"@[0] != "CP51932"@[0]);
        assert("EUCJPMS"@ != "CP51932"@);
    }
    assert(spec_upper_name(s) == "EUCJP-ASCII"@ ==> spec_normalize(s) == "EUCJP-ASCII"@) by {
        reveal_strlit("EUCJP-ASCII");
        reveal_strlit("SJIS");
        assert("EUCJP-ASCII"@.len() != "SJIS"@.len());
        reveal_strlit("SHIFT-JIS");
        assert("EUCJP-ASCII"@.len() != "SHIFT-JIS"@.len());
        reveal_strlit("SHIFT-JISX0213");
        assert("EUCJP-ASCII"@.len() != "SHIFT-JISX0213"@.len());
        reveal_strlit("SHIFT-JIS-X0213");
        assert("EUCJP-ASCII"@.len() != "SHIFT-JIS-X0213"@.len());
        reveal_strlit("SHIFT-JIS-2004");
        assert("EUCJP-ASCII"@.len() != "SHIFT-JIS-2004"@.len());
        reveal_strlit("WINDOWS-31J");
        assert("EUCJP-ASCII"@[0] != "WINDOWS-31J"@[0]);
        assert("EUCJP-ASCII"@ != "WINDOWS-31J"@);
        reveal_strlit("CSWINDOWS31J");
        assert("EUCJP-ASCII"@.len() != "CSWINDOWS31J"@.len());
        reveal_strlit("MS932");
        assert("EUCJP-ASCII"@.len() != "MS932"@.len());
        reveal_strlit("CP932");
        assert("EUCJP-ASCII"@.len() != "CP932"@.len());
        reveal_strlit("EUCJP");
        assert("EUCJP-ASCII"@.len() != "EUCJP"@.len());
        reveal_strlit("EUC-JP");
        assert("EUCJP-ASCII"@.len() != "EUC-JP"@.len());
        reveal_strlit("EUCJP-NKF");
        assert("EUCJP-ASCII"@.len() != "EUCJP-NKF"@.len());
        reveal_strlit("CP51932");
        assert("EUCJP-ASCII"@.len() != "CP51932"@.len());
        reveal_strlit("EUCJP-MS");
        assert("EUCJP-ASCII"@.len() != "EUCJP-MS"@.len());
        reveal_strlit("EUC-JP-MS");
        assert("EUCJP-ASCII"@.len() != "EUC-JP-MS"@.len());
        reveal_strlit("EUCJPMS");
        assert("EUCJP-ASCII"@.len() != "EUCJPMS"@.len());
    }
    assert(spec_upper_name(s) == "EUC-JP-ASCII"@ ==> spec_normalize(s) == "EUCJP-ASCII"@) by {
        reveal_strlit("EUC-JP-ASCII");
        reveal_strlit("SJIS");
        assert("EUC-JP-ASCII"@.len() != "SJIS"@.len());
        reveal_strlit("SHIFT-JIS");
        assert("EUC-JP-ASCII"@.len() != "SHIFT-JIS"@.len());
        reveal_strlit("SHIFT-JISX0213");
        assert("EUC-JP-ASCII"@.len() != "SHIFT-JISX0213"@.len());
        reveal_strlit("SHIFT-JIS-X0213");
        assert("EUC-JP-ASCII"@.len() != "SHIFT-JIS-X0213"@.len());
        reveal_strlit("SHIFT-JIS-2004");
        assert("EUC-JP-ASCII"@.len() != "SHIFT-JIS-2004"@.len());
        reveal_strlit("WINDOWS-31J");
        assert("EUC-JP-ASCII"@.len() != "WINDOWS-31J"@.len());
        reveal_strlit("CSWINDOWS31J");
        assert("EUC-JP-ASCII"@[0] != "CSWINDOWS31J"@[0]);
        assert("EUC-JP-ASCII"@ != "CSWINDOWS31J"@);
        reveal_strlit("MS932");
        assert("EUC-JP-ASCII"@.len() != "MS932"@.len());
        reveal_strlit("CP932");
        assert("EUC-JP-ASCII"@.len() != "CP932"@.len());
        reveal_strlit("EUCJP");
        assert("EUC-JP-ASCII"@.len() != "EUCJP"@.len());
        reveal_strlit("EUC-JP");
        assert("EUC-JP-ASCII"@.len() != "EUC-JP"@.len());
        reveal_strlit("EUCJP-NKF");
        assert("EUC-JP-ASCII"@.len() != "EUCJP-NKF"@.len());
        reveal_strlit("CP51932");
        assert("EUC-JP-ASCII"@.len() != "CP51932"@.len());
        reveal_strlit("EUCJP-MS");
        assert("EUC-JP-ASCII"@.len() != "EUCJP-MS"@.len());
        reveal_strlit("EUC-JP-MS");
        assert("EUC-JP-ASCII"@.len() != "EUC-JP-MS"@.len());
        reveal_strlit("EUCJPMS");
        assert("EUC-JP-ASCII"@.len() != "EUCJPMS"@.len());
    }
}

/// The ISO-2022-JP family's aliases, whatever their case, `_` or surrounding white space, are
/// spelled as these canonical names: `JIS` and `ISO2022JP` as `ISO-2022-JP`, `ISO-2022-JP-CP932`
/// as `CP50220`, `csISO2022JP` as `CP50221`, and so on.
pub proof fn lemma_normalize_iso2022_aliases(s: Seq<char>)
    ensures
        spec_upper_name(s) == "JIS"@ ==> spec_normalize(s) == "ISO-2022-JP"@,
        spec_upper_name(s) == "ISO2022JP"@ ==> spec_normalize(s) == "ISO-2022-JP"@,
        spec_upper_name(s) == "ISO-2022-JP"@ ==> spec_normalize(s) == "ISO-2022-JP"@,
        spec_upper_name(s) == "ISO2022JP-1"@ ==> spec_normalize(s) == "ISO-2022-JP-1"@,
        spec_upper_name(s) == "ISO-2022-JP-1"@ ==> spec_normalize(s) == "ISO-2022-JP-1"@,
        spec_upper_name(s) == "ISO2022JP-3"@ ==> spec_normalize(s) == "ISO-2022-JP-3"@,
        spec_upper_name(s) == "ISO-2022-JP-3"@ ==> spec_normalize(s) == "ISO-2022-JP-3"@,
        spec_upper_name(s) == "ISO2022JP-2004"@ ==> spec_normalize(s) == "ISO-2022-JP-2004"@,
        spec_upper_name(s) == "ISO-2022-JP-2004"@ ==> spec_normalize(s) == "ISO-2022-JP-2004"@,
        spec_upper_name(s) == "ISO2022JP-CP932"@ ==> spec_normalize(s) == "CP50220"@,
        spec_upper_name(s) == "ISO-2022-JP-CP932"@ ==> spec_normalize(s) == "CP50220"@,
        spec_upper_name(s) == "CP50220"@ ==> spec_normalize(s) == "CP50220"@,
        spec_upper_name(s) == "CSISO2022JP"@ ==> spec_normalize(s) == "CP50221"@,
        spec_upper_name(s) == "CP50221"@ ==> spec_normalize(s) == "CP50221"@,
        spec_upper_name(s) == "CP50222"@ ==> spec_normalize(s) == "CP50222"@,
        spec_upper_name(s) == "CP10001"@ ==> spec_normalize(s) == "CP10001"@,
{
    assert(spec_upper_name(s) == "JIS"@ ==> spec_normalize(s) == "ISO-2022-JP"@) by {
        reveal_strlit("JIS");
        reveal_strlit("SJIS");
        assert("JIS"@.len() != "SJIS"@.len());
        reveal_strlit("SHIFT-JIS");
        assert("JIS"@.len() != "SHIFT-JIS"@.len());
        reveal_strlit("SHIFT-JISX0213");
        assert("JIS"@.len() != "SHIFT-JISX0213"@.len());
        reveal_strlit("SHIFT-JIS-X0213");
        assert("JIS"@.len() != "SHIFT-JIS-X0213"@.len());
        reveal_strlit("SHIFT-JIS-2004");
        assert("JIS"@.len() != "SHIFT-JIS-2004"@.len());
        reveal_strlit("WINDOWS-31J");
        assert("JIS"@.len() != "WINDOWS-31J"@.len());
        reveal_strlit("CSWINDOWS31J");
        assert("JIS"@.len() != "CSWINDOWS31J"@.len());
        reveal_strlit("MS932");
        assert("JIS"@.len() != "MS932"@.len());
        reveal_strlit("CP932");
        assert("JIS"@.len() != "CP932"@.len());
        reveal_strlit("EUCJP");
        assert("JIS"@.len() != "EUCJP"@.len());
        reveal_strlit("EUC-JP");
        assert("JIS"@.len() != "EUC-JP"@.len());
        reveal_strlit("EUCJP-NKF");
        assert("JIS"@.len() != "EUCJP-NKF"@.len());
        reveal_strlit("CP51932");
        assert("JIS"@.len() != "CP51932"@.len());
        reveal_strlit("EUCJP-MS");
        assert("JIS"@.len() != "EUCJP-MS"@.len());
        reveal_strlit("EUC-JP-MS");
        assert("JIS"@.len() != "EUC-JP-MS"@.len());
        reveal_strlit("EUCJPMS");
        assert("JIS"@.len() != "EUCJPMS"@.len());
        reveal_strlit("EUCJP-ASCII");
        assert("JIS"@.len() != "EUCJP-ASCII"@.len());
        reveal_strlit("EUC-JP-ASCII");
        assert("JIS"@.len() != "EUC-JP-ASCII"@.len());
    }
    assert(spec_upper_name(s) == "ISO2022JP"@ ==> spec_normalize(s) == "ISO-2022-JP"@) by {
        reveal_strlit("ISO2022JP");
        reveal_strlit("SJIS");
        assert("ISO2022JP"@.len() != "SJIS"@.len());
        reveal_strlit("SHIFT-JIS");
        assert("ISO2022JP"@[0] != "SHIFT-JIS"@[0]);
        assert("ISO2022JP"@ != "SHIFT-JIS"@);
        reveal_strlit("SHIFT-JISX0213");
        assert("ISO2022JP"@.len() != "SHIFT-JISX0213"@.len());
        reveal_strlit("SHIFT-JIS-X0213");
        assert("ISO2022JP"@.len() != "SHIFT-JIS-X0213"@.len());
        reveal_strlit("SHIFT-JIS-2004");
        assert("ISO2022JP"@.len() != "SHIFT-JIS-2004"@.len());
        reveal_strlit("WINDOWS-31J");
        assert("ISO2022JP"@.len() != "WINDOWS-31J"@.len());
        reveal_strlit("CSWINDOWS31J");
        assert("ISO2022JP"@.len() != "CSWINDOWS31J"@.len());
        reveal_strlit("MS932");
        assert("ISO2022JP"@.len() != "MS932"@.len());
        reveal_strlit("CP932");
        assert("ISO2022JP"@.len() != "CP932"@.len());
        reveal_strlit("EUCJP");
        assert("ISO2022JP"@.len() != "EUCJP"@.len());
        reveal_strlit("EUC-JP");
        assert("ISO2022JP"@.len() != "EUC-JP"@.len());
        reveal_strlit("EUCJP-NKF");
        assert("ISO2022JP"@[0] != "EUCJP-NKF"@[0]);
        assert("ISO2022JP"@ != "EUCJP-NKF"@);
        reveal_strlit("CP51932");
        assert("ISO2022JP"@.len() != "CP51932"@.len());
        reveal_strlit("EUCJP-MS");
        assert("ISO2022JP"@.len() != "EUCJP-MS"@.len());
        reveal_strlit("EUC-JP-MS");
        assert("ISO2022JP"@[0] != "EUC-JP-MS"@[0]);
        assert("ISO2022JP"@ != "EUC-JP-MS"@);
        reveal_strlit("EUCJPMS");
        assert("ISO2022JP"@.len() != "EUCJPMS"@.len());
        reveal_strlit("EUCJP-ASCII");
        assert("ISO2022JP"@.len() != "EUCJP-ASCII"@.len());
        reveal_strlit("EUC-JP-ASCII");
        assert("ISO2022JP"@.len() != "EUC-JP-ASCII"@.len());
    }
    assert(spec_upper_name(s) == "ISO-2022-JP"@ ==> spec_normalize(s) == "ISO-2022-JP"@) by {
        reveal_strlit("ISO-2022-JP");
        reveal_strlit("SJIS");
        assert("ISO-2022-JP"@.len() != "SJIS"@.len());
        reveal_strlit("SHIFT-JIS");
        assert("ISO-2022-JP"@.len() != "SHIFT-JIS"@.len());
        reveal_strlit("SHIFT-JISX0213");
        assert("ISO-2022-JP"@.len() != "SHIFT-JISX0213"@.len());
        reveal_strlit("SHIFT-JIS-X0213");
        assert("ISO-2022-JP"@.len() != "SHIFT-JIS-X0213"@.len());
        reveal_strlit("SHIFT-JIS-2004");
        assert("ISO-2022-JP"@.len() != "SHIFT-JIS-2004"@.len());
        reveal_strlit("WINDOWS-31J");
        assert("ISO-2022-JP"@[0] != "WINDOWS-31J"@[0]);
        assert("ISO-2022-JP"@ != "WINDOWS-31J"@);
        reveal_strlit("CSWINDOWS31J");
        assert("ISO-2022-JP"@.len() != "CSWINDOWS31J"@.len());
        reveal_strlit("MS932");
        assert("ISO-2022-JP"@.len() != "MS932"@.len());
        reveal_strlit("CP932");
        assert("ISO-2022-JP"@.len() != "CP932"@.len());
        reveal_strlit("EUCJP");
        assert("ISO-2022-JP"@.len() != "EUCJP"@.len());
        reveal_strlit("EUC-JP");
        assert("ISO-2022-JP"@.len() != "EUC-JP"@.len());
        reveal_strlit("EUCJP-NKF");
        assert("ISO-2022-JP"@.len() != "EUCJP-NKF"@.len());
        reveal_strlit("CP51932");
        assert("ISO-2022-JP"@.len() != "CP51932"@.len());
        reveal_strlit("EUCJP-MS");
        assert("ISO-2022-JP"@.len() != "EUCJP-MS"@.len());
        reveal_strlit("EUC-JP-MS");
        assert("ISO-2022-JP"@.len() != "EUC-JP-MS"@.len());
        reveal_strlit("EUCJPMS");
        assert("ISO-2022-JP"@.len() != "EUCJPMS"@.len());
        reveal_strlit("EUCJP-ASCII");
        assert("ISO-2022-JP"@[0] != "EUCJP-ASCII"@[0]);
        assert("ISO-2022-JP"@ != "EUCJP-ASCII"@);
        reveal_strlit("EUC-JP-ASCII");
        assert("ISO-2022-JP"@.len() != "EUC-JP-ASCII"@.len());
    }
    assert(spec_upper_name(s) == "ISO2022JP-1"@ ==> spec_normalize(s) == "ISO-2022-JP-1"@) by {
        reveal_strlit("ISO2022JP-1");
        reveal_strlit("SJIS");
        assert("ISO2022JP-1"@.len() != "SJIS"@.len());
        reveal_strlit("SHIFT-JIS");
        assert("ISO2022JP-1"@.len() != "SHIFT-JIS"@.len());
        reveal_strlit("SHIFT-JISX0213");
        assert("ISO2022JP-1"@.len() != "SHIFT-JISX0213"@.len());
        reveal_strlit("SHIFT-JIS-X0213");
        assert("ISO2022JP-1"@.len() != "SHIFT-JIS-X0213"@.len());
        reveal_strlit("SHIFT-JIS-2004");
        assert("ISO2022JP-1"@.len() != "SHIFT-JIS-2004"@.len());
        reveal_strlit("WINDOWS-31J");
        assert("ISO2022JP-1"@[0] != "WINDOWS-31J"@[0]);
        assert("ISO2022JP-1"@ != "WINDOWS-31J"@);
        reveal_strlit("CSWINDOWS31J");
        assert("ISO2022JP-1"@.len() != "CSWINDOWS31J"@.len());
        reveal_strlit("MS932");
        assert("ISO2022JP-1"@.len() != "MS932"@.len());
        reveal_strlit("CP932");
        assert("ISO2022JP-1"@.len() != "CP932"@.len());
        reveal_strlit("EUCJP");
        assert("ISO2022JP-1"@.len() != "EUCJP"@.len());
        reveal_strlit("EUC-JP");
        assert("ISO2022JP-1"@.len() != "EUC-JP"@.len());
        reveal_strlit("EUCJP-NKF");
        assert("ISO2022JP-1"@.len() != "EUCJP-NKF"@.len());
        reveal_strlit("CP51932");
        assert("ISO2022JP-1"@.len() != "CP51932"@.len());
        reveal_strlit("EUCJP-MS");
        assert("ISO2022JP-1"@.len() != "EUCJP-MS"@.len());
        reveal_strlit("EUC-JP-MS");
        assert("ISO2022JP-1"@.len() != "EUC-JP-MS"@.len());
        reveal_strlit("EUCJPMS");
        assert("ISO2022JP-1"@.len() != "EUCJPMS"@.len());
        reveal_strlit("EUCJP-ASCII");
        assert("ISO2022JP-1"@[0] != "EUCJP-ASCII"@[0]);
        assert("ISO2022JP-1"@ != "EUCJP-ASCII"@);
        reveal_strlit("EUC-JP-ASCII");
        assert("ISO2022JP-1"@.len() != "EUC-JP-ASCII"@.len());
        reveal_strlit("JIS");
        assert("ISO2022JP-1"@.len() != "JIS"@.len());
        reveal_strlit("ISO2022JP");
        assert("ISO2022JP-1"@.len() != "ISO2022JP"@.len());
        reveal_strlit("ISO-2022-JP");
        assert("ISO2022JP-1"@[3] != "ISO-2022-JP"@[3]);
        assert("ISO2022JP-1"@ != "ISO-2022-JP"@);
    }
    assert(spec_upper_name(s) == "ISO-2022-JP-1"@ ==> spec_normalize(s) == "ISO-2022-JP-1"@) by {
        reveal_strlit("ISO-2022-JP-1");
        reveal_strlit("SJIS");
        assert("ISO-2022-JP-1"@.len() != "SJIS"@.len());
        reveal_strlit("SHIFT-JIS");
        assert("ISO-2022-JP-1"@.len() != "SHIFT-JIS"@.len());
        reveal_strlit("SHIFT-JISX0213");
        assert("ISO-2022-JP-1"@.len() != "SHIFT-JISX0213"@.len());
        reveal_strlit("SHIFT-JIS-X0213");
        assert("ISO-2022-JP-1"@.len() != "SHIFT-JIS-X0213"@.len());
        reveal_strlit("SHIFT-JIS-2004");
        assert("ISO-2022-JP-1"@.len() != "SHIFT-JIS-2004"@.len());
        reveal_strlit("WINDOWS-31J");
        assert("ISO-2022-JP-1"@.len() != "WINDOWS-31J"@.len());
        reveal_strlit("CSWINDOWS31J");
        assert("ISO-2022-JP-1"@.len() != "CSWINDOWS31J"@.len());
        reveal_strlit("MS932");
        assert("ISO-2022-JP-1"@.len() != "MS932"@.len());
        reveal_strlit("CP932");
        assert("ISO-2022-JP-1"@.len() != "CP932"@.len());
        reveal_strlit("EUCJP");
        assert("ISO-2022-JP-1"@.len() != "EUCJP"@.len());
        reveal_strlit("EUC-JP");
        assert("ISO-2022-JP-1"@.len() != "EUC-JP"@.len());
        reveal_strlit("EUCJP-NKF");
        assert("ISO-2022-JP-1"@.len() != "EUCJP-NKF"@.len());
        reveal_strlit("CP51932");
        assert("ISO-2022-JP-1"@.len() != "CP51932"@.len());
        reveal_strlit("EUCJP-MS");
        assert("ISO-2022-JP-1"@.len() != "EUCJP-MS"@.len());
        reveal_strlit("EUC-JP-MS");
        assert("ISO-2022-JP-1"@.len() != "EUC-JP-MS"@.len());
        reveal_strlit("EUCJPMS");
        assert("ISO-2022-JP-1"@.len() != "EUCJPMS"@.len());
        reveal_strlit("EUCJP-ASCII");
        assert("ISO-2022-JP-1"@.len() != "EUCJP-ASCII"@.len());
        reveal_strlit("EUC-JP-ASCII");
        assert("ISO-2022-JP-1"@.len() != "EUC-JP-ASCII"@.len());
        reveal_strlit("JIS");
        assert("ISO-2022-JP-1"@.len() != "JIS"@.len());
        reveal_strlit("ISO2022JP");
        assert("ISO-2022-JP-1"@.len() != "ISO2022JP"@.len());
        reveal_strlit("ISO-2022-JP");
        assert("ISO-2022-JP-1"@.len() != "ISO-2022-JP"@.len());
    }
    assert(spec_upper_name(s) == "ISO2022JP-3"@ ==> spec_normalize(s) == "ISO-2022-JP-3"@) by {
        reveal_strlit("ISO2022JP-3");
        reveal_strlit("SJIS");
        assert("ISO2022JP-3"@.len() != "SJIS"@.len());
        reveal_strlit("SHIFT-JIS");
        assert("ISO2022JP-3"@.len() != "SHIFT-JIS"@.len());
        reveal_strlit("SHIFT-JISX0213");
        assert("ISO2022JP-3"@.len() != "SHIFT-JISX0213"@.len());
        reveal_strlit("SHIFT-JIS-X0213");
        assert("ISO2022JP-3"@.len() != "SHIFT-JIS-X0213"@.len());
        reveal_strlit("SHIFT-JIS-2004");
        assert("ISO2022JP-3"@.len() != "SHIFT-JIS-2004"@.len());
        reveal_strlit("WINDOWS-31J");
        assert("ISO2022JP-3"@[0] != "WINDOWS-31J"@[0]);
        assert("ISO2022JP-3"@ != "WINDOWS-31J"@);
        reveal_strlit("CSWINDOWS31J");
        assert("ISO2022JP-3"@.len() != "CSWINDOWS31J"@.len());
        reveal_strlit("MS932");
        assert("ISO2022JP-3"@.len() != "MS932"@.len());
        reveal_strlit("CP932");
        assert("ISO2022JP-3"@.len() != "CP932"@.len());
        reveal_strlit("EUCJP");
        assert("ISO2022JP-3"@.len() != "EUCJP"@.len());
        reveal_strlit("EUC-JP");
        assert("ISO2022JP-3"@.len() != "EUC-JP"@.len());
        reveal_strlit("EUCJP-NKF");
        assert("ISO2022JP-3"@.len() != "EUCJP-NKF"@.len());
        reveal_strlit("CP51932");
        assert("ISO2022JP-3"@.len() != "CP51932"@.len());
        reveal_strlit("EUCJP-MS");
        assert("ISO2022JP-3"@.len() != "EUCJP-MS"@.len());
        reveal_strlit("EUC-JP-MS");
        assert("ISO2022JP-3"@.len() != "EUC-JP-MS"@.len());
        reveal_strlit("EUCJPMS");
        assert("ISO2022JP-3"@.len() != "EUCJPMS"@.len());
        reveal_strlit("EUCJP-ASCII");
        assert("ISO2022JP-3"@[0] != "EUCJP-ASCII"@[0]);
        assert("ISO2022JP-3"@ != "EUCJP-ASCII"@);
        reveal_strlit("EUC-JP-ASCII");
        assert("ISO2022JP-3"@.len() != "EUC-JP-ASCII"@.len());
        reveal_strlit("JIS");
        assert("ISO2022JP-3"@.len() != "JIS"@.len());
        reveal_strlit("ISO2022JP");
        assert("ISO2022JP-3"@.len() != "ISO2022JP"@.len());
        reveal_strlit("ISO-2022-JP");
        assert("ISO2022JP-3"@[3] != "ISO-2022-JP"@[3]);
        assert("ISO2022JP-3"@ != "ISO-2022-JP"@);
        reveal_strlit("ISO2022JP-1");
        assert("ISO2022JP-3"@[10] != "ISO2022JP-1"@[10]);
        assert("ISO2022JP-3"@ != "ISO2022JP-1"@);
        reveal_strlit("ISO-2022-JP-1");
        assert("ISO2022JP-3"@.len() != "ISO-2022-JP-1"@.len());
    }
    assert(spec_upper_name(s) == "ISO-2022-JP-3"@ ==> spec_normalize(s) == "ISO-2022-JP-3"@) by {
        reveal_strlit("ISO-2022-JP-3");
        reveal_strlit("SJIS");
        assert("ISO-2022-JP-3"@.len() != "SJIS"@.len());
        reveal_strlit("SHIFT-JIS");
        assert("ISO-2022-JP-3"@.len() != "SHIFT-JIS"@.len());
        reveal_strlit("SHIFT-JISX0213");
        assert("ISO-2022-JP-3"@.len() != "SHIFT-JISX0213"@.len());
        reveal_strlit("SHIFT-JIS-X0213");
        assert("ISO-2022-JP-3"@.len() != "SHIFT-JIS-X0213"@.len());
        reveal_strlit("SHIFT-JIS-2004");
        assert("ISO-2022-JP-3"@.len() != "SHIFT-JIS-2004"@.len());
        reveal_strlit("WINDOWS-31J");
        assert("ISO-2022-JP-3"@.len() != "WINDOWS-31J"@.len());
        reveal_strlit("CSWINDOWS31J");
        assert("ISO-2022-JP-3"@.len() != "CSWINDOWS31J"@.len());
        reveal_strlit("MS932");
        assert("ISO-2022-JP-3"@.len() != "MS932"@.len());
        reveal_strlit("CP932");
        assert("ISO-2022-JP-3"@.len() != "CP932"@.len());
        reveal_strlit("EUCJP");
        assert("ISO-2022-JP-3"@.len() != "EUCJP"@.len());
        reveal_strlit("EUC-JP");
        assert("ISO-2022-JP-3"@.len() != "EUC-JP"@.len());
        reveal_strlit("EUCJP-NKF");
        assert("ISO-2022-JP-3"@.len() != "EUCJP-NKF"@.len());
        reveal_strlit("CP51932");
        assert("ISO-2022-JP-3"@.len() != "CP51932"@.len());
        reveal_strlit("EUCJP-MS");
        assert("ISO-2022-JP-3"@.len() != "EUCJP-MS"@.len());
        reveal_strlit("EUC-JP-MS");
        assert("ISO-2022-JP-3"@.len() != "EUC-JP-MS"@.len());
        reveal_strlit("EUCJPMS");
        assert("ISO-2022-JP-3"@.len() != "EUCJPMS"@.len());
        reveal_strlit("EUCJP-ASCII");
        assert("ISO-2022-JP-3"@.len() != "EUCJP-ASCII"@.len());
        reveal_strlit("EUC-JP-ASCII");
        assert("ISO-2022-JP-3"@.len() != "EUC-JP-ASCII"@.len());
        reveal_strlit("JIS");
        assert("ISO-2022-JP-3"@.len() != "JIS"@.len());
        reveal_strlit("ISO2022JP");
        assert("ISO-2022-JP-3"@.len() != "ISO2022JP"@.len());
        reveal_strlit("ISO-2022-JP");
        assert("ISO-2022-JP-3"@.len() != "ISO-2022-JP"@.len());
        reveal_strlit("ISO2022JP-1");
        assert("ISO-2022-JP-3"@.len() != "ISO2022JP-1"@.len());
        reveal_strlit("ISO-2022-JP-1");
        assert("ISO-2022-JP-3"@[12] != "ISO-2022-JP-1"@[12]);
        assert("ISO-2022-JP-3"@ != "ISO-2022-JP-1"@);
    }
    assert(spec_upper_name(s) == "ISO2022JP-2004"@ ==> spec_normalize(s) == "ISO-2022-JP-2004"@) by {
        reveal_strlit("ISO2022JP-2004");
        reveal_strlit("SJIS");
        assert("ISO2022JP-2004"@.len() != "SJIS"@.len());
        reveal_strlit("SHIFT-JIS");
        assert("ISO2022JP-2004"@.len() != "SHIFT-JIS"@.len());
        reveal_strlit("SHIFT-JISX0213");
        assert("ISO2022JP-2004"@[0] != "SHIFT-JISX0213"@[0]);
        assert("ISO2022JP-2004"@ != "SHIFT-JISX0213"@);
        reveal_strlit("SHIFT-JIS-X0213");
        assert("ISO2022JP-2004"@.len() != "SHIFT-JIS-X0213"@.len());
        reveal_strlit("SHIFT-JIS-2004");
        assert("ISO2022JP-2004"@[0] != "SHIFT-JIS-2004"@[0]);
        assert("ISO2022JP-2004"@ != "SHIFT-JIS-2004"@);
        reveal_strlit("WINDOWS-31J");
        assert("ISO2022JP-2004"@.len() != "WINDOWS-31J"@.len());
        reveal_strlit("CSWINDOWS31J");
        assert("ISO2022JP-2004"@.len() != "CSWINDOWS31J"@.len());
        reveal_strlit("MS932");
        assert("ISO2022JP-2004"@.len() != "MS932"@.len());
        reveal_strlit("CP932");
        assert("ISO2022JP-2004"@.len() != "CP932"@.len());
        reveal_strlit("EUCJP");
        assert("ISO2022JP-2004"@.len() != "EUCJP"@.len());
        reveal_strlit("EUC-JP");
        assert("ISO2022JP-2004"@.len() != "EUC-JP"@.len());
        reveal_strlit("EUCJP-NKF");
        assert("ISO2022JP-2004"@.len() != "EUCJP-NKF"@.len());
        reveal_strlit("CP51932");
        assert("ISO2022JP-2004"@.len() != "CP51932"@.len());
        reveal_strlit("EUCJP-MS");
        assert("ISO2022JP-2004"@.len() != "EUCJP-MS"@.len());
        reveal_strlit("EUC-JP-MS");
        assert("ISO2022JP-2004"@.len() != "EUC-JP-MS"@.len());
        reveal_strlit("EUCJPMS");
        assert("ISO2022JP-2004"@.len() != "EUCJPMS"@.len());
        reveal_strlit("EUCJP-ASCII");
        assert("ISO2022JP-2004"@.len() != "EUCJP-ASCII"@.len());
        reveal_strlit("EUC-JP-ASCII");
        assert("ISO2022JP-2004"@.len() != "EUC-JP-ASCII"@.len());
        reveal_strlit("JIS");
        assert("ISO2022JP-2004"@.len() != "JIS"@.len());
        reveal_strlit("ISO2022JP");
        assert("ISO2022JP-2004"@.len() != "ISO2022JP"@.len());
        reveal_strlit("ISO-2022-JP");
        assert("ISO2022JP-2004"@.len() != "ISO-2022-JP"@.len());
        reveal_strlit("ISO2022JP-1");
        assert("ISO2022JP-2004"@.len() != "ISO2022JP-1"@.len());
        reveal_strlit("ISO-2022-JP-1");
        assert("ISO2022JP-2004"@.len() != "ISO-2022-JP-1"@.len());
        reveal_strlit("ISO2022JP-3");
        assert("ISO2022JP-2004"@.len() != "ISO2022JP-3"@.len());
        reveal_strlit("ISO-2022-JP-3");
        assert("ISO2022JP-2004"@.len() != "ISO-2022-JP-3"@.len());
    }
    assert(spec_upper_name(s) == "ISO-2022-JP-2004"@ ==> spec_normalize(s) == "ISO-2022-JP-2004"@) by {
        reveal_strlit("ISO-2022-JP-2004");
        reveal_strlit("SJIS");
        assert("ISO-2022-JP-2004"@.len() != "SJIS"@.len());
        reveal_strlit("SHIFT-JIS");
        assert("ISO-2022-JP-2004"@.len() != "SHIFT-JIS"@.len());
        reveal_strlit("SHIFT-JISX0213");
        assert("ISO-2022-JP-2004"@.len() != "SHIFT-JISX0213"@.len());
        reveal_strlit("SHIFT-JIS-X0213");
        assert("ISO-2022-JP-2004"@.len() != "SHIFT-JIS-X0213"@.len());
        reveal_strlit("SHIFT-JIS-2004");
        assert("ISO-2022-JP-2004"@.len() != "SHIFT-JIS-2004"@.len());
        reveal_strlit("WINDOWS-31J");
        assert("ISO-2022-JP-2004"@.len() != "WINDOWS-31J"@.len());
        reveal_strlit("CSWINDOWS31J");
        assert("ISO-2022-JP-2004"@.len() != "CSWINDOWS31J"@.len());
        reveal_strlit("MS932");
        assert("ISO-2022-JP-2004"@.len() != "MS932"@.len());
        reveal_strlit("CP932");
        assert("ISO-2022-JP-2004"@.len() != "CP932"@.len());
        reveal_strlit("EUCJP");
        assert("ISO-2022-JP-2004"@.len() != "EUCJP"@.len());
        reveal_strlit("EUC-JP");
        assert("ISO-2022-JP-2004"@.len() != "EUC-JP"@.len());
        reveal_strlit("EUCJP-NKF");
        assert("ISO-2022-JP-2004"@.len() != "EUCJP-NKF"@.len());
        reveal_strlit("CP51932");
        assert("ISO-2022-JP-2004"@.len() != "CP51932"@.len());
        reveal_strlit("EUCJP-MS");
        assert("ISO-2022-JP-2004"@.len() != "EUCJP-MS"@.len());
        reveal_strlit("EUC-JP-MS");
        assert("ISO-2022-JP-2004"@.len() != "EUC-JP-MS"@.len());
        reveal_strlit("EUCJPMS");
        assert("ISO-2022-JP-2004"@.len() != "EUCJPMS"@.len());
        reveal_strlit("EUCJP-ASCII");
        assert("ISO-2022-JP-2004"@.len() != "EUCJP-ASCII"@.len());
        reveal_strlit("EUC-JP-ASCII");
        assert("ISO-2022-JP-2004"@.len() != "EUC-JP-ASCII"@.len());
        reveal_strlit("JIS");
        assert("ISO-2022-JP-2004"@.len() != "JIS"@.len());
        reveal_strlit("ISO2022JP");
        assert("ISO-2022-JP-2004"@.len() != "ISO2022JP"@.len());
        reveal_strlit("ISO-2022-JP");
        assert("ISO-2022-JP-2004"@.len() != "ISO-2022-JP"@.len());
        reveal_strlit("ISO2022JP-1");
        assert("ISO-2022-JP-2004"@.len() != "ISO2022JP-1"@.len());
        reveal_strlit("ISO-2022-JP-1");
        assert("ISO-2022-JP-2004"@.len() != "ISO-2022-JP-1"@.len());
        reveal_strlit("ISO2022JP-3");
        assert("ISO-2022-JP-2004"@.len() != "ISO2022JP-3"@.len());
        reveal_strlit("ISO-2022-JP-3");
        assert("ISO-2022-JP-2004"@.len() != "ISO-2022-JP-3"@.len());
    }
    assert(spec_upper_name(s) == "ISO2022JP-CP932"@ ==> spec_normalize(s) == "CP50220"@) by {
        reveal_strlit("ISO2022JP-CP932");
        reveal_strlit("SJIS");
        assert("ISO2022JP-CP932"@.len() != "SJIS"@.len());
        reveal_strlit("SHIFT-JIS");
        assert("ISO2022JP-CP932"@.len() != "SHIFT-JIS"@.len());
        reveal_strlit("SHIFT-JISX0213");
        assert("ISO2022JP-CP932"@.len() != "SHIFT-JISX0213"@.len());
        reveal_strlit("SHIFT-JIS-X0213");
        assert("ISO2022JP-CP932"@[0] != "SHIFT-JIS-X0213"@[0]);
        assert("ISO2022JP-CP932"@ != "SHIFT-JIS-X0213"@);
        reveal_strlit("SHIFT-JIS-2004");
        assert("ISO2022JP-CP932"@.len() != "SHIFT-JIS-2004"@.len());
        reveal_strlit("WINDOWS-31J");
        assert("ISO2022JP-CP932"@.len() != "WINDOWS-31J"@.len());
        reveal_strlit("CSWINDOWS31J");
        assert("ISO2022JP-CP932"@.len() != "CSWINDOWS31J"@.len());
        reveal_strlit("MS932");
        assert("ISO2022JP-CP932"@.len() != "MS932"@.len());
        reveal_strlit("CP932");
        assert("ISO2022JP-CP932"@.len() != "CP932"@.len());
        reveal_strlit("EUCJP");
        assert("ISO2022JP-CP932"@.len() != "EUCJP"@.len());
        reveal_strlit("EUC-JP");
        assert("ISO2022JP-CP932"@.len() != "EUC-JP"@.len());
        reveal_strlit("EUCJP-NKF");
        assert("ISO2022JP-CP932"@.len() != "EUCJP-NKF"@.len());
        reveal_strlit("CP51932");
        assert("ISO2022JP-CP932"@.len() != "CP51932"@.len());
        reveal_strlit("EUCJP-MS");
        assert("ISO2022JP-CP932"@.len() != "EUCJP-MS"@.len());
        reveal_strlit("EUC-JP-MS");
        assert("ISO2022JP-CP932"@.len() != "EUC-JP-MS"@.len());
        reveal_strlit("EUCJPMS");
        assert("ISO2022JP-CP932"@.len() != "EUCJPMS"@.len());
        reveal_strlit("EUCJP-ASCII");
        assert("ISO2022JP-CP932"@.len() != "EUCJP-ASCII"@.len());
        reveal_strlit("EUC-JP-ASCII");
        assert("ISO2022JP-CP932"@.len() != "EUC-JP-ASCII"@.len());
        reveal_strlit("JIS");
        assert("ISO2022JP-CP932"@.len() != "JIS"@.len());
        reveal_strlit("ISO2022JP");
        assert("ISO2022JP-CP932"@.len() != "ISO2022JP"@.len());
        reveal_strlit("ISO-2022-JP");
        assert("ISO2022JP-CP932"@.len() != "ISO-2022-JP"@.len());
        reveal_strlit("ISO2022JP-1");
        assert("ISO2022JP-CP932"@.len() != "ISO2022JP-1"@.len());
        reveal_strlit("ISO-2022-JP-1");
        assert("ISO2022JP-CP932"@.len() != "ISO-2022-JP-1"@.len());
        reveal_strlit("ISO2022JP-3");
        assert("ISO2022JP-CP932"@.len() != "ISO2022JP-3"@.len());
        reveal_strlit("ISO-2022-JP-3");
        assert("ISO2022JP-CP932"@.len() != "ISO-2022-JP-3"@.len());
        reveal_strlit("ISO2022JP-2004");
        assert("ISO2022JP-CP932"@.len() != "ISO2022JP-2004"@.len());
        reveal_strlit("ISO-2022-JP-2004");
        assert("ISO2022JP-CP932"@.len() != "ISO-2022-JP-2004"@.len());
    }
    assert(spec_upper_name(s) == "ISO-2022-JP-CP932"@ ==> spec_normalize(s) == "CP50220"@) by {
        reveal_strlit("ISO-2022-JP-CP932");
        reveal_strlit("SJIS");
        assert("ISO-2022-JP-CP932"@.len() != "SJIS"@.len());
        reveal_strlit("SHIFT-JIS");
        assert("ISO-2022-JP-CP932"@.len() != "SHIFT-JIS"@.len());
        reveal_strlit("SHIFT-JISX0213");
        assert("ISO-2022-JP-CP932"@.len() != "SHIFT-JISX0213"@.len());
        reveal_strlit("SHIFT-JIS-X0213");
        assert("ISO-2022-JP-CP932"@.len() != "SHIFT-JIS-X0213"@.len());
        reveal_strlit("SHIFT-JIS-2004");
        assert("ISO-2022-JP-CP932"@.len() != "SHIFT-JIS-2004"@.len());
        reveal_strlit("WINDOWS-31J");
        assert("ISO-2022-JP-CP932"@.len() != "WINDOWS-31J"@.len());
        reveal_strlit("CSWINDOWS31J");
        assert("ISO-2022-JP-CP932"@.len() != "CSWINDOWS31J"@.len());
        reveal_strlit("MS932");
        assert("ISO-2022-JP-CP932"@.len() != "MS932"@.len());
        reveal_strlit("CP932");
        assert("ISO-2022-JP-CP932"@.len() != "CP932"@.len());
        reveal_strlit("EUCJP");
        assert("ISO-2022-JP-CP932"@.len() != "EUCJP"@.len());
        reveal_strlit("EUC-JP");
        assert("ISO-2022-JP-CP932"@.len() != "EUC-JP"@.len());
        reveal_strlit("EUCJP-NKF");
        assert("ISO-2022-JP-CP932"@.len() != "EUCJP-NKF"@.len());
        reveal_strlit("CP51932");
        assert("ISO-2022-JP-CP932"@.len() != "CP51932"@.len());
        reveal_strlit("EUCJP-MS");
        assert("ISO-2022-JP-CP932"@.len() != "EUCJP-MS"@.len());
        reveal_strlit("EUC-JP-MS");
        assert("ISO-2022-JP-CP932"@.len() != "EUC-JP-MS"@.len());
        reveal_strlit("EUCJPMS");
        assert("ISO-2022-JP-CP932"@.len() != "EUCJPMS"@.len());
        reveal_strlit("EUCJP-ASCII");
        assert("ISO-2022-JP-CP932"@.len() != "EUCJP-ASCII"@.len());
        reveal_strlit("EUC-JP-ASCII");
        assert("ISO-2022-JP-CP932"@.len() != "EUC-JP-ASCII"@.len());
        reveal_strlit("JIS");
        assert("ISO-2022-JP-CP932"@.len() != "JIS"@.len());
        reveal_strlit("ISO2022JP");
        assert("ISO-2022-JP-CP932"@.len() != "ISO2022JP"@.len());
        reveal_strlit("ISO-2022-JP");
        assert("ISO-2022-JP-CP932"@.len() != "ISO-2022-JP"@.len());
        reveal_strlit("ISO2022JP-1");
        assert("ISO-2022-JP-CP932"@.len() != "ISO2022JP-1"@.len());
        reveal_strlit("ISO-2022-JP-1");
        assert("ISO-2022-JP-CP932"@.len() != "ISO-2022-JP-1"@.len());
        reveal_strlit("ISO2022JP-3");
        assert("ISO-2022-JP-CP932"@.len() != "ISO2022JP-3"@.len());
        reveal_strlit("ISO-2022-JP-3");
        assert("ISO-2022-JP-CP932"@.len() != "ISO-2022-JP-3"@.len());
        reveal_strlit("ISO2022JP-2004");
        assert("ISO-2022-JP-CP932"@.len() != "ISO2022JP-2004"@.len());
        reveal_strlit("ISO-2022-JP-2004");
        assert("ISO-2022-JP-CP932"@.len() != "ISO-2022-JP-2004"@.len());
    }
    assert(spec_upper_name(s) == "CP50220"@ ==> spec_normalize(s) == "CP50220"@) by {
        reveal_strlit("CP50220");
        reveal_strlit("SJIS");
        assert("CP50220"@.len() != "SJIS"@.len());
        reveal_strlit("SHIFT-JIS");
        assert("CP50220"@.len() != "SHIFT-JIS"@.len());
        reveal_strlit("SHIFT-JISX0213");
        assert("CP50220"@.len() != "SHIFT-JISX0213"@.len());
        reveal_strlit("SHIFT-JIS-X0213");
        assert("CP50220"@.len() != "SHIFT-JIS-X0213"@.len());
        reveal_strlit("SHIFT-JIS-2004");
        assert("CP50220"@.len() != "SHIFT-JIS-2004"@.len());
        reveal_strlit("WINDOWS-31J");
        assert("CP50220"@.len() != "WINDOWS-31J"@.len());
        reveal_strlit("CSWINDOWS31J");
        assert("CP50220"@.len() != "CSWINDOWS31J"@.len());
        reveal_strlit("MS932");
        assert("CP50220"@.len() != "MS932"@.len());
        reveal_strlit("CP932");
        assert("CP50220"@.len() != "CP932"@.len());
        reveal_strlit("EUCJP");
        assert("CP50220"@.len() != "EUCJP"@.len());
        reveal_strlit("EUC-JP");
        assert("CP50220"@.len() != "EUC-JP"@.len());
        reveal_strlit("EUCJP-NKF");
        assert("CP50220"@.len() != "EUCJP-NKF"@.len());
        reveal_strlit("CP51932");
        assert("CP50220"@[3] != "CP51932"@[3]);
        assert("CP50220"@ != "CP51932"@);
        reveal_strlit("EUCJP-MS");
        assert("CP50220"@.len() != "EUCJP-MS"@.len());
        reveal_strlit("EUC-JP-MS");
        assert("CP50220"@.len() != "EUC-JP-MS"@.len());
        reveal_strlit("EUCJPMS");
        assert("CP50220"@[0] != "EUCJPMS"@[0]);
        assert("CP50220"@ != "EUCJPMS"@);
        reveal_strlit("EUCJP-ASCII");
        assert("CP50220"@.len() != "EUCJP-ASCII"@.len());
        reveal_strlit("EUC-JP-ASCII");
        assert("CP50220"@.len() != "EUC-JP-ASCII"@.len());
        reveal_strlit("JIS");
        assert("CP50220"@.len() != "JIS"@.len());
        reveal_strlit("ISO2022JP");
        assert("CP50220"@.len() != "ISO2022JP"@.len());
        reveal_strlit("ISO-2022-JP");
        assert("CP50220"@.len() != "ISO-2022-JP"@.len());
        reveal_strlit("ISO2022JP-1");
        assert("CP50220"@.len() != "ISO2022JP-1"@.len());
        reveal_strlit("ISO-2022-JP-1");
        assert("CP50220"@.len() != "ISO-2022-JP-1"@.len());
        reveal_strlit("ISO2022JP-3");
        assert("CP50220"@.len() != "ISO2022JP-3"@.len());
        reveal_strlit("ISO-2022-JP-3");
        assert("CP50220"@.len() != "ISO-2022-JP-3"@.len());
        reveal_strlit("ISO2022JP-2004");
        assert("CP50220"@.len() != "ISO2022JP-2004"@.len());
        reveal_strlit("ISO-2022-JP-2004");
        assert("CP50220"@.len() != "ISO-2022-JP-2004"@.len());
    }
    assert(spec_upper_name(s) == "CSISO2022JP"@ ==> spec_normalize(s) == "CP50221"@) by {
        reveal_strlit("CSISO2022JP");
        reveal_strlit("SJIS");
        assert("CSISO2022JP"@.len() != "SJIS"@.len());
        reveal_strlit("SHIFT-JIS");
        assert("CSISO2022JP"@.len() != "SHIFT-JIS"@.len());
        reveal_strlit("SHIFT-JISX0213");
        assert("CSISO2022JP"@.len() != "SHIFT-JISX0213"@.len());
        reveal_strlit("SHIFT-JIS-X0213");
        assert("CSISO2022JP"@.len() != "SHIFT-JIS-X0213"@.len());
        reveal_strlit("SHIFT-JIS-2004");
        assert("CSISO2022JP"@.len() != "SHIFT-JIS-2004"@.len());
        reveal_strlit("WINDOWS-31J");
        assert("CSISO2022JP"@[0] != "WINDOWS-31J"@[0]);
        assert("CSISO2022JP"@ != "WINDOWS-31J"@);
        reveal_strlit("CSWINDOWS31J");
        assert("CSISO2022JP"@.len() != "CSWINDOWS31J"@.len());
        reveal_strlit("MS932");
        assert("CSISO2022JP"@.len() != "MS932"@.len());
        reveal_strlit("CP932");
        assert("CSISO2022JP"@.len() != "CP932"@.len());
        reveal_strlit("EUCJP");
        assert("CSISO2022JP"@.len() != "EUCJP"@.len());
        reveal_strlit("EUC-JP");
        assert("CSISO2022JP"@.len() != "EUC-JP"@.len());
        reveal_strlit("EUCJP-NKF");
        assert("CSISO2022JP"@.len() != "EUCJP-NKF"@.len());
        reveal_strlit("CP51932");
        assert("CSISO2022JP"@.len() != "CP51932"@.len());
        reveal_strlit("EUCJP-MS");
        assert("CSISO2022JP"@.len() != "EUCJP-MS"@.len());
        reveal_strlit("EUC-JP-MS");
        assert("CSISO2022JP"@.len() != "EUC-JP-MS"@.len());
        reveal_strlit("EUCJPMS");
        assert("CSISO2022JP"@.len() != "EUCJPMS"@.len());
        reveal_strlit("EUCJP-ASCII");
        assert("CSISO2022JP"@[0] != "EUCJP-ASCII"@[0]);
        assert("CSISO2022JP"@ != "EUCJP-ASCII"@);
        reveal_strlit("EUC-JP-ASCII");
        assert("CSISO2022JP"@.len() != "EUC-JP-ASCII"@.len());
        reveal_strlit("JIS");
        assert("CSISO2022JP"@.len() != "JIS"@.len());
        reveal_strlit("ISO2022JP");
        assert("CSISO2022JP"@.len() != "ISO2022JP"@.len());
        reveal_strlit("ISO-2022-JP");
        assert("CSISO2022JP"@[0] != "ISO-2022-JP"@[0]);
        assert("CSISO2022JP"@ != "ISO-2022-JP"@);
        reveal_strlit("ISO2022JP-1");
        assert("CSISO2022JP"@[0] != "ISO2022JP-1"@[0]);
        assert("CSISO2022JP"@ != "ISO2022JP-1"@);
        reveal_strlit("ISO-2022-JP-1");
        assert("CSISO2022JP"@.len() != "ISO-2022-JP-1"@.len());
        reveal_strlit("ISO2022JP-3");
        assert("CSISO2022JP"@[0] != "ISO2022JP-3"@[0]);
        assert("CSISO2022JP"@ != "ISO2022JP-3"@);
        reveal_strlit("ISO-2022-JP-3");
        assert("CSISO2022JP"@.len() != "ISO-2022-JP-3"@.len());
        reveal_strlit("ISO2022JP-2004");
        assert("CSISO2022JP"@.len() != "ISO2022JP-2004"@.len());
        reveal_strlit("ISO-2022-JP-2004");
        assert("CSISO2022JP"@.len() != "ISO-2022-JP-2004"@.len());
        reveal_strlit("ISO2022JP-CP932");
        assert("CSISO2022JP"@.len() != "ISO2022JP-CP932"@.len());
        reveal_strlit("ISO-2022-JP-CP932");
        assert("CSISO2022JP"@.len() != "ISO-2022-JP-CP932"@.len());
        reveal_strlit("CP50220");
        assert("CSISO2022JP"@.len() != "CP50220"@.len());
    }
    assert(spec_upper_name(s) == "CP50221"@ ==> spec_normalize(s) == "CP50221"@) by {
        reveal_strlit("CP50221");
        reveal_strlit("SJIS");
        assert("CP50221"@.len() != "SJIS"@.len());
        reveal_strlit("SHIFT-JIS");
        assert("CP50221"@.len() != "SHIFT-JIS"@.len());
        reveal_strlit("SHIFT-JISX0213");
        assert("CP50221"@.len() != "SHIFT-JISX0213"@.len());
        reveal_strlit("SHIFT-JIS-X0213");
        assert("CP50221"@.len() != "SHIFT-JIS-X0213"@.len());
        reveal_strlit("SHIFT-JIS-2004");
        assert("CP50221"@.len() != "SHIFT-JIS-2004"@.len());
        reveal_strlit("WINDOWS-31J");
        assert("CP50221"@.len() != "WINDOWS-31J"@.len());
        reveal_strlit("CSWINDOWS31J");
        assert("CP50221"@.len() != "CSWINDOWS31J"@.len());
        reveal_strlit("MS932");
        assert("CP50221"@.len() != "MS932"@.len());
        reveal_strlit("CP932");
        assert("CP50221"@.len() != "CP932"@.len());
        reveal_strlit("EUCJP");
        assert("CP50221"@.len() != "EUCJP"@.len());
        reveal_strlit("EUC-JP");
        assert("CP50221"@.len() != "EUC-JP"@.len());
        reveal_strlit("EUCJP-NKF");
        assert("CP50221"@.len() != "EUCJP-NKF"@.len());
        reveal_strlit("CP51932");
        assert("CP50221"@[3] != "CP51932"@[3]);
        assert("CP50221"@ != "CP51932"@);
        reveal_strlit("EUCJP-MS");
        assert("CP50221"@.len() != "EUCJP-MS"@.len());
        reveal_strlit("EUC-JP-MS");
        assert("CP50221"@.len() != "EUC-JP-MS"@.len());
        reveal_strlit("EUCJPMS");
        assert("CP50221"@[0] != "EUCJPMS"@[0]);
        assert("CP50221"@ != "EUCJPMS"@);
        reveal_strlit("EUCJP-ASCII");
        assert("CP50221"@.len() != "EUCJP-ASCII"@.len());
        reveal_strlit("EUC-JP-ASCII");
        assert("CP50221"@.len() != "EUC-JP-ASCII"@.len());
        reveal_strlit("JIS");
        assert("CP50221"@.len() != "JIS"@.len());
        reveal_strlit("ISO2022JP");
        assert("CP50221"@.len() != "ISO2022JP"@.len());
        reveal_strlit("ISO-2022-JP");
        assert("CP50221"@.len() != "ISO-2022-JP"@.len());
        reveal_strlit("ISO2022JP-1");
        assert("CP50221"@.len() != "ISO2022JP-1"@.len());
        reveal_strlit("ISO-2022-JP-1");
        assert("CP50221"@.len() != "ISO-2022-JP-1"@.len());
        reveal_strlit("ISO2022JP-3");
        assert("CP50221"@.len() != "ISO2022JP-3"@.len());
        reveal_strlit("ISO-2022-JP-3");
        assert("CP50221"@.len() != "ISO-2022-JP-3"@.len());
        reveal_strlit("ISO2022JP-2004");
        assert("CP50221"@.len() != "ISO2022JP-2004"@.len());
        reveal_strlit("ISO-2022-JP-2004");
        assert("CP50221"@.len() != "ISO-2022-JP-2004"@.len());
        reveal_strlit("ISO2022JP-CP932");
        assert("CP50221"@.len() != "ISO2022JP-CP932"@.len());
        reveal_strlit("ISO-2022-JP-CP932");
        assert("CP50221"@.len() != "ISO-2022-JP-CP932"@.len());
        reveal_strlit("CP50220");
        assert("CP50221"@[6] != "CP50220"@[6]);
        assert("CP50221"@ != "CP50220"@);
    }
    assert(spec_upper_name(s) == "CP50222"@ ==> spec_normalize(s) == "CP50222"@) by {
        reveal_strlit("CP50222");
        reveal_strlit("SJIS");
        assert("CP50222"@.len() != "SJIS"@.len());
        reveal_strlit("SHIFT-JIS");
        assert("CP50222"@.len() != "SHIFT-JIS"@.len());
        reveal_strlit("SHIFT-JISX0213");
        assert("CP50222"@.len() != "SHIFT-JISX0213"@.len());
        reveal_strlit("SHIFT-JIS-X0213");
        assert("CP50222"@.len() != "SHIFT-JIS-X0213"@.len());
        reveal_strlit("SHIFT-JIS-2004");
        assert("CP50222"@.len() != "SHIFT-JIS-2004"@.len());
        reveal_strlit("WINDOWS-31J");
        assert("CP50222"@.len() != "WINDOWS-31J"@.len());
        reveal_strlit("CSWINDOWS31J");
        assert("CP50222"@.len() != "CSWINDOWS31J"@.len());
        reveal_strlit("MS932");
        assert("CP50222"@.len() != "MS932"@.len());
        reveal_strlit("CP932");
        assert("CP50222"@.len() != "CP932"@.len());
        reveal_strlit("EUCJP");
        assert("CP50222"@.len() != "EUCJP"@.len());
        reveal_strlit("EUC-JP");
        assert("CP50222"@.len() != "EUC-JP"@.len());
        reveal_strlit("EUCJP-NKF");
        assert("CP50222"@.len() != "EUCJP-NKF"@.len());
        reveal_strlit("CP51932");
        assert("CP50222"@[3] != "CP51932"@[3]);
        assert("CP50222"@ != "CP51932"@);
        reveal_strlit("EUCJP-MS");
        assert("CP50222"@.len() != "EUCJP-MS"@.len());
        reveal_strlit("EUC-JP-MS");
        assert("CP50222"@.len() != "EUC-JP-MS"@.len());
        reveal_strlit("EUCJPMS");
        assert("CP50222"@[0] != "EUCJPMS"@[0]);
        assert("CP50222"@ != "EUCJPMS"@);
        reveal_strlit("EUCJP-ASCII");
        assert("CP50222"@.len() != "EUCJP-ASCII"@.len());
        reveal_strlit("EUC-JP-ASCII");
        assert("CP50222"@.len() != "EUC-JP-ASCII"@.len());
        reveal_strlit("JIS");
        assert("CP50222"@.len() != "JIS"@.len());
        reveal_strlit("ISO2022JP");
        assert("CP50222"@.len() != "ISO2022JP"@.len());
        reveal_strlit("ISO-2022-JP");
        assert("CP50222"@.len() != "ISO-2022-JP"@.len());
        reveal_strlit("ISO2022JP-1");
        assert("CP50222"@.len() != "ISO2022JP-1"@.len());
        reveal_strlit("ISO-2022-JP-1");
        assert("CP50222"@.len() != "ISO-2022-JP-1"@.len());
        reveal_strlit("ISO2022JP-3");
        assert("CP50222"@.len() != "ISO2022JP-3"@.len());
        reveal_strlit("ISO-2022-JP-3");
        assert("CP50222"@.len() != "ISO-2022-JP-3"@.len());
        reveal_strlit("ISO2022JP-2004");
        assert("CP50222"@.len() != "ISO2022JP-2004"@.len());
        reveal_strlit("ISO-2022-JP-2004");
        assert("CP50222"@.len() != "ISO-2022-JP-2004"@.len());
        reveal_strlit("ISO2022JP-CP932");
        assert("CP50222"@.len() != "ISO2022JP-CP932"@.len());
        reveal_strlit("ISO-2022-JP-CP932");
        assert("CP50222"@.len() != "ISO-2022-JP-CP932"@.len());
        reveal_strlit("CP50220");
        assert("CP50222"@[6] != "CP50220"@[6]);
        assert("CP50222"@ != "CP50220"@);
        reveal_strlit("CSISO2022JP");
        assert("CP50222"@.len() != "CSISO2022JP"@.len());
        reveal_strlit("CP50221");
        assert("CP50222"@[6] != "CP50221"@[6]);
        assert("CP50222"@ != "CP50221"@);
    }
    assert(spec_upper_name(s) == "CP10001"@ ==> spec_normalize(s) == "CP10001"@) by {
        reveal_strlit("CP10001");
        reveal_strlit("SJIS");
        assert("CP10001"@.len() != "SJIS"@.len());
        reveal_strlit("SHIFT-JIS");
        assert("CP10001"@.len() != "SHIFT-JIS"@.len());
        reveal_strlit("SHIFT-JISX0213");
        assert("CP10001"@.len() != "SHIFT-JISX0213"@.len());
        reveal_strlit("SHIFT-JIS-X0213");
        assert("CP10001"@.len() != "SHIFT-JIS-X0213"@.len());
        reveal_strlit("SHIFT-JIS-2004");
        assert("CP10001"@.len() != "SHIFT-JIS-2004"@.len());
        reveal_strlit("WINDOWS-31J");
        assert("CP10001"@.len() != "WINDOWS-31J"@.len());
        reveal_strlit("CSWINDOWS31J");
        assert("CP10001"@.len() != "CSWINDOWS31J"@.len());
        reveal_strlit("MS932");
        assert("CP10001"@.len() != "MS932"@.len());
        reveal_strlit("CP932");
        assert("CP10001"@.len() != "CP932"@.len());
        reveal_strlit("EUCJP");
        assert("CP10001"@.len() != "EUCJP"@.len());
        reveal_strlit("EUC-JP");
        assert("CP10001"@.len() != "EUC-JP"@.len());
        reveal_strlit("EUCJP-NKF");
        assert("CP10001"@.len() != "EUCJP-NKF"@.len());
        reveal_strlit("CP51932");
        assert("CP10001"@[2] != "CP51932"@[2]);
        assert("CP10001"@ != "CP51932"@);
        reveal_strlit("EUCJP-MS");
        assert("CP10001"@.len() != "EUCJP-MS"@.len());
        reveal_strlit("EUC-JP-MS");
        assert("CP10001"@.len() != "EUC-JP-MS"@.len());
        reveal_strlit("EUCJPMS");
        assert("CP10001"@[0] != "EUCJPMS"@[0]);
        assert("CP10001"@ != "EUCJPMS"@);
        reveal_strlit("EUCJP-ASCII");
        assert("CP10001"@.len() != "EUCJP-ASCII"@.len());
        reveal_strlit("EUC-JP-ASCII");
        assert("CP10001"@.len() != "EUC-JP-ASCII"@.len());
        reveal_strlit("JIS");
        assert("CP10001"@.len() != "JIS"@.len());
        reveal_strlit("ISO2022JP");
        assert("CP10001"@.len() != "ISO2022JP"@.len());
        reveal_strlit("ISO-2022-JP");
        assert("CP10001"@.len() != "ISO-2022-JP"@.len());
        reveal_strlit("ISO2022JP-1");
        assert("CP10001"@.len() != "ISO2022JP-1"@.len());
        reveal_strlit("ISO-2022-JP-1");
        assert("CP10001"@.len() != "ISO-2022-JP-1"@.len());
        reveal_strlit("ISO2022JP-3");
        assert("CP10001"@.len() != "ISO2022JP-3"@.len());
        reveal_strlit("ISO-2022-JP-3");
        assert("CP10001"@.len() != "ISO-2022-JP-3"@.len());
        reveal_strlit("ISO2022JP-2004");
        assert("CP10001"@.len() != "ISO2022JP-2004"@.len());
        reveal_strlit("ISO-2022-JP-2004");
        assert("CP10001"@.len() != "ISO-2022-JP-2004"@.len());
        reveal_strlit("ISO2022JP-CP932");
        assert("CP10001"@.len() != "ISO2022JP-CP932"@.len());
        reveal_strlit("ISO-2022-JP-CP932");
        assert("CP10001"@.len() != "ISO-2022-JP-CP932"@.len());
        reveal_strlit("CP50220");
        assert("CP10001"@[2] != "CP50220"@[2]);
        assert("CP10001"@ != "CP50220"@);
        reveal_strlit("CSISO2022JP");
        assert("CP10001"@.len() != "CSISO2022JP"@.len());
        reveal_strlit("CP50221");
        assert("CP10001"@[2] != "CP50221"@[2]);
        assert("CP10001"@ != "CP50221"@);
        reveal_strlit("CP50222");
        assert("CP10001"@[2] != "CP50222"@[2]);
        assert("CP10001"@ != "CP50222"@);
    }
}

/// The Latin-1 and Unicode aliases, whatever their case, `_` or surrounding white space, are
/// spelled as these canonical names: `LATIN1` and `ISO8859-1` as `ISO-8859-1`, `UTF8` and
/// `UTF-8N` as `UTF-8`, `UTF16BE` as `UTF-16BE`, `UTF32LE_BOM` as `UTF-32LE-BOM`, and so on.
pub proof fn lemma_normalize_latin_unicode_aliases(s: Seq<char>)
    ensures
        spec_upper_name(s) == "LATIN1"@ ==> spec_normalize(s) == "ISO-8859-1"@,
        spec_upper_name(s) == "LATIN-1"@ ==> spec_normalize(s) == "ISO-8859-1"@,
        spec_upper_name(s) == "ISO8859-1"@ ==> spec_normalize(s) == "ISO-8859-1"@,
        spec_upper_name(s) == "ISO-8859-1"@ ==> spec_normalize(s) == "ISO-8859-1"@,
        spec_upper_name(s) == "UTF8"@ ==> spec_normalize(s) == "UTF-8"@,
        spec_upper_name(s) == "UTF-8N"@ ==> spec_normalize(s) == "UTF-8"@,
        spec_upper_name(s) == "UTF8-BOM"@ ==> spec_normalize(s) == "UTF-8-BOM"@,
        spec_upper_name(s) == "UTF-8-BOM"@ ==> spec_normalize(s) == "UTF-8-BOM"@,
        spec_upper_name(s) == "UTF16"@ ==> spec_normalize(s) == "UTF-16"@,
        spec_upper_name(s) == "UTF16BE"@ ==> spec_normalize(s) == "UTF-16BE"@,
        spec_upper_name(s) == "UTF16BE-BOM"@ ==> spec_normalize(s) == "UTF-16BE-BOM"@,
        spec_upper_name(s) == "UTF-16BE-BOM"@ ==> spec_normalize(s) == "UTF-16BE-BOM"@,
        spec_upper_name(s) == "UTF16LE"@ ==> spec_normalize(s) == "UTF-16LE"@,
        spec_upper_name(s) == "UTF16LE-BOM"@ ==> spec_normalize(s) == "UTF-16LE-BOM"@,
        spec_upper_name(s) == "UTF-16LE-BOM"@ ==> spec_normalize(s) == "UTF-16LE-BOM"@,
        spec_upper_name(s) == "UTF32"@ ==> spec_normalize(s) == "UTF-32"@,
        spec_upper_name(s) == "UTF32BE"@ ==> spec_normalize(s) == "UTF-32BE"@,
        spec_upper_name(s) == "UTF32BE-BOM"@ ==> spec_normalize(s) == "UTF-32BE-BOM"@,
        spec_upper_name(s) == "UTF-32BE-BOM"@ ==> spec_normalize(s) == "UTF-32BE-BOM"@,
        spec_upper_name(s) == "UTF32LE"@ ==> spec_normalize(s) == "UTF-32LE"@,
        spec_upper_name(s) == "UTF32LE-BOM"@ ==> spec_normalize(s) == "UTF-32LE-BOM"@,
        spec_upper_name(s) == "UTF-32LE-BOM"@ ==> spec_normalize(s) == "UTF-32LE-BOM"@,
{
    assert(spec_upper_name(s) == "LATIN1"@ ==> spec_normalize(s) == "ISO-8859-1"@) by {
        reveal_strlit("LATIN1");
        reveal_strlit("SJIS");
        assert("LATIN1"@.len() != "SJIS"@.len());
        reveal_strlit("SHIFT-JIS");
        assert("LATIN1"@.len() != "SHIFT-JIS"@.len());
        reveal_strlit("SHIFT-JISX0213");
        assert("LATIN1"@.len() != "SHIFT-JISX0213"@.len());
        reveal_strlit("SHIFT-JIS-X0213");
        assert("LATIN1"@.len() != "SHIFT-JIS-X0213"@.len());
        reveal_strlit("SHIFT-JIS-2004");
        assert("LATIN1"@.len() != "SHIFT-JIS-2004"@.len());
        reveal_strlit("WINDOWS-31J");
        assert("LATIN1"@.len() != "WINDOWS-31J"@.len());
        reveal_strlit("CSWINDOWS31J");
        assert("LATIN1"@.len() != "CSWINDOWS31J"@.len());
        reveal_strlit("MS932");
        assert("LATIN1"@.len() != "MS932"@.len());
        reveal_strlit("CP932");
        assert("LATIN1"@.len() != "CP932"@.len());
        reveal_strlit("EUCJP");
        assert("LATIN1"@.len() != "EUCJP"@.len());
        reveal_strlit("EUC-JP");
        assert("LATIN1"@[0] != "EUC-JP"@[0]);
        assert("LATIN1"@ != "EUC-JP"@);
        reveal_strlit("EUCJP-NKF");
        assert("LATIN1"@.len() != "EUCJP-NKF"@.len());
        reveal_strlit("CP51932");
        assert("LATIN1"@.len() != "CP51932"@.len());
        reveal_strlit("EUCJP-MS");
        assert("LATIN1"@.len() != "EUCJP-MS"@.len());
        reveal_strlit("EUC-JP-MS");
        assert("LATIN1"@.len() != "EUC-JP-MS"@.len());
        reveal_strlit("EUCJPMS");
        assert("LATIN1"@.len() != "EUCJPMS"@.len());
        reveal_strlit("EUCJP-ASCII");
        assert("LATIN1"@.len() != "EUCJP-ASCII"@.len());
        reveal_strlit("EUC-JP-ASCII");
        assert("LATIN1"@.len() != "EUC-JP-ASCII"@.len());
        reveal_strlit("JIS");
        assert("LATIN1"@.len() != "JIS"@.len());
        reveal_strlit("ISO2022JP");
        assert("LATIN1"@.len() != "ISO2022JP"@.len());
        reveal_strlit("ISO-2022-JP");
        assert("LATIN1"@.len() != "ISO-2022-JP"@.len());
        reveal_strlit("ISO2022JP-1");
        assert("LATIN1"@.len() != "ISO2022JP-1"@.len());
        reveal_strlit("ISO-2022-JP-1");
        assert("LATIN1"@.len() != "ISO-2022-JP-1"@.len());
        reveal_strlit("ISO2022JP-3");
        assert("LATIN1"@.len() != "ISO2022JP-3"@.len());
        reveal_strlit("ISO-2022-JP-3");
        assert("LATIN1"@.len() != "ISO-2022-JP-3"@.len());
        reveal_strlit("ISO2022JP-2004");
        assert("LATIN1"@.len() != "ISO2022JP-2004"@.len());
        reveal_strlit("ISO-2022-JP-2004");
        assert("LATIN1"@.len() != "ISO-2022-JP-2004"@.len());
        reveal_strlit("ISO2022JP-CP932");
        assert("LATIN1"@.len() != "ISO2022JP-CP932"@.len());
        reveal_strlit("ISO-2022-JP-CP932");
        assert("LATIN1"@.len() != "ISO-2022-JP-CP932"@.len());
        reveal_strlit("CP50220");
        assert("LATIN1"@.len() != "CP50220"@.len());
        reveal_strlit("CSISO2022JP");
        assert("LATIN1"@.len() != "CSISO2022JP"@.len());
        reveal_strlit("CP50221");
        assert("LATIN1"@.len() != "CP50221"@.len());
        reveal_strlit("CP50222");
        assert("LATIN1"@.len() != "CP50222"@.len());
        reveal_strlit("CP10001");
        assert("LATIN1"@.len() != "CP10001"@.len());
    }
    assert(spec_upper_name(s) == "LATIN-1"@ ==> spec_normalize(s) == "ISO-8859-1"@) by {
        reveal_strlit("LATIN-1");
        reveal_strlit("SJIS");
        assert("LATIN-1"@.len() != "SJIS"@.len());
        reveal_strlit("SHIFT-JIS");
        assert("LATIN-1"@.len() != "SHIFT-JIS"@.len());
        reveal_strlit("SHIFT-JISX0213");
        assert("LATIN-1"@.len() != "SHIFT-JISX0213"@.len());
        reveal_strlit("SHIFT-JIS-X0213");
        assert("LATIN-1"@.len() != "SHIFT-JIS-X0213"@.len());
        reveal_strlit("SHIFT-JIS-2004");
        assert("LATIN-1"@.len() != "SHIFT-JIS-2004"@.len());
        reveal_strlit("WINDOWS-31J");
        assert("LATIN-1"@.len() != "WINDOWS-31J"@.len());
        reveal_strlit("CSWINDOWS31J");
        assert("LATIN-1"@.len() != "CSWINDOWS31J"@.len());
        reveal_strlit("MS932");
        assert("LATIN-1"@.len() != "MS932"@.len());
        reveal_strlit("CP932");
        assert("LATIN-1"@.len() != "CP932"@.len());
        reveal_strlit("EUCJP");
        assert("LATIN-1"@.len() != "EUCJP"@.len());
        reveal_strlit("EUC-JP");
        assert("LATIN-1"@.len() != "EUC-JP"@.len());
        reveal_strlit("EUCJP-NKF");
        assert("LATIN-1"@.len() != "EUCJP-NKF"@.len());
        reveal_strlit("CP51932");
        assert("LATIN-1"@[0] != "CP51932"@[0]);
        assert("LATIN-1"@ != "CP51932"@);
        reveal_strlit("EUCJP-MS");
        assert("LATIN-1"@.len() != "EUCJP-MS"@.len());
        reveal_strlit("EUC-JP-MS");
        assert("LATIN-1"@.len() != "EUC-JP-MS"@.len());
        reveal_strlit("EUCJPMS");
        assert("LATIN-1"@[0] != "EUCJPMS"@[0]);
        assert("LATIN-1"@ != "EUCJPMS"@);
        reveal_strlit("EUCJP-ASCII");
        assert("LATIN-1"@.len() != "EUCJP-ASCII"@.len());
        reveal_strlit("EUC-JP-ASCII");
        assert("LATIN-1"@.len() != "EUC-JP-ASCII"@.len());
        reveal_strlit("JIS");
        assert("LATIN-1"@.len() != "JIS"@.len());
        reveal_strlit("ISO2022JP");
        assert("LATIN-1"@.len() != "ISO2022JP"@.len());
        reveal_strlit("ISO-2022-JP");
        assert("LATIN-1"@.len() != "ISO-2022-JP"@.len());
        reveal_strlit("ISO2022JP-1");
        assert("LATIN-1"@.len() != "ISO2022JP-1"@.len());
        reveal_strlit("ISO-2022-JP-1");
        assert("LATIN-1"@.len() != "ISO-2022-JP-1"@.len());
        reveal_strlit("ISO2022JP-3");
        assert("LATIN-1"@.len() != "ISO2022JP-3"@.len());
        reveal_strlit("ISO-2022-JP-3");
        assert("LATIN-1"@.len() != "ISO-2022-JP-3"@.len());
        reveal_strlit("ISO2022JP-2004");
        assert("LATIN-1"@.len() != "ISO2022JP-2004"@.len());
        reveal_strlit("ISO-2022-JP-2004");
        assert("LATIN-1"@.len() != "ISO-2022-JP-2004"@.len());
        reveal_strlit("ISO2022JP-CP932");
        assert("LATIN-1"@.len() != "ISO2022JP-CP932"@.len());
        reveal_strlit("ISO-2022-JP-CP932");
        assert("LATIN-1"@.len() != "ISO-2022-JP-CP932"@.len());
        reveal_strlit("CP50220");
        assert("LATIN-1"@[0] != "CP50220"@[0]);
        assert("LATIN-1"@ != "CP50220"@);
        reveal_strlit("CSISO2022JP");
        assert("LATIN-1"@.len() != "CSISO2022JP"@.len());
        reveal_strlit("CP50221");
        assert("LATIN-1"@[0] != "CP50221"@[0]);
        assert("LATIN-1"@ != "CP50221"@);
        reveal_strlit("CP50222");
        assert("LATIN-1"@[0] != "CP50222"@[0]);
        assert("LATIN-1"@ != "CP50222"@);
        reveal_strlit("CP10001");
        assert("LATIN-1"@[0] != "CP10001"@[0]);
        assert("LATIN-1"@ != "CP10001"@);
    }
    assert(spec_upper_name(s) == "ISO8859-1"@ ==> spec_normalize(s) == "ISO-8859-1"@) by {
        reveal_strlit("ISO8859-1");
        reveal_strlit("SJIS");
        assert("ISO8859-1"@.len() != "SJIS"@.len());
        reveal_strlit("SHIFT-JIS");
        assert("ISO8859-1"@[0] != "SHIFT-JIS"@[0]);
        assert("ISO8859-1"@ != "SHIFT-JIS"@);
        reveal_strlit("SHIFT-JISX0213");
        assert("ISO8859-1"@.len() != "SHIFT-JISX0213"@.len());
        reveal_strlit("SHIFT-JIS-X0213");
        assert("ISO8859-1"@.len() != "SHIFT-JIS-X0213"@.len());
        reveal_strlit("SHIFT-JIS-2004");
        assert("ISO8859-1"@.len() != "SHIFT-JIS-2004"@.len());
        reveal_strlit("WINDOWS-31J");
        assert("ISO8859-1"@.len() != "WINDOWS-31J"@.len());
        reveal_strlit("CSWINDOWS31J");
        assert("ISO8859-1"@.len() != "CSWINDOWS31J"@.len());
        reveal_strlit("MS932");
        assert("ISO8859-1"@.len() != "MS932"@.len());
        reveal_strlit("CP932");
        assert("ISO8859-1"@.len() != "CP932"@.len());
        reveal_strlit("EUCJP");
        assert("ISO8859-1"@.len() != "EUCJP"@.len());
        reveal_strlit("EUC-JP");
        assert("ISO8859-1"@.len() != "EUC-JP"@.len());
        reveal_strlit("EUCJP-NKF");
        assert("ISO8859-1"@[0] != "EUCJP-NKF"@[0]);
        assert("ISO8859-1"@ != "EUCJP-NKF"@);
        reveal_strlit("CP51932");
        assert("ISO8859-1"@.len() != "CP51932"@.len());
        reveal_strlit("EUCJP-MS");
        assert("ISO8859-1"@.len() != "EUCJP-MS"@.len());
        reveal_strlit("EUC-JP-MS");
        assert("ISO8859-1"@[0] != "EUC-JP-MS"@[0]);
        assert("ISO8859-1"@ != "EUC-JP-MS"@);
        reveal_strlit("EUCJPMS");
        assert("ISO8859-1"@.len() != "EUCJPMS"@.len());
        reveal_strlit("EUCJP-ASCII");
        assert("ISO8859-1"@.len() != "EUCJP-ASCII"@.len());
        reveal_strlit("EUC-JP-ASCII");
        assert("ISO8859-1"@.len() != "EUC-JP-ASCII"@.len());
        reveal_strlit("JIS");
        assert("ISO8859-1"@.len() != "JIS"@.len());
        reveal_strlit("ISO2022JP");
        assert("ISO8859-1"@[3] != "ISO2022JP"@[3]);
        assert("ISO8859-1"@ != "ISO2022JP"@);
        reveal_strlit("ISO-2022-JP");
        assert("ISO8859-1"@.len() != "ISO-2022-JP"@.len());
        reveal_strlit("ISO2022JP-1");
        assert("ISO8859-1"@.len() != "ISO2022JP-1"@.len());
        reveal_strlit("ISO-2022-JP-1");
        assert("ISO8859-1"@.len() != "ISO-2022-JP-1"@.len());
        reveal_strlit("ISO2022JP-3");
        assert("ISO8859-1"@.len() != "ISO2022JP-3"@.len());
        reveal_strlit("ISO-2022-JP-3");
        assert("ISO8859-1"@.len() != "ISO-2022-JP-3"@.len());
        reveal_strlit("ISO2022JP-2004");
        assert("ISO8859-1"@.len() != "ISO2022JP-2004"@.len());
        reveal_strlit("ISO-2022-JP-2004");
        assert("ISO8859-1"@.len() != "ISO-2022-JP-2004"@.len());
        reveal_strlit("ISO2022JP-CP932");
        assert("ISO8859-1"@.len() != "ISO2022JP-CP932"@.len());
        reveal_strlit("ISO-2022-JP-CP932");
        assert("ISO8859-1"@.len() != "ISO-2022-JP-CP932"@.len());
        reveal_strlit("CP50220");
        assert("ISO8859-1"@.len() != "CP50220"@.len());
        reveal_strlit("CSISO2022JP");
        assert("ISO8859-1"@.len() != "CSISO2022JP"@.len());
        reveal_strlit("CP50221");
        assert("ISO8859-1"@.len() != "CP50221"@.len());
        reveal_strlit("CP50222");
        assert("ISO8859-1"@.len() != "CP50222"@.len());
        reveal_strlit("CP10001");
        assert("ISO8859-1"@.len() != "CP10001"@.len());
    }
    assert(spec_upper_name(s) == "ISO-8859-1"@ ==> spec_normalize(s) == "ISO-8859-1"@) by {
        reveal_strlit("ISO-8859-1");
        reveal_strlit("SJIS");
        assert("ISO-8859-1"@.len() != "SJIS"@.len());
        reveal_strlit("SHIFT-JIS");
        assert("ISO-8859-1"@.len() != "SHIFT-JIS"@.len());
        reveal_strlit("SHIFT-JISX0213");
        assert("ISO-8859-1"@.len() != "SHIFT-JISX0213"@.len());
        reveal_strlit("SHIFT-JIS-X0213");
        assert("ISO-8859-1"@.len() != "SHIFT-JIS-X0213"@.len());
        reveal_strlit("SHIFT-JIS-2004");
        assert("ISO-8859-1"@.len() != "SHIFT-JIS-2004"@.len());
        reveal_strlit("WINDOWS-31J");
        assert("ISO-8859-1"@.len() != "WINDOWS-31J"@.len());
        reveal_strlit("CSWINDOWS31J");
        assert("ISO-8859-1"@.len() != "CSWINDOWS31J"@.len());
        reveal_strlit("MS932");
        assert("ISO-8859-1"@.len() != "MS932"@.len());
        reveal_strlit("CP932");
        assert("ISO-8859-1"@.len() != "CP932"@.len());
        reveal_strlit("EUCJP");
        assert("ISO-8859-1"@.len() != "EUCJP"@.len());
        reveal_strlit("EUC-JP");
        assert("ISO-8859-1"@.len() != "EUC-JP"@.len());
        reveal_strlit("EUCJP-NKF");
        assert("ISO-8859-1"@.len() != "EUCJP-NKF"@.len());
        reveal_strlit("CP51932");
        assert("ISO-8859-1"@.len() != "CP51932"@.len());
        reveal_strlit("EUCJP-MS");
        assert("ISO-8859-1"@.len() != "EUCJP-MS"@.len());
        reveal_strlit("EUC-JP-MS");
        assert("ISO-8859-1"@.len() != "EUC-JP-MS"@.len());
        reveal_strlit("EUCJPMS");
        assert("ISO-8859-1"@.len() != "EUCJPMS"@.len());
        reveal_strlit("EUCJP-ASCII");
        assert("ISO-8859-1"@.len() != "EUCJP-ASCII"@.len());
        reveal_strlit("EUC-JP-ASCII");
        assert("ISO-8859-1"@.len() != "EUC-JP-ASCII"@.len());
        reveal_strlit("JIS");
        assert("ISO-8859-1"@.len() != "JIS"@.len());
        reveal_strlit("ISO2022JP");
        assert("ISO-8859-1"@.len() != "ISO2022JP"@.len());
        reveal_strlit("ISO-2022-JP");
        assert("ISO-8859-1"@.len() != "ISO-2022-JP"@.len());
        reveal_strlit("ISO2022JP-1");
        assert("ISO-8859-1"@.len() != "ISO2022JP-1"@.len());
        reveal_strlit("ISO-2022-JP-1");
        assert("ISO-8859-1"@.len() != "ISO-2022-JP-1"@.len());
        reveal_strlit("ISO2022JP-3");
        assert("ISO-8859-1"@.len() != "ISO2022JP-3"@.len());
        reveal_strlit("ISO-2022-JP-3");
        assert("ISO-8859-1"@.len() != "ISO-2022-JP-3"@.len());
        reveal_strlit("ISO2022JP-2004");
        assert("ISO-8859-1"@.len() != "ISO2022JP-2004"@.len());
        reveal_strlit("ISO-2022-JP-2004");
        assert("ISO-8859-1"@.len() != "ISO-2022-JP-2004"@.len());
        reveal_strlit("ISO2022JP-CP932");
        assert("ISO-8859-1"@.len() != "ISO2022JP-CP932"@.len());
        reveal_strlit("ISO-2022-JP-CP932");
        assert("ISO-8859-1"@.len() != "ISO-2022-JP-CP932"@.len());
        reveal_strlit("CP50220");
        assert("ISO-8859-1"@.len() != "CP50220"@.len());
        reveal_strlit("CSISO2022JP");
        assert("ISO-8859-1"@.len() != "CSISO2022JP"@.len());
        reveal_strlit("CP50221");
        assert("ISO-8859-1"@.len() != "CP50221"@.len());
        reveal_strlit("CP50222");
        assert("ISO-8859-1"@.len() != "CP50222"@.len());
        reveal_strlit("CP10001");
        assert("ISO-8859-1"@.len() != "CP10001"@.len());
    }
    assert(spec_upper_name(s) == "UTF8"@ ==> spec_normalize(s) == "UTF-8"@) by {
        reveal_strlit("UTF8");
        reveal_strlit("SJIS");
        assert("UTF8"@[0] != "SJIS"@[0]);
        assert("UTF8"@ != "SJIS"@);
        reveal_strlit("SHIFT-JIS");
        assert("UTF8"@.len() != "SHIFT-JIS"@.len());
        reveal_strlit("SHIFT-JISX0213");
        assert("UTF8"@.len() != "SHIFT-JISX0213"@.len());
        reveal_strlit("SHIFT-JIS-X0213");
        assert("UTF8"@.len() != "SHIFT-JIS-X0213"@.len());
        reveal_strlit("SHIFT-JIS-2004");
        assert("UTF8"@.len() != "SHIFT-JIS-2004"@.len());
        reveal_strlit("WINDOWS-31J");
        assert("UTF8"@.len() != "WINDOWS-31J"@.len());
        reveal_strlit("CSWINDOWS31J");
        assert("UTF8"@.len() != "CSWINDOWS31J"@.len());
        reveal_strlit("MS932");
        assert("UTF8"@.len() != "MS932"@.len());
        reveal_strlit("CP932");
        assert("UTF8"@.len() != "CP932"@.len());
        reveal_strlit("EUCJP");
        assert("UTF8"@.len() != "EUCJP"@.len());
        reveal_strlit("EUC-JP");
        assert("UTF8"@.len() != "EUC-JP"@.len());
        reveal_strlit("EUCJP-NKF");
        assert("UTF8"@.len() != "EUCJP-NKF"@.len());
        reveal_strlit("CP51932");
        assert("UTF8"@.len() != "CP51932"@.len());
        reveal_strlit("EUCJP-MS");
        assert("UTF8"@.len() != "EUCJP-MS"@.len());
        reveal_strlit("EUC-JP-MS");
        assert("UTF8"@.len() != "EUC-JP-MS"@.len());
        reveal_strlit("EUCJPMS");
        assert("UTF8"@.len() != "EUCJPMS"@.len());
        reveal_strlit("EUCJP-ASCII");
        assert("UTF8"@.len() != "EUCJP-ASCII"@.len());
        reveal_strlit("EUC-JP-ASCII");
        assert("UTF8"@.len() != "EUC-JP-ASCII"@.len());
        reveal_strlit("JIS");
        assert("UTF8"@.len() != "JIS"@.len());
        reveal_strlit("ISO2022JP");
        assert("UTF8"@.len() != "ISO2022JP"@.len());
        reveal_strlit("ISO-2022-JP");
        assert("UTF8"@.len() != "ISO-2022-JP"@.len());
        reveal_strlit("ISO2022JP-1");
        assert("UTF8"@.len() != "ISO2022JP-1"@.len());
        reveal_strlit("ISO-2022-JP-1");
        assert("UTF8"@.len() != "ISO-2022-JP-1"@.len());
        reveal_strlit("ISO2022JP-3");
        assert("UTF8"@.len() != "ISO2022JP-3"@.len());
        reveal_strlit("ISO-2022-JP-3");
        assert("UTF8"@.len() != "ISO-2022-JP-3"@.len());
        reveal_strlit("ISO2022JP-2004");
        assert("UTF8"@.len() != "ISO2022JP-2004"@.len());
        reveal_strlit("ISO-2022-JP-2004");
        assert("UTF8"@.len() != "ISO-2022-JP-2004"@.len());
        reveal_strlit("ISO2022JP-CP932");
        assert("UTF8"@.len() != "ISO2022JP-CP932"@.len());
        reveal_strlit("ISO-2022-JP-CP932");
        assert("UTF8"@.len() != "ISO-2022-JP-CP932"@.len());
        reveal_strlit("CP50220");
        assert("UTF8"@.len() != "CP50220"@.len());
        reveal_strlit("CSISO2022JP");
        assert("UTF8"@.len() != "CSISO2022JP"@.len());
        reveal_strlit("CP50221");
        assert("UTF8"@.len() != "CP50221"@.len());
        reveal_strlit("CP50222");
        assert("UTF8"@.len() != "CP50222"@.len());
        reveal_strlit("CP10001");
        assert("UTF8"@.len() != "CP10001"@.len());
        reveal_strlit("LATIN1");
        assert("UTF8"@.len() != "LATIN1"@.len());
        reveal_strlit("LATIN-1");
        assert("UTF8"@.len() != "LATIN-1"@.len());
        reveal_strlit("ISO8859-1");
        assert("UTF8"@.len() != "ISO8859-1"@.len());
        reveal_strlit("ISO-8859-1");
        assert("UTF8"@.len() != "ISO-8859-1"@.len());
    }
    assert(spec_upper_name(s) == "UTF-8N"@ ==> spec_normalize(s) == "UTF-8"@) by {
        reveal_strlit("UTF-8N");
        reveal_strlit("SJIS");
        assert("UTF-8N"@.len() != "SJIS"@.len());
        reveal_strlit("SHIFT-JIS");
        assert("UTF-8N"@.len() != "SHIFT-JIS"@.len());
        reveal_strlit("SHIFT-JISX0213");
        assert("UTF-8N"@.len() != "SHIFT-JISX0213"@.len());
        reveal_strlit("SHIFT-JIS-X0213");
        assert("UTF-8N"@.len() != "SHIFT-JIS-X0213"@.len());
        reveal_strlit("SHIFT-JIS-2004");
        assert("UTF-8N"@.len() != "SHIFT-JIS-2004"@.len());
        reveal_strlit("WINDOWS-31J");
        assert("UTF-8N"@.len() != "WINDOWS-31J"@.len());
        reveal_strlit("CSWINDOWS31J");
        assert("UTF-8N"@.len() != "CSWINDOWS31J"@.len());
        reveal_strlit("MS932");
        assert("UTF-8N"@.len() != "MS932"@.len());
        reveal_strlit("CP932");
        assert("UTF-8N"@.len() != "CP932"@.len());
        reveal_strlit("EUCJP");
        assert("UTF-8N"@.len() != "EUCJP"@.len());
        reveal_strlit("EUC-JP");
        assert("UTF-8N"@[0] != "EUC-JP"@[0]);
        assert("UTF-8N"@ != "EUC-JP"@);
        reveal_strlit("EUCJP-NKF");
        assert("UTF-8N"@.len() != "EUCJP-NKF"@.len());
        reveal_strlit("CP51932");
        assert("UTF-8N"@.len() != "CP51932"@.len());
        reveal_strlit("EUCJP-MS");
        assert("UTF-8N"@.len() != "EUCJP-MS"@.len());
        reveal_strlit("EUC-JP-MS");
        assert("UTF-8N"@.len() != "EUC-JP-MS"@.len());
        reveal_strlit("EUCJPMS");
        assert("UTF-8N"@.len() != "EUCJPMS"@.len());
        reveal_strlit("EUCJP-ASCII");
        assert("UTF-8N"@.len() != "EUCJP-ASCII"@.len());
        reveal_strlit("EUC-JP-ASCII");
        assert("UTF-8N"@.len() != "EUC-JP-ASCII"@.len());
        reveal_strlit("JIS");
        assert("UTF-8N"@.len() != "JIS"@.len());
        reveal_strlit("ISO2022JP");
        assert("UTF-8N"@.len() != "ISO2022JP"@.len());
        reveal_strlit("ISO-2022-JP");
        assert("UTF-8N"@.len() != "ISO-2022-JP"@.len());
        reveal_strlit("ISO2022JP-1");
        assert("UTF-8N"@.len() != "ISO2022JP-1"@.len());
        reveal_strlit("ISO-2022-JP-1");
        assert("UTF-8N"@.len() != "ISO-2022-JP-1"@.len());
        reveal_strlit("ISO2022JP-3");
        assert("UTF-8N"@.len() != "ISO2022JP-3"@.len());
        reveal_strlit("ISO-2022-JP-3");
        assert("UTF-8N"@.len() != "ISO-2022-JP-3"@.len());
        reveal_strlit("ISO2022JP-2004");
        assert("UTF-8N"@.len() != "ISO2022JP-2004"@.len());
        reveal_strlit("ISO-2022-JP-2004");
        assert("UTF-8N"@.len() != "ISO-2022-JP-2004"@.len());
        reveal_strlit("ISO2022JP-CP932");
        assert("UTF-8N"@.len() != "ISO2022JP-CP932"@.len());
        reveal_strlit("ISO-2022-JP-CP932");
        assert("UTF-8N"@.len() != "ISO-2022-JP-CP932"@.len());
        reveal_strlit("CP50220");
        assert("UTF-8N"@.len() != "CP50220"@.len());
        reveal_strlit("CSISO2022JP");
        assert("UTF-8N"@.len() != "CSISO2022JP"@.len());
        reveal_strlit("CP50221");
        assert("UTF-8N"@.len() != "CP50221"@.len());
        reveal_strlit("CP50222");
        assert("UTF-8N"@.len() != "CP50222"@.len());
        reveal_strlit("CP10001");
        assert("UTF-8N"@.len() != "CP10001"@.len());
        reveal_strlit("LATIN1");
        assert("UTF-8N"@[0] != "LATIN1"@[0]);
        assert("UTF-8N"@ != "LATIN1"@);
        reveal_strlit("LATIN-1");
        assert("UTF-8N"@.len() != "LATIN-1"@.len());
        reveal_strlit("ISO8859-1");
        assert("UTF-8N"@.len() != "ISO8859-1"@.len());
        reveal_strlit("ISO-8859-1");
        assert("UTF-8N"@.len() != "ISO-8859-1"@.len());
    }
    assert(spec_upper_name(s) == "UTF8-BOM"@ ==> spec_normalize(s) == "UTF-8-BOM"@) by {
        reveal_strlit("UTF8-BOM");
        reveal_strlit("SJIS");
        assert("UTF8-BOM"@.len() != "SJIS"@.len());
        reveal_strlit("SHIFT-JIS");
        assert("UTF8-BOM"@.len() != "SHIFT-JIS"@.len());
        reveal_strlit("SHIFT-JISX0213");
        assert("UTF8-BOM"@.len() != "SHIFT-JISX0213"@.len());
        reveal_strlit("SHIFT-JIS-X0213");
        assert("UTF8-BOM"@.len() != "SHIFT-JIS-X0213"@.len());
        reveal_strlit("SHIFT-JIS-2004");
        assert("UTF8-BOM"@.len() != "SHIFT-JIS-2004"@.len());
        reveal_strlit("WINDOWS-31J");
        assert("UTF8-BOM"@.len() != "WINDOWS-31J"@.len());
        reveal_strlit("CSWINDOWS31J");
        assert("UTF8-BOM"@.len() != "CSWINDOWS31J"@.len());
        reveal_strlit("MS932");
        assert("UTF8-BOM"@.len() != "MS932"@.len());
        reveal_strlit("CP932");
        assert("UTF8-BOM"@.len() != "CP932"@.len());
        reveal_strlit("EUCJP");
        assert("UTF8-BOM"@.len() != "EUCJP"@.len());
        reveal_strlit("EUC-JP");
        assert("UTF8-BOM"@.len() != "EUC-JP"@.len());
        reveal_strlit("EUCJP-NKF");
        assert("UTF8-BOM"@.len() != "EUCJP-NKF"@.len());
        reveal_strlit("CP51932");
        assert("UTF8-BOM"@.len() != "CP51932"@.len());
        reveal_strlit("EUCJP-MS");
        assert("UTF8-BOM"@[0] != "EUCJP-MS"@[0]);
        assert("UTF8-BOM"@ != "EUCJP-MS"@);
        reveal_strlit("EUC-JP-MS");
        assert("UTF8-BOM"@.len() != "EUC-JP-MS"@.len());
        reveal_strlit("EUCJPMS");
        assert("UTF8-BOM"@.len() != "EUCJPMS"@.len());
        reveal_strlit("EUCJP-ASCII");
        assert("UTF8-BOM"@.len() != "EUCJP-ASCII"@.len());
        reveal_strlit("EUC-JP-ASCII");
        assert("UTF8-BOM"@.len() != "EUC-JP-ASCII"@.len());
        reveal_strlit("JIS");
        assert("UTF8-BOM"@.len() != "JIS"@.len());
        reveal_strlit("ISO2022JP");
        assert("UTF8-BOM"@.len() != "ISO2022JP"@.len());
        reveal_strlit("ISO-2022-JP");
        assert("UTF8-BOM"@.len() != "ISO-2022-JP"@.len());
        reveal_strlit("ISO2022JP-1");
        assert("UTF8-BOM"@.len() != "ISO2022JP-1"@.len());
        reveal_strlit("ISO-2022-JP-1");
        assert("UTF8-BOM"@.len() != "ISO-2022-JP-1"@.len());
        reveal_strlit("ISO2022JP-3");
        assert("UTF8-BOM"@.len() != "ISO2022JP-3"@.len());
        reveal_strlit("ISO-2022-JP-3");
        assert("UTF8-BOM"@.len() != "ISO-2022-JP-3"@.len());
        reveal_strlit("ISO2022JP-2004");
        assert("UTF8-BOM"@.len() != "ISO2022JP-2004"@.len());
        reveal_strlit("ISO-2022-JP-2004");
        assert("UTF8-BOM"@.len() != "ISO-2022-JP-2004"@.len());
        reveal_strlit("ISO2022JP-CP932");
        assert("UTF8-BOM"@.len() != "ISO2022JP-CP932"@.len());
        reveal_strlit("ISO-2022-JP-CP932");
        assert("UTF8-BOM"@.len() != "ISO-2022-JP-CP932"@.len());
        reveal_strlit("CP50220");
        assert("UTF8-BOM"@.len() != "CP50220"@.len());
        reveal_strlit("CSISO2022JP");
        assert("UTF8-BOM"@.len() != "CSISO2022JP"@.len());
        reveal_strlit("CP50221");
        assert("UTF8-BOM"@.len() != "CP50221"@.len());
        reveal_strlit("CP50222");
        assert("UTF8-BOM"@.len() != "CP50222"@.len());
        reveal_strlit("CP10001");
        assert("UTF8-BOM"@.len() != "CP10001"@.len());
        reveal_strlit("LATIN1");
        assert("UTF8-BOM"@.len() != "LATIN1"@.len());
        reveal_strlit("LATIN-1");
        assert("UTF8-BOM"@.len() != "LATIN-1"@.len());
        reveal_strlit("ISO8859-1");
        assert("UTF8-BOM"@.len() != "ISO8859-1"@.len());
        reveal_strlit("ISO-8859-1");
        assert("UTF8-BOM"@.len() != "ISO-8859-1"@.len());
        reveal_strlit("UTF8");
        assert("UTF8-BOM"@.len() != "UTF8"@.len());
        reveal_strlit("UTF-8N");
        assert("UTF8-BOM"@.len() != "UTF-8N"@.len());
    }
    assert(spec_upper_name(s) == "UTF-8-BOM"@ ==> spec_normalize(s) == "UTF-8-BOM"@) by {
        reveal_strlit("UTF-8-BOM");
        reveal_strlit("SJIS");
        assert("UTF-8-BOM"@.len() != "SJIS"@.len());
        reveal_strlit("SHIFT-JIS");
        assert("UTF-8-BOM"@[0] != "SHIFT-JIS"@[0]);
        assert("UTF-8-BOM"@ != "SHIFT-JIS"@);
        reveal_strlit("SHIFT-JISX0213");
        assert("UTF-8-BOM"@.len() != "SHIFT-JISX0213"@.len());
        reveal_strlit("SHIFT-JIS-X0213");
        assert("UTF-8-BOM"@.len() != "SHIFT-JIS-X0213"@.len());
        reveal_strlit("SHIFT-JIS-2004");
        assert("UTF-8-BOM"@.len() != "SHIFT-JIS-2004"@.len());
        reveal_strlit("WINDOWS-31J");
        assert("UTF-8-BOM"@.len() != "WINDOWS-31J"@.len());
        reveal_strlit("CSWINDOWS31J");
        assert("UTF-8-BOM"@.len() != "CSWINDOWS31J"@.len());
        reveal_strlit("MS932");
        assert("UTF-8-BOM"@.len() != "MS932"@.len());
        reveal_strlit("CP932");
        assert("UTF-8-BOM"@.len() != "CP932"@.len());
        reveal_strlit("EUCJP");
        assert("UTF-8-BOM"@.len() != "EUCJP"@.len());
        reveal_strlit("EUC-JP");
        assert("UTF-8-BOM"@.len() != "EUC-JP"@.len());
        reveal_strlit("EUCJP-NKF");
        assert("UTF-8-BOM"@[0] != "EUCJP-NKF"@[0]);
        assert("UTF-8-BOM"@ != "EUCJP-NKF"@);
        reveal_strlit("CP51932");
        assert("UTF-8-BOM"@.len() != "CP51932"@.len());
        reveal_strlit("EUCJP-MS");
        assert("UTF-8-BOM"@.len() != "EUCJP-MS"@.len());
        reveal_strlit("EUC-JP-MS");
        assert("UTF-8-BOM"@[0] != "EUC-JP-MS"@[0]);
        assert("UTF-8-BOM"@ != "EUC-JP-MS"@);
        reveal_strlit("EUCJPMS");
        assert("UTF-8-BOM"@.len() != "EUCJPMS"@.len());
        reveal_strlit("EUCJP-ASCII");
        assert("UTF-8-BOM"@.len() != "EUCJP-ASCII"@.len());
        reveal_strlit("EUC-JP-ASCII");
        assert("UTF-8-BOM"@.len() != "EUC-JP-ASCII"@.len());
        reveal_strlit("JIS");
        assert("UTF-8-BOM"@.len() != "JIS"@.len());
        reveal_strlit("ISO2022JP");
        assert("UTF-8-BOM"@[0] != "ISO2022JP"@[0]);
        assert("UTF-8-BOM"@ != "ISO2022JP"@);
        reveal_strlit("ISO-2022-JP");
        assert("UTF-8-BOM"@.len() != "ISO-2022-JP"@.len());
        reveal_strlit("ISO2022JP-1");
        assert("UTF-8-BOM"@.len() != "ISO2022JP-1"@.len());
        reveal_strlit("ISO-2022-JP-1");
        assert("UTF-8-BOM"@.len() != "ISO-2022-JP-1"@.len());
        reveal_strlit("ISO2022JP-3");
        assert("UTF-8-BOM"@.len() != "ISO2022JP-3"@.len());
        reveal_strlit("ISO-2022-JP-3");
        assert("UTF-8-BOM"@.len() != "ISO-2022-JP-3"@.len());
        reveal_strlit("ISO2022JP-2004");
        assert("UTF-8-BOM"@.len() != "ISO2022JP-2004"@.len());
        reveal_strlit("ISO-2022-JP-2004");
        assert("UTF-8-BOM"@.len() != "ISO-2022-JP-2004"@.len());
        reveal_strlit("ISO2022JP-CP932");
        assert("UTF-8-BOM"@.len() != "ISO2022JP-CP932"@.len());
        reveal_strlit("ISO-2022-JP-CP932");
        assert("UTF-8-BOM"@.len() != "ISO-2022-JP-CP932"@.len());
        reveal_strlit("CP50220");
        assert("UTF-8-BOM"@.len() != "CP50220"@.len());
        reveal_strlit("CSISO2022JP");
        assert("UTF-8-BOM"@.len() != "CSISO2022JP"@.len());
        reveal_strlit("CP50221");
        assert("UTF-8-BOM"@.len() != "CP50221"@.len());
        reveal_strlit("CP50222");
        assert("UTF-8-BOM"@.len() != "CP50222"@.len());
        reveal_strlit("CP10001");
        assert("UTF-8-BOM"@.len() != "CP10001"@.len());
        reveal_strlit("LATIN1");
        assert("UTF-8-BOM"@.len() != "LATIN1"@.len());
        reveal_strlit("LATIN-1");
        assert("UTF-8-BOM"@.len() != "LATIN-1"@.len());
        reveal_strlit("ISO8859-1");
        assert("UTF-8-BOM"@[0] != "ISO8859-1"@[0]);
        assert("UTF-8-BOM"@ != "ISO8859-1"@);
        reveal_strlit("ISO-8859-1");
        assert("UTF-8-BOM"@.len() != "ISO-8859-1"@.len());
        reveal_strlit("UTF8");
        assert("UTF-8-BOM"@.len() != "UTF8"@.len());
        reveal_strlit("UTF-8N");
        assert("UTF-8-BOM"@.len() != "UTF-8N"@.len());
    }
    assert(spec_upper_name(s) == "UTF16"@ ==> spec_normalize(s) == "UTF-16"@) by {
        reveal_strlit("UTF16");
        reveal_strlit("SJIS");
        assert("UTF16"@.len() != "SJIS"@.len());
        reveal_strlit("SHIFT-JIS");
        assert("UTF16"@.len() != "SHIFT-JIS"@.len());
        reveal_strlit("SHIFT-JISX0213");
        assert("UTF16"@.len() != "SHIFT-JISX0213"@.len());
        reveal_strlit("SHIFT-JIS-X0213");
        assert("UTF16"@.len() != "SHIFT-JIS-X0213"@.len());
        reveal_strlit("SHIFT-JIS-2004");
        assert("UTF16"@.len() != "SHIFT-JIS-2004"@.len());
        reveal_strlit("WINDOWS-31J");
        assert("UTF16"@.len() != "WINDOWS-31J"@.len());
        reveal_strlit("CSWINDOWS31J");
        assert("UTF16"@.len() != "CSWINDOWS31J"@.len());
        reveal_strlit("MS932");
        assert("UTF16"@[0] != "MS932"@[0]);
        assert("UTF16"@ != "MS932"@);
        reveal_strlit("CP932");
        assert("UTF16"@[0] != "CP932"@[0]);
        assert("UTF16"@ != "CP932"@);
        reveal_strlit("EUCJP");
        assert("UTF16"@[0] != "EUCJP"@[0]);
        assert("UTF16"@ != "EUCJP"@);
        reveal_strlit("EUC-JP");
        assert("UTF16"@.len() != "EUC-JP"@.len());
        reveal_strlit("EUCJP-NKF");
        assert("UTF16"@.len() != "EUCJP-NKF"@.len());
        reveal_strlit("CP51932");
        assert("UTF16"@.len() != "CP51932"@.len());
        reveal_strlit("EUCJP-MS");
        assert("UTF16"@.len() != "EUCJP-MS"@.len());
        reveal_strlit("EUC-JP-MS");
        assert("UTF16"@.len() != "EUC-JP-MS"@.len());
        reveal_strlit("EUCJPMS");
        assert("UTF16"@.len() != "EUCJPMS"@.len());
        reveal_strlit("EUCJP-ASCII");
        assert("UTF16"@.len() != "EUCJP-ASCII"@.len());
        reveal_strlit("EUC-JP-ASCII");
        assert("UTF16"@.len() != "EUC-JP-ASCII"@.len());
        reveal_strlit("JIS");
        assert("UTF16"@.len() != "JIS"@.len());
        reveal_strlit("ISO2022JP");
        assert("UTF16"@.len() != "ISO2022JP"@.len());
        reveal_strlit("ISO-2022-JP");
        assert("UTF16"@.len() != "ISO-2022-JP"@.len());
        reveal_strlit("ISO2022JP-1");
        assert("UTF16"@.len() != "ISO2022JP-1"@.len());
        reveal_strlit("ISO-2022-JP-1");
        assert("UTF16"@.len() != "ISO-2022-JP-1"@.len());
        reveal_strlit("ISO2022JP-3");
        assert("UTF16"@.len() != "ISO2022JP-3"@.len());
        reveal_strlit("ISO-2022-JP-3");
        assert("UTF16"@.len() != "ISO-2022-JP-3"@.len());
        reveal_strlit("ISO2022JP-2004");
        assert("UTF16"@.len() != "ISO2022JP-2004"@.len());
        reveal_strlit("ISO-2022-JP-2004");
        assert("UTF16"@.len() != "ISO-2022-JP-2004"@.len());
        reveal_strlit("ISO2022JP-CP932");
        assert("UTF16"@.len() != "ISO2022JP-CP932"@.len());
        reveal_strlit("ISO-2022-JP-CP932");
        assert("UTF16"@.len() != "ISO-2022-JP-CP932"@.len());
        reveal_strlit("CP50220");
        assert("UTF16"@.len() != "CP50220"@.len());
        reveal_strlit("CSISO2022JP");
        assert("UTF16"@.len() != "CSISO2022JP"@.len());
        reveal_strlit("CP50221");
        assert("UTF16"@.len() != "CP50221"@.len());
        reveal_strlit("CP50222");
        assert("UTF16"@.len() != "CP50222"@.len());
        reveal_strlit("CP10001");
        assert("UTF16"@.len() != "CP10001"@.len());
        reveal_strlit("LATIN1");
        assert("UTF16"@.len() != "LATIN1"@.len());
        reveal_strlit("LATIN-1");
        assert("UTF16"@.len() != "LATIN-1"@.len());
        reveal_strlit("ISO8859-1");
        assert("UTF16"@.len() != "ISO8859-1"@.len());
        reveal_strlit("ISO-8859-1");
        assert("UTF16"@.len() != "ISO-8859-1"@.len());
        reveal_strlit("UTF8");
        assert("UTF16"@.len() != "UTF8"@.len());
        reveal_strlit("UTF-8N");
        assert("UTF16"@.len() != "UTF-8N"@.len());
        reveal_strlit("UTF8-BOM");
        assert("UTF16"@.len() != "UTF8-BOM"@.len());
        reveal_strlit("UTF-8-BOM");
        assert("UTF16"@.len() != "UTF-8-BOM"@.len());
    }
    assert(spec_upper_name(s) == "UTF16BE"@ ==> spec_normalize(s) == "UTF-16BE"@) by {
        reveal_strlit("UTF16BE");
        reveal_strlit("SJIS");
        assert("UTF16BE"@.len() != "SJIS"@.len());
        reveal_strlit("SHIFT-JIS");
        assert("UTF16BE"@.len() != "SHIFT-JIS"@.len());
        reveal_strlit("SHIFT-JISX0213");
        assert("UTF16BE"@.len() != "SHIFT-JISX0213"@.len());
        reveal_strlit("SHIFT-JIS-X0213");
        assert("UTF16BE"@.len() != "SHIFT-JIS-X0213"@.len());
        reveal_strlit("SHIFT-JIS-2004");
        assert("UTF16BE"@.len() != "SHIFT-JIS-2004"@.len());
        reveal_strlit("WINDOWS-31J");
        assert("UTF16BE"@.len() != "WINDOWS-31J"@.len());
        reveal_strlit("CSWINDOWS31J");
        assert("UTF16BE"@.len() != "CSWINDOWS31J"@.len());
        reveal_strlit("MS932");
        assert("UTF16BE"@.len() != "MS932"@.len());
        reveal_strlit("CP932");
        assert("UTF16BE"@.len() != "CP932"@.len());
        reveal_strlit("EUCJP");
        assert("UTF16BE"@.len() != "EUCJP"@.len());
        reveal_strlit("EUC-JP");
        assert("UTF16BE"@.len() != "EUC-JP"@.len());
        reveal_strlit("EUCJP-NKF");
        assert("UTF16BE"@.len() != "EUCJP-NKF"@.len());
        reveal_strlit("CP51932");
        assert("UTF16BE"@[0] != "CP51932"@[0]);
        assert("UTF16BE"@ != "CP51932"@);
        reveal_strlit("EUCJP-MS");
        assert("UTF16BE"@.len() != "EUCJP-MS"@.len());
        reveal_strlit("EUC-JP-MS");
        assert("UTF16BE"@.len() != "EUC-JP-MS"@.len());
        reveal_strlit("EUCJPMS");
        assert("UTF16BE"@[0] != "EUCJPMS"@[0]);
        assert("UTF16BE"@ != "EUCJPMS"@);
        reveal_strlit("EUCJP-ASCII");
        assert("UTF16BE"@.len() != "EUCJP-ASCII"@.len());
        reveal_strlit("EUC-JP-ASCII");
        assert("UTF16BE"@.len() != "EUC-JP-ASCII"@.len());
        reveal_strlit("JIS");
        assert("UTF16BE"@.len() != "JIS"@.len());
        reveal_strlit("ISO2022JP");
        assert("UTF16BE"@.len() != "ISO2022JP"@.len());
        reveal_strlit("ISO-2022-JP");
        assert("UTF16BE"@.len() != "ISO-2022-JP"@.len());
        reveal_strlit("ISO2022JP-1");
        assert("UTF16BE"@.len() != "ISO2022JP-1"@.len());
        reveal_strlit("ISO-2022-JP-1");
        assert("UTF16BE"@.len() != "ISO-2022-JP-1"@.len());
        reveal_strlit("ISO2022JP-3");
        assert("UTF16BE"@.len() != "ISO2022JP-3"@.len());
        reveal_strlit("ISO-2022-JP-3");
        assert("UTF16BE"@.len() != "ISO-2022-JP-3"@.len());
        reveal_strlit("ISO2022JP-2004");
        assert("UTF16BE"@.len() != "ISO2022JP-2004"@.len());
        reveal_strlit("ISO-2022-JP-2004");
        assert("UTF16BE"@.len() != "ISO-2022-JP-2004"@.len());
        reveal_strlit("ISO2022JP-CP932");
        assert("UTF16BE"@.len() != "ISO2022JP-CP932"@.len());
        reveal_strlit("ISO-2022-JP-CP932");
        assert("UTF16BE"@.len() != "ISO-2022-JP-CP932"@.len());
        reveal_strlit("CP50220");
        assert("UTF16BE"@[0] != "CP50220"@[0]);
        assert("UTF16BE"@ != "CP50220"@);
        reveal_strlit("CSISO2022JP");
        assert("UTF16BE"@.len() != "CSISO2022JP"@.len());
        reveal_strlit("CP50221");
        assert("UTF16BE"@[0] != "CP50221"@[0]);
        assert("UTF16BE"@ != "CP50221"@);
        reveal_strlit("CP50222");
        assert("UTF16BE"@[0] != "CP50222"@[0]);
        assert("UTF16BE"@ != "CP50222"@);
        reveal_strlit("CP10001");
        assert("UTF16BE"@[0] != "CP10001"@[0]);
        assert("UTF16BE"@ != "CP10001"@);
        reveal_strlit("LATIN1");
        assert("UTF16BE"@.len() != "LATIN1"@.len());
        reveal_strlit("LATIN-1");
        assert("UTF16BE"@[0] != "LATIN-1"@[0]);
        assert("UTF16BE"@ != "LATIN-1"@);
        reveal_strlit("ISO8859-1");
        assert("UTF16BE"@.len() != "ISO8859-1"@.len());
        reveal_strlit("ISO-8859-1");
        assert("UTF16BE"@.len() != "ISO-8859-1"@.len());
        reveal_strlit("UTF8");
        assert("UTF16BE"@.len() != "UTF8"@.len());
        reveal_strlit("UTF-8N");
        assert("UTF16BE"@.len() != "UTF-8N"@.len());
        reveal_strlit("UTF8-BOM");
        assert("UTF16BE"@.len() != "UTF8-BOM"@.len());
        reveal_strlit("UTF-8-BOM");
        assert("UTF16BE"@.len() != "UTF-8-BOM"@.len());
        reveal_strlit("UTF16");
        assert("UTF16BE"@.len() != "UTF16"@.len());
    }
    assert(spec_upper_name(s) == "UTF16BE-BOM"@ ==> spec_normalize(s) == "UTF-16BE-BOM"@) by {
        reveal_strlit("UTF16BE-BOM");
        reveal_strlit("SJIS");
        assert("UTF16BE-BOM"@.len() != "SJIS"@.len());
        reveal_strlit("SHIFT-JIS");
        assert("UTF16BE-BOM"@.len() != "SHIFT-JIS"@.len());
        reveal_strlit("SHIFT-JISX0213");
        assert("UTF16BE-BOM"@.len() != "SHIFT-JISX0213"@.len());
        reveal_strlit("SHIFT-JIS-X0213");
        assert("UTF16BE-BOM"@.len() != "SHIFT-JIS-X0213"@.len());
        reveal_strlit("SHIFT-JIS-2004");
        assert("UTF16BE-BOM"@.len() != "SHIFT-JIS-2004"@.len());
        reveal_strlit("WINDOWS-31J");
        assert("UTF16BE-BOM"@[0] != "WINDOWS-31J"@[0]);
        assert("UTF16BE-BOM"@ != "WINDOWS-31J"@);
        reveal_strlit("CSWINDOWS31J");
        assert("UTF16BE-BOM"@.len() != "CSWINDOWS31J"@.len());
        reveal_strlit("MS932");
        assert("UTF16BE-BOM"@.len() != "MS932"@.len());
        reveal_strlit("CP932");
        assert("UTF16BE-BOM"@.len() != "CP932"@.len());
        reveal_strlit("EUCJP");
        assert("UTF16BE-BOM"@.len() != "EUCJP"@.len());
        reveal_strlit("EUC-JP");
        assert("UTF16BE-BOM"@.len() != "EUC-JP"@.len());
        reveal_strlit("EUCJP-NKF");
        assert("UTF16BE-BOM"@.len() != "EUCJP-NKF"@.len());
        reveal_strlit("CP51932");
        assert("UTF16BE-BOM"@.len() != "CP51932"@.len());
        reveal_strlit("EUCJP-MS");
        assert("UTF16BE-BOM"@.len() != "EUCJP-MS"@.len());
        reveal_strlit("EUC-JP-MS");
        assert("UTF16BE-BOM"@.len() != "EUC-JP-MS"@.len());
        reveal_strlit("EUCJPMS");
        assert("UTF16BE-BOM"@.len() != "EUCJPMS"@.len());
        reveal_strlit("EUCJP-ASCII");
        assert("UTF16BE-BOM"@[0] != "EUCJP-ASCII"@[0]);
        assert("UTF16BE-BOM"@ != "EUCJP-ASCII"@);
        reveal_strlit("EUC-JP-ASCII");
        assert("UTF16BE-BOM"@.len() != "EUC-JP-ASCII"@.len());
        reveal_strlit("JIS");
        assert("UTF16BE-BOM"@.len() != "JIS"@.len());
        reveal_strlit("ISO2022JP");
        assert("UTF16BE-BOM"@.len() != "ISO2022JP"@.len());
        reveal_strlit("ISO-2022-JP");
        assert("UTF16BE-BOM"@[0] != "ISO-2022-JP"@[0]);
        assert("UTF16BE-BOM"@ != "ISO-2022-JP"@);
        reveal_strlit("ISO2022JP-1");
        assert("UTF16BE-BOM"@[0] != "ISO2022JP-1"@[0]);
        assert("UTF16BE-BOM"@ != "ISO2022JP-1"@);
        reveal_strlit("ISO-2022-JP-1");
        assert("UTF16BE-BOM"@.len() != "ISO-2022-JP-1"@.len());
        reveal_strlit("ISO2022JP-3");
        assert("UTF16BE-BOM"@[0] != "ISO2022JP-3"@[0]);
        assert("UTF16BE-BOM"@ != "ISO2022JP-3"@);
        reveal_strlit("ISO-2022-JP-3");
        assert("UTF16BE-BOM"@.len() != "ISO-2022-JP-3"@.len());
        reveal_strlit("ISO2022JP-2004");
        assert("UTF16BE-BOM"@.len() != "ISO2022JP-2004"@.len());
        reveal_strlit("ISO-2022-JP-2004");
        assert("UTF16BE-BOM"@.len() != "ISO-2022-JP-2004"@.len());
        reveal_strlit("ISO2022JP-CP932");
        assert("UTF16BE-BOM"@.len() != "ISO2022JP-CP932"@.len());
        reveal_strlit("ISO-2022-JP-CP932");
        assert("UTF16BE-BOM"@.len() != "ISO-2022-JP-CP932"@.len());
        reveal_strlit("CP50220");
        assert("UTF16BE-BOM"@.len() != "CP50220"@.len());
        reveal_strlit("CSISO2022JP");
        assert("UTF16BE-BOM"@[0] != "CSISO2022JP"@[0]);
        assert("UTF16BE-BOM"@ != "CSISO2022JP"@);
        reveal_strlit("CP50221");
        assert("UTF16BE-BOM"@.len() != "CP50221"@.len());
        reveal_strlit("CP50222");
        assert("UTF16BE-BOM"@.len() != "CP50222"@.len());
        reveal_strlit("CP10001");
        assert("UTF16BE-BOM"@.len() != "CP10001"@.len());
        reveal_strlit("LATIN1");
        assert("UTF16BE-BOM"@.len() != "LATIN1"@.len());
        reveal_strlit("LATIN-1");
        assert("UTF16BE-BOM"@.len() != "LATIN-1"@.len());
        reveal_strlit("ISO8859-1");
        assert("UTF16BE-BOM"@.len() != "ISO8859-1"@.len());
        reveal_strlit("ISO-8859-1");
        assert("UTF16BE-BOM"@.len() != "ISO-8859-1"@.len());
        reveal_strlit("UTF8");
        assert("UTF16BE-BOM"@.len() != "UTF8"@.len());
        reveal_strlit("UTF-8N");
        assert("UTF16BE-BOM"@.len() != "UTF-8N"@.len());
        reveal_strlit("UTF8-BOM");
        assert("UTF16BE-BOM"@.len() != "UTF8-BOM"@.len());
        reveal_strlit("UTF-8-BOM");
        assert("UTF16BE-BOM"@.len() != "UTF-8-BOM"@.len());
        reveal_strlit("UTF16");
        assert("UTF16BE-BOM"@.len() != "UTF16"@.len());
        reveal_strlit("UTF16BE");
        assert("UTF16BE-BOM"@.len() != "UTF16BE"@.len());
    }
    assert(spec_upper_name(s) == "UTF-16BE-BOM"@ ==> spec_normalize(s) == "UTF-16BE-BOM"@) by {
        reveal_strlit("UTF-16BE-BOM");
        reveal_strlit("SJIS");
        assert("UTF-16BE-BOM"@.len() != "SJIS"@.len());
        reveal_strlit("SHIFT-JIS");
        assert("UTF-16BE-BOM"@.len() != "SHIFT-JIS"@.len());
        reveal_strlit("SHIFT-JISX0213");
        assert("UTF-16BE-BOM"@.len() != "SHIFT-JISX0213"@.len());
        reveal_strlit("SHIFT-JIS-X0213");
        assert("UTF-16BE-BOM"@.len() != "SHIFT-JIS-X0213"@.len());
        reveal_strlit("SHIFT-JIS-2004");
        assert("UTF-16BE-BOM"@.len() != "SHIFT-JIS-2004"@.len());
        reveal_strlit("WINDOWS-31J");
        assert("UTF-16BE-BOM"@.len() != "WINDOWS-31J"@.len());
        reveal_strlit("CSWINDOWS31J");
        assert("UTF-16BE-BOM"@[0] != "CSWINDOWS31J"@[0]);
        assert("UTF-16BE-BOM"@ != "CSWINDOWS31J"@);
        reveal_strlit("MS932");
        assert("UTF-16BE-BOM"@.len() != "MS932"@.len());
        reveal_strlit("CP932");
        assert("UTF-16BE-BOM"@.len() != "CP932"@.len());
        reveal_strlit("EUCJP");
        assert("UTF-16BE-BOM"@.len() != "EUCJP"@.len());
        reveal_strlit("EUC-JP");
        assert("UTF-16BE-BOM"@.len() != "EUC-JP"@.len());
        reveal_strlit("EUCJP-NKF");
        assert("UTF-16BE-BOM"@.len() != "EUCJP-NKF"@.len());
        reveal_strlit("CP51932");
        assert("UTF-16BE-BOM"@.len() != "CP51932"@.len());
        reveal_strlit("EUCJP-MS");
        assert("UTF-16BE-BOM"@.len() != "EUCJP-MS"@.len());
        reveal_strlit("EUC-JP-MS");
        assert("UTF-16BE-BOM"@.len() != "EUC-JP-MS"@.len());
        reveal_strlit("EUCJPMS");
        assert("UTF-16BE-BOM"@.len() != "EUCJPMS"@.len());
        reveal_strlit("EUCJP-ASCII");
        assert("UTF-16BE-BOM"@.len() != "EUCJP-ASCII"@.len());
        reveal_strlit("EUC-JP-ASCII");
        assert("UTF-16BE-BOM"@[0] != "EUC-JP-ASCII"@[0]);
        assert("UTF-16BE-BOM"@ != "EUC-JP-ASCII"@);
        reveal_strlit("JIS");
        assert("UTF-16BE-BOM"@.len() != "JIS"@.len());
        reveal_strlit("ISO2022JP");
        assert("UTF-16BE-BOM"@.len() != "ISO2022JP"@.len());
        reveal_strlit("ISO-2022-JP");
        assert("UTF-16BE-BOM"@.len() != "ISO-2022-JP"@.len());
        reveal_strlit("ISO2022JP-1");
        assert("UTF-16BE-BOM"@.len() != "ISO2022JP-1"@.len());
        reveal_strlit("ISO-2022-JP-1");
        assert("UTF-16BE-BOM"@.len() != "ISO-2022-JP-1"@.len());
        reveal_strlit("ISO2022JP-3");
        assert("UTF-16BE-BOM"@.len() != "ISO2022JP-3"@.len());
        reveal_strlit("ISO-2022-JP-3");
        assert("UTF-16BE-BOM"@.len() != "ISO-2022-JP-3"@.len());
        reveal_strlit("ISO2022JP-2004");
        assert("UTF-16BE-BOM"@.len() != "ISO2022JP-2004"@.len());
        reveal_strlit("ISO-2022-JP-2004");
        assert("UTF-16BE-BOM"@.len() != "ISO-2022-JP-2004"@.len());
        reveal_strlit("ISO2022JP-CP932");
        assert("UTF-16BE-BOM"@.len() != "ISO2022JP-CP932"@.len());
        reveal_strlit("ISO-2022-JP-CP932");
        assert("UTF-16BE-BOM"@.len() != "ISO-2022-JP-CP932"@.len());
        reveal_strlit("CP50220");
        assert("UTF-16BE-BOM"@.len() != "CP50220"@.len());
        reveal_strlit("CSISO2022JP");
        assert("UTF-16BE-BOM"@.len() != "CSISO2022JP"@.len());
        reveal_strlit("CP50221");
        assert("UTF-16BE-BOM"@.len() != "CP50221"@.len());
        reveal_strlit("CP50222");
        assert("UTF-16BE-BOM"@.len() != "CP50222"@.len());
        reveal_strlit("CP10001");
        assert("UTF-16BE-BOM"@.len() != "CP10001"@.len());
        reveal_strlit("LATIN1");
        assert("UTF-16BE-BOM"@.len() != "LATIN1"@.len());
        reveal_strlit("LATIN-1");
        assert("UTF-16BE-BOM"@.len() != "LATIN-1"@.len());
        reveal_strlit("ISO8859-1");
        assert("UTF-16BE-BOM"@.len() != "ISO8859-1"@.len());
        reveal_strlit("ISO-8859-1");
        assert("UTF-16BE-BOM"@.len() != "ISO-8859-1"@.len());
        reveal_strlit("UTF8");
        assert("UTF-16BE-BOM"@.len() != "UTF8"@.len());
        reveal_strlit("UTF-8N");
        assert("UTF-16BE-BOM"@.len() != "UTF-8N"@.len());
        reveal_strlit("UTF8-BOM");
        assert("UTF-16BE-BOM"@.len() != "UTF8-BOM"@.len());
        reveal_strlit("UTF-8-BOM");
        assert("UTF-16BE-BOM"@.len() != "UTF-8-BOM"@.len());
        reveal_strlit("UTF16");
        assert("UTF-16BE-BOM"@.len() != "UTF16"@.len());
        reveal_strlit("UTF16BE");
        assert("UTF-16BE-BOM"@.len() != "UTF16BE"@.len());
    }
    assert(spec_upper_name(s) == "UTF16LE"@ ==> spec_normalize(s) == "UTF-16LE"@) by {
        reveal_strlit("UTF16LE");
        reveal_strlit("SJIS");
        assert("UTF16LE"@.len() != "SJIS"@.len());
        reveal_strlit("SHIFT-JIS");
        assert("UTF16LE"@.len() != "SHIFT-JIS"@.len());
        reveal_strlit("SHIFT-JISX0213");
        assert("UTF16LE"@.len() != "SHIFT-JISX0213"@.len());
        reveal_strlit("SHIFT-JIS-X0213");
        assert("UTF16LE"@.len() != "SHIFT-JIS-X0213"@.len());
        reveal_strlit("SHIFT-JIS-2004");
        assert("UTF16LE"@.len() != "SHIFT-JIS-2004"@.len());
        reveal_strlit("WINDOWS-31J");
        assert("UTF16LE"@.len() != "WINDOWS-31J"@.len());
        reveal_strlit("CSWINDOWS31J");
        assert("UTF16LE"@.len() != "CSWINDOWS31J"@.len());
        reveal_strlit("MS932");
        assert("UTF16LE"@.len() != "MS932"@.len());
        reveal_strlit("CP932");
        assert("UTF16LE"@.len() != "CP932"@.len());
        reveal_strlit("EUCJP");
        assert("UTF16LE"@.len() != "EUCJP"@.len());
        reveal_strlit("EUC-JP");
        assert("UTF16LE"@.len() != "EUC-JP"@.len());
        reveal_strlit("EUCJP-NKF");
        assert("UTF16LE"@.len() != "EUCJP-NKF"@.len());
        reveal_strlit("CP51932");
        assert("UTF16LE"@[0] != "CP51932"@[0]);
        assert("UTF16LE"@ != "CP51932"@);
        reveal_strlit("EUCJP-MS");
        assert("UTF16LE"@.len() != "EUCJP-MS"@.len());
        reveal_strlit("EUC-JP-MS");
        assert("UTF16LE"@.len() != "EUC-JP-MS"@.len());
        reveal_strlit("EUCJPMS");
        assert("UTF16LE"@[0] != "EUCJPMS"@[0]);
        assert("UTF16LE"@ != "EUCJPMS"@);
        reveal_strlit("EUCJP-ASCII");
        assert("UTF16LE"@.len() != "EUCJP-ASCII"@.len());
        reveal_strlit("EUC-JP-ASCII");
        assert("UTF16LE"@.len() != "EUC-JP-ASCII"@.len());
        reveal_strlit("JIS");
        assert("UTF16LE"@.len() != "JIS"@.len());
        reveal_strlit("ISO2022JP");
        assert("UTF16LE"@.len() != "ISO2022JP"@.len());
        reveal_strlit("ISO-2022-JP");
        assert("UTF16LE"@.len() != "ISO-2022-JP"@.len());
        reveal_strlit("ISO2022JP-1");
        assert("UTF16LE"@.len() != "ISO2022JP-1"@.len());
        reveal_strlit("ISO-2022-JP-1");
        assert("UTF16LE"@.len() != "ISO-2022-JP-1"@.len());
        reveal_strlit("ISO2022JP-3");
        assert("UTF16LE"@.len() != "ISO2022JP-3"@.len());
        reveal_strlit("ISO-2022-JP-3");
        assert("UTF16LE"@.len() != "ISO-2022-JP-3"@.len());
        reveal_strlit("ISO2022JP-2004");
        assert("UTF16LE"@.len() != "ISO2022JP-2004"@.len());
        reveal_strlit("ISO-2022-JP-2004");
        assert("UTF16LE"@.len() != "ISO-2022-JP-2004"@.len());
        reveal_strlit("ISO2022JP-CP932");
        assert("UTF16LE"@.len() != "ISO2022JP-CP932"@.len());
        reveal_strlit("ISO-2022-JP-CP932");
        assert("UTF16LE"@.len() != "ISO-2022-JP-CP932"@.len());
        reveal_strlit("CP50220");
        assert("UTF16LE"@[0] != "CP50220"@[0]);
        assert("UTF16LE"@ != "CP50220"@);
        reveal_strlit("CSISO2022JP");
        assert("UTF16LE"@.len() != "CSISO2022JP"@.len());
        reveal_strlit("CP50221");
        assert("UTF16LE"@[0] != "CP50221"@[0]);
        assert("UTF16LE"@ != "CP50221"@);
        reveal_strlit("CP50222");
        assert("UTF16LE"@[0] != "CP50222"@[0]);
        assert("UTF16LE"@ != "CP50222"@);
        reveal_strlit("CP10001");
        assert("UTF16LE"@[0] != "CP10001"@[0]);
        assert("UTF16LE"@ != "CP10001"@);
        reveal_strlit("LATIN1");
        assert("UTF16LE"@.len() != "LATIN1"@.len());
        reveal_strlit("LATIN-1");
        assert("UTF16LE"@[0] != "LATIN-1"@[0]);
        assert("UTF16LE"@ != "LATIN-1"@);
        reveal_strlit("ISO8859-1");
        assert("UTF16LE"@.len() != "ISO8859-1"@.len());
        reveal_strlit("ISO-8859-1");
        assert("UTF16LE"@.len() != "ISO-8859-1"@.len());
        reveal_strlit("UTF8");
        assert("UTF16LE"@.len() != "UTF8"@.len());
        reveal_strlit("UTF-8N");
        assert("UTF16LE"@.len() != "UTF-8N"@.len());
        reveal_strlit("UTF8-BOM");
        assert("UTF16LE"@.len() != "UTF8-BOM"@.len());
        reveal_strlit("UTF-8-BOM");
        assert("UTF16LE"@.len() != "UTF-8-BOM"@.len());
        reveal_strlit("UTF16");
        assert("UTF16LE"@.len() != "UTF16"@.len());
        reveal_strlit("UTF16BE");
        assert("UTF16LE"@[5] != "UTF16BE"@[5]);
        assert("UTF16LE"@ != "UTF16BE"@);
        reveal_strlit("UTF16BE-BOM");
        assert("UTF16LE"@.len() != "UTF16BE-BOM"@.len());
        reveal_strlit("UTF-16BE-BOM");
        assert("UTF16LE"@.len() != "UTF-16BE-BOM"@.len());
    }
    assert(spec_upper_name(s) == "UTF16LE-BOM"@ ==> spec_normalize(s) == "UTF-16LE-BOM"@) by {
        reveal_strlit("UTF16LE-BOM");
        reveal_strlit("SJIS");
        assert("UTF16LE-BOM"@.len() != "SJIS"@.len());
        reveal_strlit("SHIFT-JIS");
        assert("UTF16LE-BOM"@.len() != "SHIFT-JIS"@.len());
        reveal_strlit("SHIFT-JISX0213");
        assert("UTF16LE-BOM"@.len() != "SHIFT-JISX0213"@.len());
        reveal_strlit("SHIFT-JIS-X0213");
        assert("UTF16LE-BOM"@.len() != "SHIFT-JIS-X0213"@.len());
        reveal_strlit("SHIFT-JIS-2004");
        assert("UTF16LE-BOM"@.len() != "SHIFT-JIS-2004"@.len());
        reveal_strlit("WINDOWS-31J");
        assert("UTF16LE-BOM"@[0] != "WINDOWS-31J"@[0]);
        assert("UTF16LE-BOM"@ != "WINDOWS-31J"@);
        reveal_strlit("CSWINDOWS31J");
        assert("UTF16LE-BOM"@.len() != "CSWINDOWS31J"@.len());
        reveal_strlit("MS932");
        assert("UTF16LE-BOM"@.len() != "MS932"@.len());
        reveal_strlit("CP932");
        assert("UTF16LE-BOM"@.len() != "CP932"@.len());
        reveal_strlit("EUCJP");
        assert("UTF16LE-BOM"@.len() != "EUCJP"@.len());
        reveal_strlit("EUC-JP");
        assert("UTF16LE-BOM"@.len() != "EUC-JP"@.len());
        reveal_strlit("EUCJP-NKF");
        assert("UTF16LE-BOM"@.len() != "EUCJP-NKF"@.len());
        reveal_strlit("CP51932");
        assert("UTF16LE-BOM"@.len() != "CP51932"@.len());
        reveal_strlit("EUCJP-MS");
        assert("UTF16LE-BOM"@.len() != "EUCJP-MS"@.len());
        reveal_strlit("EUC-JP-MS");
        assert("UTF16LE-BOM"@.len() != "EUC-JP-MS"@.len());
        reveal_strlit("EUCJPMS");
        assert("UTF16LE-BOM"@.len() != "EUCJPMS"@.len());
        reveal_strlit("EUCJP-ASCII");
        assert("UTF16LE-BOM"@[0] != "EUCJP-ASCII"@[0]);
        assert("UTF16LE-BOM"@ != "EUCJP-ASCII"@);
        reveal_strlit("EUC-JP-ASCII");
        assert("UTF16LE-BOM"@.len() != "EUC-JP-ASCII"@.len());
        reveal_strlit("JIS");
        assert("UTF16LE-BOM"@.len() != "JIS"@.len());
        reveal_strlit("ISO2022JP");
        assert("UTF16LE-BOM"@.len() != "ISO2022JP"@.len());
        reveal_strlit("ISO-2022-JP");
        assert("UTF16LE-BOM"@[0] != "ISO-2022-JP"@[0]);
        assert("UTF16LE-BOM"@ != "ISO-2022-JP"@);
        reveal_strlit("ISO2022JP-1");
        assert("UTF16LE-BOM"@[0] != "ISO2022JP-1"@[0]);
        assert("UTF16LE-BOM"@ != "ISO2022JP-1"@);
        reveal_strlit("ISO-2022-JP-1");
        assert("UTF16LE-BOM"@.len() != "ISO-2022-JP-1"@.len());
        reveal_strlit("ISO2022JP-3");
        assert("UTF16LE-BOM"@[0] != "ISO2022JP-3"@[0]);
        assert("UTF16LE-BOM"@ != "ISO2022JP-3"@);
        reveal_strlit("ISO-2022-JP-3");
        assert("UTF16LE-BOM"@.len() != "ISO-2022-JP-3"@.len());
        reveal_strlit("ISO2022JP-2004");
        assert("UTF16LE-BOM"@.len() != "ISO2022JP-2004"@.len());
        reveal_strlit("ISO-2022-JP-2004");
        assert("UTF16LE-BOM"@.len() != "ISO-2022-JP-2004"@.len());
        reveal_strlit("ISO2022JP-CP932");
        assert("UTF16LE-BOM"@.len() != "ISO2022JP-CP932"@.len());
        reveal_strlit("ISO-2022-JP-CP932");
        assert("UTF16LE-BOM"@.len() != "ISO-2022-JP-CP932"@.len());
        reveal_strlit("CP50220");
        assert("UTF16LE-BOM"@.len() != "CP50220"@.len());
        reveal_strlit("CSISO2022JP");
        assert("UTF16LE-BOM"@[0] != "CSISO2022JP"@[0]);
        assert("UTF16LE-BOM"@ != "CSISO2022JP"@);
        reveal_strlit("CP50221");
        assert("UTF16LE-BOM"@.len() != "CP50221"@.len());
        reveal_strlit("CP50222");
        assert("UTF16LE-BOM"@.len() != "CP50222"@.len());
        reveal_strlit("CP10001");
        assert("UTF16LE-BOM"@.len() != "CP10001"@.len());
        reveal_strlit("LATIN1");
        assert("UTF16LE-BOM"@.len() != "LATIN1"@.len());
        reveal_strlit("LATIN-1");
        assert("UTF16LE-BOM"@.len() != "LATIN-1"@.len());
        reveal_strlit("ISO8859-1");
        assert("UTF16LE-BOM"@.len() != "ISO8859-1"@.len());
        reveal_strlit("ISO-8859-1");
        assert("UTF16LE-BOM"@.len() != "ISO-8859-1"@.len());
        reveal_strlit("UTF8");
        assert("UTF16LE-BOM"@.len() != "UTF8"@.len());
        reveal_strlit("UTF-8N");
        assert("UTF16LE-BOM"@.len() != "UTF-8N"@.len());
        reveal_strlit("UTF8-BOM");
        assert("UTF16LE-BOM"@.len() != "UTF8-BOM"@.len());
        reveal_strlit("UTF-8-BOM");
        assert("UTF16LE-BOM"@.len() != "UTF-8-BOM"@.len());
        reveal_strlit("UTF16");
        assert("UTF16LE-BOM"@.len() != "UTF16"@.len());
        reveal_strlit("UTF16BE");
        assert("UTF16LE-BOM"@.len() != "UTF16BE"@.len());
        reveal_strlit("UTF16BE-BOM");
        assert("UTF16LE-BOM"@[5] != "UTF16BE-BOM"@[5]);
        assert("UTF16LE-BOM"@ != "UTF16BE-BOM"@);
        reveal_strlit("UTF-16BE-BOM");
        assert("UTF16LE-BOM"@.len() != "UTF-16BE-BOM"@.len());
        reveal_strlit("UTF16LE");
        assert("UTF16LE-BOM"@.len() != "UTF16LE"@.len());
    }
    assert(spec_upper_name(s) == "UTF-16LE-BOM"@ ==> spec_normalize(s) == "UTF-16LE-BOM"@) by {
        reveal_strlit("UTF-16LE-BOM");
        reveal_strlit("SJIS");
        assert("UTF-16LE-BOM"@.len() != "SJIS"@.len());
        reveal_strlit("SHIFT-JIS");
        assert("UTF-16LE-BOM"@.len() != "SHIFT-JIS"@.len());
        reveal_strlit("SHIFT-JISX0213");
        assert("UTF-16LE-BOM"@.len() != "SHIFT-JISX0213"@.len());
        reveal_strlit("SHIFT-JIS-X0213");
        assert("UTF-16LE-BOM"@.len() != "SHIFT-JIS-X0213"@.len());
        reveal_strlit("SHIFT-JIS-2004");
        assert("UTF-16LE-BOM"@.len() != "SHIFT-JIS-2004"@.len());
        reveal_strlit("WINDOWS-31J");
        assert("UTF-16LE-BOM"@.len() != "WINDOWS-31J"@.len());
        reveal_strlit("CSWINDOWS31J");
        assert("UTF-16LE-BOM"@[0] != "CSWINDOWS31J"@[0]);
        assert("UTF-16LE-BOM"@ != "CSWINDOWS31J"@);
        reveal_strlit("MS932");
        assert("UTF-16LE-BOM"@.len() != "MS932"@.len());
        reveal_strlit("CP932");
        assert("UTF-16LE-BOM"@.len() != "CP932"@.len());
        reveal_strlit("EUCJP");
        assert("UTF-16LE-BOM"@.len() != "EUCJP"@.len());
        reveal_strlit("EUC-JP");
        assert("UTF-16LE-BOM"@.len() != "EUC-JP"@.len());
        reveal_strlit("EUCJP-NKF");
        assert("UTF-16LE-BOM"@.len() != "EUCJP-NKF"@.len());
        reveal_strlit("CP51932");
        assert("UTF-16LE-BOM"@.len() != "CP51932"@.len());
        reveal_strlit("EUCJP-MS");
        assert("UTF-16LE-BOM"@.len() != "EUCJP-MS"@.len());
        reveal_strlit("EUC-JP-MS");
        assert("UTF-16LE-BOM"@.len() != "EUC-JP-MS"@.len());
        reveal_strlit("EUCJPMS");
        assert("UTF-16LE-BOM"@.len() != "EUCJPMS"@.len());
        reveal_strlit("EUCJP-ASCII");
        assert("UTF-16LE-BOM"@.len() != "EUCJP-ASCII"@.len());
        reveal_strlit("EUC-JP-ASCII");
        assert("UTF-16LE-BOM"@[0] != "EUC-JP-ASCII"@[0]);
        assert("UTF-16LE-BOM"@ != "EUC-JP-ASCII"@);
        reveal_strlit("JIS");
        assert("UTF-16LE-BOM"@.len() != "JIS"@.len());
        reveal_strlit("ISO2022JP");
        assert("UTF-16LE-BOM"@.len() != "ISO2022JP"@.len());
        reveal_strlit("ISO-2022-JP");
        assert("UTF-16LE-BOM"@.len() != "ISO-2022-JP"@.len());
        reveal_strlit("ISO2022JP-1");
        assert("UTF-16LE-BOM"@.len() != "ISO2022JP-1"@.len());
        reveal_strlit("ISO-2022-JP-1");
        assert("UTF-16LE-BOM"@.len() != "ISO-2022-JP-1"@.len());
        reveal_strlit("ISO2022JP-3");
        assert("UTF-16LE-BOM"@.len() != "ISO2022JP-3"@.len());
        reveal_strlit("ISO-2022-JP-3");
        assert("UTF-16LE-BOM"@.len() != "ISO-2022-JP-3"@.len());
        reveal_strlit("ISO2022JP-2004");
        assert("UTF-16LE-BOM"@.len() != "ISO2022JP-2004"@.len());
        reveal_strlit("ISO-2022-JP-2004");
        assert("UTF-16LE-BOM"@.len() != "ISO-2022-JP-2004"@.len());
        reveal_strlit("ISO2022JP-CP932");
        assert("UTF-16LE-BOM"@.len() != "ISO2022JP-CP932"@.len());
        reveal_strlit("ISO-2022-JP-CP932");
        assert("UTF-16LE-BOM"@.len() != "ISO-2022-JP-CP932"@.len());
        reveal_strlit("CP50220");
        assert("UTF-16LE-BOM"@.len() != "CP50220"@.len());
        reveal_strlit("CSISO2022JP");
        assert("UTF-16LE-BOM"@.len() != "CSISO2022JP"@.len());
        reveal_strlit("CP50221");
        assert("UTF-16LE-BOM"@.len() != "CP50221"@.len());
        reveal_strlit("CP50222");
        assert("UTF-16LE-BOM"@.len() != "CP50222"@.len());
        reveal_strlit("CP10001");
        assert("UTF-16LE-BOM"@.len() != "CP10001"@.len());
        reveal_strlit("LATIN1");
        assert("UTF-16LE-BOM"@.len() != "LATIN1"@.len());
        reveal_strlit("LATIN-1");
        assert("UTF-16LE-BOM"@.len() != "LATIN-1"@.len());
        reveal_strlit("ISO8859-1");
        assert("UTF-16LE-BOM"@.len() != "ISO8859-1"@.len());
        reveal_strlit("ISO-8859-1");
        assert("UTF-16LE-BOM"@.len() != "ISO-8859-1"@.len());
        reveal_strlit("UTF8");
        assert("UTF-16LE-BOM"@.len() != "UTF8"@.len());
        reveal_strlit("UTF-8N");
        assert("UTF-16LE-BOM"@.len() != "UTF-8N"@.len());
        reveal_strlit("UTF8-BOM");
        assert("UTF-16LE-BOM"@.len() != "UTF8-BOM"@.len());
        reveal_strlit("UTF-8-BOM");
        assert("UTF-16LE-BOM"@.len() != "UTF-8-BOM"@.len());
        reveal_strlit("UTF16");
        assert("UTF-16LE-BOM"@.len() != "UTF16"@.len());
        reveal_strlit("UTF16BE");
        assert("UTF-16LE-BOM"@.len() != "UTF16BE"@.len());
        reveal_strlit("UTF16BE-BOM");
        assert("UTF-16LE-BOM"@.len() != "UTF16BE-BOM"@.len());
        reveal_strlit("UTF-16BE-BOM");
        assert("UTF-16LE-BOM"@[6] != "UTF-16BE-BOM"@[6]);
        assert("UTF-16LE-BOM"@ != "UTF-16BE-BOM"@);
        reveal_strlit("UTF16LE");
        assert("UTF-16LE-BOM"@.len() != "UTF16LE"@.len());
    }
    assert(spec_upper_name(s) == "UTF32"@ ==> spec_normalize(s) == "UTF-32"@) by {
        reveal_strlit("UTF32");
        reveal_strlit("SJIS");
        assert("UTF32"@.len() != "SJIS"@.len());
        reveal_strlit("SHIFT-JIS");
        assert("UTF32"@.len() != "SHIFT-JIS"@.len());
        reveal_strlit("SHIFT-JISX0213");
        assert("UTF32"@.len() != "SHIFT-JISX0213"@.len());
        reveal_strlit("SHIFT-JIS-X0213");
        assert("UTF32"@.len() != "SHIFT-JIS-X0213"@.len());
        reveal_strlit("SHIFT-JIS-2004");
        assert("UTF32"@.len() != "SHIFT-JIS-2004"@.len());
        reveal_strlit("WINDOWS-31J");
        assert("UTF32"@.len() != "WINDOWS-31J"@.len());
        reveal_strlit("CSWINDOWS31J");
        assert("UTF32"@.len() != "CSWINDOWS31J"@.len());
        reveal_strlit("MS932");
        assert("UTF32"@[0] != "MS932"@[0]);
        assert("UTF32"@ != "MS932"@);
        reveal_strlit("CP932");
        assert("UTF32"@[0] != "CP932"@[0]);
        assert("UTF32"@ != "CP932"@);
        reveal_strlit("EUCJP");
        assert("UTF32"@[0] != "EUCJP"@[0]);
        assert("UTF32"@ != "EUCJP"@);
        reveal_strlit("EUC-JP");
        assert("UTF32"@.len() != "EUC-JP"@.len());
        reveal_strlit("EUCJP-NKF");
        assert("UTF32"@.len() != "EUCJP-NKF"@.len());
        reveal_strlit("CP51932");
        assert("UTF32"@.len() != "CP51932"@.len());
        reveal_strlit("EUCJP-MS");
        assert("UTF32"@.len() != "EUCJP-MS"@.len());
        reveal_strlit("EUC-JP-MS");
        assert("UTF32"@.len() != "EUC-JP-MS"@.len());
        reveal_strlit("EUCJPMS");
        assert("UTF32"@.len() != "EUCJPMS"@.len());
        reveal_strlit("EUCJP-ASCII");
        assert("UTF32"@.len() != "EUCJP-ASCII"@.len());
        reveal_strlit("EUC-JP-ASCII");
        assert("UTF32"@.len() != "EUC-JP-ASCII"@.len());
        reveal_strlit("JIS");
        assert("UTF32"@.len() != "JIS"@.len());
        reveal_strlit("ISO2022JP");
        assert("UTF32"@.len() != "ISO2022JP"@.len());
        reveal_strlit("ISO-2022-JP");
        assert("UTF32"@.len() != "ISO-2022-JP"@.len());
        reveal_strlit("ISO2022JP-1");
        assert("UTF32"@.len() != "ISO2022JP-1"@.len());
        reveal_strlit("ISO-2022-JP-1");
        assert("UTF32"@.len() != "ISO-2022-JP-1"@.len());
        reveal_strlit("ISO2022JP-3");
        assert("UTF32"@.len() != "ISO2022JP-3"@.len());
        reveal_strlit("ISO-2022-JP-3");
        assert("UTF32"@.len() != "ISO-2022-JP-3"@.len());
        reveal_strlit("ISO2022JP-2004");
        assert("UTF32"@.len() != "ISO2022JP-2004"@.len());
        reveal_strlit("ISO-2022-JP-2004");
        assert("UTF32"@.len() != "ISO-2022-JP-2004"@.len());
        reveal_strlit("ISO2022JP-CP932");
        assert("UTF32"@.len() != "ISO2022JP-CP932"@.len());
        reveal_strlit("ISO-2022-JP-CP932");
        assert("UTF32"@.len() != "ISO-2022-JP-CP932"@.len());
        reveal_strlit("CP50220");
        assert("UTF32"@.len() != "CP50220"@.len());
        reveal_strlit("CSISO2022JP");
        assert("UTF32"@.len() != "CSISO2022JP"@.len());
        reveal_strlit("CP50221");
        assert("UTF32"@.len() != "CP50221"@.len());
        reveal_strlit("CP50222");
        assert("UTF32"@.len() != "CP50222"@.len());
        reveal_strlit("CP10001");
        assert("UTF32"@.len() != "CP10001"@.len());
        reveal_strlit("LATIN1");
        assert("UTF32"@.len() != "LATIN1"@.len());
        reveal_strlit("LATIN-1");
        assert("UTF32"@.len() != "LATIN-1"@.len());
        reveal_strlit("ISO8859-1");
        assert("UTF32"@.len() != "ISO8859-1"@.len());
        reveal_strlit("ISO-8859-1");
        assert("UTF32"@.len() != "ISO-8859-1"@.len());
        reveal_strlit("UTF8");
        assert("UTF32"@.len() != "UTF8"@.len());
        reveal_strlit("UTF-8N");
        assert("UTF32"@.len() != "UTF-8N"@.len());
        reveal_strlit("UTF8-BOM");
        assert("UTF32"@.len() != "UTF8-BOM"@.len());
        reveal_strlit("UTF-8-BOM");
        assert("UTF32"@.len() != "UTF-8-BOM"@.len());
        reveal_strlit("UTF16");
        assert("UTF32"@[3] != "UTF16"@[3]);
        assert("UTF32"@ != "UTF16"@);
        reveal_strlit("UTF16BE");
        assert("UTF32"@.len() != "UTF16BE"@.len());
        reveal_strlit("UTF16BE-BOM");
        assert("UTF32"@.len() != "UTF16BE-BOM"@.len());
        reveal_strlit("UTF-16BE-BOM");
        assert("UTF32"@.len() != "UTF-16BE-BOM"@.len());
        reveal_strlit("UTF16LE");
        assert("UTF32"@.len() != "UTF16LE"@.len());
        reveal_strlit("UTF16LE-BOM");
        assert("UTF32"@.len() != "UTF16LE-BOM"@.len());
        reveal_strlit("UTF-16LE-BOM");
        assert("UTF32"@.len() != "UTF-16LE-BOM"@.len());
    }
    assert(spec_upper_name(s) == "UTF32BE"@ ==> spec_normalize(s) == "UTF-32BE"@) by {
        reveal_strlit("UTF32BE");
        reveal_strlit("SJIS");
        assert("UTF32BE"@.len() != "SJIS"@.len());
        reveal_strlit("SHIFT-JIS");
        assert("UTF32BE"@.len() != "SHIFT-JIS"@.len());
        reveal_strlit("SHIFT-JISX0213");
        assert("UTF32BE"@.len() != "SHIFT-JISX0213"@.len());
        reveal_strlit("SHIFT-JIS-X0213");
        assert("UTF32BE"@.len() != "SHIFT-JIS-X0213"@.len());
        reveal_strlit("SHIFT-JIS-2004");
        assert("UTF32BE"@.len() != "SHIFT-JIS-2004"@.len());
        reveal_strlit("WINDOWS-31J");
        assert("UTF32BE"@.len() != "WINDOWS-31J"@.len());
        reveal_strlit("CSWINDOWS31J");
        assert("UTF32BE"@.len() != "CSWINDOWS31J"@.len());
        reveal_strlit("MS932");
        assert("UTF32BE"@.len() != "MS932"@.len());
        reveal_strlit("CP932");
        assert("UTF32BE"@.len() != "CP932"@.len());
        reveal_strlit("EUCJP");
        assert("UTF32BE"@.len() != "EUCJP"@.len());
        reveal_strlit("EUC-JP");
        assert("UTF32BE"@.len() != "EUC-JP"@.len());
        reveal_strlit("EUCJP-NKF");
        assert("UTF32BE"@.len() != "EUCJP-NKF"@.len());
        reveal_strlit("CP51932");
        assert("UTF32BE"@[0] != "CP51932"@[0]);
        assert("UTF32BE"@ != "CP51932"@);
        reveal_strlit("EUCJP-MS");
        assert("UTF32BE"@.len() != "EUCJP-MS"@.len());
        reveal_strlit("EUC-JP-MS");
        assert("UTF32BE"@.len() != "EUC-JP-MS"@.len());
        reveal_strlit("EUCJPMS");
        assert("UTF32BE"@[0] != "EUCJPMS"@[0]);
        assert("UTF32BE"@ != "EUCJPMS"@);
        reveal_strlit("EUCJP-ASCII");
        assert("UTF32BE"@.len() != "EUCJP-ASCII"@.len());
        reveal_strlit("EUC-JP-ASCII");
        assert("UTF32BE"@.len() != "EUC-JP-ASCII"@.len());
        reveal_strlit("JIS");
        assert("UTF32BE"@.len() != "JIS"@.len());
        reveal_strlit("ISO2022JP");
        assert("UTF32BE"@.len() != "ISO2022JP"@.len());
        reveal_strlit("ISO-2022-JP");
        assert("UTF32BE"@.len() != "ISO-2022-JP"@.len());
        reveal_strlit("ISO2022JP-1");
        assert("UTF32BE"@.len() != "ISO2022JP-1"@.len());
        reveal_strlit("ISO-2022-JP-1");
        assert("UTF32BE"@.len() != "ISO-2022-JP-1"@.len());
        reveal_strlit("ISO2022JP-3");
        assert("UTF32BE"@.len() != "ISO2022JP-3"@.len());
        reveal_strlit("ISO-2022-JP-3");
        assert("UTF32BE"@.len() != "ISO-2022-JP-3"@.len());
        reveal_strlit("ISO2022JP-2004");
        assert("UTF32BE"@.len() != "ISO2022JP-2004"@.len());
        reveal_strlit("ISO-2022-JP-2004");
        assert("UTF32BE"@.len() != "ISO-2022-JP-2004"@.len());
        reveal_strlit("ISO2022JP-CP932");
        assert("UTF32BE"@.len() != "ISO2022JP-CP932"@.len());
        reveal_strlit("ISO-2022-JP-CP932");
        assert("UTF32BE"@.len() != "ISO-2022-JP-CP932"@.len());
        reveal_strlit("CP50220");
        assert("UTF32BE"@[0] != "CP50220"@[0]);
        assert("UTF32BE"@ != "CP50220"@);
        reveal_strlit("CSISO2022JP");
        assert("UTF32BE"@.len() != "CSISO2022JP"@.len());
        reveal_strlit("CP50221");
        assert("UTF32BE"@[0] != "CP50221"@[0]);
        assert("UTF32BE"@ != "CP50221"@);
        reveal_strlit("CP50222");
        assert("UTF32BE"@[0] != "CP50222"@[0]);
        assert("UTF32BE"@ != "CP50222"@);
        reveal_strlit("CP10001");
        assert("UTF32BE"@[0] != "CP10001"@[0]);
        assert("UTF32BE"@ != "CP10001"@);
        reveal_strlit("LATIN1");
        assert("UTF32BE"@.len() != "LATIN1"@.len());
        reveal_strlit("LATIN-1");
        assert("UTF32BE"@[0] != "LATIN-1"@[0]);
        assert("UTF32BE"@ != "LATIN-1"@);
        reveal_strlit("ISO8859-1");
        assert("UTF32BE"@.len() != "ISO8859-1"@.len());
        reveal_strlit("ISO-8859-1");
        assert("UTF32BE"@.len() != "ISO-8859-1"@.len());
        reveal_strlit("UTF8");
        assert("UTF32BE"@.len() != "UTF8"@.len());
        reveal_strlit("UTF-8N");
        assert("UTF32BE"@.len() != "UTF-8N"@.len());
        reveal_strlit("UTF8-BOM");
        assert("UTF32BE"@.len() != "UTF8-BOM"@.len());
        reveal_strlit("UTF-8-BOM");
        assert("UTF32BE"@.len() != "UTF-8-BOM"@.len());
        reveal_strlit("UTF16");
        assert("UTF32BE"@.len() != "UTF16"@.len());
        reveal_strlit("UTF16BE");
        assert("UTF32BE"@[3] != "UTF16BE"@[3]);
        assert("UTF32BE"@ != "UTF16BE"@);
        reveal_strlit("UTF16BE-BOM");
        assert("UTF32BE"@.len() != "UTF16BE-BOM"@.len());
        reveal_strlit("UTF-16BE-BOM");
        assert("UTF32BE"@.len() != "UTF-16BE-BOM"@.len());
        reveal_strlit("UTF16LE");
        assert("UTF32BE"@[3] != "UTF16LE"@[3]);
        assert("UTF32BE"@ != "UTF16LE"@);
        reveal_strlit("UTF16LE-BOM");
        assert("UTF32BE"@.len() != "UTF16LE-BOM"@.len());
        reveal_strlit("UTF-16LE-BOM");
        assert("UTF32BE"@.len() != "UTF-16LE-BOM"@.len());
        reveal_strlit("UTF32");
        assert("UTF32BE"@.len() != "UTF32"@.len());
    }
    assert(spec_upper_name(s) == "UTF32BE-BOM"@ ==> spec_normalize(s) == "UTF-32BE-BOM"@) by {
        reveal_strlit("UTF32BE-BOM");
        reveal_strlit("SJIS");
        assert("UTF32BE-BOM"@.len() != "SJIS"@.len());
        reveal_strlit("SHIFT-JIS");
        assert("UTF32BE-BOM"@.len() != "SHIFT-JIS"@.len());
        reveal_strlit("SHIFT-JISX0213");
        assert("UTF32BE-BOM"@.len() != "SHIFT-JISX0213"@.len());
        reveal_strlit("SHIFT-JIS-X0213");
        assert("UTF32BE-BOM"@.len() != "SHIFT-JIS-X0213"@.len());
        reveal_strlit("SHIFT-JIS-2004");
        assert("UTF32BE-BOM"@.len() != "SHIFT-JIS-2004"@.len());
        reveal_strlit("WINDOWS-31J");
        assert("UTF32BE-BOM"@[0] != "WINDOWS-31J"@[0]);
        assert("UTF32BE-BOM"@ != "WINDOWS-31J"@);
        reveal_strlit("CSWINDOWS31J");
        assert("UTF32BE-BOM"@.len() != "CSWINDOWS31J"@.len());
        reveal_strlit("MS932");
        assert("UTF32BE-BOM"@.len() != "MS932"@.len());
        reveal_strlit("CP932");
        assert("UTF32BE-BOM"@.len() != "CP932"@.len());
        reveal_strlit("EUCJP");
        assert("UTF32BE-BOM"@.len() != "EUCJP"@.len());
        reveal_strlit("EUC-JP");
        assert("UTF32BE-BOM"@.len() != "EUC-JP"@.len());
        reveal_strlit("EUCJP-NKF");
        assert("UTF32BE-BOM"@.len() != "EUCJP-NKF"@.len());
        reveal_strlit("CP51932");
        assert("UTF32BE-BOM"@.len() != "CP51932"@.len());
        reveal_strlit("EUCJP-MS");
        assert("UTF32BE-BOM"@.len() != "EUCJP-MS"@.len());
        reveal_strlit("EUC-JP-MS");
        assert("UTF32BE-BOM"@.len() != "EUC-JP-MS"@.len());
        reveal_strlit("EUCJPMS");
        assert("UTF32BE-BOM"@.len() != "EUCJPMS"@.len());
        reveal_strlit("EUCJP-ASCII");
        assert("UTF32BE-BOM"@[0] != "EUCJP-ASCII"@[0]);
        assert("UTF32BE-BOM"@ != "EUCJP-ASCII"@);
        reveal_strlit("EUC-JP-ASCII");
        assert("UTF32BE-BOM"@.len() != "EUC-JP-ASCII"@.len());
        reveal_strlit("JIS");
        assert("UTF32BE-BOM"@.len() != "JIS"@.len());
        reveal_strlit("ISO2022JP");
        assert("UTF32BE-BOM"@.len() != "ISO2022JP"@.len());
        reveal_strlit("ISO-2022-JP");
        assert("UTF32BE-BOM"@[0] != "ISO-2022-JP"@[0]);
        assert("UTF32BE-BOM"@ != "ISO-2022-JP"@);
        reveal_strlit("ISO2022JP-1");
        assert("UTF32BE-BOM"@[0] != "ISO2022JP-1"@[0]);
        assert("UTF32BE-BOM"@ != "ISO2022JP-1"@);
        reveal_strlit("ISO-2022-JP-1");
        assert("UTF32BE-BOM"@.len() != "ISO-2022-JP-1"@.len());
        reveal_strlit("ISO2022JP-3");
        assert("UTF32BE-BOM"@[0] != "ISO2022JP-3"@[0]);
        assert("UTF32BE-BOM"@ != "ISO2022JP-3"@);
        reveal_strlit("ISO-2022-JP-3");
        assert("UTF32BE-BOM"@.len() != "ISO-2022-JP-3"@.len());
        reveal_strlit("ISO2022JP-2004");
        assert("UTF32BE-BOM"@.len() != "ISO2022JP-2004"@.len());
        reveal_strlit("ISO-2022-JP-2004");
        assert("UTF32BE-BOM"@.len() != "ISO-2022-JP-2004"@.len());
        reveal_strlit("ISO2022JP-CP932");
        assert("UTF32BE-BOM"@.len() != "ISO2022JP-CP932"@.len());
        reveal_strlit("ISO-2022-JP-CP932");
        assert("UTF32BE-BOM"@.len() != "ISO-2022-JP-CP932"@.len());
        reveal_strlit("CP50220");
        assert("UTF32BE-BOM"@.len() != "CP50220"@.len());
        reveal_strlit("CSISO2022JP");
        assert("UTF32BE-BOM"@[0] != "CSISO2022JP"@[0]);
        assert("UTF32BE-BOM"@ != "CSISO2022JP"@);
        reveal_strlit("CP50221");
        assert("UTF32BE-BOM"@.len() != "CP50221"@.len());
        reveal_strlit("CP50222");
        assert("UTF32BE-BOM"@.len() != "CP50222"@.len());
        reveal_strlit("CP10001");
        assert("UTF32BE-BOM"@.len() != "CP10001"@.len());
        reveal_strlit("LATIN1");
        assert("UTF32BE-BOM"@.len() != "LATIN1"@.len());
        reveal_strlit("LATIN-1");
        assert("UTF32BE-BOM"@.len() != "LATIN-1"@.len());
        reveal_strlit("ISO8859-1");
        assert("UTF32BE-BOM"@.len() != "ISO8859-1"@.len());
        reveal_strlit("ISO-8859-1");
        assert("UTF32BE-BOM"@.len() != "ISO-8859-1"@.len());
        reveal_strlit("UTF8");
        assert("UTF32BE-BOM"@.len() != "UTF8"@.len());
        reveal_strlit("UTF-8N");
        assert("UTF32BE-BOM"@.len() != "UTF-8N"@.len());
        reveal_strlit("UTF8-BOM");
        assert("UTF32BE-BOM"@.len() != "UTF8-BOM"@.len());
        reveal_strlit("UTF-8-BOM");
        assert("UTF32BE-BOM"@.len() != "UTF-8-BOM"@.len());
        reveal_strlit("UTF16");
        assert("UTF32BE-BOM"@.len() != "UTF16"@.len());
        reveal_strlit("UTF16BE");
        assert("UTF32BE-BOM"@.len() != "UTF16BE"@.len());
        reveal_strlit("UTF16BE-BOM");
        assert("UTF32BE-BOM"@[3] != "UTF16BE-BOM"@[3]);
        assert("UTF32BE-BOM"@ != "UTF16BE-BOM"@);
        reveal_strlit("UTF-16BE-BOM");
        assert("UTF32BE-BOM"@.len() != "UTF-16BE-BOM"@.len());
        reveal_strlit("UTF16LE");
        assert("UTF32BE-BOM"@.len() != "UTF16LE"@.len());
        reveal_strlit("UTF16LE-BOM");
        assert("UTF32BE-BOM"@[3] != "UTF16LE-BOM"@[3]);
        assert("UTF32BE-BOM"@ != "UTF16LE-BOM"@);
        reveal_strlit("UTF-16LE-BOM");
        assert("UTF32BE-BOM"@.len() != "UTF-16LE-BOM"@.len());
        reveal_strlit("UTF32");
        assert("UTF32BE-BOM"@.len() != "UTF32"@.len());
        reveal_strlit("UTF32BE");
        assert("UTF32BE-BOM"@.len() != "UTF32BE"@.len());
    }
    assert(spec_upper_name(s) == "UTF-32BE-BOM"@ ==> spec_normalize(s) == "UTF-32BE-BOM"@) by {
        reveal_strlit("UTF-32BE-BOM");
        reveal_strlit("SJIS");
        assert("UTF-32BE-BOM"@.len() != "SJIS"@.len());
        reveal_strlit("SHIFT-JIS");
        assert("UTF-32BE-BOM"@.len() != "SHIFT-JIS"@.len());
        reveal_strlit("SHIFT-JISX0213");
        assert("UTF-32BE-BOM"@.len() != "SHIFT-JISX0213"@.len());
        reveal_strlit("SHIFT-JIS-X0213");
        assert("UTF-32BE-BOM"@.len() != "SHIFT-JIS-X0213"@.len());
        reveal_strlit("SHIFT-JIS-2004");
        assert("UTF-32BE-BOM"@.len() != "SHIFT-JIS-2004"@.len());
        reveal_strlit("WINDOWS-31J");
        assert("UTF-32BE-BOM"@.len() != "WINDOWS-31J"@.len());
        reveal_strlit("CSWINDOWS31J");
        assert("UTF-32BE-BOM"@[0] != "CSWINDOWS31J"@[0]);
        assert("UTF-32BE-BOM"@ != "CSWINDOWS31J"@);
        reveal_strlit("MS932");
        assert("UTF-32BE-BOM"@.len() != "MS932"@.len());
        reveal_strlit("CP932");
        assert("UTF-32BE-BOM"@.len() != "CP932"@.len());
        reveal_strlit("EUCJP");
        assert("UTF-32BE-BOM"@.len() != "EUCJP"@.len());
        reveal_strlit("EUC-JP");
        assert("UTF-32BE-BOM"@.len() != "EUC-JP"@.len());
        reveal_strlit("EUCJP-NKF");
        assert("UTF-32BE-BOM"@.len() != "EUCJP-NKF"@.len());
        reveal_strlit("CP51932");
        assert("UTF-32BE-BOM"@.len() != "CP51932"@.len());
        reveal_strlit("EUCJP-MS");
        assert("UTF-32BE-BOM"@.len() != "EUCJP-MS"@.len());
        reveal_strlit("EUC-JP-MS");
        assert("UTF-32BE-BOM"@.len() != "EUC-JP-MS"@.len());
        reveal_strlit("EUCJPMS");
        assert("UTF-32BE-BOM"@.len() != "EUCJPMS"@.len());
        reveal_strlit("EUCJP-ASCII");
        assert("UTF-32BE-BOM"@.len() != "EUCJP-ASCII"@.len());
        reveal_strlit("EUC-JP-ASCII");
        assert("UTF-32BE-BOM"@[0] != "EUC-JP-ASCII"@[0]);
        assert("UTF-32BE-BOM"@ != "EUC-JP-ASCII"@);
        reveal_strlit("JIS");
        assert("UTF-32BE-BOM"@.len() != "JIS"@.len());
        reveal_strlit("ISO2022JP");
        assert("UTF-32BE-BOM"@.len() != "ISO2022JP"@.len());
        reveal_strlit("ISO-2022-JP");
        assert("UTF-32BE-BOM"@.len() != "ISO-2022-JP"@.len());
        reveal_strlit("ISO2022JP-1");
        assert("UTF-32BE-BOM"@.len() != "ISO2022JP-1"@.len());
        reveal_strlit("ISO-2022-JP-1");
        assert("UTF-32BE-BOM"@.len() != "ISO-2022-JP-1"@.len());
        reveal_strlit("ISO2022JP-3");
        assert("UTF-32BE-BOM"@.len() != "ISO2022JP-3"@.len());
        reveal_strlit("ISO-2022-JP-3");
        assert("UTF-32BE-BOM"@.len() != "ISO-2022-JP-3"@.len());
        reveal_strlit("ISO2022JP-2004");
        assert("UTF-32BE-BOM"@.len() != "ISO2022JP-2004"@.len());
        reveal_strlit("ISO-2022-JP-2004");
        assert("UTF-32BE-BOM"@.len() != "ISO-2022-JP-2004"@.len());
        reveal_strlit("ISO2022JP-CP932");
        assert("UTF-32BE-BOM"@.len() != "ISO2022JP-CP932"@.len());
        reveal_strlit("ISO-2022-JP-CP932");
        assert("UTF-32BE-BOM"@.len() != "ISO-2022-JP-CP932"@.len());
        reveal_strlit("CP50220");
        assert("UTF-32BE-BOM"@.len() != "CP50220"@.len());
        reveal_strlit("CSISO2022JP");
        assert("UTF-32BE-BOM"@.len() != "CSISO2022JP"@.len());
        reveal_strlit("CP50221");
        assert("UTF-32BE-BOM"@.len() != "CP50221"@.len());
        reveal_strlit("CP50222");
        assert("UTF-32BE-BOM"@.len() != "CP50222"@.len());
        reveal_strlit("CP10001");
        assert("UTF-32BE-BOM"@.len() != "CP10001"@.len());
        reveal_strlit("LATIN1");
        assert("UTF-32BE-BOM"@.len() != "LATIN1"@.len());
        reveal_strlit("LATIN-1");
        assert("UTF-32BE-BOM"@.len() != "LATIN-1"@.len());
        reveal_strlit("ISO8859-1");
        assert("UTF-32BE-BOM"@.len() != "ISO8859-1"@.len());
        reveal_strlit("ISO-8859-1");
        assert("UTF-32BE-BOM"@.len() != "ISO-8859-1"@.len());
        reveal_strlit("UTF8");
        assert("UTF-32BE-BOM"@.len() != "UTF8"@.len());
        reveal_strlit("UTF-8N");
        assert("UTF-32BE-BOM"@.len() != "UTF-8N"@.len());
        reveal_strlit("UTF8-BOM");
        assert("UTF-32BE-BOM"@.len() != "UTF8-BOM"@.len());
        reveal_strlit("UTF-8-BOM");
        assert("UTF-32BE-BOM"@.len() != "UTF-8-BOM"@.len());
        reveal_strlit("UTF16");
        assert("UTF-32BE-BOM"@.len() != "UTF16"@.len());
        reveal_strlit("UTF16BE");
        assert("UTF-32BE-BOM"@.len() != "UTF16BE"@.len());
        reveal_strlit("UTF16BE-BOM");
        assert("UTF-32BE-BOM"@.len() != "UTF16BE-BOM"@.len());
        reveal_strlit("UTF-16BE-BOM");
        assert("UTF-32BE-BOM"@[4] != "UTF-16BE-BOM"@[4]);
        assert("UTF-32BE-BOM"@ != "UTF-16BE-BOM"@);
        reveal_strlit("UTF16LE");
        assert("UTF-32BE-BOM"@.len() != "UTF16LE"@.len());
        reveal_strlit("UTF16LE-BOM");
        assert("UTF-32BE-BOM"@.len() != "UTF16LE-BOM"@.len());
        reveal_strlit("UTF-16LE-BOM");
        assert("UTF-32BE-BOM"@[4] != "UTF-16LE-BOM"@[4]);
        assert("UTF-32BE-BOM"@ != "UTF-16LE-BOM"@);
        reveal_strlit("UTF32");
        assert("UTF-32BE-BOM"@.len() != "UTF32"@.len());
        reveal_strlit("UTF32BE");
        assert("UTF-32BE-BOM"@.len() != "UTF32BE"@.len());
    }
    assert(spec_upper_name(s) == "UTF32LE"@ ==> spec_normalize(s) == "UTF-32LE"@) by {
        reveal_strlit("UTF32LE");
        reveal_strlit("SJIS");
        assert("UTF32LE"@.len() != "SJIS"@.len());
        reveal_strlit("SHIFT-JIS");
        assert("UTF32LE"@.len() != "SHIFT-JIS"@.len());
        reveal_strlit("SHIFT-JISX0213");
        assert("UTF32LE"@.len() != "SHIFT-JISX0213"@.len());
        reveal_strlit("SHIFT-JIS-X0213");
        assert("UTF32LE"@.len() != "SHIFT-JIS-X0213"@.len());
        reveal_strlit("SHIFT-JIS-2004");
        assert("UTF32LE"@.len() != "SHIFT-JIS-2004"@.len());
        reveal_strlit("WINDOWS-31J");
        assert("UTF32LE"@.len() != "WINDOWS-31J"@.len());
        reveal_strlit("CSWINDOWS31J");
        assert("UTF32LE"@.len() != "CSWINDOWS31J"@.len());
        reveal_strlit("MS932");
        assert("UTF32LE"@.len() != "MS932"@.len());
        reveal_strlit("CP932");
        assert("UTF32LE"@.len() != "CP932"@.len());
        reveal_strlit("EUCJP");
        assert("UTF32LE"@.len() != "EUCJP"@.len());
        reveal_strlit("EUC-JP");
        assert("UTF32LE"@.len() != "EUC-JP"@.len());
        reveal_strlit("EUCJP-NKF");
        assert("UTF32LE"@.len() != "EUCJP-NKF"@.len());
        reveal_strlit("CP51932");
        assert("UTF32LE"@[0] != "CP51932"@[0]);
        assert("UTF32LE"@ != "CP51932"@);
        reveal_strlit("EUCJP-MS");
        assert("UTF32LE"@.len() != "EUCJP-MS"@.len());
        reveal_strlit("EUC-JP-MS");
        assert("UTF32LE"@.len() != "EUC-JP-MS"@.len());
        reveal_strlit("EUCJPMS");
        assert("UTF32LE"@[0] != "EUCJPMS"@[0]);
        assert("UTF32LE"@ != "EUCJPMS"@);
        reveal_strlit("EUCJP-ASCII");
        assert("UTF32LE"@.len() != "EUCJP-ASCII"@.len());
        reveal_strlit("EUC-JP-ASCII");
        assert("UTF32LE"@.len() != "EUC-JP-ASCII"@.len());
        reveal_strlit("JIS");
        assert("UTF32LE"@.len() != "JIS"@.len());
        reveal_strlit("ISO2022JP");
        assert("UTF32LE"@.len() != "ISO2022JP"@.len());
        reveal_strlit("ISO-2022-JP");
        assert("UTF32LE"@.len() != "ISO-2022-JP"@.len());
        reveal_strlit("ISO2022JP-1");
        assert("UTF32LE"@.len() != "ISO2022JP-1"@.len());
        reveal_strlit("ISO-2022-JP-1");
        assert("UTF32LE"@.len() != "ISO-2022-JP-1"@.len());
        reveal_strlit("ISO2022JP-3");
        assert("UTF32LE"@.len() != "ISO2022JP-3"@.len());
        reveal_strlit("ISO-2022-JP-3");
        assert("UTF32LE"@.len() != "ISO-2022-JP-3"@.len());
        reveal_strlit("ISO2022JP-2004");
        assert("UTF32LE"@.len() != "ISO2022JP-2004"@.len());
        reveal_strlit("ISO-2022-JP-2004");
        assert("UTF32LE"@.len() != "ISO-2022-JP-2004"@.len());
        reveal_strlit("ISO2022JP-CP932");
        assert("UTF32LE"@.len() != "ISO2022JP-CP932"@.len());
        reveal_strlit("ISO-2022-JP-CP932");
        assert("UTF32LE"@.len() != "ISO-2022-JP-CP932"@.len());
        reveal_strlit("CP50220");
        assert("UTF32LE"@[0] != "CP50220"@[0]);
        assert("UTF32LE"@ != "CP50220"@);
        reveal_strlit("CSISO2022JP");
        assert("UTF32LE"@.len() != "CSISO2022JP"@.len());
        reveal_strlit("CP50221");
        assert("UTF32LE"@[0] != "CP50221"@[0]);
        assert("UTF32LE"@ != "CP50221"@);
        reveal_strlit("CP50222");
        assert("UTF32LE"@[0] != "CP50222"@[0]);
        assert("UTF32LE"@ != "CP50222"@);
        reveal_strlit("CP10001");
        assert("UTF32LE"@[0] != "CP10001"@[0]);
        assert("UTF32LE"@ != "CP10001"@);
        reveal_strlit("LATIN1");
        assert("UTF32LE"@.len() != "LATIN1"@.len());
        reveal_strlit("LATIN-1");
        assert("UTF32LE"@[0] != "LATIN-1"@[0]);
        assert("UTF32LE"@ != "LATIN-1"@);
        reveal_strlit("ISO8859-1");
        assert("UTF32LE"@.len() != "ISO8859-1"@.len());
        reveal_strlit("ISO-8859-1");
        assert("UTF32LE"@.len() != "ISO-8859-1"@.len());
        reveal_strlit("UTF8");
        assert("UTF32LE"@.len() != "UTF8"@.len());
        reveal_strlit("UTF-8N");
        assert("UTF32LE"@.len() != "UTF-8N"@.len());
        reveal_strlit("UTF8-BOM");
        assert("UTF32LE"@.len() != "UTF8-BOM"@.len());
        reveal_strlit("UTF-8-BOM");
        assert("UTF32LE"@.len() != "UTF-8-BOM"@.len());
        reveal_strlit("UTF16");
        assert("UTF32LE"@.len() != "UTF16"@.len());
        reveal_strlit("UTF16BE");
        assert("UTF32LE"@[3] != "UTF16BE"@[3]);
        assert("UTF32LE"@ != "UTF16BE"@);
        reveal_strlit("UTF16BE-BOM");
        assert("UTF32LE"@.len() != "UTF16BE-BOM"@.len());
        reveal_strlit("UTF-16BE-BOM");
        assert("UTF32LE"@.len() != "UTF-16BE-BOM"@.len());
        reveal_strlit("UTF16LE");
        assert("UTF32LE"@[3] != "UTF16LE"@[3]);
        assert("UTF32LE"@ != "UTF16LE"@);
        reveal_strlit("UTF16LE-BOM");
        assert("UTF32LE"@.len() != "UTF16LE-BOM"@.len());
        reveal_strlit("UTF-16LE-BOM");
        assert("UTF32LE"@.len() != "UTF-16LE-BOM"@.len());
        reveal_strlit("UTF32");
        assert("UTF32LE"@.len() != "UTF32"@.len());
        reveal_strlit("UTF32BE");
        assert("UTF32LE"@[5] != "UTF32BE"@[5]);
        assert("UTF32LE"@ != "UTF32BE"@);
        reveal_strlit("UTF32BE-BOM");
        assert("UTF32LE"@.len() != "UTF32BE-BOM"@.len());
        reveal_strlit("UTF-32BE-BOM");
        assert("UTF32LE"@.len() != "UTF-32BE-BOM"@.len());
    }
    assert(spec_upper_name(s) == "UTF32LE-BOM"@ ==> spec_normalize(s) == "UTF-32LE-BOM"@) by {
        reveal_strlit("UTF32LE-BOM");
        reveal_strlit("SJIS");
        assert("UTF32LE-BOM"@.len() != "SJIS"@.len());
        reveal_strlit("SHIFT-JIS");
        assert("UTF32LE-BOM"@.len() != "SHIFT-JIS"@.len());
        reveal_strlit("SHIFT-JISX0213");
        assert("UTF32LE-BOM"@.len() != "SHIFT-JISX0213"@.len());
        reveal_strlit("SHIFT-JIS-X0213");
        assert("UTF32LE-BOM"@.len() != "SHIFT-JIS-X0213"@.len());
        reveal_strlit("SHIFT-JIS-2004");
        assert("UTF32LE-BOM"@.len() != "SHIFT-JIS-2004"@.len());
        reveal_strlit("WINDOWS-31J");
        assert("UTF32LE-BOM"@[0] != "WINDOWS-31J"@[0]);
        assert("UTF32LE-BOM"@ != "WINDOWS-31J"@);
        reveal_strlit("CSWINDOWS31J");
        assert("UTF32LE-BOM"@.len() != "CSWINDOWS31J"@.len());
        reveal_strlit("MS932");
        assert("UTF32LE-BOM"@.len() != "MS932"@.len());
        reveal_strlit("CP932");
        assert("UTF32LE-BOM"@.len() != "CP932"@.len());
        reveal_strlit("EUCJP");
        assert("UTF32LE-BOM"@.len() != "EUCJP"@.len());
        reveal_strlit("EUC-JP");
        assert("UTF32LE-BOM"@.len() != "EUC-JP"@.len());
        reveal_strlit("EUCJP-NKF");
        assert("UTF32LE-BOM"@.len() != "EUCJP-NKF"@.len());
        reveal_strlit("CP51932");
        assert("UTF32LE-BOM"@.len() != "CP51932"@.len());
        reveal_strlit("EUCJP-MS");
        assert("UTF32LE-BOM"@.len() != "EUCJP-MS"@.len());
        reveal_strlit("EUC-JP-MS");
        assert("UTF32LE-BOM"@.len() != "EUC-JP-MS"@.len());
        reveal_strlit("EUCJPMS");
        assert("UTF32LE-BOM"@.len() != "EUCJPMS"@.len());
        reveal_strlit("EUCJP-ASCII");
        assert("UTF32LE-BOM"@[0] != "EUCJP-ASCII"@[0]);
        assert("UTF32LE-BOM"@ != "EUCJP-ASCII"@);
        reveal_strlit("EUC-JP-ASCII");
        assert("UTF32LE-BOM"@.len() != "EUC-JP-ASCII"@.len());
        reveal_strlit("JIS");
        assert("UTF32LE-BOM"@.len() != "JIS"@.len());
        reveal_strlit("ISO2022JP");
        assert("UTF32LE-BOM"@.len() != "ISO2022JP"@.len());
        reveal_strlit("ISO-2022-JP");
        assert("UTF32LE-BOM"@[0] != "ISO-2022-JP"@[0]);
        assert("UTF32LE-BOM"@ != "ISO-2022-JP"@);
        reveal_strlit("ISO2022JP-1");
        assert("UTF32LE-BOM"@[0] != "ISO2022JP-1"@[0]);
        assert("UTF32LE-BOM"@ != "ISO2022JP-1"@);
        reveal_strlit("ISO-2022-JP-1");
        assert("UTF32LE-BOM"@.len() != "ISO-2022-JP-1"@.len());
        reveal_strlit("ISO2022JP-3");
        assert("UTF32LE-BOM"@[0] != "ISO2022JP-3"@[0]);
        assert("UTF32LE-BOM"@ != "ISO2022JP-3"@);
        reveal_strlit("ISO-2022-JP-3");
        assert("UTF32LE-BOM"@.len() != "ISO-2022-JP-3"@.len());
        reveal_strlit("ISO2022JP-2004");
        assert("UTF32LE-BOM"@.len() != "ISO2022JP-2004"@.len());
        reveal_strlit("ISO-2022-JP-2004");
        assert("UTF32LE-BOM"@.len() != "ISO-2022-JP-2004"@.len());
        reveal_strlit("ISO2022JP-CP932");
        assert("UTF32LE-BOM"@.len() != "ISO2022JP-CP932"@.len());
        reveal_strlit("ISO-2022-JP-CP932");
        assert("UTF32LE-BOM"@.len() != "ISO-2022-JP-CP932"@.len());
        reveal_strlit("CP50220");
        assert("UTF32LE-BOM"@.len() != "CP50220"@.len());
        reveal_strlit("CSISO2022JP");
        assert("UTF32LE-BOM"@[0] != "CSISO2022JP"@[0]);
        assert("UTF32LE-BOM"@ != "CSISO2022JP"@);
        reveal_strlit("CP50221");
        assert("UTF32LE-BOM"@.len() != "CP50221"@.len());
        reveal_strlit("CP50222");
        assert("UTF32LE-BOM"@.len() != "CP50222"@.len());
        reveal_strlit("CP10001");
        assert("UTF32LE-BOM"@.len() != "CP10001"@.len());
        reveal_strlit("LATIN1");
        assert("UTF32LE-BOM"@.len() != "LATIN1"@.len());
        reveal_strlit("LATIN-1");
        assert("UTF32LE-BOM"@.len() != "LATIN-1"@.len());
        reveal_strlit("ISO8859-1");
        assert("UTF32LE-BOM"@.len() != "ISO8859-1"@.len());
        reveal_strlit("ISO-8859-1");
        assert("UTF32LE-BOM"@.len() != "ISO-8859-1"@.len());
        reveal_strlit("UTF8");
        assert("UTF32LE-BOM"@.len() != "UTF8"@.len());
        reveal_strlit("UTF-8N");
        assert("UTF32LE-BOM"@.len() != "UTF-8N"@.len());
        reveal_strlit("UTF8-BOM");
        assert("UTF32LE-BOM"@.len() != "UTF8-BOM"@.len());
        reveal_strlit("UTF-8-BOM");
        assert("UTF32LE-BOM"@.len() != "UTF-8-BOM"@.len());
        reveal_strlit("UTF16");
        assert("UTF32LE-BOM"@.len() != "UTF16"@.len());
        reveal_strlit("UTF16BE");
        assert("UTF32LE-BOM"@.len() != "UTF16BE"@.len());
        reveal_strlit("UTF16BE-BOM");
        assert("UTF32LE-BOM"@[3] != "UTF16BE-BOM"@[3]);
        assert("UTF32LE-BOM"@ != "UTF16BE-BOM"@);
        reveal_strlit("UTF-16BE-BOM");
        assert("UTF32LE-BOM"@.len() != "UTF-16BE-BOM"@.len());
        reveal_strlit("UTF16LE");
        assert("UTF32LE-BOM"@.len() != "UTF16LE"@.len());
        reveal_strlit("UTF16LE-BOM");
        assert("UTF32LE-BOM"@[3] != "UTF16LE-BOM"@[3]);
        assert("UTF32LE-BOM"@ != "UTF16LE-BOM"@);
        reveal_strlit("UTF-16LE-BOM");
        assert("UTF32LE-BOM"@.len() != "UTF-16LE-BOM"@.len());
        reveal_strlit("UTF32");
        assert("UTF32LE-BOM"@.len() != "UTF32"@.len());
        reveal_strlit("UTF32BE");
        assert("UTF32LE-BOM"@.len() != "UTF32BE"@.len());
        reveal_strlit("UTF32BE-BOM");
        assert("UTF32LE-BOM"@[5] != "UTF32BE-BOM"@[5]);
        assert("UTF32LE-BOM"@ != "UTF32BE-BOM"@);
        reveal_strlit("UTF-32BE-BOM");
        assert("UTF32LE-BOM"@.len() != "UTF-32BE-BOM"@.len());
        reveal_strlit("UTF32LE");
        assert("UTF32LE-BOM"@.len() != "UTF32LE"@.len());
    }
    assert(spec_upper_name(s) == "UTF-32LE-BOM"@ ==> spec_normalize(s) == "UTF-32LE-BOM"@) by {
        reveal_strlit("UTF-32LE-BOM");
        reveal_strlit("SJIS");
        assert("UTF-32LE-BOM"@.len() != "SJIS"@.len());
        reveal_strlit("SHIFT-JIS");
        assert("UTF-32LE-BOM"@.len() != "SHIFT-JIS"@.len());
        reveal_strlit("SHIFT-JISX0213");
        assert("UTF-32LE-BOM"@.len() != "SHIFT-JISX0213"@.len());
        reveal_strlit("SHIFT-JIS-X0213");
        assert("UTF-32LE-BOM"@.len() != "SHIFT-JIS-X0213"@.len());
        reveal_strlit("SHIFT-JIS-2004");
        assert("UTF-32LE-BOM"@.len() != "SHIFT-JIS-2004"@.len());
        reveal_strlit("WINDOWS-31J");
        assert("UTF-32LE-BOM"@.len() != "WINDOWS-31J"@.len());
        reveal_strlit("CSWINDOWS31J");
        assert("UTF-32LE-BOM"@[0] != "CSWINDOWS31J"@[0]);
        assert("UTF-32LE-BOM"@ != "CSWINDOWS31J"@);
        reveal_strlit("MS932");
        assert("UTF-32LE-BOM"@.len() != "MS932"@.len());
        reveal_strlit("CP932");
        assert("UTF-32LE-BOM"@.len() != "CP932"@.len());
        reveal_strlit("EUCJP");
        assert("UTF-32LE-BOM"@.len() != "EUCJP"@.len());
        reveal_strlit("EUC-JP");
        assert("UTF-32LE-BOM"@.len() != "EUC-JP"@.len());
        reveal_strlit("EUCJP-NKF");
        assert("UTF-32LE-BOM"@.len() != "EUCJP-NKF"@.len());
        reveal_strlit("CP51932");
        assert("UTF-32LE-BOM"@.len() != "CP51932"@.len());
        reveal_strlit("EUCJP-MS");
        assert("UTF-32LE-BOM"@.len() != "EUCJP-MS"@.len());
        reveal_strlit("EUC-JP-MS");
        assert("UTF-32LE-BOM"@.len() != "EUC-JP-MS"@.len());
        reveal_strlit("EUCJPMS");
        assert("UTF-32LE-BOM"@.len() != "EUCJPMS"@.len());
        reveal_strlit("EUCJP-ASCII");
        assert("UTF-32LE-BOM"@.len() != "EUCJP-ASCII"@.len());
        reveal_strlit("EUC-JP-ASCII");
        assert("UTF-32LE-BOM"@[0] != "EUC-JP-ASCII"@[0]);
        assert("UTF-32LE-BOM"@ != "EUC-JP-ASCII"@);
        reveal_strlit("JIS");
        assert("UTF-32LE-BOM"@.len() != "JIS"@.len());
        reveal_strlit("ISO2022JP");
        assert("UTF-32LE-BOM"@.len() != "ISO2022JP"@.len());
        reveal_strlit("ISO-2022-JP");
        assert("UTF-32LE-BOM"@.len() != "ISO-2022-JP"@.len());
        reveal_strlit("ISO2022JP-1");
        assert("UTF-32LE-BOM"@.len() != "ISO2022JP-1"@.len());
        reveal_strlit("ISO-2022-JP-1");
        assert("UTF-32LE-BOM"@.len() != "ISO-2022-JP-1"@.len());
        reveal_strlit("ISO2022JP-3");
        assert("UTF-32LE-BOM"@.len() != "ISO2022JP-3"@.len());
        reveal_strlit("ISO-2022-JP-3");
        assert("UTF-32LE-BOM"@.len() != "ISO-2022-JP-3"@.len());
        reveal_strlit("ISO2022JP-2004");
        assert("UTF-32LE-BOM"@.len() != "ISO2022JP-2004"@.len());
        reveal_strlit("ISO-2022-JP-2004");
        assert("UTF-32LE-BOM"@.len() != "ISO-2022-JP-2004"@.len());
        reveal_strlit("ISO2022JP-CP932");
        assert("UTF-32LE-BOM"@.len() != "ISO2022JP-CP932"@.len());
        reveal_strlit("ISO-2022-JP-CP932");
        assert("UTF-32LE-BOM"@.len() != "ISO-2022-JP-CP932"@.len());
        reveal_strlit("CP50220");
        assert("UTF-32LE-BOM"@.len() != "CP50220"@.len());
        reveal_strlit("CSISO2022JP");
        assert("UTF-32LE-BOM"@.len() != "CSISO2022JP"@.len());
        reveal_strlit("CP50221");
        assert("UTF-32LE-BOM"@.len() != "CP50221"@.len());
        reveal_strlit("CP50222");
        assert("UTF-32LE-BOM"@.len() != "CP50222"@.len());
        reveal_strlit("CP10001");
        assert("UTF-32LE-BOM"@.len() != "CP10001"@.len());
        reveal_strlit("LATIN1");
        assert("UTF-32LE-BOM"@.len() != "LATIN1"@.len());
        reveal_strlit("LATIN-1");
        assert("UTF-32LE-BOM"@.len() != "LATIN-1"@.len());
        reveal_strlit("ISO8859-1");
        assert("UTF-32LE-BOM"@.len() != "ISO8859-1"@.len());
        reveal_strlit("ISO-8859-1");
        assert("UTF-32LE-BOM"@.len() != "ISO-8859-1"@.len());
        reveal_strlit("UTF8");
        assert("UTF-32LE-BOM"@.len() != "UTF8"@.len());
        reveal_strlit("UTF-8N");
        assert("UTF-32LE-BOM"@.len() != "UTF-8N"@.len());
        reveal_strlit("UTF8-BOM");
        assert("UTF-32LE-BOM"@.len() != "UTF8-BOM"@.len());
        reveal_strlit("UTF-8-BOM");
        assert("UTF-32LE-BOM"@.len() != "UTF-8-BOM"@.len());
        reveal_strlit("UTF16");
        assert("UTF-32LE-BOM"@.len() != "UTF16"@.len());
        reveal_strlit("UTF16BE");
        assert("UTF-32LE-BOM"@.len() != "UTF16BE"@.len());
        reveal_strlit("UTF16BE-BOM");
        assert("UTF-32LE-BOM"@.len() != "UTF16BE-BOM"@.len());
        reveal_strlit("UTF-16BE-BOM");
        assert("UTF-32LE-BOM"@[4] != "UTF-16BE-BOM"@[4]);
        assert("UTF-32LE-BOM"@ != "UTF-16BE-BOM"@);
        reveal_strlit("UTF16LE");
        assert("UTF-32LE-BOM"@.len() != "UTF16LE"@.len());
        reveal_strlit("UTF16LE-BOM");
        assert("UTF-32LE-BOM"@.len() != "UTF16LE-BOM"@.len());
        reveal_strlit("UTF-16LE-BOM");
        assert("UTF-32LE-BOM"@[4] != "UTF-16LE-BOM"@[4]);
        assert("UTF-32LE-BOM"@ != "UTF-16LE-BOM"@);
        reveal_strlit("UTF32");
        assert("UTF-32LE-BOM"@.len() != "UTF32"@.len());
        reveal_strlit("UTF32BE");
        assert("UTF-32LE-BOM"@.len() != "UTF32BE"@.len());
        reveal_strlit("UTF32BE-BOM");
        assert("UTF-32LE-BOM"@.len() != "UTF32BE-BOM"@.len());
        reveal_strlit("UTF-32BE-BOM");
        assert("UTF-32LE-BOM"@[6] != "UTF-32BE-BOM"@[6]);
        assert("UTF-32LE-BOM"@ != "UTF-32BE-BOM"@);
        reveal_strlit("UTF32LE");
        assert("UTF-32LE-BOM"@.len() != "UTF32LE"@.len());
    }
}

} // verus!
