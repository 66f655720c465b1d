//! Characters, UTF-8 and the small string toolkit the rest of the crate builds on.

use vstd::prelude::*;
use vstd::utf8::*;

verus! {

broadcast use vstd::seq::group_seq_axioms;

/// The UTF-8 encoding of a concatenation is the concatenation of the encodings.
pub proof fn lemma_encode_utf8_concat(a: Seq<char>, b: Seq<char>)
    ensures
        encode_utf8(a + b) == encode_utf8(a) + encode_utf8(b),
    decreases a.len(),
{
    if a.len() == 0 {
        assert(a + b =~= b);
        assert(encode_utf8(a) =~= Seq::<u8>::empty());
        assert(encode_utf8(a) + encode_utf8(b) =~= encode_utf8(b));
    } else {
        lemma_encode_utf8_concat(a.drop_first(), b);
        assert((a + b).drop_first() =~= a.drop_first() + b);
        assert((a + b)[0] == a[0]);
        assert(encode_utf8(a + b) =~= encode_scalar(a[0] as u32) + encode_utf8(a.drop_first() + b));
        assert(encode_utf8(a) =~= encode_scalar(a[0] as u32) + encode_utf8(a.drop_first()));
    }
}

/// The UTF-8 encoding of a single character.
pub proof fn lemma_encode_utf8_single(c: char)
    ensures
        encode_utf8(seq![c]) == encode_scalar(c as u32),
{
    assert(seq![c].drop_first() =~= Seq::<char>::empty());
    assert(encode_utf8(Seq::<char>::empty()) =~= Seq::<u8>::empty());
    assert(encode_scalar(c as u32) + Seq::<u8>::empty() =~= encode_scalar(c as u32));
}

/// Pushing one character appends its UTF-8 encoding.
pub proof fn lemma_encode_utf8_push(a: Seq<char>, c: char)
    ensures
        encode_utf8(a.push(c)) == encode_utf8(a) + encode_scalar(c as u32),
{
    assert(a.push(c) =~= a + seq![c]);
    lemma_encode_utf8_concat(a, seq![c]);
    lemma_encode_utf8_single(c);
}

/// The encoding of an ASCII character is the character's own byte.
pub proof fn lemma_encode_utf8_ascii_char(c: char)
    requires
        (c as u32) < 0x80,
    ensures
        encode_scalar(c as u32) == seq![(c as u32) as u8],
{
    let v = c as u32;
    assert(v & 0x7f == v) by (bit_vector)
        requires
            v < 0x80,
    ;
}

/// Whether every character is ASCII.
pub open spec fn all_ascii_chars(s: Seq<char>) -> bool {
    forall|i: int| 0 <= i < s.len() ==> (s[i] as u32) < 0x80
}

/// The UTF-8 encoding of ASCII text is one byte per character.
pub proof fn lemma_encode_utf8_ascii(s: Seq<char>)
    requires
        all_ascii_chars(s),
    ensures
        encode_utf8(s) == s.map_values(|c: char| (c as u32) as u8),
        encode_utf8(s).len() == s.len(),
    decreases s.len(),
{
    if s.len() > 0 {
        lemma_encode_utf8_ascii(s.drop_first());
        lemma_encode_utf8_ascii_char(s[0]);
        assert(encode_utf8(s) =~= s.map_values(|c: char| (c as u32) as u8));
    } else {
        assert(encode_utf8(s) =~= s.map_values(|c: char| (c as u32) as u8));
    }
}

/// Appends the UTF-8 encoding of `c` to `out`.
pub fn push_utf8(out: &mut Vec<u8>, c: char)
    ensures
        final(out)@ == old(out)@ + encode_scalar(c as u32),
{
    let v: u32 = c as u32;
    proof {
        char_is_scalar(c);
    }
    if v < 0x80 {
        out.push((v & 0x7f) as u8);
    } else if v < 0x800 {
        out.push(0xC0u8 | ((v >> 6) & 0x1F) as u8);
        out.push(0x80u8 | (v & 0x3F) as u8);
    } else if v < 0x10000 {
        out.push(0xE0u8 | ((v >> 12) & 0x0F) as u8);
        out.push(0x80u8 | ((v >> 6) & 0x3F) as u8);
        out.push(0x80u8 | (v & 0x3F) as u8);
    } else {
        out.push(0xF0u8 | ((v >> 18) & 0x7) as u8);
        out.push(0x80u8 | ((v >> 12) & 0x3F) as u8);
        out.push(0x80u8 | ((v >> 6) & 0x3F) as u8);
        out.push(0x80u8 | (v & 0x3F) as u8);
    }
    assert(out@ =~= old(out)@ + encode_scalar(v));
}

/// The UTF-8 encoding of a character sequence.
pub fn encode_chars(text: &[char]) -> (out: Vec<u8>)
    ensures
        out@ == encode_utf8(text@),
{
    let mut out: Vec<u8> = Vec::new();
    let mut i: usize = 0;
    while i < text.len()
        invariant
            i <= text@.len(),
            out@ == encode_utf8(text@.take(i as int)),
        decreases text@.len() - i,
    {
        proof {
            lemma_encode_utf8_push(text@.take(i as int), text@[i as int]);
            assert(text@.take(i as int).push(text@[i as int]) =~= text@.take(i + 1));
        }
        push_utf8(&mut out, text[i]);
        i += 1;
    }
    assert(text@.take(i as int) =~= text@);
    out
}

/// Appends every byte of `bytes` to `out`.
pub fn extend_bytes(out: &mut Vec<u8>, bytes: &[u8])
    ensures
        final(out)@ == old(out)@ + bytes@,
{
    let mut i: usize = 0;
    while i < bytes.len()
        invariant
            i <= bytes@.len(),
            out@ == old(out)@ + bytes@.take(i as int),
        decreases bytes@.len() - i,
    {
        out.push(bytes[i]);
        i += 1;
        assert(out@ =~= old(out)@ + bytes@.take(i as int));
    }
    assert(bytes@.take(i as int) =~= bytes@);
}

/// Appends every character of `chars` to `out`.
pub fn extend_chars(out: &mut Vec<char>, chars: &[char])
    ensures
        final(out)@ == old(out)@ + chars@,
{
    let mut i: usize = 0;
    while i < chars.len()
        invariant
            i <= chars@.len(),
            out@ == old(out)@ + chars@.take(i as int),
        decreases chars@.len() - i,
    {
        out.push(chars[i]);
        i += 1;
        assert(out@ =~= old(out)@ + chars@.take(i as int));
    }
    assert(chars@.take(i as int) =~= chars@);
}

/// The characters of a string slice, in order.
pub fn str_chars(s: &str) -> (out: Vec<char>)
    ensures
        out@ == s@,
{
    let n = s.unicode_len();
    let mut out: Vec<char> = Vec::new();
    let mut i: usize = 0;
    while i < n
        invariant
            n == s@.len(),
            i <= n,
            out@ == s@.take(i as int),
        decreases n - i,
    {
        out.push(s.get_char(i));
        i += 1;
        assert(out@ =~= s@.take(i as int));
    }
    assert(s@.take(i as int) =~= s@);
    out
}

/// Appends one character to a `String` (`String::push`).
#[verifier::external_body]
fn string_push(s: &mut String, c: char)
    ensures
        final(s)@ == old(s)@.push(c),
{
    s.push(c);
}

/// A `String` holding exactly the given characters.
pub fn chars_to_string(chars: &[char]) -> (s: String)
    ensures
        s@ == chars@,
{
    let mut s = String::new();
    let mut i: usize = 0;
    while i < chars.len()
        invariant
            i <= chars@.len(),
            s@ == chars@.take(i as int),
        decreases chars@.len() - i,
    {
        string_push(&mut s, chars[i]);
        i += 1;
        assert(s@ =~= chars@.take(i as int));
    }
    assert(chars@.take(i as int) =~= chars@);
    s
}

/// Whether two character sequences are equal.
pub fn chars_eq(a: &[char], b: &[char]) -> (r: bool)
    ensures
        r == (a@ == b@),
{
    if a.len() != b.len() {
        return false;
    }
    let mut i: usize = 0;
    while i < a.len()
        invariant
            a@.len() == b@.len(),
            i <= a@.len(),
            forall|k: int| 0 <= k < i ==> a@[k] == b@[k],
        decreases a@.len() - i,
    {
        if a[i] != b[i] {
            return false;
        }
        i += 1;
    }
    assert(a@ =~= b@);
    true
}

/// Whether a character sequence spells out the given string.
pub fn chars_eq_str(a: &[char], s: &str) -> (r: bool)
    ensures
        r == (a@ == s@),
{
    let b = str_chars(s);
    chars_eq(a, b.as_slice())
}

/// Whether two string slices hold the same characters.
pub fn str_eq(a: &str, b: &str) -> (r: bool)
    ensures
        r == (a@ == b@),
{
    let x = str_chars(a);
    let y = str_chars(b);
    chars_eq(x.as_slice(), y.as_slice())
}

/// Whether `prefix` is a prefix of `s`.
pub open spec fn has_prefix<T>(s: Seq<T>, prefix: Seq<T>) -> bool {
    prefix.len() <= s.len() && s.take(prefix.len() as int) == prefix
}

/// Whether `s` starts with `prefix` (characters).
pub fn chars_start_with(s: &[char], prefix: &[char]) -> (r: bool)
    ensures
        r == has_prefix(s@, prefix@),
{
    if prefix.len() > s.len() {
        return false;
    }
    let mut i: usize = 0;
    while i < prefix.len()
        invariant
            prefix@.len() <= s@.len(),
            i <= prefix@.len(),
            forall|k: int| 0 <= k < i ==> s@[k] == prefix@[k],
        decreases prefix@.len() - i,
    {
        if s[i] != prefix[i] {
            assert(s@.take(prefix@.len() as int)[i as int] != prefix@[i as int]);
            return false;
        }
        i += 1;
    }
    assert(s@.take(prefix@.len() as int) =~= prefix@);
    true
}

/// Whether the characters of `s` start with those of the string `prefix`.
pub fn chars_start_with_str(s: &[char], prefix: &str) -> (r: bool)
    ensures
        r == has_prefix(s@, prefix@),
{
    let p = str_chars(prefix);
    chars_start_with(s, p.as_slice())
}

/// A copy of `s` from index `start` on.
pub fn chars_from(s: &[char], start: usize) -> (out: Vec<char>)
    requires
        start <= s@.len(),
    ensures
        out@ == s@.skip(start as int),
{
    let mut out: Vec<char> = Vec::new();
    let mut i: usize = start;
    while i < s.len()
        invariant
            start <= i <= s@.len(),
            out@ == s@.subrange(start as int, i as int),
        decreases s@.len() - i,
    {
        out.push(s[i]);
        i += 1;
        assert(out@ =~= s@.subrange(start as int, i as int));
    }
    assert(s@.subrange(start as int, i as int) =~= s@.skip(start as int));
    out
}

/// A copy of the bytes of `s` in `start..end`.
pub fn bytes_range(s: &[u8], start: usize, end: usize) -> (out: Vec<u8>)
    requires
        start <= end <= s@.len(),
    ensures
        out@ == s@.subrange(start as int, end as int),
{
    let mut out: Vec<u8> = Vec::new();
    let mut i: usize = start;
    while i < end
        invariant
            start <= i <= end,
            end <= s@.len(),
            out@ == s@.subrange(start as int, i as int),
        decreases end - i,
    {
        out.push(s[i]);
        i += 1;
        assert(out@ =~= s@.subrange(start as int, i as int));
    }
    out
}

/// A copy of a byte slice.
pub fn bytes_copy(s: &[u8]) -> (out: Vec<u8>)
    ensures
        out@ == s@,
{
    let out = bytes_range(s, 0, s.len());
    assert(s@.subrange(0, s@.len() as int) =~= s@);
    out
}

/// ASCII upper-casing of one character (`char::to_ascii_uppercase`).
pub open spec fn spec_ascii_upper(c: char) -> char {
    if 'a' <= c && c <= 'z' {
        ((c as u32) - 32) as char
    } else {
        c
    }
}

/// ASCII upper-casing of one character.
pub fn ascii_upper(c: char) -> (r: char)
    ensures
        r == spec_ascii_upper(c),
{
    if 'a' <= c && c <= 'z' {
        let v: u32 = (c as u32) - 32;
        proof {
            assert(0x41 <= v <= 0x5a);
        }
        char_from_ascii(v)
    } else {
        c
    }
}

/// The character with an ASCII code point.
pub fn char_from_ascii(v: u32) -> (c: char)
    requires
        v < 0x80,
    ensures
        c == v as char,
        c as u32 == v,
{
    let b: u8 = v as u8;
    let c: char = b as char;
    c
}

/// ASCII upper-casing of a byte (`u8::to_ascii_uppercase`).
pub open spec fn spec_byte_upper(b: u8) -> u8 {
    if 0x61 <= b <= 0x7a {
        (b - 32) as u8
    } else {
        b
    }
}

/// ASCII upper-casing of a byte.
pub fn byte_upper(b: u8) -> (r: u8)
    ensures
        r == spec_byte_upper(b),
{
    if 0x61 <= b && b <= 0x7a {
        b - 32
    } else {
        b
    }
}

/// Unicode `White_Space`, as `char::is_whitespace` documents it.
pub open spec fn spec_is_whitespace(c: char) -> bool {
    let v = c as u32;
    (0x09 <= v <= 0x0d) || v == 0x20 || v == 0x85 || v == 0xa0 || v == 0x1680 || (0x2000 <= v
        <= 0x200a) || v == 0x2028 || v == 0x2029 || v == 0x202f || v == 0x205f || v == 0x3000
}

/// Whether `c` is Unicode white space.
pub fn is_whitespace(c: char) -> (r: bool)
    ensures
        r == spec_is_whitespace(c),
{
    let v: u32 = c as u32;
    (0x09 <= v && v <= 0x0d) || v == 0x20 || v == 0x85 || v == 0xa0 || v == 0x1680 || (0x2000
        <= v && v <= 0x200a) || v == 0x2028 || v == 0x2029 || v == 0x202f || v == 0x205f || v
        == 0x3000
}

/// ASCII white space as `u8::is_ascii_whitespace` documents it.
pub open spec fn spec_is_ascii_whitespace(b: u8) -> bool {
    b == 0x20 || b == 0x09 || b == 0x0a || b == 0x0c || b == 0x0d
}

/// Whether `b` is ASCII white space.
pub fn is_ascii_whitespace(b: u8) -> (r: bool)
    ensures
        r == spec_is_ascii_whitespace(b),
{
    b == 0x20 || b == 0x09 || b == 0x0a || b == 0x0c || b == 0x0d
}

/// Whether a byte is an ASCII letter or digit.
pub open spec fn spec_is_alnum(b: u8) -> bool {
    (0x30 <= b <= 0x39) || (0x41 <= b <= 0x5a) || (0x61 <= b <= 0x7a)
}

/// Whether a byte is an ASCII letter or digit.
pub fn is_alnum(b: u8) -> (r: bool)
    ensures
        r == spec_is_alnum(b),
{
    (0x30 <= b && b <= 0x39) || (0x41 <= b && b <= 0x5a) || (0x61 <= b && b <= 0x7a)
}

/// The index of the first element past the leading run satisfying nothing but white space.
pub open spec fn leading_ws(s: Seq<char>) -> int
    decreases s.len(),
{
    if s.len() > 0 && spec_is_whitespace(s[0]) {
        1 + leading_ws(s.drop_first())
    } else {
        0
    }
}

/// The length left after the trailing white-space run is cut off.
pub open spec fn trimmed_end(s: Seq<char>) -> int
    decreases s.len(),
{
    if s.len() > 0 && spec_is_whitespace(s.last()) {
        trimmed_end(s.drop_last())
    } else {
        s.len() as int
    }
}

/// `str::trim`: white space removed at both ends.
pub open spec fn spec_trim(s: Seq<char>) -> Seq<char> {
    let t = s.take(trimmed_end(s));
    t.skip(leading_ws(t))
}

/// Bounds of the trailing-space cut.
pub proof fn lemma_trimmed_end(s: Seq<char>)
    ensures
        0 <= trimmed_end(s) <= s.len(),
        trimmed_end(s) == s.len() || spec_is_whitespace(s[trimmed_end(s)]),
        trimmed_end(s) > 0 ==> !spec_is_whitespace(s[trimmed_end(s) - 1]),
        forall|k: int| trimmed_end(s) <= k < s.len() ==> spec_is_whitespace(#[trigger] s[k]),
    decreases s.len(),
{
    if s.len() > 0 && spec_is_whitespace(s.last()) {
        lemma_trimmed_end(s.drop_last());
        assert forall|k: int| trimmed_end(s) <= k < s.len() implies spec_is_whitespace(
            #[trigger] s[k],
        ) by {
            if k < s.len() - 1 {
                assert(s.drop_last()[k] == s[k]);
            }
        }
        if trimmed_end(s) > 0 {
            assert(s.drop_last()[trimmed_end(s) - 1] == s[trimmed_end(s) - 1]);
        }
        if trimmed_end(s) < s.len() - 1 {
            assert(s.drop_last()[trimmed_end(s)] == s[trimmed_end(s)]);
        }
    }
}

/// Bounds of the leading-space cut.
pub proof fn lemma_leading_ws(s: Seq<char>)
    ensures
        0 <= leading_ws(s) <= s.len(),
        leading_ws(s) == s.len() || !spec_is_whitespace(s[leading_ws(s)]),
        forall|k: int| 0 <= k < leading_ws(s) ==> spec_is_whitespace(#[trigger] s[k]),
    decreases s.len(),
{
    if s.len() > 0 && spec_is_whitespace(s[0]) {
        lemma_leading_ws(s.drop_first());
        assert forall|k: int| 0 <= k < leading_ws(s) implies spec_is_whitespace(
            #[trigger] s[k],
        ) by {
            if k > 0 {
                assert(s.drop_first()[k - 1] == s[k]);
            }
        }
        if leading_ws(s) < s.len() {
            assert(s.drop_first()[leading_ws(s) - 1] == s[leading_ws(s)]);
        }
    }
}

/// `str::trim` on a character sequence.
pub fn trim_chars(s: &[char]) -> (out: Vec<char>)
    ensures
        out@ == spec_trim(s@),
{
    let mut end: usize = s.len();
    assert(s@.take(end as int) =~= s@);
    while end > 0 && is_whitespace(s[end - 1])
        invariant
            end <= s@.len(),
            trimmed_end(s@) == trimmed_end(s@.take(end as int)),
        decreases end,
    {
        proof {
            assert(s@.take(end as int).drop_last() =~= s@.take(end - 1));
        }
        end -= 1;
    }
    proof {
        assert(s@.take(end as int).len() == end);
        if end > 0 {
            assert(s@.take(end as int).last() == s@[end - 1]);
        }
    }
    let ghost t = s@.take(end as int);
    assert(trimmed_end(s@) == end);
    let mut start: usize = 0;
    assert(t.skip(0) =~= t);
    while start < end && is_whitespace(s[start])
        invariant
            start <= end <= s@.len(),
            t == s@.take(end as int),
            leading_ws(t) == start + leading_ws(t.skip(start as int)),
        decreases end - start,
    {
        proof {
            assert(t.skip(start as int)[0] == s@[start as int]);
            assert(t.skip(start as int).drop_first() =~= t.skip(start + 1));
        }
        start += 1;
    }
    proof {
        if start < end {
            assert(t.skip(start as int)[0] == s@[start as int]);
        } else {
            assert(t.skip(start as int).len() == 0);
        }
    }
    let mut out: Vec<char> = Vec::new();
    let mut i: usize = start;
    while i < end
        invariant
            start <= i <= end <= s@.len(),
            out@ == s@.subrange(start as int, i as int),
        decreases end - i,
    {
        out.push(s[i]);
        i += 1;
        assert(out@ =~= s@.subrange(start as int, i as int));
    }
    assert(t.skip(start as int) =~= s@.subrange(start as int, end as int));
    out
}

/// `std::str::from_utf8`: the characters of valid UTF-8, `None` for anything else.
#[verifier::external_body]
pub(crate) fn utf8_decode(bytes: &[u8]) -> (r: Option<Vec<char>>)
    ensures
        r is Some <==> valid_utf8(bytes@),
        r matches Some(v) ==> v@ == decode_utf8(bytes@),
{
    match std::str::from_utf8(bytes) {
        Ok(s) => Some(s.chars().collect()),
        Err(_) => None,
    }
}

/// What `String::from_utf8_lossy` makes of a byte string: malformed sequences replaced by U+FFFD.
pub uninterp spec fn utf8_lossy(bytes: Seq<u8>) -> Seq<char>;

/// `String::from_utf8_lossy`: the characters of the bytes with malformed sequences replaced by
/// U+FFFD; valid UTF-8 comes back unchanged.
#[verifier::external_body]
pub(crate) fn utf8_decode_lossy(bytes: &[u8]) -> (r: Vec<char>)
    ensures
        r@ == utf8_lossy(bytes@),
        valid_utf8(bytes@) ==> r@ == decode_utf8(bytes@),
{
    String::from_utf8_lossy(bytes).chars().collect()
}

} // verus!


