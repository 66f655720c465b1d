//! Line folding (`-f`, `-F`): lines broken at a width, with a margin for closing punctuation.

use crate::config::FoldConfig;
use crate::text::{chars_to_string, is_whitespace, spec_is_whitespace, utf8_decode_lossy, utf8_lossy};
use vstd::prelude::*;

verus! {

broadcast use vstd::seq::group_seq_axioms;

/// The text with its trailing spaces removed.
pub open spec fn spec_trim_spaces(s: Seq<char>) -> Seq<char>
    decreases s.len(),
{
    if s.len() > 0 && s.last() == ' ' {
        spec_trim_spaces(s.drop_last())
    } else {
        s
    }
}

/// Trimming spaces leaves a prefix that does not end in a space.
pub proof fn lemma_trim_spaces(s: Seq<char>)
    ensures
        spec_trim_spaces(s).len() <= s.len(),
        spec_trim_spaces(s) == s.take(spec_trim_spaces(s).len() as int),
        spec_trim_spaces(s).len() == 0 || spec_trim_spaces(s).last() != ' ',
    decreases s.len(),
{
    if s.len() > 0 && s.last() == ' ' {
        lemma_trim_spaces(s.drop_last());
        let t = spec_trim_spaces(s.drop_last());
        assert(s.drop_last().take(t.len() as int) =~= s.take(t.len() as int));
    } else {
        assert(s.take(s.len() as int) =~= s);
    }
}

/// Removes the trailing spaces of the text.
pub fn trim_trailing_space(out: &mut Vec<char>)
    ensures
        final(out)@ == spec_trim_spaces(old(out)@),
{
    while out.len() > 0 && out[out.len() - 1] == ' '
        invariant
            spec_trim_spaces(out@) == spec_trim_spaces(old(out)@),
        decreases out@.len(),
    {
        out.pop();
    }
}

/// Columns a character takes: one for ASCII, two for anything else.
pub open spec fn spec_display_width(c: char) -> int {
    if (c as u32) < 0x80 {
        1
    } else {
        2
    }
}

/// Columns a character takes: one for ASCII, two for anything else.
pub fn display_width(c: char) -> (w: usize)
    ensures
        w == spec_display_width(c),
{
    if (c as u32) < 0x80 {
        1
    } else {
        2
    }
}

/// Punctuation that should not begin a line; it may run into the margin.
pub open spec fn spec_no_start(c: char) -> bool {
    c == ')' || c == ']' || c == '}' || c == '.' || c == ',' || c == '!' || c == '?' || c == '/'
        || c == ':' || c == ';' || c == '\u{3001}' || c == '\u{3002}' || c == '\u{FF0C}'
        || c == '\u{FF0E}' || c == '\u{300D}' || c == '\u{300F}' || c == '\u{FF09}'
        || c == '\u{FF3D}' || c == '\u{FF5D}' || c == '\u{3009}' || c == '\u{300B}'
        || c == '\u{30FC}'
}

/// Punctuation that should not begin a line; it may run into the margin.
pub fn is_no_start_punctuation(c: char) -> (r: bool)
    ensures
        r == spec_no_start(c),
{
    c == ')' || c == ']' || c == '}' || c == '.' || c == ',' || c == '!' || c == '?' || c == '/'
        || c == ':' || c == ';' || c == '\u{3001}' || c == '\u{3002}' || c == '\u{FF0C}'
        || c == '\u{FF0E}' || c == '\u{300D}' || c == '\u{300F}' || c == '\u{FF09}'
        || c == '\u{FF3D}' || c == '\u{FF5D}' || c == '\u{3009}' || c == '\u{300B}'
        || c == '\u{30FC}'
}

/// The text with a line break after it, trailing spaces removed first.
pub open spec fn spec_break(out: Seq<char>) -> Seq<char> {
    spec_trim_spaces(out).push('\n')
}

/// Whether the text ends with a line break.
pub open spec fn spec_ends_newline(out: Seq<char>) -> bool {
    out.len() > 0 && out.last() == '\n'
}

/// One input character through the folder. The state is the text so far, the width of its last
/// line, whether a space is owed before the next character, and whether the last input was a
/// line break.
pub open spec fn spec_fold_step(cfg: FoldConfig, st: (Seq<char>, int, bool, bool), c: char) -> (Seq<char>, int, bool, bool) {
    if c == '\r' {
        st
    } else if c == '\n' {
        if cfg.preserve_newlines {
            (spec_break(st.0), 0int, false, true)
        } else if st.3 {
            let t = spec_trim_spaces(st.0);
            let t2 = if spec_ends_newline(t) {
                t
            } else {
                t.push('\n')
            };
            (t2.push('\n'), 0int, false, true)
        } else {
            (st.0, st.1, st.1 > 0, true)
        }
    } else if c == '\x08' {
        (st.0.push(c), if st.1 > 0 {
            st.1 - 1
        } else {
            0
        }, st.2, false)
    } else if c == '\x0c' {
        (spec_break(st.0), 0int, false, true)
    } else if spec_is_whitespace(c) {
        (st.0, st.1, st.1 > 0, false)
    } else {
        let w = spec_display_width(c);
        let (out1, w1) = if st.2 {
            if st.1 + 1 > cfg.len {
                (spec_break(st.0), 0int)
            } else if !spec_ends_newline(st.0) && st.0.len() > 0 {
                (st.0.push(' '), st.1 + 1)
            } else {
                (st.0, st.1)
            }
        } else {
            (st.0, st.1)
        };
        let (out2, w2) = if w1 > 0 && w1 + w > cfg.len + cfg.margin {
            (spec_break(out1), 0int)
        } else if w1 > 0 && w1 + w > cfg.len && !spec_no_start(c) {
            (spec_break(out1), 0int)
        } else {
            (out1, w1)
        };
        (out2.push(c), w2 + w, false, false)
    }
}

/// The folder's state after a whole text.
pub open spec fn spec_fold_state(cfg: FoldConfig, text: Seq<char>) -> (Seq<char>, int, bool, bool)
    decreases text.len(),
{
    if text.len() == 0 {
        (Seq::<char>::empty(), 0int, false, false)
    } else {
        spec_fold_step(cfg, spec_fold_state(cfg, text.drop_last()), text.last())
    }
}

/// A folded text: the folder run over it, with the trailing spaces of the end removed.
pub open spec fn spec_fold(cfg: FoldConfig, text: Seq<char>) -> Seq<char> {
    spec_trim_spaces(spec_fold_state(cfg, text).0)
}

/// Whether a text holds no carriage return.
pub open spec fn no_cr(s: Seq<char>) -> bool {
    forall|k: int| 0 <= k < s.len() ==> s[k] != '\r'
}

/// The text with trailing spaces removed, then a line break.
fn push_break(out: &mut Vec<char>)
    requires
        no_cr(old(out)@),
    ensures
        final(out)@ == spec_break(old(out)@),
        no_cr(final(out)@),
{
    proof {
        lemma_trim_spaces(old(out)@);
    }
    trim_trailing_space(out);
    out.push('\n');
}

fn ends_newline(out: &Vec<char>) -> (r: bool)
    ensures
        r == spec_ends_newline(out@),
{
    out.len() > 0 && out[out.len() - 1] == '\n'
}

/// Folds a text at the configured width; carriage returns are dropped.
pub fn fold_chars(text: &[char], cfg: FoldConfig) -> (out: Vec<char>)
    requires
        cfg.len + cfg.margin + 2 <= usize::MAX,
    ensures
        out@ == spec_fold(cfg, text@),
        no_cr(out@),
        out@.len() == 0 || out@.last() != ' ',
{
    let mut out: Vec<char> = Vec::new();
    let mut line_width: usize = 0;
    let mut pending_space = false;
    let mut previous_was_newline = false;
    let mut i: usize = 0;
    while i < text.len()
        invariant
            i <= text@.len(),
            cfg.len + cfg.margin + 2 <= usize::MAX,
            line_width <= cfg.len + cfg.margin || line_width <= 2,
            no_cr(out@),
            spec_fold_state(cfg, text@.take(i as int)) == (out@, line_width as int, pending_space, previous_was_newline),
        decreases text@.len() - i,
    {
        let ch = text[i];
        proof {
            assert(text@.take(i + 1).drop_last() =~= text@.take(i as int));
            assert(text@.take(i + 1).last() == ch);
        }
        i += 1;
        if ch == '\r' {
            continue;
        }
        if ch == '\n' {
            if cfg.preserve_newlines {
                push_break(&mut out);
                line_width = 0;
                pending_space = false;
                previous_was_newline = true;
            } else if previous_was_newline {
                proof {
                    lemma_trim_spaces(out@);
                }
                trim_trailing_space(&mut out);
                if !ends_newline(&out) {
                    out.push('\n');
                }
                out.push('\n');
                line_width = 0;
                pending_space = false;
            } else {
                pending_space = line_width > 0;
                previous_was_newline = true;
            }
            continue;
        }
        if ch == '\x08' {
            line_width = if line_width > 0 { line_width - 1 } else { 0 };
            out.push(ch);
            previous_was_newline = false;
            continue;
        }
        if ch == '\x0c' {
            push_break(&mut out);
            line_width = 0;
            pending_space = false;
            previous_was_newline = true;
            continue;
        }
        if is_whitespace(ch) {
            pending_space = line_width > 0;
            previous_was_newline = false;
            continue;
        }
        let width = display_width(ch);
        if pending_space {
            if line_width + 1 > cfg.len {
                push_break(&mut out);
                line_width = 0;
            } else if !ends_newline(&out) && out.len() > 0 {
                out.push(' ');
                line_width += 1;
            }
            pending_space = false;
        }
        if line_width > 0 && line_width + width > cfg.len + cfg.margin {
            push_break(&mut out);
            line_width = 0;
        } else if line_width > 0 && line_width + width > cfg.len && !is_no_start_punctuation(ch) {
            push_break(&mut out);
            line_width = 0;
        }
        out.push(ch);
        line_width += width;
        previous_was_newline = false;
    }
    assert(text@.take(i as int) =~= text@);
    proof {
        lemma_trim_spaces(out@);
    }
    trim_trailing_space(&mut out);
    out
}

/// Folds the text of the bytes (malformed UTF-8 replaced) at the configured width.
pub fn fold_utf8_lossy(bytes: &[u8], cfg: FoldConfig) -> (out: String)
    requires
        cfg.len + cfg.margin + 2 <= usize::MAX,
    ensures
        out@ == spec_fold(cfg, utf8_lossy(bytes@)),
        no_cr(out@),
{
    let text = utf8_decode_lossy(bytes);
    let folded = fold_chars(text.as_slice(), cfg);
    chars_to_string(folded.as_slice())
}

/// Columns the last line of a text takes: a line break starts again at zero, a backspace takes
/// one column back (never below zero), anything else takes its display width.
pub open spec fn spec_line_width(s: Seq<char>) -> int
    decreases s.len(),
{
    if s.len() == 0 {
        0
    } else {
        let w = spec_line_width(s.drop_last());
        let c = s.last();
        if c == '\n' {
            0
        } else if c == '\x08' {
            if w > 0 {
                w - 1
            } else {
                0
            }
        } else {
            w + spec_display_width(c)
        }
    }
}

/// Whether no line of the text, nor any beginning of one, takes more than `n` columns.
pub open spec fn fold_lines_within(s: Seq<char>, n: int) -> bool {
    forall|j: int| 0 <= j <= s.len() ==> #[trigger] spec_line_width(s.take(j)) <= n
}

/// The widest a folded line gets: the width plus the margin, or one double-width character
/// where those two together are narrower.
pub open spec fn spec_fold_bound(cfg: FoldConfig) -> int {
    if cfg.len + cfg.margin >= 2 {
        cfg.len + cfg.margin
    } else {
        2
    }
}

proof fn lemma_line_width_push(s: Seq<char>, c: char)
    ensures
        spec_line_width(s.push(c)) == (if c == '\n' {
            0
        } else if c == '\x08' {
            if spec_line_width(s) > 0 {
                spec_line_width(s) - 1
            } else {
                0
            }
        } else {
            spec_line_width(s) + spec_display_width(c)
        }),
{
    assert(s.push(c).drop_last() =~= s);
}

proof fn lemma_line_width_nonneg(s: Seq<char>)
    ensures
        spec_line_width(s) >= 0,
    decreases s.len(),
{
    if s.len() > 0 {
        lemma_line_width_nonneg(s.drop_last());
    }
}

proof fn lemma_within_push(s: Seq<char>, c: char, n: int)
    requires
        fold_lines_within(s, n),
        spec_line_width(s.push(c)) <= n,
    ensures
        fold_lines_within(s.push(c), n),
{
    let t = s.push(c);
    assert forall|j: int| 0 <= j <= t.len() implies #[trigger] spec_line_width(t.take(j)) <= n by {
        if j <= s.len() {
            assert(t.take(j) =~= s.take(j));
        } else {
            assert(t.take(j) =~= t);
        }
    }
}

proof fn lemma_within_whole(s: Seq<char>, n: int)
    requires
        fold_lines_within(s, n),
    ensures
        spec_line_width(s) <= n,
{
    assert(s.take(s.len() as int) =~= s);
}

proof fn lemma_within_take(s: Seq<char>, k: int, n: int)
    requires
        fold_lines_within(s, n),
        0 <= k <= s.len(),
    ensures
        fold_lines_within(s.take(k), n),
{
    let t = s.take(k);
    assert forall|j: int| 0 <= j <= t.len() implies #[trigger] spec_line_width(t.take(j)) <= n by {
        assert(t.take(j) =~= s.take(j));
    }
}

proof fn lemma_within_trim(s: Seq<char>, n: int)
    requires
        fold_lines_within(s, n),
    ensures
        fold_lines_within(spec_trim_spaces(s), n),
{
    lemma_trim_spaces(s);
    lemma_within_take(s, spec_trim_spaces(s).len() as int, n);
}

proof fn lemma_within_break(s: Seq<char>, n: int)
    requires
        fold_lines_within(s, n),
        n >= 0,
    ensures
        fold_lines_within(spec_break(s), n),
{
    lemma_within_trim(s, n);
    lemma_line_width_push(spec_trim_spaces(s), '\n');
    lemma_within_push(spec_trim_spaces(s), '\n', n);
}

/// What the folder keeps: the width it counts is that of the last line of its text, and no line
/// of its text is over the bound.
pub open spec fn fold_state_inv(cfg: FoldConfig, st: (Seq<char>, int, bool, bool)) -> bool {
    &&& st.1 == spec_line_width(st.0)
    &&& fold_lines_within(st.0, spec_fold_bound(cfg))
}

proof fn lemma_fold_step_inv(cfg: FoldConfig, st: (Seq<char>, int, bool, bool), c: char)
    requires
        fold_state_inv(cfg, st),
    ensures
        fold_state_inv(cfg, spec_fold_step(cfg, st, c)),
{
    let n = spec_fold_bound(cfg);
    lemma_line_width_nonneg(st.0);
    lemma_within_whole(st.0, n);
    let nx = spec_fold_step(cfg, st, c);
    if c == '\r' {
    } else if c == '\n' {
        if cfg.preserve_newlines {
            lemma_within_break(st.0, n);
            lemma_line_width_push(spec_trim_spaces(st.0), '\n');
        } else if st.3 {
            let t = spec_trim_spaces(st.0);
            lemma_within_trim(st.0, n);
            let t2 = if spec_ends_newline(t) {
                t
            } else {
                t.push('\n')
            };
            if !spec_ends_newline(t) {
                lemma_line_width_push(t, '\n');
                lemma_within_push(t, '\n', n);
            }
            lemma_line_width_push(t2, '\n');
            lemma_within_push(t2, '\n', n);
        }
    } else if c == '\x08' {
        lemma_line_width_push(st.0, c);
        lemma_within_push(st.0, c, n);
    } else if c == '\x0c' {
        lemma_within_break(st.0, n);
        lemma_line_width_push(spec_trim_spaces(st.0), '\n');
    } else if spec_is_whitespace(c) {
    } else {
        let w = spec_display_width(c);
        let (out1, w1) = if st.2 {
            if st.1 + 1 > cfg.len {
                (spec_break(st.0), 0int)
            } else if !spec_ends_newline(st.0) && st.0.len() > 0 {
                (st.0.push(' '), st.1 + 1)
            } else {
                (st.0, st.1)
            }
        } else {
            (st.0, st.1)
        };
        if st.2 {
            if st.1 + 1 > cfg.len {
                lemma_within_break(st.0, n);
                lemma_line_width_push(spec_trim_spaces(st.0), '\n');
            } else if !spec_ends_newline(st.0) && st.0.len() > 0 {
                lemma_line_width_push(st.0, ' ');
                lemma_within_push(st.0, ' ', n);
            }
        }
        assert(w1 == spec_line_width(out1) && fold_lines_within(out1, n));
        let (out2, w2) = if w1 > 0 && w1 + w > cfg.len + cfg.margin {
            (spec_break(out1), 0int)
        } else if w1 > 0 && w1 + w > cfg.len && !spec_no_start(c) {
            (spec_break(out1), 0int)
        } else {
            (out1, w1)
        };
        if w1 > 0 && (w1 + w > cfg.len + cfg.margin || (w1 + w > cfg.len && !spec_no_start(c))) {
            lemma_within_break(out1, n);
            lemma_line_width_push(spec_trim_spaces(out1), '\n');
        }
        assert(w2 == spec_line_width(out2) && fold_lines_within(out2, n));
        lemma_line_width_nonneg(out2);
        lemma_line_width_push(out2, c);
        lemma_within_push(out2, c, n);
    }
}

proof fn lemma_fold_state_inv(cfg: FoldConfig, text: Seq<char>)
    ensures
        fold_state_inv(cfg, spec_fold_state(cfg, text)),
    decreases text.len(),
{
    if text.len() == 0 {
        assert forall|j: int| 0 <= j <= 0 implies #[trigger] spec_line_width(Seq::<char>::empty().take(j)) <= spec_fold_bound(cfg) by {
            assert(Seq::<char>::empty().take(j) =~= Seq::<char>::empty());
        }
    } else {
        lemma_fold_state_inv(cfg, text.drop_last());
        lemma_fold_step_inv(cfg, spec_fold_state(cfg, text.drop_last()), text.last());
    }
}

/// Folding keeps every line within the fold width plus its margin, counting one column for an
/// ASCII character, two for any other, and one column back for a backspace; only where width
/// and margin together are under two can a single double-width character go beyond them.
pub proof fn lemma_fold_width(cfg: FoldConfig, text: Seq<char>)
    ensures
        fold_lines_within(spec_fold(cfg, text), spec_fold_bound(cfg)),
{
    lemma_fold_state_inv(cfg, text);
    lemma_within_trim(spec_fold_state(cfg, text).0, spec_fold_bound(cfg));
}

/// The characters of a text that are not white space, in order.
pub open spec fn spec_non_ws(s: Seq<char>) -> Seq<char>
    decreases s.len(),
{
    if s.len() == 0 {
        seq![]
    } else if spec_is_whitespace(s.last()) {
        spec_non_ws(s.drop_last())
    } else {
        spec_non_ws(s.drop_last()).push(s.last())
    }
}

/// Whether no space of the text begins a line.
pub open spec fn no_space_at_line_start(s: Seq<char>) -> bool {
    forall|k: int| 0 <= k < s.len() && #[trigger] s[k] == ' ' ==> k > 0 && s[k - 1] != '\n'
}

proof fn lemma_non_ws_push(s: Seq<char>, c: char)
    ensures
        spec_non_ws(s.push(c)) == if spec_is_whitespace(c) {
            spec_non_ws(s)
        } else {
            spec_non_ws(s).push(c)
        },
{
    assert(s.push(c).drop_last() =~= s);
}

proof fn lemma_non_ws_trim(s: Seq<char>)
    ensures
        spec_non_ws(spec_trim_spaces(s)) == spec_non_ws(s),
    decreases s.len(),
{
    if s.len() > 0 && s.last() == ' ' {
        lemma_non_ws_trim(s.drop_last());
    }
}

proof fn lemma_no_space_prefix(s: Seq<char>, n: int)
    requires
        no_space_at_line_start(s),
        0 <= n <= s.len(),
    ensures
        no_space_at_line_start(s.take(n)),
{
    assert forall|k: int| 0 <= k < s.take(n).len() && #[trigger] s.take(n)[k] == ' ' implies k > 0 && s.take(n)[k - 1] != '\n' by {
        assert(s[k] == ' ');
    }
}

proof fn lemma_no_space_push(s: Seq<char>, c: char)
    requires
        no_space_at_line_start(s),
        c != ' ' || (s.len() > 0 && s.last() != '\n'),
    ensures
        no_space_at_line_start(s.push(c)),
{
    let t = s.push(c);
    assert forall|k: int| 0 <= k < t.len() && #[trigger] t[k] == ' ' implies k > 0 && t[k - 1] != '\n' by {
        if k < s.len() {
            assert(t[k] == s[k]);
            if k > 0 {
                assert(t[k - 1] == s[k - 1]);
            }
        } else {
            assert(t[k - 1] == s.last());
        }
    }
}

proof fn lemma_no_space_break(s: Seq<char>)
    requires
        no_space_at_line_start(s),
        spaces_inside(s),
    ensures
        no_space_at_line_start(spec_break(s)),
        spec_non_ws(spec_break(s)) == spec_non_ws(s),
        spaces_followed(spec_break(s)),
{
    lemma_spaces_trim(s);
    lemma_spaces_push(spec_trim_spaces(s), '\n');
    lemma_trim_spaces(s);
    lemma_no_space_prefix(s, spec_trim_spaces(s).len() as int);
    lemma_no_space_push(spec_trim_spaces(s), '\n');
    lemma_non_ws_trim(s);
    lemma_non_ws_push(spec_trim_spaces(s), '\n');
}

/// Whether every space but a last one is followed by a character other than a space or a line
/// break.
pub open spec fn spaces_inside(s: Seq<char>) -> bool {
    forall|k: int| 0 <= k < s.len() - 1 && #[trigger] s[k] == ' ' ==> s[k + 1] != '\n' && s[k + 1] != ' '
}

/// Whether every space is followed by a character other than a space or a line break.
pub open spec fn spaces_followed(s: Seq<char>) -> bool {
    spaces_inside(s) && (s.len() == 0 || s.last() != ' ')
}

proof fn lemma_spaces_trim(s: Seq<char>)
    requires
        spaces_inside(s),
    ensures
        spaces_followed(spec_trim_spaces(s)),
{
    lemma_trim_spaces(s);
    let t = spec_trim_spaces(s);
    assert forall|k: int| 0 <= k < t.len() - 1 && #[trigger] t[k] == ' ' implies t[k + 1] != '\n' && t[k + 1] != ' ' by {
        assert(t[k] == s[k] && t[k + 1] == s[k + 1]);
    }
}

proof fn lemma_spaces_push(s: Seq<char>, c: char)
    requires
        spaces_inside(s),
        (c != ' ' && c != '\n') || (c != ' ' && (s.len() == 0 || s.last() != ' ')) || (c == ' ' && (s.len() == 0 || s.last() != ' ')),
    ensures
        spaces_inside(s.push(c)),
        c != ' ' ==> spaces_followed(s.push(c)),
{
    let t = s.push(c);
    assert forall|k: int| 0 <= k < t.len() - 1 && #[trigger] t[k] == ' ' implies t[k + 1] != '\n' && t[k + 1] != ' ' by {
        assert(t[k] == s[k]);
        if k < s.len() - 1 {
            assert(t[k + 1] == s[k + 1]);
        } else {
            assert(t[k + 1] == c);
        }
    }
}

/// What the folder keeps besides widths: its text holds the input's non-white-space characters,
/// no space begins a line of it, and every space is followed by another character.
pub open spec fn fold_text_inv(st: (Seq<char>, int, bool, bool), text: Seq<char>) -> bool {
    &&& spec_non_ws(st.0) == spec_non_ws(text)
    &&& no_space_at_line_start(st.0)
    &&& spaces_followed(st.0)
}
proof fn lemma_fold_text_step(cfg: FoldConfig, st: (Seq<char>, int, bool, bool), text: Seq<char>, c: char)
    requires
        fold_text_inv(st, text),
    ensures
        fold_text_inv(spec_fold_step(cfg, st, c), text.push(c)),
{
    lemma_non_ws_push(text, c);
    if c == '\r' {
    } else if c == '\n' {
        if cfg.preserve_newlines {
            lemma_no_space_break(st.0);
        } else if st.3 {
            let t = spec_trim_spaces(st.0);
            lemma_trim_spaces(st.0);
            lemma_no_space_prefix(st.0, t.len() as int);
            lemma_non_ws_trim(st.0);
            lemma_spaces_trim(st.0);
            let t2 = if spec_ends_newline(t) {
                t
            } else {
                t.push('\n')
            };
            if !spec_ends_newline(t) {
                lemma_no_space_push(t, '\n');
                lemma_non_ws_push(t, '\n');
                lemma_spaces_push(t, '\n');
            }
            lemma_no_space_push(t2, '\n');
            lemma_non_ws_push(t2, '\n');
            lemma_spaces_push(t2, '\n');
        }
    } else if c == '\x08' {
        lemma_no_space_push(st.0, c);
        lemma_non_ws_push(st.0, c);
        lemma_spaces_push(st.0, c);
    } else if c == '\x0c' {
        lemma_no_space_break(st.0);
    } else if spec_is_whitespace(c) {
    } else {
        let w = spec_display_width(c);
        let (out1, w1) = if st.2 {
            if st.1 + 1 > cfg.len {
                (spec_break(st.0), 0int)
            } else if !spec_ends_newline(st.0) && st.0.len() > 0 {
                (st.0.push(' '), st.1 + 1)
            } else {
                (st.0, st.1)
            }
        } else {
            (st.0, st.1)
        };
        if st.2 {
            if st.1 + 1 > cfg.len {
                lemma_no_space_break(st.0);
            } else if !spec_ends_newline(st.0) && st.0.len() > 0 {
                lemma_no_space_push(st.0, ' ');
                lemma_non_ws_push(st.0, ' ');
                lemma_spaces_push(st.0, ' ');
            }
        }
        assert(spec_non_ws(out1) == spec_non_ws(text) && no_space_at_line_start(out1) && spaces_inside(out1));
        let (out2, w2) = if w1 > 0 && w1 + w > cfg.len + cfg.margin {
            (spec_break(out1), 0int)
        } else if w1 > 0 && w1 + w > cfg.len && !spec_no_start(c) {
            (spec_break(out1), 0int)
        } else {
            (out1, w1)
        };
        if w1 > 0 && (w1 + w > cfg.len + cfg.margin || (w1 + w > cfg.len && !spec_no_start(c))) {
            lemma_no_space_break(out1);
        }
        assert(spec_non_ws(out2) == spec_non_ws(text) && no_space_at_line_start(out2) && spaces_inside(out2));
        assert(c != ' ' && c != '\n');
        lemma_no_space_push(out2, c);
        lemma_non_ws_push(out2, c);
        lemma_spaces_push(out2, c);
    }
}

proof fn lemma_fold_text_state(cfg: FoldConfig, text: Seq<char>)
    ensures
        fold_text_inv(spec_fold_state(cfg, text), text),
    decreases text.len(),
{
    if text.len() == 0 {
        assert(spec_non_ws(Seq::<char>::empty()) =~= Seq::<char>::empty());
    } else {
        lemma_fold_text_state(cfg, text.drop_last());
        lemma_fold_text_step(cfg, spec_fold_state(cfg, text.drop_last()), text.drop_last(), text.last());
        assert(text.drop_last().push(text.last()) =~= text);
    }
}

/// Folding changes only white space: the folded text holds the input's characters other than
/// white space, in order, and no line of it begins or ends with a space.
pub proof fn lemma_fold_keeps_text(cfg: FoldConfig, text: Seq<char>)
    ensures
        spec_non_ws(spec_fold(cfg, text)) == spec_non_ws(text),
        no_space_at_line_start(spec_fold(cfg, text)),
        forall|k: int| 0 <= k < spec_fold(cfg, text).len() && #[trigger] spec_fold(cfg, text)[k] == ' '
            ==> k + 1 < spec_fold(cfg, text).len() && spec_fold(cfg, text)[k + 1] != '\n',
{
    lemma_fold_text_state(cfg, text);
    let out = spec_fold_state(cfg, text).0;
    lemma_trim_spaces(out);
    lemma_no_space_prefix(out, spec_trim_spaces(out).len() as int);
    lemma_non_ws_trim(out);
    lemma_spaces_trim(out);
}

} // verus!
