use vstd::prelude::*;

use crate::text::{str_chars, string_from_chars};

verus! {

/// A run of terminal cells drawn with one style. `C` is the color type and
/// `S` the type of the emoji scale factor of the renderer.
#[derive(Debug)]
pub struct StyledSpan<C, S> {
    pub text: String,
    pub start_col: usize,
    pub end_col: usize,
    pub fg: C,
    pub bg: Option<C>,
    pub is_bold: bool,
    pub is_underline: bool,
    /// Pure-emoji span (color glyphs from fallback fonts).
    pub is_emoji: bool,
    /// Nerd Font icon span (private-use codepoints).
    pub is_nerd: bool,
    /// Font-size factor that fits the emoji ink into its cells.
    pub emoji_scale: Option<S>,
    /// Terminal column of each char in `text`.
    pub char_cols: Vec<usize>,
}

/// `s` without its trailing spaces (`str::trim_end_matches(' ')`).
pub open spec fn trim_trailing_spaces(s: Seq<char>) -> Seq<char>
    decreases s.len(),
{
    if s.len() > 0 && s.last() == ' ' {
        trim_trailing_spaces(s.drop_last())
    } else {
        s
    }
}

/// A span whose trailing spaces are invisible: no background, no underline.
pub open spec fn trimmable<C, S>(sp: StyledSpan<C, S>) -> bool {
    sp.bg is None && !sp.is_underline
}

/// A trimmable span holding only spaces.
pub open spec fn blank_span<C, S>(sp: StyledSpan<C, S>) -> bool {
    trimmable(sp) && trim_trailing_spaces(sp.text@).len() == 0
}

/// How many spans remain once trailing blank spans are dropped.
pub open spec fn kept_spans<C, S>(spans: Seq<StyledSpan<C, S>>) -> nat
    decreases spans.len(),
{
    if spans.len() > 0 && blank_span(spans.last()) {
        kept_spans(spans.drop_last())
    } else {
        spans.len()
    }
}

proof fn lemma_trim_prefix(s: Seq<char>, n: int)
    requires
        0 <= n <= s.len(),
        forall|k: int| n <= k < s.len() ==> s[k] == ' ',
        n == 0 || s[n - 1] != ' ',
    ensures
        trim_trailing_spaces(s) == s.take(n),
    decreases s.len(),
{
    if s.len() > n {
        assert(s.drop_last().take(n) =~= s.take(n));
        lemma_trim_prefix(s.drop_last(), n);
    } else {
        assert(s.take(n) =~= s);
    }
}

/// `s` without trailing spaces, and how many spaces were removed.
fn trim_spaces_end(s: &str) -> (r: (String, usize))
    ensures
        r.0@ == trim_trailing_spaces(s@),
        r.1 == s@.len() - r.0@.len(),
{
    let cs = str_chars(s);
    let mut n = cs.len();
    while n > 0 && cs[n - 1] == ' '
        invariant
            n <= cs.len(),
            forall|k: int| n <= k < cs.len() ==> cs@[k] == ' ',
        decreases n,
    {
        n = n - 1;
    }
    proof {
        lemma_trim_prefix(cs@, n as int);
    }
    let mut out: Vec<char> = Vec::new();
    let mut k: usize = 0;
    while k < n
        invariant
            k <= n,
            n <= cs.len(),
            out@ == cs@.take(k as int),
        decreases n - k,
    {
        out.push(cs[k]);
        k = k + 1;
        assert(out@ =~= cs@.take(k as int));
    }
    (string_from_chars(out.as_slice()), cs.len() - n)
}

/// Drops the trailing whitespace of a row: blank spans at the end without
/// background or underline are removed, and the last remaining such span
/// loses its trailing spaces (one column each, and their recorded columns).
/// Spans with a background or
/// underline keep their spaces, since those are visible.
pub fn trim_row_spans<C, S>(spans: &mut Vec<StyledSpan<C, S>>)
    ensures
        final(spans)@.len() == kept_spans(old(spans)@),
        forall|i: int|
            0 <= i < final(spans)@.len() - 1 ==> #[trigger] final(spans)@[i] == old(spans)@[i],
        final(spans)@.len() > 0 ==> ({
            let n = final(spans)@.len() - 1;
            let o = old(spans)@[n];
            let f = final(spans)@[n];
            if trimmable(o) {
                &&& f.text@ == trim_trailing_spaces(o.text@)
                &&& f.end_col == (if o.end_col >= o.text@.len() - f.text@.len() {
                    (o.end_col - (o.text@.len() - f.text@.len())) as usize
                } else {
                    0usize
                })
                &&& f.char_cols@ == (if o.char_cols@.len() > f.text@.len() {
                    o.char_cols@.take(f.text@.len() as int)
                } else {
                    o.char_cols@
                })
                &&& f == (StyledSpan { text: f.text, end_col: f.end_col, char_cols: f.char_cols, ..o })
            } else {
                f == o
            }
        }),
{
    let ghost orig = spans@;
    loop
        invariant
            orig == old(spans)@,
            spans@.len() <= orig.len(),
            spans@ == orig.take(spans@.len() as int),
            kept_spans(orig) == kept_spans(spans@),
        decreases spans@.len(),
    {
        if spans.len() == 0 {
            return;
        }
        let last_idx = spans.len() - 1;
        if !(spans[last_idx].bg.is_none() && !spans[last_idx].is_underline) {
            assert(kept_spans(spans@) == spans@.len());
            return;
        }
        let (trimmed, trailing) = trim_spaces_end(spans[last_idx].text.as_str());
        if trimmed.as_str().unicode_len() == 0 {
            let ghost pre = spans@;
            let _ = spans.pop();
            proof {
                assert(pre.drop_last() =~= spans@);
                assert(spans@ =~= orig.take(spans@.len() as int));
            }
        } else {
            let ghost pre = spans@;
            assert(kept_spans(spans@) == spans@.len());
            let mut last = spans.pop().unwrap();
            last.end_col = last.end_col.saturating_sub(trailing);
            let kept = trimmed.as_str().unicode_len();
            last.char_cols.truncate(kept);
            last.text = trimmed;
            spans.push(last);
            proof {
                assert forall|i: int| 0 <= i < spans@.len() - 1 implies #[trigger] spans@[i]
                    == orig[i] by {
                    assert(spans@[i] == pre[i]);
                }
            }
            return;
        }
    }
}

} // verus!
