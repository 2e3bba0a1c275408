use vstd::prelude::*;

use crate::colors::{convert_color, spec_convert_color, CellColor, TermColor, ThemeColor};
use crate::glyphs::{
    is_emoji_codepoint, is_nerd_codepoint, spec_is_emoji_codepoint, spec_is_nerd_codepoint,
};
use crate::text::{
    lowercase, matches_at, occurs_at, str_chars, string_from_chars, to_lowercase,
};
use crate::spans::{kept_spans, trim_row_spans, trim_trailing_spaces, trimmable, StyledSpan};

verus! {

/// A terminal cell as the pane renderer reads it from the emulator.
#[derive(Clone, Copy, Debug)]
pub struct RenderCell {
    /// Viewport line of the cell.
    pub row: i32,
    pub col: usize,
    pub ch: char,
    pub fg: TermColor,
    pub bg: TermColor,
    /// Foreground and background swapped.
    pub inverse: bool,
    pub bold: bool,
    /// Underlined, or part of a hyperlink.
    pub underline: bool,
    /// A double-width character.
    pub wide: bool,
    /// The cell right of a double-width character.
    pub wide_spacer: bool,
}

/// What cells of one span share: colors, weight, underline, and for box,
/// block, geometric, emoji and icon characters the character itself (such
/// a character never joins a span of other characters).
#[derive(Clone, Copy, Debug, PartialEq, Eq, Structural)]
pub struct SpanKey {
    pub fg: CellColor,
    pub bg: Option<CellColor>,
    pub bold: bool,
    pub underline: bool,
    pub block: Option<char>,
}

/// A codepoint of the private-use areas (icon fonts).
pub open spec fn spec_is_pua(code: u32) -> bool {
    ||| 0xE000 <= code <= 0xF8FF
    ||| 0xF0000 <= code <= 0xFFFFD
    ||| 0x100000 <= code <= 0x10FFFD
}

/// A character drawn in a span of its own: box drawing, block elements,
/// geometric shapes, emoji and private-use icons.
pub open spec fn spec_is_block_char(c: char) -> bool {
    let code = c as u32;
    ||| 0x2500 <= code <= 0x257F
    ||| 0x2580 <= code <= 0x259F
    ||| 0x25A0 <= code <= 0x25FF
    ||| spec_is_emoji_codepoint(code)
    ||| spec_is_pua(code)
}

/// Whether the cell lies in the hovered link (row, first column, end column).
pub open spec fn hovered(hover: Option<(i32, usize, usize)>, row: i32, col: usize) -> bool {
    match hover {
        Some((r, s, e)) => row == r && s <= col < e,
        None => false,
    }
}

/// The style of a cell: inverse swaps the colors, the default background
/// draws nothing, and a hovered link is underlined.
pub open spec fn spec_cell_key(c: RenderCell, hover: Option<(i32, usize, usize)>) -> SpanKey {
    let fg = if c.inverse {
        c.bg
    } else {
        c.fg
    };
    let bg = if c.inverse {
        c.fg
    } else {
        c.bg
    };
    SpanKey {
        fg: spec_convert_color(fg, true),
        bg: if bg == TermColor::Named(Some(ThemeColor::Background)) {
            None
        } else {
            Some(spec_convert_color(bg, false))
        },
        bold: c.bold,
        underline: c.underline || hovered(hover, c.row, c.col),
        block: if spec_is_block_char(c.ch) {
            Some(c.ch)
        } else {
            None
        },
    }
}

/// The style of a cell (see `spec_cell_key`).
pub fn cell_key(c: &RenderCell, hover: Option<(i32, usize, usize)>) -> (r: SpanKey)
    ensures
        r == spec_cell_key(*c, hover),
{
    let (fg, bg) = if c.inverse {
        (c.bg, c.fg)
    } else {
        (c.fg, c.bg)
    };
    let is_hovered = match hover {
        Some((r, s, e)) => c.row == r && s <= c.col && c.col < e,
        None => false,
    };
    let code = c.ch as u32;
    let block = (0x2500 <= code && code <= 0x257F) || (0x2580 <= code && code <= 0x259F) || (
    0x25A0 <= code && code <= 0x25FF) || is_emoji_codepoint(code) || (0xE000 <= code && code
        <= 0xF8FF) || (0xF0000 <= code && code <= 0xFFFFD) || (0x100000 <= code && code
        <= 0x10FFFD);
    SpanKey {
        fg: convert_color(fg, true),
        bg: if bg == TermColor::Named(Some(ThemeColor::Background)) {
            None
        } else {
            Some(convert_color(bg, false))
        },
        bold: c.bold,
        underline: c.underline || is_hovered,
        block: if block {
            Some(c.ch)
        } else {
            None
        },
    }
}


/// A span of a row by its values: text, columns, style, kind, whether it
/// has an emoji scale, and the column of each character.
pub struct SpanModel {
    pub text: Seq<char>,
    pub start_col: usize,
    pub end_col: usize,
    pub fg: CellColor,
    pub bg: Option<CellColor>,
    pub bold: bool,
    pub underline: bool,
    pub is_emoji: bool,
    pub is_nerd: bool,
    pub scaled: bool,
    pub char_cols: Seq<usize>,
}

pub open spec fn span_model<S>(sp: StyledSpan<CellColor, S>) -> SpanModel {
    SpanModel {
        text: sp.text@,
        start_col: sp.start_col,
        end_col: sp.end_col,
        fg: sp.fg,
        bg: sp.bg,
        bold: sp.is_bold,
        underline: sp.is_underline,
        is_emoji: sp.is_emoji,
        is_nerd: sp.is_nerd,
        scaled: sp.emoji_scale is Some,
        char_cols: sp.char_cols@,
    }
}

pub open spec fn span_models<S>(spans: Seq<StyledSpan<CellColor, S>>) -> Seq<SpanModel> {
    spans.map_values(|sp: StyledSpan<CellColor, S>| span_model(sp))
}

/// A row without its trailing blank: spans of spaces at the end without
/// background or underline go, and the last remaining such span loses its
/// trailing spaces and as many columns.
pub open spec fn trim_models(s: Seq<SpanModel>) -> Seq<SpanModel>
    decreases s.len(),
{
    if s.len() == 0 {
        s
    } else {
        let l = s.last();
        if !(l.bg is None && !l.underline) {
            s
        } else {
            let t = trim_trailing_spaces(l.text);
            if t.len() == 0 {
                trim_models(s.drop_last())
            } else {
                let removed = l.text.len() - t.len();
                s.drop_last().push(
                    SpanModel {
                        text: t,
                        end_col: if l.end_col >= removed {
                            (l.end_col - removed) as usize
                        } else {
                            0usize
                        },
                        char_cols: if l.char_cols.len() > t.len() {
                            l.char_cols.take(t.len() as int)
                        } else {
                            l.char_cols
                        },
                        ..l
                    },
                )
            }
        }
    }
}

proof fn lemma_trim_spaces_idempotent(x: Seq<char>)
    ensures
        trim_trailing_spaces(trim_trailing_spaces(x)) == trim_trailing_spaces(x),
    decreases x.len(),
{
    if x.len() > 0 && x.last() == ' ' {
        lemma_trim_spaces_idempotent(x.drop_last());
    }
}

/// Trimming a row a second time changes nothing.
pub proof fn lemma_trim_models_idempotent(s: Seq<SpanModel>)
    ensures
        trim_models(trim_models(s)) == trim_models(s),
    decreases s.len(),
{
    if s.len() > 0 {
        let l = s.last();
        if l.bg is None && !l.underline {
            let t = trim_trailing_spaces(l.text);
            if t.len() == 0 {
                lemma_trim_models_idempotent(s.drop_last());
            } else {
                let r = trim_models(s);
                let l2 = r.last();
                lemma_trim_spaces_idempotent(l.text);
                assert(r.drop_last() =~= s.drop_last());
                assert(l2.text == t);
                assert(trim_trailing_spaces(l2.text) == t);
                assert(l2.char_cols.len() <= t.len());
                assert(trim_models(r) == r.drop_last().push(l2)) by {
                    assert(l2 == SpanModel { text: t, end_col: l2.end_col, char_cols: l2.char_cols, ..l2 });
                }
                assert(r.drop_last().push(l2) =~= r);
            }
        }
    }
}

/// How `trim_row_spans` leaves a row (its postcondition).
pub open spec fn trimmed_from<C, S>(old: Seq<StyledSpan<C, S>>, new: Seq<StyledSpan<C, S>>) -> bool {
    &&& new.len() == kept_spans(old)
    &&& forall|i: int| 0 <= i < new.len() - 1 ==> #[trigger] new[i] == old[i]
    &&& new.len() > 0 ==> ({
        let n = new.len() - 1;
        let o = old[n];
        let f = new[n];
        if trimmable(o) {
            &&& f.text@ == trim_trailing_spaces(o.text@)
            &&& f.end_col == (if o.end_col >= o.text@.len() - f.text@.len() {
                (o.end_col - (o.text@.len() - f.text@.len())) as usize
            } else {
                0usize
            })
            &&& f.char_cols@ == (if o.char_cols@.len() > f.text@.len() {
                o.char_cols@.take(f.text@.len() as int)
            } else {
                o.char_cols@
            })
            &&& f == (StyledSpan { text: f.text, end_col: f.end_col, char_cols: f.char_cols, ..o })
        } else {
            f == o
        }
    })
}

proof fn lemma_kept_spans_bound<C, S>(s: Seq<StyledSpan<C, S>>)
    ensures
        kept_spans(s) <= s.len(),
    decreases s.len(),
{
    if s.len() > 0 {
        lemma_kept_spans_bound(s.drop_last());
    }
}

proof fn lemma_trimmed_models<S>(old: Seq<StyledSpan<CellColor, S>>, new: Seq<StyledSpan<CellColor, S>>)
    requires
        trimmed_from(old, new),
    ensures
        span_models(new) == trim_models(span_models(old)),
    decreases old.len(),
{
    let mo = span_models(old);
    if old.len() == 0 {
        assert(span_models(new) =~= mo);
    } else {
        let o = old.last();
        assert(mo.last() == span_model(o));
        assert(mo.drop_last() =~= span_models(old.drop_last()));
        if !trimmable(o) {
            assert(new.len() == old.len());
            assert(new =~= old) by {
                assert forall|i: int| 0 <= i < new.len() implies new[i] == old[i] by {
                    if i < new.len() - 1 {
                        assert(new[i] == old[i]);
                    }
                }
            }
        } else if trim_trailing_spaces(o.text@).len() == 0 {
            let od = old.drop_last();
            lemma_kept_spans_bound(od);
            assert(kept_spans(old) == kept_spans(od));
            assert(trimmed_from(od, new)) by {
                assert forall|i: int| 0 <= i < new.len() - 1 implies #[trigger] new[i] == od[i] by {
                    assert(new[i] == old[i]);
                }
                if new.len() > 0 {
                    assert(old[new.len() - 1] == od[new.len() - 1]);
                }
            }
            lemma_trimmed_models(od, new);
        } else {
            assert(kept_spans(old) == old.len());
            let n = new.len() - 1;
            let f = new[n];
            assert(span_models(new) =~= mo.drop_last().push(span_model(f))) by {
                assert forall|i: int| 0 <= i < n implies span_models(new)[i] == mo[i] by {
                    assert(new[i] == old[i]);
                }
            }
        }
    }
}

/// Trims a row's trailing blank (see `trim_models`).
fn trim_row<S>(spans: &mut Vec<StyledSpan<CellColor, S>>)
    ensures
        span_models(final(spans)@) == trim_models(span_models(old(spans)@)),
{
    trim_row_spans(spans);
    proof {
        lemma_trimmed_models(old(spans)@, spans@);
    }
}


/// The last column (exclusive) a cell covers, within the row width.
pub open spec fn cell_end(c: RenderCell, cols: usize) -> usize {
    let w = if c.wide {
        2int
    } else {
        1int
    };
    if c.col + w < cols {
        (c.col + w) as usize
    } else {
        cols
    }
}

/// A span started by a cell of style `k`.
pub open spec fn new_run(c: RenderCell, k: SpanKey, cols: usize) -> SpanModel {
    SpanModel {
        text: seq![c.ch],
        start_col: c.col,
        end_col: cell_end(c, cols),
        fg: k.fg,
        bg: k.bg,
        bold: k.bold,
        underline: k.underline,
        is_emoji: spec_is_emoji_codepoint(c.ch as u32),
        is_nerd: spec_is_nerd_codepoint(c.ch as u32),
        scaled: false,
        char_cols: seq![c.col],
    }
}

/// A span continued by one more cell.
pub open spec fn extend_run(m: SpanModel, c: RenderCell, cols: usize) -> SpanModel {
    SpanModel {
        text: m.text.push(c.ch),
        end_col: cell_end(c, cols),
        char_cols: m.char_cols.push(c.col),
        ..m
    }
}

/// The style a running span was started with.
pub open spec fn run_key(m: SpanModel, block: Option<char>) -> SpanKey {
    SpanKey { fg: m.fg, bg: m.bg, bold: m.bold, underline: m.underline, block }
}

/// The row's spans with the running one (if any) closed.
pub open spec fn flushed(row: Seq<SpanModel>, cur: Option<(SpanModel, Option<char>)>) -> Seq<
    SpanModel,
> {
    match cur {
        Some((m, _)) => row.push(m),
        None => row,
    }
}

/// The empty rows between viewport lines `prev` and `row`.
pub open spec fn gap_rows(prev: i32, row: i32) -> Seq<Seq<SpanModel>> {
    Seq::new(
        if row > prev + 1 {
            (row - prev - 1) as nat
        } else {
            0nat
        },
        |i: int| Seq::<SpanModel>::empty(),
    )
}

/// The rows built so far, the spans of the current row, the running span
/// with its character class, and the viewport line of the current row.
pub struct RowsState {
    pub lines: Seq<Seq<SpanModel>>,
    pub row: Seq<SpanModel>,
    pub cur: Option<(SpanModel, Option<char>)>,
    pub last_row: Option<i32>,
}

/// One cell read into the rows: cells beyond the row width are skipped; a
/// new viewport line closes the current row (trimmed) and adds empty rows
/// for skipped lines; the spacer right of a wide character only counts for
/// the line; a cell of the running span's style continues it, any other
/// starts a new span.
pub open spec fn rows_step(
    st: RowsState,
    c: RenderCell,
    hover: Option<(i32, usize, usize)>,
    cols: usize,
) -> RowsState {
    if c.col >= cols {
        st
    } else if c.wide_spacer {
        rows_enter(st, c.row)
    } else {
        rows_read(rows_enter(st, c.row), c, hover, cols)
    }
}

/// A cell of viewport line `row` is read: on a new line the current row
/// is closed (trimmed), followed by empty rows for lines without cells.
pub open spec fn rows_enter(st: RowsState, row: i32) -> RowsState {
    match st.last_row {
        Some(prev) => if row != prev {
            RowsState {
                lines: st.lines.push(trim_models(flushed(st.row, st.cur))) + gap_rows(prev, row),
                row: Seq::empty(),
                cur: None,
                last_row: Some(row),
            }
        } else {
            st
        },
        None => RowsState { last_row: Some(row), ..st },
    }
}

/// A drawn cell joins the running span when it has its style, else it
/// closes that span and starts one.
pub open spec fn rows_read(
    st: RowsState,
    c: RenderCell,
    hover: Option<(i32, usize, usize)>,
    cols: usize,
) -> RowsState {
    let k = spec_cell_key(c, hover);
    match st.cur {
        Some((m, b)) => if run_key(m, b) == k {
            RowsState { cur: Some((extend_run(m, c, cols), b)), ..st }
        } else {
            RowsState { row: st.row.push(m), cur: Some((new_run(c, k, cols), k.block)), ..st }
        },
        None => RowsState { cur: Some((new_run(c, k, cols), k.block)), ..st },
    }
}

/// The state after reading `cells` in order.
pub open spec fn rows_state(
    cells: Seq<RenderCell>,
    hover: Option<(i32, usize, usize)>,
    cols: usize,
) -> RowsState
    decreases cells.len(),
{
    if cells.len() == 0 {
        RowsState { lines: Seq::empty(), row: Seq::empty(), cur: None, last_row: None }
    } else {
        rows_step(rows_state(cells.drop_last(), hover, cols), cells.last(), hover, cols)
    }
}

/// The rows of styled spans the pane draws for its visible cells: every
/// row read, then the last one, each trimmed.
pub open spec fn spec_row_lines(
    cells: Seq<RenderCell>,
    hover: Option<(i32, usize, usize)>,
    cols: usize,
) -> Seq<Seq<SpanModel>> {
    let st = rows_state(cells, hover, cols);
    st.lines.push(trim_models(flushed(st.row, st.cur)))
}

/// A span with at least one character and a column for each.
pub open spec fn drawn_span(m: SpanModel) -> bool {
    m.text.len() > 0 && m.char_cols.len() >= m.text.len()
}

pub open spec fn drawn_row(row: Seq<SpanModel>) -> bool {
    forall|j: int| 0 <= j < row.len() ==> #[trigger] drawn_span(row[j])
}

proof fn lemma_trim_keeps_drawn(s: Seq<SpanModel>)
    requires
        drawn_row(s),
    ensures
        drawn_row(trim_models(s)),
    decreases s.len(),
{
    if s.len() > 0 {
        let l = s.last();
        if l.bg is None && !l.underline {
            let t = trim_trailing_spaces(l.text);
            lemma_trim_shortens(l.text);
            if t.len() == 0 {
                assert(drawn_row(s.drop_last())) by {
                    assert forall|j: int| 0 <= j < s.drop_last().len() implies #[trigger] drawn_span(
                        s.drop_last()[j],
                    ) by {
                        assert(drawn_span(s[j]));
                    }
                }
                lemma_trim_keeps_drawn(s.drop_last());
            } else {
                let r = trim_models(s);
                assert forall|j: int| 0 <= j < r.len() implies #[trigger] drawn_span(r[j]) by {
                    assert(drawn_span(s[j]));
                }
            }
        }
    }
}

proof fn lemma_trim_shortens(t: Seq<char>)
    ensures
        trim_trailing_spaces(t).len() <= t.len(),
    decreases t.len(),
{
    if t.len() > 0 && t.last() == ' ' {
        lemma_trim_shortens(t.drop_last());
    }
}

/// What reading cells keeps: closed rows, the current row and the running
/// span hold drawn spans (the running and current ones one column per
/// character).
pub open spec fn rows_state_drawn(st: RowsState) -> bool {
    &&& forall|i: int| 0 <= i < st.lines.len() ==> #[trigger] drawn_row(st.lines[i])
    &&& drawn_row(st.row)
    &&& st.cur matches Some((m, _)) ==> drawn_span(m)
}

proof fn lemma_rows_state_drawn(cells: Seq<RenderCell>, hover: Option<(i32, usize, usize)>, cols: usize)
    ensures
        rows_state_drawn(rows_state(cells, hover, cols)),
    decreases cells.len(),
{
    if cells.len() > 0 {
        let pre = rows_state(cells.drop_last(), hover, cols);
        lemma_rows_state_drawn(cells.drop_last(), hover, cols);
        let c = cells.last();
        if c.col < cols {
            let st1 = rows_enter(pre, c.row);
            assert(rows_state_drawn(st1)) by {
                if pre.last_row is Some && c.row != pre.last_row->0 {
                    let prev = pre.last_row->0;
                    let closed = flushed(pre.row, pre.cur);
                    assert(drawn_row(closed)) by {
                        assert forall|j: int| 0 <= j < closed.len() implies #[trigger] drawn_span(
                            closed[j],
                        ) by {
                            if j < pre.row.len() {
                                assert(drawn_span(pre.row[j]));
                            }
                        }
                    }
                    lemma_trim_keeps_drawn(closed);
                    let ls = pre.lines.push(trim_models(closed));
                    let g = gap_rows(prev, c.row);
                    assert forall|i: int| 0 <= i < st1.lines.len() implies #[trigger] drawn_row(
                        st1.lines[i],
                    ) by {
                        if i < pre.lines.len() {
                            assert(st1.lines[i] == pre.lines[i]);
                        } else if i == pre.lines.len() {
                            assert(st1.lines[i] == trim_models(closed));
                        } else {
                            assert(st1.lines[i] == g[i - ls.len()]);
                            assert(g[i - ls.len()].len() == 0);
                        }
                    }
                }
            }
            if !c.wide_spacer {
                let st2 = rows_read(st1, c, hover, cols);
                assert(rows_state_drawn(st2)) by {
                    if st1.cur is Some {
                        let (m, _b) = st1.cur->0;
                        assert(drawn_span(m));
                        assert forall|j: int| 0 <= j < st2.row.len() implies #[trigger] drawn_span(
                            st2.row[j],
                        ) by {
                            if j < st1.row.len() {
                                assert(drawn_span(st1.row[j]));
                            }
                        }
                    }
                }
            }
        }
    }
}

/// Every span of every drawn row holds at least one character, and a
/// column for each of its characters.
pub proof fn lemma_row_spans_drawn(
    cells: Seq<RenderCell>,
    hover: Option<(i32, usize, usize)>,
    cols: usize,
    i: int,
    j: int,
)
    requires
        0 <= i < spec_row_lines(cells, hover, cols).len(),
        0 <= j < spec_row_lines(cells, hover, cols)[i].len(),
    ensures
        drawn_span(spec_row_lines(cells, hover, cols)[i][j]),
{
    let st = rows_state(cells, hover, cols);
    lemma_rows_state_drawn(cells, hover, cols);
    let closed = flushed(st.row, st.cur);
    assert(drawn_row(closed)) by {
        assert forall|k: int| 0 <= k < closed.len() implies #[trigger] drawn_span(closed[k]) by {
            if k < st.row.len() {
                assert(drawn_span(st.row[k]));
            }
        }
    }
    lemma_trim_keeps_drawn(closed);
    if i < st.lines.len() {
        assert(drawn_row(st.lines[i]));
    }
}

pub open spec fn lines_models<S>(lines: Seq<Vec<StyledSpan<CellColor, S>>>) -> Seq<Seq<SpanModel>> {
    lines.map_values(|v: Vec<StyledSpan<CellColor, S>>| span_models(v@))
}

/// A span being read: its characters, their columns, first and end
/// column, style and kind.
struct Run {
    text: Vec<char>,
    cols: Vec<usize>,
    start: usize,
    end: usize,
    key: SpanKey,
    emoji: bool,
    nerd: bool,
}

spec fn run_model(r: Run) -> (SpanModel, Option<char>) {
    (
        SpanModel {
            text: r.text@,
            start_col: r.start,
            end_col: r.end,
            fg: r.key.fg,
            bg: r.key.bg,
            bold: r.key.bold,
            underline: r.key.underline,
            is_emoji: r.emoji,
            is_nerd: r.nerd,
            scaled: false,
            char_cols: r.cols@,
        },
        r.key.block,
    )
}

spec fn cur_model(cur: Option<Run>) -> Option<(SpanModel, Option<char>)> {
    match cur {
        Some(r) => Some(run_model(r)),
        None => None,
    }
}

fn run_span<S>(r: Run) -> (sp: StyledSpan<CellColor, S>)
    ensures
        span_model(sp) == run_model(r).0,
{
    StyledSpan {
        text: string_from_chars(r.text.as_slice()),
        start_col: r.start,
        end_col: r.end,
        fg: r.key.fg,
        bg: r.key.bg,
        is_bold: r.key.bold,
        is_underline: r.key.underline,
        is_emoji: r.emoji,
        is_nerd: r.nerd,
        emoji_scale: None,
        char_cols: r.cols,
    }
}

struct RowsBuilder<S> {
    lines: Vec<Vec<StyledSpan<CellColor, S>>>,
    row: Vec<StyledSpan<CellColor, S>>,
    cur: Option<Run>,
    last_row: Option<i32>,
}

impl<S> RowsBuilder<S> {
    spec fn state(&self) -> RowsState {
        RowsState {
            lines: lines_models(self.lines@),
            row: span_models(self.row@),
            cur: cur_model(self.cur),
            last_row: self.last_row,
        }
    }

    /// Closes the current row: the running span joins it, it is trimmed
    /// and added to the rows.
    fn close_row(&mut self)
        ensures
            final(self).state() == (RowsState {
                lines: old(self).state().lines.push(
                    trim_models(flushed(old(self).state().row, old(self).state().cur)),
                ),
                row: Seq::empty(),
                cur: None,
                last_row: old(self).last_row,
            }),
    {
        let mut row: Vec<StyledSpan<CellColor, S>> = Vec::new();
        std::mem::swap(&mut row, &mut self.row);
        let ghost before = span_models(row@);
        match self.cur.take() {
            Some(r) => {
                let sp = run_span(r);
                row.push(sp);
                assert(span_models(row@) =~= before.push(span_model(sp)));
            },
            None => {},
        }
        trim_row(&mut row);
        let ghost pre = self.lines@;
        self.lines.push(row);
        assert(lines_models(self.lines@) =~= lines_models(pre).push(span_models(row@)));
        assert(span_models(self.row@) =~= Seq::<SpanModel>::empty());
    }

    fn enter(&mut self, row: i32)
        ensures
            final(self).state() == rows_enter(old(self).state(), row),
    {
        match self.last_row {
            Some(prev) => {
                if row != prev {
                    self.close_row();
                    let ghost base = lines_models(self.lines@);
                    let mut r: i64 = prev as i64 + 1;
                    assert(lines_models(self.lines@) =~= base + Seq::new(
                        (r - prev - 1) as nat,
                        |i: int| Seq::<SpanModel>::empty(),
                    ));
                    while r < row as i64
                        invariant
                            prev + 1 <= r,
                            r <= row || r == prev + 1,
                            span_models(self.row@) == Seq::<SpanModel>::empty(),
                            self.cur is None,
                            lines_models(self.lines@) == base + Seq::new(
                                (r - prev - 1) as nat,
                                |i: int| Seq::<SpanModel>::empty(),
                            ),
                        decreases row - r,
                    {
                        let ghost pre = self.lines@;
                        let blank: Vec<StyledSpan<CellColor, S>> = Vec::new();
                        assert(span_models(blank@) =~= Seq::<SpanModel>::empty());
                        self.lines.push(blank);
                        r = r + 1;
                        assert(lines_models(self.lines@) =~= lines_models(pre).push(
                            Seq::<SpanModel>::empty(),
                        ));
                        assert(lines_models(self.lines@) =~= base + Seq::new(
                            (r - prev - 1) as nat,
                            |i: int| Seq::<SpanModel>::empty(),
                        ));
                    }
                    assert(lines_models(self.lines@) =~= base + gap_rows(prev, row));
                    self.last_row = Some(row);
                }
            },
            None => {
                self.last_row = Some(row);
            },
        }
    }

    fn read(&mut self, c: &RenderCell, hover: Option<(i32, usize, usize)>, cols: usize)
        requires
            c.col < cols,
        ensures
            final(self).state() == rows_read(old(self).state(), *c, hover, cols),
    {
        let k = cell_key(c, hover);
        let end = if c.wide {
            if cols - c.col > 2 {
                c.col + 2
            } else {
                cols
            }
        } else {
            if cols - c.col > 1 {
                c.col + 1
            } else {
                cols
            }
        };
        assert(end == cell_end(*c, cols));
        let code = c.ch as u32;
        let fresh = Run {
            text: vec![c.ch],
            cols: vec![c.col],
            start: c.col,
            end,
            key: k,
            emoji: is_emoji_codepoint(code),
            nerd: is_nerd_codepoint(code),
        };
        assert(run_model(fresh).0 == new_run(*c, k, cols)) by {
            assert(fresh.text@ =~= seq![c.ch]);
            assert(fresh.cols@ =~= seq![c.col]);
        }
        match self.cur.take() {
            Some(mut r) => {
                if r.key == k {
                    let ghost m = run_model(r).0;
                    r.text.push(c.ch);
                    r.cols.push(c.col);
                    r.end = end;
                    assert(run_model(r).0 == extend_run(m, *c, cols));
                    self.cur = Some(r);
                } else {
                    let ghost before = span_models(self.row@);
                    let sp = run_span(r);
                    self.row.push(sp);
                    assert(span_models(self.row@) =~= before.push(span_model(sp)));
                    self.cur = Some(fresh);
                }
            },
            None => {
                self.cur = Some(fresh);
            },
        }
    }

    fn step(&mut self, c: &RenderCell, hover: Option<(i32, usize, usize)>, cols: usize)
        ensures
            final(self).state() == rows_step(old(self).state(), *c, hover, cols),
    {
        if c.col >= cols {
            return;
        }
        self.enter(c.row);
        if c.wide_spacer {
            return;
        }
        self.read(c, hover, cols);
    }
}

/// Reads a pane's visible cells (in grid order) into rows of styled spans,
/// `cols` columns wide, with the hovered link underlined.
pub fn row_lines<S>(cells: &Vec<RenderCell>, hover: Option<(i32, usize, usize)>, cols: usize) -> (r:
    Vec<Vec<StyledSpan<CellColor, S>>>)
    ensures
        lines_models(r@) == spec_row_lines(cells@, hover, cols),
{
    let mut b: RowsBuilder<S> = RowsBuilder {
        lines: Vec::new(),
        row: Vec::new(),
        cur: None,
        last_row: None,
    };
    proof {
        assert(lines_models(b.lines@) =~= Seq::<Seq<SpanModel>>::empty());
        assert(span_models(b.row@) =~= Seq::<SpanModel>::empty());
        assert(cells@.take(0) =~= Seq::<RenderCell>::empty());
    }
    let mut i: usize = 0;
    while i < cells.len()
        invariant
            i <= cells.len(),
            b.state() == rows_state(cells@.take(i as int), hover, cols),
        decreases cells.len() - i,
    {
        b.step(&cells[i], hover, cols);
        proof {
            assert(cells@.take(i + 1).drop_last() =~= cells@.take(i as int));
            assert(cells@.take(i + 1).last() == cells@[i as int]);
        }
        i = i + 1;
    }
    assert(cells@.take(i as int) =~= cells@);
    b.close_row();
    b.lines
}


/// The column each character of a span starts at (its recorded column, or
/// the span's first column when none is recorded).
pub open spec fn span_starts<C, S>(sp: StyledSpan<C, S>) -> Seq<usize> {
    Seq::new(
        sp.text@.len(),
        |i: int|
            if i < sp.char_cols@.len() {
                sp.char_cols@[i]
            } else {
                sp.start_col
            },
    )
}

/// The column each character of a span ends at (the next character's
/// column, or the span's end column).
pub open spec fn span_ends<C, S>(sp: StyledSpan<C, S>) -> Seq<usize> {
    Seq::new(
        sp.text@.len(),
        |i: int|
            if i + 1 < sp.char_cols@.len() {
                sp.char_cols@[i + 1]
            } else {
                sp.end_col
            },
    )
}

/// The text of a row, span after span.
pub open spec fn row_text<C, S>(row: Seq<StyledSpan<C, S>>) -> Seq<char>
    decreases row.len(),
{
    if row.len() == 0 {
        Seq::empty()
    } else {
        row_text(row.drop_last()) + row.last().text@
    }
}

pub open spec fn row_starts<C, S>(row: Seq<StyledSpan<C, S>>) -> Seq<usize>
    decreases row.len(),
{
    if row.len() == 0 {
        Seq::empty()
    } else {
        row_starts(row.drop_last()) + span_starts(row.last())
    }
}

pub open spec fn row_ends<C, S>(row: Seq<StyledSpan<C, S>>) -> Seq<usize>
    decreases row.len(),
{
    if row.len() == 0 {
        Seq::empty()
    } else {
        row_ends(row.drop_last()) + span_ends(row.last())
    }
}

/// The occurrences of `needle` in `hay` from `from` on, left to right and
/// without overlap, as (start, end) positions.
pub open spec fn matches_from(hay: Seq<char>, needle: Seq<char>, from: int) -> Seq<(int, int)>
    decreases hay.len() - from,
{
    if needle.len() == 0 || from < 0 || from + needle.len() > hay.len() {
        Seq::empty()
    } else if occurs_at(hay, needle, from) {
        seq![(from, from + needle.len())] + matches_from(hay, needle, from + needle.len())
    } else {
        matches_from(hay, needle, from + 1)
    }
}

/// Where a match (by character positions of the lowercased line) is
/// highlighted: from its first character's column over at least one
/// column, marked when its line is the active match's.
pub open spec fn match_highlight(
    m: (int, int),
    starts: Seq<usize>,
    ends: Seq<usize>,
    active: bool,
) -> Option<(usize, usize, bool)> {
    let (ms, me) = m;
    if ms < starts.len() && me > 0 {
        let cs = starts[ms];
        let last = if me - 1 < ends.len() - 1 {
            me - 1
        } else {
            ends.len() - 1
        };
        let ce = ends[last];
        let len = if ce > cs {
            (ce - cs) as usize
        } else {
            0usize
        };
        Some((
            cs,
            if len > 1 {
                len
            } else {
                1usize
            },
            active,
        ))
    } else {
        None
    }
}

pub open spec fn match_highlights(
    ms: Seq<(int, int)>,
    starts: Seq<usize>,
    ends: Seq<usize>,
    active: bool,
) -> Seq<(usize, usize, bool)>
    decreases ms.len(),
{
    if ms.len() == 0 {
        Seq::empty()
    } else {
        (match match_highlight(ms[0], starts, ends, active) {
            Some(h) => seq![h],
            None => Seq::empty(),
        }) + match_highlights(ms.drop_first(), starts, ends, active)
    }
}

/// Whether row `row_idx` of `num_lines` holds the active match: its
/// history offset is the one the search bar selected.
pub open spec fn row_is_active(
    active_offset: Option<usize>,
    display_offset: usize,
    num_lines: usize,
    row_idx: int,
) -> bool {
    active_offset == Some(
        (display_offset + (if num_lines >= 1 + row_idx {
            num_lines - (1 + row_idx)
        } else {
            0
        })) as usize,
    )
}

/// The search highlights of one row for the lowercased query.
pub open spec fn row_highlights<C, S>(
    row: Seq<StyledSpan<C, S>>,
    query_lower: Seq<char>,
    active: bool,
) -> Seq<(usize, usize, bool)> {
    match_highlights(
        matches_from(lowercase(row_text(row)), query_lower, 0),
        row_starts(row),
        row_ends(row),
        active,
    )
}

/// The search highlights of each row: the matches of the lowercased query
/// in the lowercased row when the search bar is open on this pane with a
/// query, none otherwise.
pub open spec fn spec_search_highlights<C, S>(
    rows: Seq<Vec<StyledSpan<C, S>>>,
    query: Seq<char>,
    searching: bool,
    active_offset: Option<usize>,
    display_offset: usize,
) -> Seq<Seq<(usize, usize, bool)>> {
    Seq::new(
        rows.len(),
        |i: int|
            if searching && query.len() > 0 && lowercase(query).len() > 0 {
                row_highlights(
                    rows[i]@,
                    lowercase(query),
                    row_is_active(active_offset, display_offset, rows.len() as usize, i),
                )
            } else {
                Seq::empty()
            },
    )
}

/// A row's text with each character's start and end column.
fn row_columns<C, S>(row: &Vec<StyledSpan<C, S>>) -> (r: (Vec<char>, Vec<usize>, Vec<usize>))
    ensures
        r.0@ == row_text(row@),
        r.1@ == row_starts(row@),
        r.2@ == row_ends(row@),
{
    let mut text: Vec<char> = Vec::new();
    let mut starts: Vec<usize> = Vec::new();
    let mut ends: Vec<usize> = Vec::new();
    let mut j: usize = 0;
    while j < row.len()
        invariant
            j <= row.len(),
            text@ == row_text(row@.take(j as int)),
            starts@ == row_starts(row@.take(j as int)),
            ends@ == row_ends(row@.take(j as int)),
        decreases row.len() - j,
    {
        let sp = &row[j];
        let cs = str_chars(sp.text.as_str());
        let ghost t0 = text@;
        let ghost s0 = starts@;
        let ghost e0 = ends@;
        let mut i: usize = 0;
        while i < cs.len()
            invariant
                i <= cs.len(),
                cs@ == sp.text@,
                text@ == t0 + cs@.take(i as int),
                starts@ == s0 + span_starts(*sp).take(i as int),
                ends@ == e0 + span_ends(*sp).take(i as int),
            decreases cs.len() - i,
        {
            text.push(cs[i]);
            let st = if i < sp.char_cols.len() {
                sp.char_cols[i]
            } else {
                sp.start_col
            };
            starts.push(st);
            let en = if i + 1 < sp.char_cols.len() {
                sp.char_cols[i + 1]
            } else {
                sp.end_col
            };
            ends.push(en);
            i = i + 1;
            proof {
                assert(text@ =~= t0 + cs@.take(i as int));
                assert(starts@ =~= s0 + span_starts(*sp).take(i as int));
                assert(ends@ =~= e0 + span_ends(*sp).take(i as int));
            }
        }
        proof {
            assert(cs@.take(i as int) =~= sp.text@);
            assert(span_starts(*sp).take(i as int) =~= span_starts(*sp));
            assert(span_ends(*sp).take(i as int) =~= span_ends(*sp));
            assert(row@.take(j + 1).drop_last() =~= row@.take(j as int));
            assert(row@.take(j + 1).last() == *sp);
        }
        j = j + 1;
    }
    assert(row@.take(j as int) =~= row@);
    (text, starts, ends)
}

/// The highlight of a match (see `match_highlight`).
fn highlight_of(ms: usize, me: usize, starts: &Vec<usize>, ends: &Vec<usize>, active: bool) -> (r:
    Option<(usize, usize, bool)>)
    requires
        starts.len() == ends.len(),
    ensures
        r == match_highlight((ms as int, me as int), starts@, ends@, active),
{
    if ms < starts.len() && me > 0 {
        let cs = starts[ms];
        let last = if me - 1 < ends.len() - 1 {
            me - 1
        } else {
            ends.len() - 1
        };
        let ce = ends[last];
        let len = if ce > cs {
            ce - cs
        } else {
            0
        };
        Some((
            cs,
            if len > 1 {
                len
            } else {
                1
            },
            active,
        ))
    } else {
        None
    }
}

/// The highlights of one row for a non-empty lowercased query.
fn highlights_of_row<C, S>(row: &Vec<StyledSpan<C, S>>, query_lower: &Vec<char>, active: bool) -> (r:
    Vec<(usize, usize, bool)>)
    ensures
        r@ == row_highlights(row@, query_lower@, active),
{
    let (text, starts, ends) = row_columns(row);
    let lowered = to_lowercase(string_from_chars(text.as_slice()).as_str());
    let hay = str_chars(lowered.as_str());
    let n = query_lower.len();
    let ghost total = row_highlights(row@, query_lower@, active);
    assert(starts@.len() == ends@.len()) by {
        lemma_row_columns_len(row@);
    }
    let mut out: Vec<(usize, usize, bool)> = Vec::new();
    if n == 0 {
        return out;
    }
    let mut k: usize = 0;
    while k <= hay.len() && n <= hay.len() - k
        invariant
            n == query_lower.len(),
            n > 0,
            hay@ == lowercase(row_text(row@)),
            starts@ == row_starts(row@),
            ends@ == row_ends(row@),
            starts@.len() == ends@.len(),
            total == row_highlights(row@, query_lower@, active),
            total == out@ + match_highlights(
                matches_from(hay@, query_lower@, k as int),
                starts@,
                ends@,
                active,
            ),
        decreases hay.len() - k,
    {
        if matches_at(&hay, query_lower, k) {
            let ghost rest = matches_from(hay@, query_lower@, (k + n) as int);
            let ghost ms = matches_from(hay@, query_lower@, k as int);
            assert(ms == seq![(k as int, (k + n) as int)] + rest);
            assert(ms.drop_first() =~= rest);
            let h = highlight_of(k, k + n, &starts, &ends, active);
            match h {
                Some(x) => {
                    out.push(x);
                },
                None => {},
            }
            proof {
                assert(out@ + match_highlights(rest, starts@, ends@, active) =~= total);
            }
            k = k + n;
        } else {
            k = k + 1;
        }
    }
    assert(match_highlights(matches_from(hay@, query_lower@, k as int), starts@, ends@, active)
        =~= Seq::<(usize, usize, bool)>::empty());
    assert(out@ =~= total);
    out
}

proof fn lemma_row_columns_len<C, S>(row: Seq<StyledSpan<C, S>>)
    ensures
        row_starts(row).len() == row_ends(row).len(),
        row_starts(row).len() == row_text(row).len(),
    decreases row.len(),
{
    if row.len() > 0 {
        lemma_row_columns_len(row.drop_last());
    }
}

/// The search highlights the pane draws on each row (see
/// `spec_search_highlights`); `searching` is whether the search bar is open
/// on this pane.
pub fn search_highlights<C, S>(
    rows: &Vec<Vec<StyledSpan<C, S>>>,
    query: &str,
    searching: bool,
    active_offset: Option<usize>,
    display_offset: usize,
) -> (r: Vec<Vec<(usize, usize, bool)>>)
    requires
        display_offset + rows.len() <= usize::MAX,
    ensures
        r@.len() == rows@.len(),
        forall|i: int|
            0 <= i < r@.len() ==> #[trigger] r@[i]@ == spec_search_highlights(
                rows@,
                query@,
                searching,
                active_offset,
                display_offset,
            )[i],
{
    let q = to_lowercase(query);
    let qc = str_chars(q.as_str());
    let on = searching && query.unicode_len() > 0 && qc.len() > 0;
    let num = rows.len();
    let mut out: Vec<Vec<(usize, usize, bool)>> = Vec::new();
    let mut i: usize = 0;
    while i < num
        invariant
            i <= num,
            num == rows.len(),
            display_offset + num <= usize::MAX,
            qc@ == lowercase(query@),
            on == (searching && query@.len() > 0 && lowercase(query@).len() > 0),
            out@.len() == i,
            forall|j: int|
                0 <= j < i ==> #[trigger] out@[j]@ == spec_search_highlights(
                    rows@,
                    query@,
                    searching,
                    active_offset,
                    display_offset,
                )[j],
        decreases num - i,
    {
        if on {
            let back = if num >= 1 + i {
                num - (1 + i)
            } else {
                0
            };
            let active = match active_offset {
                Some(off) => off == display_offset + back,
                None => false,
            };
            let h = highlights_of_row(&rows[i], &qc, active);
            out.push(h);
        } else {
            out.push(Vec::new());
        }
        proof {
            assert forall|j: int| 0 <= j < i + 1 implies #[trigger] out@[j]@
                == spec_search_highlights(
                rows@,
                query@,
                searching,
                active_offset,
                display_offset,
            )[j] by {
                if j == i {
                    if !on {
                        assert(out@[j]@ =~= Seq::<(usize, usize, bool)>::empty());
                    }
                }
            }
        }
        i = i + 1;
    }
    out
}


/// An image placed in the terminal: its first line counted over all lines
/// ever pushed, and its height in rows.
#[derive(Clone, Copy, Debug)]
pub struct ImagePlacement {
    pub absolute_line: u64,
    pub rows: u64,
}

/// A placed image that shows in the viewport: which placement, and its
/// first row relative to the viewport's top (negative when it starts above).
#[derive(Clone, Copy, Debug, PartialEq, Eq)]
pub struct VisibleImage {
    pub index: usize,
    pub row: i64,
}

/// The first absolute line the viewport shows: `screen_rows` rows ending
/// `display_offset` lines above the bottom of everything pushed.
pub open spec fn viewport_start(total_pushed: u64, screen_rows: usize, display_offset: usize) -> int {
    let a = total_pushed + screen_rows;
    let b = display_offset + screen_rows;
    if a > b {
        a - b
    } else {
        0
    }
}

/// The placements that overlap the viewport lines `[start, start + rows)`,
/// in order.
pub open spec fn visible_from(ps: Seq<ImagePlacement>, start: int, rows: int) -> Seq<VisibleImage>
    decreases ps.len(),
{
    if ps.len() == 0 {
        Seq::empty()
    } else {
        let p = ps.last();
        visible_from(ps.drop_last(), start, rows) + if p.absolute_line + p.rows > start
            && p.absolute_line < start + rows {
            seq![VisibleImage { index: (ps.len() - 1) as usize, row: (p.absolute_line - start) as i64 }]
        } else {
            Seq::empty()
        }
    }
}

/// The images to draw over a pane's viewport.
pub fn visible_images(
    placements: &Vec<ImagePlacement>,
    total_pushed: u64,
    screen_rows: usize,
    display_offset: usize,
) -> (r: Vec<VisibleImage>)
    requires
        total_pushed + screen_rows <= i64::MAX,
        display_offset + screen_rows <= u64::MAX,
        forall|i: int|
            0 <= i < placements@.len() ==> #[trigger] placements@[i].absolute_line
                + placements@[i].rows <= i64::MAX,
    ensures
        r@ == visible_from(
            placements@,
            viewport_start(total_pushed, screen_rows, display_offset),
            screen_rows as int,
        ),
{
    let a: u64 = total_pushed + screen_rows as u64;
    let b: u64 = display_offset as u64 + screen_rows as u64;
    let start: u64 = if a > b {
        a - b
    } else {
        0
    };
    let end: u64 = start + screen_rows as u64;
    let ghost vs = viewport_start(total_pushed, screen_rows, display_offset);
    assert(start == vs);
    let mut out: Vec<VisibleImage> = Vec::new();
    let mut i: usize = 0;
    while i < placements.len()
        invariant
            i <= placements.len(),
            start == vs,
            vs <= i64::MAX,
            end == start + screen_rows,
            forall|k: int|
                0 <= k < placements@.len() ==> #[trigger] placements@[k].absolute_line
                    + placements@[k].rows <= i64::MAX,
            out@ == visible_from(placements@.take(i as int), vs, screen_rows as int),
        decreases placements.len() - i,
    {
        let p = placements[i];
        assert(placements@[i as int] == p);
        let p_end = p.absolute_line + p.rows;
        if p_end > start && p.absolute_line < end {
            out.push(VisibleImage { index: i, row: p.absolute_line as i64 - start as i64 });
        }
        proof {
            assert(placements@.take(i + 1).drop_last() =~= placements@.take(i as int));
            assert(placements@.take(i + 1).last() == p);
            assert(out@ =~= visible_from(placements@.take(i + 1), vs, screen_rows as int));
        }
        i = i + 1;
    }
    assert(placements@.take(i as int) =~= placements@);
    out
}

} // verus!
