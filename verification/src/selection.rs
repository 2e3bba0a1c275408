use vstd::prelude::*;

use crate::text::{all_whitespace, char_is_whitespace, is_whitespace, string_from_chars};

verus! {

/// A cell position of the terminal grid: negative lines are in the
/// scrollback history, `0..screen_lines` on screen.
#[derive(Clone, Copy, Debug, PartialEq, Eq, Structural)]
pub struct GridPoint {
    pub line: i32,
    pub column: usize,
}

/// A text selection between two grid points, in either order.
#[derive(Clone, Copy, Debug, PartialEq, Eq, Structural)]
pub struct Selection {
    pub start: GridPoint,
    pub end: GridPoint,
}

/// A point comes before another one: by line, then by column.
pub open spec fn point_le(a: GridPoint, b: GridPoint) -> bool {
    a.line < b.line || (a.line == b.line && a.column <= b.column)
}

/// The characters of a terminal grid: `history_size` lines of scrollback
/// (lines `-history_size..0`) then `screen_lines` lines on screen; row `k`
/// holds line `k - history_size`.
#[derive(Debug)]
pub struct GridSnapshot {
    pub history_size: usize,
    pub screen_lines: usize,
    pub rows: Vec<Vec<char>>,
}

impl GridSnapshot {
    /// One row per line of history and screen.
    pub open spec fn wf(&self) -> bool {
        self.rows.len() == self.history_size + self.screen_lines
    }

    /// A line that the grid holds.
    pub open spec fn has_line(&self, line: int) -> bool {
        -(self.history_size as int) <= line < self.screen_lines
    }

    /// The characters of a line the grid holds.
    pub open spec fn line_chars(&self, line: int) -> Seq<char> {
        self.rows@[line + self.history_size]@
    }
}

/// The characters of `s` other than NUL (empty cells).
pub open spec fn without_nul(s: Seq<char>) -> Seq<char> {
    s.filter(|c: char| c != '\0')
}

/// The selected part of one line: from the start column on the first line
/// (else column 0) to the end column on the last line (else the line's
/// end), within the line, without empty cells.
pub open spec fn line_part(row: Seq<char>, lo: GridPoint, hi: GridPoint, line: int) -> Seq<char> {
    let last: int = if row.len() == 0 {
        0
    } else {
        row.len() - 1
    };
    let start: int = if line == lo.line {
        lo.column as int
    } else {
        0
    };
    let end: int = if line == hi.line {
        if (hi.column as int) < last {
            hi.column as int
        } else {
            last
        }
    } else {
        last
    };
    if start <= end && start < row.len() {
        without_nul(row.subrange(start, end + 1))
    } else {
        Seq::empty()
    }
}

/// The selected text from `line` to the last line: each held line's part,
/// a newline after every held line but the last.
pub open spec fn selected_from(g: GridSnapshot, lo: GridPoint, hi: GridPoint, line: int) -> Seq<
    char,
>
    decreases hi.line - line + 1,
{
    if line > hi.line {
        Seq::empty()
    } else {
        let here = if g.has_line(line) {
            line_part(g.line_chars(line), lo, hi, line) + if line < hi.line {
                seq!['\n']
            } else {
                Seq::empty()
            }
        } else {
            Seq::empty()
        };
        here + selected_from(g, lo, hi, line + 1)
    }
}

/// The text of a selection, ordered from its earlier to its later point;
/// `None` when it is empty or only whitespace.
pub open spec fn spec_selected_text(g: GridSnapshot, sel: Selection) -> Option<Seq<char>> {
    let (lo, hi) = if point_le(sel.start, sel.end) {
        (sel.start, sel.end)
    } else {
        (sel.end, sel.start)
    };
    let t = selected_from(g, lo, hi, lo.line as int);
    if all_whitespace(t) {
        None
    } else {
        Some(t)
    }
}

fn push_line_part(out: &mut Vec<char>, row: &Vec<char>, lo: GridPoint, hi: GridPoint, line: i64)
    ensures
        final(out)@ == old(out)@ + line_part(row@, lo, hi, line as int),
{
    let last: usize = if row.len() == 0 {
        0
    } else {
        row.len() - 1
    };
    let start: usize = if line == lo.line as i64 {
        lo.column
    } else {
        0
    };
    let end: usize = if line == hi.line as i64 {
        if hi.column < last {
            hi.column
        } else {
            last
        }
    } else {
        last
    };
    if start <= end && start < row.len() {
        let ghost sub = row@.subrange(start as int, end + 1);
        let ghost pred = |c: char| c != '\0';
        let ghost base = out@;
        let mut k: usize = start;
        proof {
            reveal(Seq::filter);
            assert(sub.take(0) =~= Seq::<char>::empty());
            assert(sub.take(0).filter(pred) =~= Seq::<char>::empty());
        }
        while k <= end
            invariant
                start <= k <= end + 1,
                end < row.len(),
                sub == row@.subrange(start as int, end + 1),
                pred == (|c: char| c != '\0'),
                out@ == base + sub.take(k - start).filter(pred),
            decreases end + 1 - k,
        {
            proof {
                reveal(Seq::filter);
                let j = k - start;
                assert(sub.take(j + 1).drop_last() =~= sub.take(j));
                assert(sub.take(j + 1).last() == row@[k as int]);
            }
            let c = row[k];
            if c != '\0' {
                out.push(c);
            }
            proof {
                assert(out@ =~= base + sub.take(k + 1 - start).filter(pred));
            }
            k = k + 1;
        }
        assert(sub.take(end + 1 - start) =~= sub);
    }
}

/// The text of a selection over a grid, in reading order, with newlines
/// between lines; `None` when the selection holds only whitespace.
pub fn get_selected_text(grid: &GridSnapshot, sel: Selection) -> (r: Option<String>)
    requires
        grid.wf(),
    ensures
        r matches Some(t) ==> spec_selected_text(*grid, sel) == Some(t@),
        r is None ==> spec_selected_text(*grid, sel) is None,
{
    let le = sel.start.line < sel.end.line || (sel.start.line == sel.end.line && sel.start.column
        <= sel.end.column);
    let (lo, hi) = if le {
        (sel.start, sel.end)
    } else {
        (sel.end, sel.start)
    };
    let mut out: Vec<char> = Vec::new();
    let mut line: i64 = lo.line as i64;
    let hi_line: i64 = hi.line as i64;
    while line <= hi_line
        invariant
            grid.wf(),
            lo.line <= hi.line,
            hi_line == hi.line as i64,
            lo.line <= line <= hi_line + 1,
            out@ + selected_from(*grid, lo, hi, line as int) == selected_from(
                *grid,
                lo,
                hi,
                lo.line as int,
            ),
        decreases hi_line + 1 - line,
    {
        let ghost before = out@;
        let in_range = (line >= 0 && (line as usize) < grid.screen_lines) || (line < 0 && ((-line)
            as usize) <= grid.history_size);
        proof {
            assert(in_range == grid.has_line(line as int));
        }
        if in_range {
            let idx: usize = if line >= 0 {
                grid.history_size + line as usize
            } else {
                grid.history_size - ((-line) as usize)
            };
            assert(idx == line + grid.history_size);
            push_line_part(&mut out, &grid.rows[idx], lo, hi, line);
            if line < hi_line {
                out.push('\n');
            }
            proof {
                assert(out@ =~= before + (line_part(grid.line_chars(line as int), lo, hi, line as int)
                    + if line < hi.line {
                    seq!['\n']
                } else {
                    Seq::empty()
                }));
            }
        }
        assert(out@ + selected_from(*grid, lo, hi, line + 1) =~= before + selected_from(
            *grid,
            lo,
            hi,
            line as int,
        ));
        line = line + 1;
    }
    let mut all_ws = true;
    let mut k: usize = 0;
    while k < out.len()
        invariant
            k <= out.len(),
            all_ws == (forall|j: int| 0 <= j < k ==> is_whitespace(#[trigger] out@[j])),
        decreases out.len() - k,
    {
        if !char_is_whitespace(out[k]) {
            all_ws = false;
        }
        k = k + 1;
    }
    if all_ws {
        None
    } else {
        Some(string_from_chars(out.as_slice()))
    }
}

/// The selected text does not depend on the direction of the drag: a
/// selection from `a` to `b` copies what one from `b` to `a` copies.
pub proof fn lemma_selection_direction_free(g: GridSnapshot, a: GridPoint, b: GridPoint)
    ensures
        spec_selected_text(g, Selection { start: a, end: b }) == spec_selected_text(
            g,
            Selection { start: b, end: a },
        ),
{
    if point_le(a, b) && point_le(b, a) {
        assert(a == b);
    }
}

/// A selection within one line of the grid copies the cells between its two
/// columns (both included, in either order, cut at the line's end) without
/// the empty ones; `None` when that is only whitespace.
pub proof fn lemma_one_line_selection(g: GridSnapshot, a: GridPoint, b: GridPoint)
    requires
        a.line == b.line,
        g.has_line(a.line as int),
    ensures
        ({
            let row = g.line_chars(a.line as int);
            let first: int = if a.column <= b.column {
                a.column as int
            } else {
                b.column as int
            };
            let last: int = if a.column <= b.column {
                b.column as int
            } else {
                a.column as int
            };
            let t = if first < row.len() {
                without_nul(row.subrange(first, if last < row.len() { last + 1 } else { row.len() as int }))
            } else {
                Seq::empty()
            };
            spec_selected_text(g, Selection { start: a, end: b }) == if all_whitespace(t) {
                None
            } else {
                Some(t)
            }
        }),
{
    let lo = if point_le(a, b) {
        a
    } else {
        b
    };
    let hi = if point_le(a, b) {
        b
    } else {
        a
    };
    let line = a.line as int;
    assert(selected_from(g, lo, hi, line + 1) == Seq::<char>::empty());
    assert(selected_from(g, lo, hi, line) =~= line_part(g.line_chars(line), lo, hi, line));
}

} // verus!
