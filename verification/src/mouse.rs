use vstd::prelude::*;
use vstd::string::StringExecFns;

use crate::selection::{point_le, GridPoint, Selection};
use crate::view::{RootView, Workspace};

verus! {

/// `x` held within `lo..=hi`.
pub open spec fn clamp_int(x: int, lo: int, hi: int) -> int {
    if x < lo {
        lo
    } else if x > hi {
        hi
    } else {
        x
    }
}

/// The grid line shown at `row` of a pane scrolled back by `display_offset`
/// lines, held between the oldest history line and the last screen line.
pub open spec fn spec_grid_line(
    row: int,
    display_offset: int,
    history_size: int,
    screen_rows: int,
) -> int {
    clamp_int(row - display_offset, -history_size, screen_rows - 1)
}

/// The grid cell under pane row `row` and column `column`: the line shifted
/// by the scrollback offset and held on the grid, the column held on screen.
pub fn grid_point_at(
    row: i32,
    column: usize,
    display_offset: usize,
    history_size: usize,
    screen_rows: i32,
    screen_cols: usize,
) -> (p: GridPoint)
    requires
        0 <= row,
        display_offset <= i32::MAX,
        history_size <= i32::MAX,
        screen_rows >= 1,
        screen_cols >= 1,
    ensures
        p.line == spec_grid_line(
            row as int,
            display_offset as int,
            history_size as int,
            screen_rows as int,
        ),
        p.column == (if column < screen_cols {
            column as int
        } else {
            screen_cols - 1
        }),
{
    let shifted: i32 = row - (display_offset as i32);
    let lo: i32 = -(history_size as i32);
    let hi: i32 = screen_rows - 1;
    let line: i32 = if shifted < lo {
        lo
    } else if shifted > hi {
        hi
    } else {
        shifted
    };
    let col: usize = if column < screen_cols {
        column
    } else {
        screen_cols - 1
    };
    GridPoint { line, column: col }
}

/// Where the pointer is, vertically, while a selection is dragged.
#[derive(Clone, Copy, Debug, PartialEq, Eq, Structural)]
pub enum DragRow {
    AboveTop,
    BelowBottom,
    /// Over the pane, at this row.
    Inside(i32),
}

/// The pane row a drag position stands for: the top row above the pane,
/// the last screen row below it.
pub open spec fn drag_row(pos: DragRow, screen_rows: int) -> int {
    match pos {
        DragRow::AboveTop => 0,
        DragRow::BelowBottom => screen_rows - 1,
        DragRow::Inside(r) => r as int,
    }
}

/// The grid cell a selection is dragged to. Above the pane the line is the
/// top visible one, below it the last screen line; above the pane and at
/// its left edge the column is 0 (the whole top line is taken).
pub fn drag_point(
    pos: DragRow,
    at_left_edge: bool,
    column: usize,
    display_offset: usize,
    history_size: usize,
    screen_rows: i32,
    screen_cols: usize,
) -> (p: GridPoint)
    requires
        pos matches DragRow::Inside(r) ==> r >= 0,
        display_offset <= i32::MAX,
        history_size <= i32::MAX,
        screen_rows >= 1,
        screen_cols >= 1,
    ensures
        p.line == spec_grid_line(
            drag_row(pos, screen_rows as int),
            display_offset as int,
            history_size as int,
            screen_rows as int,
        ),
        p.column == (if pos == DragRow::AboveTop && at_left_edge {
            0
        } else if column < screen_cols {
            column as int
        } else {
            screen_cols - 1
        }),
{
    let row: i32 = match pos {
        DragRow::AboveTop => 0,
        DragRow::BelowBottom => screen_rows - 1,
        DragRow::Inside(r) => r,
    };
    let p = grid_point_at(row, column, display_offset, history_size, screen_rows, screen_cols);
    let above = match pos {
        DragRow::AboveTop => true,
        _ => false,
    };
    if above && at_left_edge {
        GridPoint { line: p.line, column: 0 }
    } else {
        p
    }
}

/// A pointer button.
#[derive(Clone, Copy, Debug, PartialEq, Eq, Structural)]
pub enum PointerButton {
    Left,
    Middle,
    Right,
    Other,
}

/// The button number reported to a terminal program for a press in mouse
/// mode: the middle button is 1, any other 0.
pub fn press_report_code(button: PointerButton) -> (c: u8)
    ensures
        c == (if button == PointerButton::Middle {
            1u8
        } else {
            0u8
        }),
{
    match button {
        PointerButton::Middle => 1,
        _ => 0,
    }
}

/// The button number reported for a release in mouse mode: left 0,
/// middle 1, right 2, any other 0.
pub fn release_report_code(button: PointerButton) -> (c: u8)
    ensures
        c == (match button {
            PointerButton::Middle => 1u8,
            PointerButton::Right => 2u8,
            _ => 0u8,
        }),
{
    match button {
        PointerButton::Left => 0,
        PointerButton::Middle => 1,
        PointerButton::Right => 2,
        PointerButton::Other => 0,
    }
}

/// The button number reported for a wheel step in mouse mode: 64 up,
/// 65 down.
pub fn wheel_report_code(up: bool) -> (c: u8)
    ensures
        c == (if up {
            64u8
        } else {
            65u8
        }),
{
    if up {
        64
    } else {
        65
    }
}

/// The word under a click, as the grid classifier found it.
#[derive(Clone, Copy, Debug, PartialEq, Eq, Structural)]
pub enum TokenAt {
    /// The grid could not be read (it was locked).
    Unreadable,
    Missing,
    /// The word spans columns `start..end`.
    Found(usize, usize),
}

/// A press on a pane's grid, with what the view knew at that moment.
#[derive(Clone, Copy, Debug)]
pub struct GridClick {
    pub button: PointerButton,
    pub click_count: usize,
    /// The program in the pane asked for mouse reports.
    pub mouse_mode: bool,
    /// The link modifier (Cmd on macOS, Ctrl elsewhere) was held.
    pub link_modifier: bool,
    /// A link is under the pointer.
    pub over_link: bool,
    /// The press is below the pane's last row.
    pub below_pane: bool,
    /// The grid cell under the press.
    pub point: GridPoint,
    pub screen_cols: usize,
    pub token: TokenAt,
}

/// What a press on the grid asks of the view.
#[derive(Clone, Copy, Debug, PartialEq, Eq, Structural)]
pub enum ClickAction {
    /// Send the press to the program with this button number.
    Report(u8),
    OpenLink,
    /// Open the pane's context menu at the pointer.
    ContextMenu,
    StartSelection,
    Nothing,
}

/// The action of a press: mouse-mode programs get single presses of any
/// button but the right one; otherwise a left press opens a link under the
/// link modifier, a double or triple left press or a right press opens the
/// context menu, a single left press on the grid starts a selection.
pub open spec fn spec_click_action(c: GridClick) -> ClickAction {
    if c.mouse_mode && c.button != PointerButton::Right && c.click_count < 2 {
        ClickAction::Report(
            if c.button == PointerButton::Middle {
                1u8
            } else {
                0u8
            },
        )
    } else if c.button == PointerButton::Left {
        if c.link_modifier && c.over_link {
            ClickAction::OpenLink
        } else if c.below_pane {
            ClickAction::Nothing
        } else if c.click_count >= 2 {
            ClickAction::ContextMenu
        } else {
            ClickAction::StartSelection
        }
    } else if c.button == PointerButton::Right {
        ClickAction::ContextMenu
    } else {
        ClickAction::Nothing
    }
}

/// The selection of the word at columns `start..end` of `line`.
pub open spec fn token_selection(line: i32, start: usize, end: usize) -> Selection {
    Selection {
        start: GridPoint { line, column: start },
        end: GridPoint {
            line,
            column: if end == 0 {
                0
            } else {
                (end - 1) as usize
            },
        },
    }
}

/// The selection after a press: a double left press selects the word under
/// it (none without a word; unchanged when the grid cannot be read), a
/// triple one the whole line, a single one drops it; a right press selects
/// the word under it only when nothing is selected.
pub open spec fn clicked_selection(old_sel: Option<Selection>, c: GridClick) -> Option<Selection> {
    match spec_click_action(c) {
        ClickAction::StartSelection => None,
        ClickAction::ContextMenu => {
            if c.button == PointerButton::Left && c.click_count >= 3 {
                Some(
                    Selection {
                        start: GridPoint { line: c.point.line, column: 0 },
                        end: GridPoint {
                            line: c.point.line,
                            column: if c.screen_cols == 0 {
                                0
                            } else {
                                (c.screen_cols - 1) as usize
                            },
                        },
                    },
                )
            } else if c.button == PointerButton::Left || old_sel is None {
                match c.token {
                    TokenAt::Unreadable => old_sel,
                    TokenAt::Missing => None,
                    TokenAt::Found(s, e) => Some(token_selection(c.point.line, s, e)),
                }
            } else {
                old_sel
            }
        },
        _ => old_sel,
    }
}

fn word_selection(line: i32, start: usize, end: usize) -> (s: Selection)
    ensures
        s == token_selection(line, start, end),
{
    let last: usize = if end == 0 {
        0
    } else {
        end - 1
    };
    Selection { start: GridPoint { line, column: start }, end: GridPoint { line, column: last } }
}

/// What a pointer move does to a selection being made.
#[derive(Clone, Copy, Debug, PartialEq, Eq, Structural)]
pub enum DragStep {
    NotSelecting,
    /// The button was let go: the selection is finished.
    Ended,
    /// The drag goes on: the selection end follows the pointer.
    Continues,
}

impl Workspace {
    /// The fields a pointer event on the grid leaves alone.
    pub open spec fn same_but_selection(&self, other: &Workspace) -> bool {
        &&& self.tabs@ == other.tabs@
        &&& self.active_tab_idx == other.active_tab_idx
        &&& self.next_tab_id == other.next_tab_id
        &&& self.next_pane_id == other.next_pane_id
        &&& self.exec_pane_id == other.exec_pane_id
        &&& self.pending_close == other.pending_close
        &&& self.is_rename_tab_open == other.is_rename_tab_open
        &&& self.rename_tab_idx == other.rename_tab_idx
        &&& self.rename_tab_input@ == other.rename_tab_input@
    }

    /// A press on the grid (see `spec_click_action`, `clicked_selection`):
    /// the context menu ends any selection drag, a single left press starts
    /// one at the pressed cell, anything else leaves the drag as it was.
    pub fn press_on_grid(&mut self, click: &GridClick) -> (r: ClickAction)
        requires
            old(self).wf(),
        ensures
            final(self).wf(),
            r == spec_click_action(*click),
            final(self).selection == clicked_selection(old(self).selection, *click),
            r == ClickAction::ContextMenu ==> !final(self).is_selecting
                && !final(self).has_selection_dragged && final(self).selection_start is None,
            r == ClickAction::StartSelection ==> final(self).is_selecting
                && !final(self).has_selection_dragged && final(self).selection_start == Some(
                click.point,
            ),
            r != ClickAction::ContextMenu && r != ClickAction::StartSelection ==> final(self).is_selecting == old(self).is_selecting && final(self).has_selection_dragged == old(self).has_selection_dragged && final(self).selection_start == old(self).selection_start,
            final(self).same_but_selection(&*old(self)),
    {
        let is_left = match click.button {
            PointerButton::Left => true,
            _ => false,
        };
        let is_right = match click.button {
            PointerButton::Right => true,
            _ => false,
        };
        if click.mouse_mode && !is_right && click.click_count < 2 {
            return ClickAction::Report(press_report_code(click.button));
        }
        if is_left {
            if click.link_modifier && click.over_link {
                return ClickAction::OpenLink;
            }
            if click.below_pane {
                return ClickAction::Nothing;
            }
            if click.click_count == 2 {
                match click.token {
                    TokenAt::Unreadable => {},
                    TokenAt::Missing => {
                        self.selection = None;
                    },
                    TokenAt::Found(s, e) => {
                        self.selection = Some(word_selection(click.point.line, s, e));
                    },
                }
            } else if click.click_count >= 3 {
                let last: usize = if click.screen_cols == 0 {
                    0
                } else {
                    click.screen_cols - 1
                };
                self.selection = Some(
                    Selection {
                        start: GridPoint { line: click.point.line, column: 0 },
                        end: GridPoint { line: click.point.line, column: last },
                    },
                );
            } else {
                self.is_selecting = true;
                self.has_selection_dragged = false;
                self.selection_start = Some(click.point);
                self.selection = None;
                return ClickAction::StartSelection;
            }
            self.is_selecting = false;
            self.has_selection_dragged = false;
            self.selection_start = None;
            ClickAction::ContextMenu
        } else if is_right {
            if self.selection.is_none() {
                match click.token {
                    TokenAt::Found(s, e) => {
                        self.selection = Some(word_selection(click.point.line, s, e));
                    },
                    _ => {},
                }
            }
            self.is_selecting = false;
            self.has_selection_dragged = false;
            self.selection_start = None;
            ClickAction::ContextMenu
        } else {
            ClickAction::Nothing
        }
    }

    /// A pointer move while a selection may be made: with the left button
    /// let go the selection is finished (no longer being made), else the
    /// drag goes on and counts as moved.
    pub fn pointer_moved(&mut self, left_held: bool) -> (r: DragStep)
        requires
            old(self).wf(),
        ensures
            final(self).wf(),
            !old(self).is_selecting ==> r == DragStep::NotSelecting && final(self).is_selecting
                == old(self).is_selecting && final(self).has_selection_dragged == old(self).has_selection_dragged,
            old(self).is_selecting && !left_held ==> r == DragStep::Ended && !final(self).is_selecting && !final(self).has_selection_dragged,
            old(self).is_selecting && left_held ==> r == DragStep::Continues && final(self).is_selecting && final(self).has_selection_dragged,
            final(self).selection == old(self).selection,
            final(self).selection_start == old(self).selection_start,
            final(self).same_but_selection(&*old(self)),
    {
        if !self.is_selecting {
            return DragStep::NotSelecting;
        }
        if !left_held {
            self.is_selecting = false;
            self.has_selection_dragged = false;
            DragStep::Ended
        } else {
            self.has_selection_dragged = true;
            DragStep::Continues
        }
    }

    /// Moves the end of a dragged selection to `point`: back on the start
    /// cell the selection is dropped, elsewhere it spans the start and
    /// `point` in reading order. Only while a selection is being dragged.
    /// Returns whether the selection changed.
    pub fn drag_selection_to(&mut self, point: GridPoint) -> (r: bool)
        requires
            old(self).wf(),
        ensures
            final(self).wf(),
            final(self).is_selecting == old(self).is_selecting,
            final(self).has_selection_dragged == old(self).has_selection_dragged,
            final(self).selection_start == old(self).selection_start,
            final(self).same_but_selection(&*old(self)),
            !(old(self).is_selecting && old(self).has_selection_dragged) ==> !r && final(self).selection == old(self).selection,
            old(self).is_selecting && old(self).has_selection_dragged ==> match old(self).selection_start {
                None => !r && final(self).selection == old(self).selection,
                Some(s) => if s == point {
                    final(self).selection is None && r == (old(self).selection is Some)
                } else {
                    r && final(self).selection == Some(
                        if point_le(s, point) {
                            Selection { start: s, end: point }
                        } else {
                            Selection { start: point, end: s }
                        },
                    )
                },
            },
    {
        if !self.is_selecting || !self.has_selection_dragged {
            return false;
        }
        match self.selection_start {
            None => false,
            Some(s) => {
                if s.line == point.line && s.column == point.column {
                    if self.selection.is_some() {
                        self.selection = None;
                        true
                    } else {
                        false
                    }
                } else {
                    let le = s.line < point.line || (s.line == point.line && s.column
                        <= point.column);
                    if le {
                        self.selection = Some(Selection { start: s, end: point });
                    } else {
                        self.selection = Some(Selection { start: point, end: s });
                    }
                    true
                }
            },
        }
    }

    /// The button is let go: any drag ends. Returns whether a selection
    /// was being made (and is now finished).
    pub fn release_pointer(&mut self) -> (r: bool)
        requires
            old(self).wf(),
        ensures
            final(self).wf(),
            r == old(self).is_selecting,
            !final(self).is_selecting,
            !final(self).has_selection_dragged,
            final(self).selection == old(self).selection,
            final(self).selection_start == old(self).selection_start,
            final(self).same_but_selection(&*old(self)),
    {
        self.has_selection_dragged = false;
        let was = self.is_selecting;
        self.is_selecting = false;
        was
    }
}

/// A wheel step toward `up` (into the history) is refused at the edge:
/// down at the bottom, up at the top of the history.
pub fn scroll_blocked(display_offset: usize, history_size: usize, up: bool) -> (r: bool)
    ensures
        r == ((display_offset == 0 && !up) || (display_offset >= history_size && up)),
{
    (display_offset == 0 && !up) || (display_offset >= history_size && up)
}

/// The scrollback offset after scrolling `lines` lines (positive: into the
/// history), held between the bottom and the top of the history.
pub fn scrolled_offset(display_offset: usize, history_size: usize, lines: isize) -> (r: usize)
    requires
        display_offset <= isize::MAX,
        history_size <= isize::MAX,
    ensures
        r == clamp_int(display_offset + lines, 0, history_size as int),
{
    if lines >= 0 {
        let up: usize = lines as usize;
        if display_offset >= history_size || up >= history_size - display_offset {
            history_size
        } else {
            display_offset + up
        }
    } else {
        let down: usize = if lines == isize::MIN {
            (isize::MAX as usize) + 1
        } else {
            (-lines) as usize
        };
        if down >= display_offset {
            0
        } else if display_offset - down > history_size {
            history_size
        } else {
            display_offset - down
        }
    }
}

/// What the word under the pointer was classified as.
pub enum LinkToken {
    Url(String),
    Path(String),
    Email(String),
    Other,
}

/// The link a hover shows, with the row and the columns it spans: an explicit
/// (OSC 8) hyperlink first, else a URL, a path or an e-mail address (as a
/// `mailto:` link) found in the word under the pointer; nothing otherwise.
pub open spec fn spec_hover_link(
    row: i32,
    hyperlink: Option<(Seq<char>, usize, usize)>,
    token: Option<(LinkToken, usize, usize)>,
) -> Option<(Seq<char>, (i32, usize, usize))> {
    match hyperlink {
        Some((url, start, end)) => Some((url, (row, start, end))),
        None => match token {
            Some((LinkToken::Url(u), start, end)) => Some((u@, (row, start, end))),
            Some((LinkToken::Path(p), start, end)) => Some((p@, (row, start, end))),
            Some((LinkToken::Email(e), start, end)) => Some(("mailto:"@ + e@, (row, start, end))),
            _ => None,
        },
    }
}

/// A hover link by its characters.
pub open spec fn link_view(l: Option<(String, (i32, usize, usize))>) -> Option<(Seq<char>, (i32, usize, usize))> {
    match l {
        Some((s, r)) => Some((s@, r)),
        None => None,
    }
}

/// The link under the pointer at grid `row` (see `spec_hover_link`).
pub fn hover_link(
    row: i32,
    hyperlink: Option<(String, usize, usize)>,
    token: Option<(LinkToken, usize, usize)>,
) -> (r: Option<(String, (i32, usize, usize))>)
    ensures
        link_view(r) == spec_hover_link(
            row,
            match hyperlink {
                Some((u, s, e)) => Some((u@, s, e)),
                None => None,
            },
            token,
        ),
{
    match hyperlink {
        Some((url, start, end)) => Some((url, (row, start, end))),
        None => match token {
            Some((LinkToken::Url(u), start, end)) => Some((u, (row, start, end))),
            Some((LinkToken::Path(p), start, end)) => Some((p, (row, start, end))),
            Some((LinkToken::Email(e), start, end)) => {
                let mut m = String::from_str("mailto:");
                m.append(e.as_str());
                Some((m, (row, start, end)))
            },
            _ => None,
        },
    }
}

impl<F> RootView<F> {
    /// Shows the hovered link (or none); answers whether the window needs
    /// redrawing: always when a link shows, and when one stops showing.
    pub fn set_hovered_link(&mut self, link: Option<(String, (i32, usize, usize))>) -> (r: bool)
        ensures
            r == (link is Some || old(self).hovered_url is Some),
            link_view(
                match (final(self).hovered_url, final(self).hovered_url_range) {
                    (Some(u), Some(rg)) => Some((u, rg)),
                    _ => None,
                },
            ) == link_view(link),
            final(self).hovered_url is Some == final(self).hovered_url_range is Some,
            *final(self) == (RootView {
                hovered_url: final(self).hovered_url,
                hovered_url_range: final(self).hovered_url_range,
                ..*old(self)
            }),
    {
        let had = self.hovered_url.is_some();
        match link {
            Some((url, range)) => {
                self.hovered_url = Some(url);
                self.hovered_url_range = Some(range);
                true
            },
            None => {
                self.hovered_url = None;
                self.hovered_url_range = None;
                had
            },
        }
    }
}

} // verus!
