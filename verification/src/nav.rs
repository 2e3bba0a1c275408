use vstd::prelude::*;

use crate::view::Workspace;

verus! {

/// Moving down a list of `count` rows wraps from the last row to the first.
pub open spec fn spec_next_wrapping(selected: usize, count: usize) -> usize {
    if count == 0 {
        selected
    } else {
        ((selected + 1) % (count as int)) as usize
    }
}

/// Moving up a list of `count` rows wraps from the first row to the last.
pub open spec fn spec_prev_wrapping(selected: usize, count: usize) -> usize {
    if count == 0 {
        selected
    } else if selected == 0 {
        (count - 1) as usize
    } else {
        (selected - 1) as usize
    }
}

/// The row below `selected` in a list of `count` rows, wrapping around; an
/// empty list keeps the selection.
pub fn next_wrapping(selected: usize, count: usize) -> (r: usize)
    requires
        selected < usize::MAX,
    ensures
        r == spec_next_wrapping(selected, count),
{
    if count == 0 {
        selected
    } else {
        (selected + 1) % count
    }
}

/// The row above `selected` in a list of `count` rows, wrapping around; an
/// empty list keeps the selection.
pub fn prev_wrapping(selected: usize, count: usize) -> (r: usize)
    ensures
        r == spec_prev_wrapping(selected, count),
{
    if count == 0 {
        selected
    } else if selected == 0 {
        count - 1
    } else {
        selected - 1
    }
}

/// Stepping down then up (or up then down) returns to the same row, and
/// both steps stay inside a non-empty list.
pub proof fn lemma_wrapping_steps_undo(selected: usize, count: usize)
    requires
        selected < count,
    ensures
        spec_prev_wrapping(spec_next_wrapping(selected, count), count) == selected,
        spec_next_wrapping(spec_prev_wrapping(selected, count), count) == selected,
        spec_next_wrapping(selected, count) < count,
        spec_prev_wrapping(selected, count) < count,
{
    if selected + 1 == count {
        assert((selected + 1) % (count as int) == 0) by (nonlinear_arith)
            requires
                selected + 1 == count,
        ;
    } else {
        assert((selected + 1) % (count as int) == selected + 1) by (nonlinear_arith)
            requires
                selected + 1 < count,
        ;
    }
    if selected == 0 {
        assert(((count - 1) + 1) % (count as int) == 0) by (nonlinear_arith)
            requires
                count > 0,
        ;
    } else {
        assert(((selected - 1) + 1) % (count as int) == selected) by (nonlinear_arith)
            requires
                0 < selected < count,
        ;
    }
}

/// A key press in the tab overview grid (three cards per row).
#[derive(Clone, Copy, Debug, PartialEq, Eq, Structural)]
pub enum OverviewMove {
    Left,
    Right,
    Up,
    Down,
}

/// The card selected after a move in the overview grid of `count` cards:
/// left and right wrap, up and down move by a row of up to three cards and
/// stop at the ends.
pub open spec fn spec_overview_move(selected: usize, count: usize, m: OverviewMove) -> usize
    recommends
        count > 0,
{
    let cols: int = if count < 3 {
        count as int
    } else {
        3
    };
    match m {
        OverviewMove::Right => spec_next_wrapping(selected, count),
        OverviewMove::Left => spec_prev_wrapping(selected, count),
        OverviewMove::Down => if selected + cols < count - 1 {
            (selected + cols) as usize
        } else {
            (count - 1) as usize
        },
        OverviewMove::Up => if selected >= cols {
            (selected - cols) as usize
        } else {
            0
        },
    }
}

/// Moves the selection of the tab overview grid of `count` cards.
pub fn overview_move(selected: usize, count: usize, m: OverviewMove) -> (r: usize)
    requires
        count > 0,
        selected < usize::MAX - 3,
    ensures
        r == spec_overview_move(selected, count, m),
{
    let cols = if count < 3 {
        count
    } else {
        3
    };
    match m {
        OverviewMove::Right => next_wrapping(selected, count),
        OverviewMove::Left => prev_wrapping(selected, count),
        OverviewMove::Down => {
            let down = selected + cols;
            if down < count - 1 {
                down
            } else {
                count - 1
            }
        },
        OverviewMove::Up => selected.saturating_sub(cols),
    }
}

/// Any move keeps a valid card selected.
pub proof fn lemma_overview_move_in_range(selected: usize, count: usize, m: OverviewMove)
    requires
        selected < count,
    ensures
        spec_overview_move(selected, count, m) < count,
{
    lemma_wrapping_steps_undo(selected, count);
}


impl Workspace {
    /// Switches to the next tab, wrapping, and drops the selection.
    /// Returns whether there are tabs.
    pub fn next_tab(&mut self) -> (r: bool)
        requires
            old(self).wf(),
        ensures
            final(self).wf(),
            r == (old(self).tabs@.len() > 0),
            final(self).tabs@ == old(self).tabs@,
            r ==> final(self).active_tab_idx == spec_next_wrapping(
                old(self).active_tab_idx,
                old(self).tabs@.len() as usize,
            ) && final(self).selection_cleared(),
            !r ==> final(self).active_tab_idx == old(self).active_tab_idx
                && final(self).selection == old(self).selection,
            final(self).next_tab_id == old(self).next_tab_id,
            final(self).pending_close == old(self).pending_close,
    {
        let n = self.tabs.len();
        if n == 0 {
            return false;
        }
        self.clear_selection();
        self.active_tab_idx = next_wrapping(self.active_tab_idx, n);
        true
    }

    /// Switches to the previous tab, wrapping, and drops the selection.
    /// Returns whether there are tabs.
    pub fn prev_tab(&mut self) -> (r: bool)
        requires
            old(self).wf(),
        ensures
            final(self).wf(),
            r == (old(self).tabs@.len() > 0),
            final(self).tabs@ == old(self).tabs@,
            r ==> final(self).active_tab_idx == spec_prev_wrapping(
                old(self).active_tab_idx,
                old(self).tabs@.len() as usize,
            ) && final(self).selection_cleared(),
            !r ==> final(self).active_tab_idx == old(self).active_tab_idx
                && final(self).selection == old(self).selection,
            final(self).next_tab_id == old(self).next_tab_id,
            final(self).pending_close == old(self).pending_close,
    {
        let n = self.tabs.len();
        if n == 0 {
            return false;
        }
        self.clear_selection();
        self.active_tab_idx = prev_wrapping(self.active_tab_idx, n);
        true
    }

    /// Switches to tab number `digit` (1 to 9, counted from 1) when there
    /// is such a tab, dropping the selection. Returns whether it did; the
    /// key otherwise goes on to the terminal.
    pub fn select_tab_number(&mut self, digit: u8) -> (r: bool)
        requires
            old(self).wf(),
        ensures
            final(self).wf(),
            r == (1 <= digit <= 9 && digit - 1 < old(self).tabs@.len()),
            final(self).tabs@ == old(self).tabs@,
            r ==> final(self).active_tab_idx == digit - 1 && final(self).selection_cleared(),
            !r ==> final(self).active_tab_idx == old(self).active_tab_idx
                && final(self).selection == old(self).selection
                && final(self).is_selecting == old(self).is_selecting
                && final(self).selection_start == old(self).selection_start,
            final(self).next_tab_id == old(self).next_tab_id,
            final(self).pending_close == old(self).pending_close,
    {
        if 1 <= digit && digit <= 9 {
            let target = (digit - 1) as usize;
            if target < self.tabs.len() {
                self.clear_selection();
                self.active_tab_idx = target;
                return true;
            }
        }
        false
    }

    /// The active pane of the active tab (the one `close_active_pane`
    /// closes), if there is a tab.
    pub fn active_pane_id(&self) -> (r: Option<usize>)
        ensures
            r == (if self.active_tab_idx < self.tabs@.len() {
                Some(self.tabs@[self.active_tab_idx as int].active_pane_id)
            } else {
                None
            }),
    {
        if self.active_tab_idx < self.tabs.len() {
            Some(self.tabs[self.active_tab_idx].active_pane_id)
        } else {
            None
        }
    }

    /// A key typed into the terminal drops the selection (a drag keeps
    /// going). Returns whether there was one.
    pub fn drop_selection_for_typing(&mut self) -> (r: bool)
        requires
            old(self).wf(),
        ensures
            final(self).wf(),
            r == (old(self).selection is Some),
            final(self).selection is None,
            final(self).is_selecting == old(self).is_selecting,
            final(self).selection_start == old(self).selection_start,
            final(self).tabs@ == old(self).tabs@,
            final(self).active_tab_idx == old(self).active_tab_idx,
            final(self).next_tab_id == old(self).next_tab_id,
            final(self).pending_close == old(self).pending_close,
    {
        let had = self.selection.is_some();
        self.selection = None;
        had
    }
}

} // verus!
