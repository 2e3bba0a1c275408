use vstd::prelude::*;
use vstd::slice::slice_subrange;
use vstd::string::StringExecFns;

use crate::keys::{list_key_view, ListKey, ListKeyView, OverviewKey};
use crate::nav::{
    next_wrapping, overview_move, prev_wrapping, spec_next_wrapping, spec_overview_move,
    spec_prev_wrapping,
};
use crate::overlays::Overlays;
use crate::pr::PrPickerMode;
use crate::text::{decimal, str_chars, string_from_chars, usize_to_decimal};
use crate::view::Workspace;

verus! {

/// A text without its last character (unchanged when empty).
pub open spec fn erased(s: Seq<char>) -> Seq<char> {
    if s.len() == 0 {
        s
    } else {
        s.drop_last()
    }
}

/// Drops the last character of `s`, if any.
pub fn pop_char(s: &mut String)
    ensures
        final(s)@ == erased(old(s)@),
{
    let cs = str_chars(s.as_str());
    if cs.len() > 0 {
        let kept = slice_subrange(cs.as_slice(), 0, cs.len() - 1);
        proof {
            assert(kept@ =~= cs@.drop_last());
        }
        *s = string_from_chars(kept);
    }
}

/// Edits a text field with a key: Backspace erases the last character,
/// typed text is appended. Returns whether the text was edited.
pub fn edit_text(s: &mut String, key: &ListKey) -> (r: bool)
    ensures
        r == (list_key_view(*key) is Erase || list_key_view(*key) is Type),
        final(s)@ == match list_key_view(*key) {
            ListKeyView::Erase => erased(old(s)@),
            ListKeyView::Type(t) => old(s)@ + t,
            _ => old(s)@,
        },
{
    match key {
        ListKey::Erase => {
            pop_char(s);
            true
        },
        ListKey::Type(t) => {
            s.append(t.as_str());
            true
        },
        _ => false,
    }
}

/// What a key did to the tab overview.
#[derive(Clone, Copy, Debug, PartialEq, Eq, Structural)]
pub enum OverviewStep {
    Closed,
    /// Switch to the tab at this position.
    SwitchTo(usize),
    Moved,
    /// Close the tab at this position.
    CloseTab(usize),
    NewTab,
    Unchanged,
}

/// What a key did to the search bar.
#[derive(Clone, Copy, Debug, PartialEq, Eq, Structural)]
pub enum SearchStep {
    Closed,
    /// Scroll the history to this match offset.
    ScrollTo(usize),
    /// The query changed: search again.
    QueryEdited,
    Unchanged,
}

/// What a key did to a picker.
#[derive(Clone, Copy, Debug, PartialEq, Eq, Structural)]
pub enum PickerStep {
    Closed,
    /// The PR picker went back from a PR's actions to the list.
    BackToList,
    /// Act on the selected row.
    Accept,
    Moved,
    /// The query changed (and the first row is selected).
    Edited,
    Unchanged,
}

/// A key in a list picker (open flag, query, selected row) over `count`
/// rows, with what it did: Esc closes it, Enter asks to act on the
/// selected row, Down/Tab and Up move the selection (wrapping; an empty
/// list keeps it), Backspace and typed text edit the query and select the
/// first row.
pub open spec fn spec_list_step(
    open: bool,
    query: Seq<char>,
    selected: usize,
    count: usize,
    key: ListKeyView,
) -> (PickerStep, bool, Seq<char>, usize) {
    let moved = if count > 0 {
        PickerStep::Moved
    } else {
        PickerStep::Unchanged
    };
    match key {
        ListKeyView::Close => (PickerStep::Closed, false, query, selected),
        ListKeyView::Accept => (PickerStep::Accept, open, query, selected),
        ListKeyView::Next => (moved, open, query, spec_next_wrapping(selected, count)),
        ListKeyView::Prev => (moved, open, query, spec_prev_wrapping(selected, count)),
        ListKeyView::Erase => (PickerStep::Edited, open, erased(query), 0),
        ListKeyView::Type(t) => (PickerStep::Edited, open, query + t, 0),
        ListKeyView::Ignore => (PickerStep::Unchanged, open, query, selected),
    }
}

/// Applies a key to a list picker's flag, query and selected row (see
/// `spec_list_step`).
pub fn step_list(
    open: &mut bool,
    query: &mut String,
    selected: &mut usize,
    count: usize,
    key: &ListKey,
) -> (r: PickerStep)
    requires
        *old(selected) < usize::MAX,
    ensures
        (r, *final(open), final(query)@, *final(selected)) == spec_list_step(
            *old(open),
            old(query)@,
            *old(selected),
            count,
            list_key_view(*key),
        ),
{
    match key {
        ListKey::Close => {
            *open = false;
            PickerStep::Closed
        },
        ListKey::Accept => PickerStep::Accept,
        ListKey::Next => {
            *selected = next_wrapping(*selected, count);
            if count > 0 {
                PickerStep::Moved
            } else {
                PickerStep::Unchanged
            }
        },
        ListKey::Prev => {
            *selected = prev_wrapping(*selected, count);
            if count > 0 {
                PickerStep::Moved
            } else {
                PickerStep::Unchanged
            }
        },
        ListKey::Erase => {
            pop_char(query);
            *selected = 0;
            PickerStep::Edited
        },
        ListKey::Type(t) => {
            query.append(t.as_str());
            *selected = 0;
            PickerStep::Edited
        },
        ListKey::Ignore => PickerStep::Unchanged,
    }
}

/// A key in the PR picker (`browsing`: listing PRs, not a PR's actions),
/// with the picker's flag, query, row and whether it lists PRs afterwards:
/// listing, it works as any list picker; showing a PR's actions, Esc goes
/// back to the list on the first row, Enter and the arrows work as in a
/// list, and editing keys do nothing.
pub open spec fn spec_pr_step(
    open: bool,
    query: Seq<char>,
    selected: usize,
    browsing: bool,
    count: usize,
    key: ListKeyView,
) -> (PickerStep, bool, Seq<char>, usize, bool) {
    let (r, o, q, s) = spec_list_step(open, query, selected, count, key);
    if browsing {
        (r, o, q, s, true)
    } else {
        match key {
            ListKeyView::Close => (PickerStep::BackToList, open, query, 0, true),
            ListKeyView::Next | ListKeyView::Prev | ListKeyView::Accept => (r, o, q, s, false),
            _ => (PickerStep::Unchanged, open, query, selected, false),
        }
    }
}

/// Applies a key to the PR picker (see `spec_pr_step`); the mode changes
/// only from a PR's actions back to the list.
pub fn step_pr(
    open: &mut bool,
    query: &mut String,
    selected: &mut usize,
    mode: &mut PrPickerMode,
    count: usize,
    key: &ListKey,
) -> (r: PickerStep)
    requires
        *old(selected) < usize::MAX,
    ensures
        (r, *final(open), final(query)@, *final(selected), (*final(mode)) is Browse) == spec_pr_step(
            *old(open),
            old(query)@,
            *old(selected),
            (*old(mode)) is Browse,
            count,
            list_key_view(*key),
        ),
        ((*final(mode)) is Browse) == ((*old(mode)) is Browse) ==> *final(mode) == *old(mode),
{
    let browsing = match mode {
        PrPickerMode::Browse => true,
        PrPickerMode::Actions { .. } => false,
    };
    if browsing {
        return step_list(open, query, selected, count, key);
    }
    match key {
        ListKey::Close => {
            *mode = PrPickerMode::Browse;
            *selected = 0;
            PickerStep::BackToList
        },
        ListKey::Next | ListKey::Prev | ListKey::Accept => step_list(
            open,
            query,
            selected,
            count,
            key,
        ),
        _ => PickerStep::Unchanged,
    }
}

/// A key in the tab overview over `tab_count` tabs, with the overview's
/// flag and selection afterwards: Esc, or any key without tabs, closes it;
/// Enter closes it and switches to the selected tab; the moves move the
/// selection; the close key asks to close the selected tab; the new-tab
/// key closes the overview and asks for a tab.
pub open spec fn spec_overview_step(
    open: bool,
    selected: usize,
    key: OverviewKey,
    tab_count: usize,
) -> (OverviewStep, bool, usize) {
    if key == OverviewKey::Close || tab_count == 0 {
        (OverviewStep::Closed, false, selected)
    } else {
        match key {
            OverviewKey::Accept => if selected < tab_count {
                (OverviewStep::SwitchTo(selected), false, selected)
            } else {
                (OverviewStep::Unchanged, open, selected)
            },
            OverviewKey::Move(m) => (
                OverviewStep::Moved,
                open,
                spec_overview_move(selected, tab_count, m),
            ),
            OverviewKey::CloseTab => if selected < tab_count {
                (OverviewStep::CloseTab(selected), open, selected)
            } else {
                (OverviewStep::Unchanged, open, selected)
            },
            OverviewKey::NewTab => (OverviewStep::NewTab, false, selected),
            _ => (OverviewStep::Unchanged, open, selected),
        }
    }
}

/// Applies a key to the tab overview (see `spec_overview_step`).
pub fn step_overview(open: &mut bool, selected: &mut usize, key: OverviewKey, tab_count: usize) -> (r: OverviewStep)
    requires
        *old(selected) < usize::MAX - 3,
    ensures
        (r, *final(open), *final(selected)) == spec_overview_step(*old(open), *old(selected), key, tab_count),
{
    let close = match key {
        OverviewKey::Close => true,
        _ => false,
    };
    if close || tab_count == 0 {
        *open = false;
        return OverviewStep::Closed;
    }
    let sel = *selected;
    match key {
        OverviewKey::Accept => {
            if sel < tab_count {
                *open = false;
                OverviewStep::SwitchTo(sel)
            } else {
                OverviewStep::Unchanged
            }
        },
        OverviewKey::Move(m) => {
            *selected = overview_move(sel, tab_count, m);
            OverviewStep::Moved
        },
        OverviewKey::CloseTab => {
            if sel < tab_count {
                OverviewStep::CloseTab(sel)
            } else {
                OverviewStep::Unchanged
            }
        },
        OverviewKey::NewTab => {
            *open = false;
            OverviewStep::NewTab
        },
        _ => OverviewStep::Unchanged,
    }
}

/// A key in the scrollback search bar, with the bar's flag, query and
/// selected match afterwards: Esc closes it; with a terminal, Enter steps
/// to the next match (Shift+Enter the previous one), wrapping, and asks to
/// scroll to it; Backspace and typed text edit the query (the matches are
/// then searched again); without a terminal other keys do nothing.
pub open spec fn spec_search_step(
    open: bool,
    query: Seq<char>,
    idx: usize,
    matches: Seq<usize>,
    key: ListKeyView,
    has_terminal: bool,
) -> (SearchStep, bool, Seq<char>, usize) {
    let n = matches.len() as usize;
    if key is Close {
        (SearchStep::Closed, false, query, idx)
    } else if !has_terminal {
        (SearchStep::Unchanged, open, query, idx)
    } else {
        match key {
            ListKeyView::Next => if n > 0 {
                let k = spec_next_wrapping(idx, n);
                (SearchStep::ScrollTo(matches[k as int]), open, query, k)
            } else {
                (SearchStep::Unchanged, open, query, idx)
            },
            ListKeyView::Prev => if n > 0 {
                let k = spec_prev_wrapping(idx, n);
                (SearchStep::ScrollTo(matches[k as int]), open, query, k)
            } else {
                (SearchStep::Unchanged, open, query, idx)
            },
            ListKeyView::Erase => (SearchStep::QueryEdited, open, erased(query), idx),
            ListKeyView::Type(t) => (SearchStep::QueryEdited, open, query + t, idx),
            _ => (SearchStep::Unchanged, open, query, idx),
        }
    }
}

/// Applies a key to the search bar (see `spec_search_step`).
pub fn step_search(
    open: &mut bool,
    query: &mut String,
    idx: &mut usize,
    matches: &Vec<usize>,
    key: &ListKey,
    has_terminal: bool,
) -> (r: SearchStep)
    requires
        *old(idx) < usize::MAX,
        list_key_view(*key) is Prev ==> *old(idx) <= matches.len(),
    ensures
        (r, *final(open), final(query)@, *final(idx)) == spec_search_step(
            *old(open),
            old(query)@,
            *old(idx),
            matches@,
            list_key_view(*key),
            has_terminal,
        ),
{
    match key {
        ListKey::Close => {
            *open = false;
            return SearchStep::Closed;
        },
        _ => {},
    }
    if !has_terminal {
        return SearchStep::Unchanged;
    }
    let n = matches.len();
    match key {
        ListKey::Next => {
            if n == 0 {
                return SearchStep::Unchanged;
            }
            let k = next_wrapping(*idx, n);
            *idx = k;
            SearchStep::ScrollTo(matches[k])
        },
        ListKey::Prev => {
            if n == 0 {
                return SearchStep::Unchanged;
            }
            let k = prev_wrapping(*idx, n);
            *idx = k;
            SearchStep::ScrollTo(matches[k])
        },
        ListKey::Erase => {
            pop_char(query);
            SearchStep::QueryEdited
        },
        ListKey::Type(t) => {
            query.append(t.as_str());
            SearchStep::QueryEdited
        },
        _ => SearchStep::Unchanged,
    }
}

impl Overlays {
    /// A key in the command palette over its `count` matching commands (see `spec_list_step`).
    pub fn command_palette_key(&mut self, count: usize, key: &ListKey) -> (r: PickerStep)
        requires
            old(self).command_palette_selected < usize::MAX,
        ensures
            (r, final(self).is_command_palette_open, final(self).command_palette_query@, final(self).command_palette_selected) == spec_list_step(
                old(self).is_command_palette_open,
                old(self).command_palette_query@,
                old(self).command_palette_selected,
                count,
                list_key_view(*key),
            ),
            *final(self) == (Overlays { is_command_palette_open: final(self).is_command_palette_open, command_palette_query: final(self).command_palette_query, command_palette_selected: final(self).command_palette_selected, ..*old(self) }),
    {
        step_list(&mut self.is_command_palette_open, &mut self.command_palette_query, &mut self.command_palette_selected, count, key)
    }

    /// A key in the snippet picker over its `count` matching snippets (see `spec_list_step`).
    pub fn snippet_picker_key(&mut self, count: usize, key: &ListKey) -> (r: PickerStep)
        requires
            old(self).snippet_selected < usize::MAX,
        ensures
            (r, final(self).is_snippet_picker_open, final(self).snippet_query@, final(self).snippet_selected) == spec_list_step(
                old(self).is_snippet_picker_open,
                old(self).snippet_query@,
                old(self).snippet_selected,
                count,
                list_key_view(*key),
            ),
            *final(self) == (Overlays { is_snippet_picker_open: final(self).is_snippet_picker_open, snippet_query: final(self).snippet_query, snippet_selected: final(self).snippet_selected, ..*old(self) }),
    {
        step_list(&mut self.is_snippet_picker_open, &mut self.snippet_query, &mut self.snippet_selected, count, key)
    }

    /// A key in the SSH manager over its `count` matching hosts (see `spec_list_step`).
    pub fn ssh_manager_key(&mut self, count: usize, key: &ListKey) -> (r: PickerStep)
        requires
            old(self).ssh_manager_selected < usize::MAX,
        ensures
            (r, final(self).is_ssh_manager_open, final(self).ssh_manager_query@, final(self).ssh_manager_selected) == spec_list_step(
                old(self).is_ssh_manager_open,
                old(self).ssh_manager_query@,
                old(self).ssh_manager_selected,
                count,
                list_key_view(*key),
            ),
            *final(self) == (Overlays { is_ssh_manager_open: final(self).is_ssh_manager_open, ssh_manager_query: final(self).ssh_manager_query, ssh_manager_selected: final(self).ssh_manager_selected, ..*old(self) }),
    {
        step_list(&mut self.is_ssh_manager_open, &mut self.ssh_manager_query, &mut self.ssh_manager_selected, count, key)
    }

    /// A key in the worktree picker over its `count` matching worktrees (see `spec_list_step`).
    pub fn worktree_picker_key(&mut self, count: usize, key: &ListKey) -> (r: PickerStep)
        requires
            old(self).worktree_picker_selected < usize::MAX,
        ensures
            (r, final(self).is_worktree_picker_open, final(self).worktree_picker_query@, final(self).worktree_picker_selected) == spec_list_step(
                old(self).is_worktree_picker_open,
                old(self).worktree_picker_query@,
                old(self).worktree_picker_selected,
                count,
                list_key_view(*key),
            ),
            *final(self) == (Overlays { is_worktree_picker_open: final(self).is_worktree_picker_open, worktree_picker_query: final(self).worktree_picker_query, worktree_picker_selected: final(self).worktree_picker_selected, ..*old(self) }),
    {
        step_list(&mut self.is_worktree_picker_open, &mut self.worktree_picker_query, &mut self.worktree_picker_selected, count, key)
    }

    /// A key in the tab jumper over its `count` matching tabs (see `spec_list_step`).
    pub fn project_jumper_key(&mut self, count: usize, key: &ListKey) -> (r: PickerStep)
        requires
            old(self).project_jumper_selected < usize::MAX,
        ensures
            (r, final(self).is_project_jumper_open, final(self).project_jumper_query@, final(self).project_jumper_selected) == spec_list_step(
                old(self).is_project_jumper_open,
                old(self).project_jumper_query@,
                old(self).project_jumper_selected,
                count,
                list_key_view(*key),
            ),
            *final(self) == (Overlays { is_project_jumper_open: final(self).is_project_jumper_open, project_jumper_query: final(self).project_jumper_query, project_jumper_selected: final(self).project_jumper_selected, ..*old(self) }),
    {
        step_list(&mut self.is_project_jumper_open, &mut self.project_jumper_query, &mut self.project_jumper_selected, count, key)
    }

    /// A key in the multi-tab search over its `count` results (an edited query asks for a new search) (see `spec_list_step`).
    pub fn global_search_key(&mut self, count: usize, key: &ListKey) -> (r: PickerStep)
        requires
            old(self).global_search_selected < usize::MAX,
        ensures
            (r, final(self).is_global_search_open, final(self).global_search_query@, final(self).global_search_selected) == spec_list_step(
                old(self).is_global_search_open,
                old(self).global_search_query@,
                old(self).global_search_selected,
                count,
                list_key_view(*key),
            ),
            *final(self) == (Overlays { is_global_search_open: final(self).is_global_search_open, global_search_query: final(self).global_search_query, global_search_selected: final(self).global_search_selected, ..*old(self) }),
    {
        step_list(&mut self.is_global_search_open, &mut self.global_search_query, &mut self.global_search_selected, count, key)
    }

    /// A key in the PR picker over its `count` rows (see `spec_pr_step`).
    pub fn pr_picker_key(&mut self, count: usize, key: &ListKey) -> (r: PickerStep)
        requires
            old(self).pr_picker_selected < usize::MAX,
        ensures
            (r, final(self).is_pr_picker_open, final(self).pr_picker_query@, final(self).pr_picker_selected, final(self).pr_picker_mode is Browse) == spec_pr_step(
                old(self).is_pr_picker_open,
                old(self).pr_picker_query@,
                old(self).pr_picker_selected,
                old(self).pr_picker_mode is Browse,
                count,
                list_key_view(*key),
            ),
            (final(self).pr_picker_mode is Browse) == (old(self).pr_picker_mode is Browse) ==> final(self).pr_picker_mode == old(self).pr_picker_mode,
            *final(self) == (Overlays { is_pr_picker_open: final(self).is_pr_picker_open, pr_picker_query: final(self).pr_picker_query, pr_picker_selected: final(self).pr_picker_selected, pr_picker_mode: final(self).pr_picker_mode, ..*old(self) }),
    {
        step_pr(
            &mut self.is_pr_picker_open,
            &mut self.pr_picker_query,
            &mut self.pr_picker_selected,
            &mut self.pr_picker_mode,
            count,
            key,
        )
    }

    /// A key in the tab overview over `tab_count` tabs (see
    /// `spec_overview_step`).
    pub fn tab_overview_key(&mut self, key: OverviewKey, tab_count: usize) -> (r: OverviewStep)
        requires
            old(self).tab_overview_selected < usize::MAX - 3,
        ensures
            (r, final(self).is_tab_overview_open, final(self).tab_overview_selected) == spec_overview_step(
                old(self).is_tab_overview_open,
                old(self).tab_overview_selected,
                key,
                tab_count,
            ),
            *final(self) == (Overlays { is_tab_overview_open: final(self).is_tab_overview_open, tab_overview_selected: final(self).tab_overview_selected, ..*old(self) }),
    {
        step_overview(&mut self.is_tab_overview_open, &mut self.tab_overview_selected, key, tab_count)
    }

    /// After the overview asked to close a tab: without tabs left it
    /// closes, else its selection stays on a tab.
    pub fn clamp_tab_overview(&mut self, tab_count: usize)
        ensures
            tab_count == 0 ==> !final(self).is_tab_overview_open
                && final(self).tab_overview_selected == old(self).tab_overview_selected,
            tab_count > 0 ==> final(self).is_tab_overview_open == old(self).is_tab_overview_open
                && final(self).tab_overview_selected == (if old(self).tab_overview_selected
                < tab_count - 1 {
                old(self).tab_overview_selected
            } else {
                (tab_count - 1) as usize
            }),
            *final(self) == (Overlays { is_tab_overview_open: final(self).is_tab_overview_open, tab_overview_selected: final(self).tab_overview_selected, ..*old(self) }),
    {
        if tab_count == 0 {
            self.is_tab_overview_open = false;
        } else if self.tab_overview_selected >= tab_count - 1 {
            self.tab_overview_selected = tab_count - 1;
        }
    }

    /// A key in the scrollback search bar (see `spec_search_step`).
    pub fn search_bar_key(&mut self, key: &ListKey, has_terminal: bool) -> (r: SearchStep)
        requires
            old(self).search_match_idx < usize::MAX,
            list_key_view(*key) is Prev ==> old(self).search_match_idx <= old(self).search_matches.len(),
        ensures
            (r, final(self).is_search_open, final(self).search_query@, final(self).search_match_idx) == spec_search_step(
                old(self).is_search_open,
                old(self).search_query@,
                old(self).search_match_idx,
                old(self).search_matches@,
                list_key_view(*key),
                has_terminal,
            ),
            *final(self) == (Overlays { is_search_open: final(self).is_search_open, search_query: final(self).search_query, search_match_idx: final(self).search_match_idx, ..*old(self) }),
    {
        step_search(
            &mut self.is_search_open,
            &mut self.search_query,
            &mut self.search_match_idx,
            &self.search_matches,
            key,
            has_terminal,
        )
    }

    /// New matches for the search query: the first match is selected, and
    /// returned to scroll to.
    pub fn set_search_matches(&mut self, matches: Vec<usize>) -> (r: Option<usize>)
        ensures
            final(self).search_matches@ == matches@,
            final(self).search_match_idx == 0,
            r == (if matches@.len() > 0 {
                Some(matches@[0])
            } else {
                None
            }),
            *final(self) == (Overlays { search_matches: final(self).search_matches, search_match_idx: 0, ..*old(self) }),
    {
        let first = if matches.len() > 0 {
            Some(matches[0])
        } else {
            None
        };
        self.search_matches = matches;
        self.search_match_idx = 0;
        first
    }

    /// The search bar's counter: the selected match (from one) over the
    /// number of matches, `0/0` without any.
    pub fn search_match_counter(&self) -> (r: String)
        requires
            self.search_match_idx < usize::MAX,
        ensures
            r@ == (if self.search_matches@.len() == 0 {
                "0/0"@
            } else {
                decimal((self.search_match_idx + 1) as nat) + "/"@ + decimal(
                    self.search_matches@.len(),
                )
            }),
    {
        proof {
            reveal_strlit("0/0");
            reveal_strlit("/");
        }
        let n = self.search_matches.len();
        if n == 0 {
            String::from_str("0/0")
        } else {
            let mut s = usize_to_decimal(self.search_match_idx + 1);
            s.append("/");
            s.append(usize_to_decimal(n).as_str());
            s
        }
    }
}



/// Typing one character into a picker and erasing it gives back the query
/// and the open flag, on the first row.
pub proof fn lemma_type_then_erase(
    open: bool,
    query: Seq<char>,
    selected: usize,
    count: usize,
    c: char,
)
    ensures
        ({
            let (_, o1, q1, s1) = spec_list_step(open, query, selected, count, ListKeyView::Type(seq![c]));
            let (r2, o2, q2, s2) = spec_list_step(o1, q1, s1, count, ListKeyView::Erase);
            &&& r2 == PickerStep::Edited
            &&& o2 == open
            &&& q2 == query
            &&& s2 == 0
        }),
{
    assert((query + seq![c]).drop_last() =~= query);
}

/// What a key did to the rename-tab dialog.
#[derive(Clone, Copy, Debug, PartialEq, Eq, Structural)]
pub enum RenameStep {
    Closed,
    /// Save the new name.
    Save,
    Edited,
    Unchanged,
}

impl Workspace {
    /// A key in the rename-tab dialog: Esc closes it, Enter asks to save,
    /// Backspace and typed text edit the name.
    pub fn rename_tab_key(&mut self, key: &ListKey) -> (r: RenameStep)
        requires
            old(self).wf(),
        ensures
            final(self).wf(),
            r == match list_key_view(*key) {
                ListKeyView::Close => RenameStep::Closed,
                ListKeyView::Accept => RenameStep::Save,
                ListKeyView::Erase | ListKeyView::Type(_) => RenameStep::Edited,
                _ => RenameStep::Unchanged,
            },
            final(self).is_rename_tab_open == (old(self).is_rename_tab_open && !(list_key_view(
                *key,
            ) is Close)),
            final(self).rename_tab_input@ == match list_key_view(*key) {
                ListKeyView::Erase => erased(old(self).rename_tab_input@),
                ListKeyView::Type(t) => old(self).rename_tab_input@ + t,
                _ => old(self).rename_tab_input@,
            },
            final(self).rename_tab_idx == old(self).rename_tab_idx,
            final(self).tabs@ == old(self).tabs@,
            final(self).active_tab_idx == old(self).active_tab_idx,
            final(self).next_tab_id == old(self).next_tab_id,
            final(self).pending_close == old(self).pending_close,
            final(self).selection == old(self).selection,
    {
        match key {
            ListKey::Close => {
                self.is_rename_tab_open = false;
                RenameStep::Closed
            },
            ListKey::Accept => RenameStep::Save,
            _ => {
                if edit_text(&mut self.rename_tab_input, key) {
                    RenameStep::Edited
                } else {
                    RenameStep::Unchanged
                }
            },
        }
    }
}

} // verus!
