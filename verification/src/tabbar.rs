use vstd::prelude::*;
use vstd::string::StringExecFns;

use crate::search::{shown_title, tab_display_title};
use crate::text::{str_chars, string_from_chars};
use crate::overlays::Overlays;
use crate::pr::PrPickerMode;
use crate::text::str_eq;
use crate::view::{index_of_id, lemma_remove_keeps_wf, tab_ids, RootView, TabData, Workspace};

verus! {

/// A tab as the tab bar shows it.
#[derive(Debug)]
pub struct TabItem {
    pub id: usize,
    pub title: String,
    pub active: bool,
}

/// The label of a tab in the bar: its shown title, marked `[Z] ` while a
/// pane of it is zoomed.
pub open spec fn item_title(t: TabData) -> Seq<char> {
    if t.zoomed_pane is Some {
        "[Z] "@ + shown_title(t)
    } else {
        shown_title(t)
    }
}

impl Workspace {
    /// The tab bar's entries, one per tab in order.
    pub fn tab_items(&self) -> (r: Vec<TabItem>)
        ensures
            r@.len() == self.tabs@.len(),
            forall|i: int|
                0 <= i < r@.len() ==> {
                    &&& #[trigger] r@[i].id == self.tabs@[i].id
                    &&& r@[i].title@ == item_title(self.tabs@[i])
                    &&& r@[i].active == (i == self.active_tab_idx)
                },
    {
        let mut out: Vec<TabItem> = Vec::new();
        let mut i: usize = 0;
        while i < self.tabs.len()
            invariant
                i <= self.tabs.len(),
                out@.len() == i,
                forall|j: int|
                    0 <= j < i ==> {
                        &&& #[trigger] out@[j].id == self.tabs@[j].id
                        &&& out@[j].title@ == item_title(self.tabs@[j])
                        &&& out@[j].active == (j == self.active_tab_idx)
                    },
            decreases self.tabs.len() - i,
        {
            let t = &self.tabs[i];
            let shown = tab_display_title(t);
            let title = if t.zoomed_pane.is_some() {
                let mut s = String::from_str("[Z] ");
                s.append(shown.as_str());
                proof {
                    reveal_strlit("[Z] ");
                }
                s
            } else {
                shown
            };
            out.push(TabItem { id: t.id, title, active: i == self.active_tab_idx });
            i = i + 1;
        }
        out
    }

    /// The panes of the active tab that get a place on screen (and keep
    /// their recorded bounds): the zoomed pane alone while a zoom stands,
    /// else every pane of the tab. A stale zoom is cleared first (see
    /// `resolve_zoom`).
    pub fn laid_out_panes(&mut self) -> (r: Vec<usize>)
        requires
            old(self).wf(),
        ensures
            final(self).wf(),
            *final(self) == (Workspace { tabs: final(self).tabs, ..*old(self) }),
            final(self).tabs@.len() == old(self).tabs@.len(),
            old(self).active_tab_idx < old(self).tabs@.len() ==> ({
                let t = old(self).tabs@[old(self).active_tab_idx as int];
                match t.zoomed_pane {
                    Some(z) => if t.pane_ids@.contains(z) {
                        r@ == seq![z] && final(self).tabs@ == old(self).tabs@
                    } else {
                        r@ == t.pane_ids@ && final(self).tabs@ == old(self).tabs@.update(
                            old(self).active_tab_idx as int,
                            TabData { zoomed_pane: None, ..t },
                        )
                    },
                    None => r@ == t.pane_ids@ && final(self).tabs@ == old(self).tabs@,
                }
            }),
            old(self).active_tab_idx >= old(self).tabs@.len() ==> r@.len() == 0 && final(self).tabs@
                == old(self).tabs@,
    {
        match self.resolve_zoom() {
            Some(z) => {
                let mut v: Vec<usize> = Vec::new();
                v.push(z);
                assert(v@ =~= seq![z]);
                v
            },
            None => {
                let i = self.active_tab_idx;
                if i < self.tabs.len() {
                    self.tabs[i].pane_ids.clone()
                } else {
                    Vec::new()
                }
            },
        }
    }

    /// Takes tab `tab_id` out of this window (to move it to a new one); a
    /// window keeps its last tab. The active index is clamped to the tabs
    /// left.
    pub fn detach_tab(&mut self, tab_id: usize) -> (r: Option<TabData>)
        requires
            old(self).wf(),
        ensures
            final(self).wf(),
            ({
                let idx = index_of_id(tab_ids(old(self).tabs@), tab_id) as int;
                if old(self).tabs@.len() <= 1 || idx == old(self).tabs@.len() {
                    r is None && *final(self) == *old(self)
                } else {
                    &&& r == Some(old(self).tabs@[idx])
                    &&& final(self).tabs@ == old(self).tabs@.remove(idx)
                    &&& final(self).active_tab_idx == (if old(self).active_tab_idx
                        >= final(self).tabs@.len() {
                        (final(self).tabs@.len() - 1) as usize
                    } else {
                        old(self).active_tab_idx
                    })
                    &&& *final(self) == (Workspace {
                        tabs: final(self).tabs,
                        active_tab_idx: final(self).active_tab_idx,
                        ..*old(self)
                    })
                }
            }),
    {
        if self.tabs.len() <= 1 {
            return None;
        }
        match self.tab_index(tab_id) {
            Some(idx) => {
                let ghost pre = self.tabs@;
                let ghost ids = tab_ids(self.tabs@);
                let removed = self.tabs.remove(idx);
                proof {
                    assert(tab_ids(self.tabs@) =~= ids.remove(idx as int));
                    lemma_remove_keeps_wf(ids, idx as int);
                    assert forall|i: int| 0 <= i < self.tabs.len() implies #[trigger] self.tabs@[i].id
                        < self.next_tab_id by {
                        if i < idx {
                            assert(self.tabs@[i] == pre[i]);
                        } else {
                            assert(self.tabs@[i] == pre[i + 1]);
                        }
                    }
                }
                if self.active_tab_idx >= self.tabs.len() {
                    self.active_tab_idx = self.tabs.len() - 1;
                }
                Some(removed)
            },
            None => None,
        }
    }

    /// The pane the active tab draws alone: its zoom target while that pane
    /// is still in the tab. A zoom target that left the tab is cleared.
    pub fn resolve_zoom(&mut self) -> (r: Option<usize>)
        requires
            old(self).wf(),
        ensures
            final(self).wf(),
            final(self).active_tab_idx == old(self).active_tab_idx,
            final(self).next_tab_id == old(self).next_tab_id,
            final(self).exec_pane_id == old(self).exec_pane_id,
            final(self).tabs@.len() == old(self).tabs@.len(),
            *final(self) == (Workspace { tabs: final(self).tabs, ..*old(self) }),
            old(self).active_tab_idx < old(self).tabs@.len() ==> ({
                let t = old(self).tabs@[old(self).active_tab_idx as int];
                match t.zoomed_pane {
                    Some(z) => if t.pane_ids@.contains(z) {
                        r == Some(z) && final(self).tabs@ == old(self).tabs@
                    } else {
                        r is None && final(self).tabs@ == old(self).tabs@.update(
                            old(self).active_tab_idx as int,
                            TabData { zoomed_pane: None, ..t },
                        )
                    },
                    None => r is None && final(self).tabs@ == old(self).tabs@,
                }
            }),
            old(self).active_tab_idx >= old(self).tabs@.len() ==> r is None && final(self).tabs@
                == old(self).tabs@,
    {
        let i = self.active_tab_idx;
        if i >= self.tabs.len() {
            return None;
        }
        let z = match self.tabs[i].zoomed_pane {
            Some(z) => z,
            None => {
                return None;
            },
        };
        let mut found = false;
        let mut k: usize = 0;
        while k < self.tabs[i].pane_ids.len()
            invariant
                i < self.tabs.len(),
                k <= self.tabs@[i as int].pane_ids@.len(),
                found == (exists|j: int|
                    0 <= j < k && #[trigger] self.tabs@[i as int].pane_ids@[j] == z),
            decreases self.tabs@[i as int].pane_ids@.len() - k,
        {
            if self.tabs[i].pane_ids[k] == z {
                found = true;
            }
            k = k + 1;
        }
        if found {
            return Some(z);
        }
        let ghost pre = self.tabs@;
        let mut t = self.tabs.remove(i);
        t.zoomed_pane = None;
        self.tabs.insert(i, t);
        proof {
            assert(self.tabs@ =~= pre.update(i as int, TabData { zoomed_pane: None, ..pre[i as int] }));
            assert(tab_ids(self.tabs@) =~= tab_ids(pre));
            assert forall|j: int| 0 <= j < self.tabs.len() implies #[trigger] self.tabs@[j].id
                < self.next_tab_id by {
                assert(self.tabs@[j].id == pre[j].id);
            }
        }
        None
    }
}

/// The first-run hint: where the command palette, the SSH hosts and the
/// settings are, in the platform's shortcut notation.
pub open spec fn spec_onboarding_hint_text(is_mac: bool) -> Seq<char> {
    if is_mac {
        "Welcome to Fastty — ⌘P commands · ⌘O SSH hosts · ⌘, Settings"@
    } else {
        "Welcome to Fastty — Ctrl+Shift+P commands · Ctrl+Shift+O SSH hosts · Ctrl+, Settings"@
    }
}

/// The text of the first-run hint bar.
pub fn onboarding_hint_text(is_mac: bool) -> (r: &'static str)
    ensures
        r@ == spec_onboarding_hint_text(is_mac),
{
    if is_mac {
        "Welcome to Fastty — ⌘P commands · ⌘O SSH hosts · ⌘, Settings"
    } else {
        "Welcome to Fastty — Ctrl+Shift+P commands · Ctrl+Shift+O SSH hosts · Ctrl+, Settings"
    }
}

impl<F> RootView<F> {
    /// How many notice bars sit between the tab bar and the panes: one for
    /// a configuration error, one for the first-run hint.
    pub fn notice_bars(&self) -> (r: u8)
        ensures
            r == (if self.config_error is Some {
                1int
            } else {
                0
            }) + (if self.show_onboarding_hint {
                1int
            } else {
                0
            }),
    {
        let mut n: u8 = 0;
        if self.config_error.is_some() {
            n = n + 1;
        }
        if self.show_onboarding_hint {
            n = n + 1;
        }
        n
    }

    /// "Got it": the first-run hint is gone for the session.
    pub fn dismiss_onboarding_hint(&mut self)
        ensures
            *final(self) == (RootView { show_onboarding_hint: false, ..*old(self) }),
    {
        self.show_onboarding_hint = false;
    }

    /// "Dismiss": the configuration error banner is gone for the session.
    pub fn dismiss_config_error(&mut self)
        ensures
            *final(self) == (RootView { config_error: None, ..*old(self) }),
    {
        self.config_error = None;
    }
}

/// The banner of a configuration that failed to load: its error, cut to
/// its first 160 characters.
pub open spec fn spec_config_error_banner(err: Seq<char>) -> Seq<char> {
    "Config error — "@ + if err.len() > 160 {
        err.take(160)
    } else {
        err
    }
}

/// The banner text for a configuration error.
pub fn config_error_banner(err: &str) -> (r: String)
    ensures
        r@ == spec_config_error_banner(err@),
{
    let cs = str_chars(err);
    let n = if cs.len() > 160 {
        160
    } else {
        cs.len()
    };
    let mut short: Vec<char> = Vec::new();
    let mut k: usize = 0;
    while k < n
        invariant
            k <= n,
            n <= cs.len(),
            short@ == cs@.take(k as int),
        decreases n - k,
    {
        short.push(cs[k]);
        k = k + 1;
        assert(short@ =~= cs@.take(k as int));
    }
    assert(cs@.take(n as int) =~= (if err@.len() > 160 {
        err@.take(160)
    } else {
        err@
    }));
    let mut s = String::from_str("Config error — ");
    let tail = string_from_chars(short.as_slice());
    s.append(tail.as_str());
    proof {
        reveal_strlit("Config error — ");
    }
    s
}


/// The working directory of the active tab, if known.
pub open spec fn spec_active_cwd(w: Workspace) -> Option<Seq<char>> {
    if w.active_tab_idx < w.tabs@.len() {
        match w.tabs@[w.active_tab_idx as int].cwd {
            Some(c) => Some(c@),
            None => None,
        }
    } else {
        None
    }
}

pub open spec fn opt_view(o: Option<String>) -> Option<Seq<char>> {
    match o {
        Some(s) => Some(s@),
        None => None,
    }
}

fn clone_opt(o: &Option<String>) -> (r: Option<String>)
    ensures
        opt_view(r) == opt_view(*o),
{
    match o {
        Some(s) => Some(s.clone()),
        None => None,
    }
}

fn opt_str_eq(a: &Option<String>, b: &Option<String>) -> (r: bool)
    ensures
        r == (opt_view(*a) == opt_view(*b)),
{
    match (a, b) {
        (Some(x), Some(y)) => str_eq(x.as_str(), y.as_str()),
        (None, None) => true,
        _ => false,
    }
}

impl Workspace {
    /// The active tab's working directory: where a new split, a duplicated
    /// tab or a picker of the active tab starts.
    pub fn active_cwd(&self) -> (r: Option<String>)
        ensures
            opt_view(r) == spec_active_cwd(*self),
    {
        if self.active_tab_idx < self.tabs.len() {
            clone_opt(&self.tabs[self.active_tab_idx].cwd)
        } else {
            None
        }
    }

    /// The directory a duplicate of tab `tab_id` starts in: that tab's
    /// working directory (none for an unknown tab).
    pub fn tab_cwd(&self, tab_id: usize) -> (r: Option<String>)
        ensures
            ({
                let idx = index_of_id(tab_ids(self.tabs@), tab_id);
                opt_view(r) == (if idx < self.tabs@.len() {
                    opt_view(self.tabs@[idx as int].cwd)
                } else {
                    None
                })
            }),
    {
        match self.tab_index(tab_id) {
            Some(i) => clone_opt(&self.tabs[i].cwd),
            None => None,
        }
    }

    /// Records the working directory read from the active pane's process;
    /// returns whether it changed (the session is then saved again).
    pub fn set_active_cwd(&mut self, cwd: String) -> (r: bool)
        requires
            old(self).wf(),
        ensures
            final(self).wf(),
            r == (old(self).active_tab_idx < old(self).tabs@.len() && spec_active_cwd(*old(self))
                != Some(cwd@)),
            r ==> final(self).tabs@.len() == old(self).tabs@.len() && ({
                let i = old(self).active_tab_idx as int;
                let t = old(self).tabs@[i];
                &&& final(self).tabs@[i].cwd matches Some(c) && c@ == cwd@
                &&& final(self).tabs@[i] == (TabData { cwd: final(self).tabs@[i].cwd, ..t })
                &&& forall|j: int| 0 <= j < old(self).tabs@.len() && j != i ==> #[trigger] final(self).tabs@[j]
                    == old(self).tabs@[j]
            }),
            !r ==> final(self).tabs@ == old(self).tabs@,
            *final(self) == (Workspace { tabs: final(self).tabs, ..*old(self) }),
    {
        let i = self.active_tab_idx;
        if i >= self.tabs.len() {
            return false;
        }
        let same = match &self.tabs[i].cwd {
            Some(c) => str_eq(c.as_str(), cwd.as_str()),
            None => false,
        };
        if same {
            return false;
        }
        let ghost pre = self.tabs@;
        let mut t = self.tabs.remove(i);
        t.cwd = Some(cwd);
        self.tabs.insert(i, t);
        proof {
            assert(tab_ids(self.tabs@) =~= tab_ids(pre));
            assert forall|j: int| 0 <= j < self.tabs.len() implies #[trigger] self.tabs@[j].id
                < self.next_tab_id by {
                assert(self.tabs@[j].id == pre[j].id);
            }
            assert forall|j: int| 0 <= j < pre.len() && j != i implies #[trigger] self.tabs@[j]
                == pre[j] by {
                assert(self.tabs@[j] == pre[j]);
            }
        }
        true
    }
}

fn close_if_stale(open: &mut bool, picker_cwd: &Option<String>, cwd: &Option<String>) -> (r: bool)
    ensures
        r == (*old(open) && opt_view(*picker_cwd) != opt_view(*cwd)),
        *final(open) == (*old(open) && !r),
{
    if !*open {
        return false;
    }
    if opt_str_eq(cwd, picker_cwd) {
        return false;
    }
    *open = false;
    true
}

impl<F> RootView<F> {
    /// Toggles the pull-request picker; opening it lists the pull requests
    /// of the active tab's directory (see `Overlays::toggle_pr_picker`).
    pub fn toggle_pr_picker(&mut self)
        ensures
            final(self).workspace == old(self).workspace,
            if old(self).overlays.is_pr_picker_open {
                final(self).overlays == (Overlays { is_pr_picker_open: false, ..old(self).overlays })
            } else {
                &&& final(self).overlays == (Overlays { is_pr_picker_open: true, is_settings_open: false, is_context_menu_open: false, is_about_open: false, is_command_palette_open: false, is_ssh_manager_open: false, is_snippet_picker_open: false, is_search_open: false, is_worktree_picker_open: false, is_project_jumper_open: false, pr_picker_query: final(self).overlays.pr_picker_query, pr_picker_selected: 0, pr_picker_mode: PrPickerMode::Browse, pr_picker_cwd: final(self).overlays.pr_picker_cwd, ..old(self).overlays })
                &&& opt_view(final(self).overlays.pr_picker_cwd) == spec_active_cwd(old(self).workspace)
                &&& final(self).overlays.pr_picker_query@.len() == 0
            },
    {
        let cwd = self.workspace.active_cwd();
        self.overlays.toggle_pr_picker(cwd);
    }

    /// Before drawing: a pull-request picker opened for another directory
    /// than the active tab's closes rather than act on stale data. Returns
    /// whether it closed.
    pub fn close_stale_pr_picker(&mut self) -> (r: bool)
        ensures
            r == (old(self).overlays.is_pr_picker_open && opt_view(old(self).overlays.pr_picker_cwd)
                != spec_active_cwd(old(self).workspace)),
            final(self).overlays == (Overlays {
                is_pr_picker_open: old(self).overlays.is_pr_picker_open && !r,
                ..old(self).overlays
            }),
            final(self).workspace == old(self).workspace,
    {
        let cwd = self.workspace.active_cwd();
        close_if_stale(&mut self.overlays.is_pr_picker_open, &self.overlays.pr_picker_cwd, &cwd)
    }
}

} // verus!
