use vstd::prelude::*;

use crate::ai::AiState;
use crate::overlays::Overlays;
use crate::palette::{
    filter_palette_commands, get_all_palette_commands, palette_action, palette_preview_kind,
    record_recent, spec_filtered_palette_commands, spec_palette_action, spec_palette_commands,
    spec_palette_preview_kind, spec_record_recent, strings_view, PaletteAction, PaletteCommand,
    TabLayout,
};
use crate::selection::{GridPoint, Selection};
use crate::text::{lemma_filter_step, trim_str, trimmed};
use crate::update::UpdateState;

verus! {

/// The plain state of one tab: its id, titles, and the panes of its split
/// tree (in the tree's order).
#[derive(Debug)]
pub struct TabData {
    pub id: usize,
    pub title: String,
    pub custom_title: Option<String>,
    pub pane_ids: Vec<usize>,
    pub active_pane_id: usize,
    /// Zoomed pane (tmux `prefix+z` semantics): it takes the whole terminal
    /// area until toggled off. Per-tab, transient.
    pub zoomed_pane: Option<usize>,
    pub last_duration_ms: Option<u128>,
    pub last_exit_code: Option<i32>,
    /// The working directory of the tab's active pane, as last read from its
    /// process (none until read).
    pub cwd: Option<String>,
}

/// What should be closed once the user confirms.
#[derive(Clone, Copy, Debug, PartialEq, Eq, Structural)]
pub enum CloseTarget {
    Pane { tab_id: usize, pane_id: usize },
    Tab { tab_id: usize },
    OtherTabs { keep_id: usize },
}

/// A pane whose child process is still running.
#[derive(Debug)]
pub struct RunningProcessInfo {
    pub pane_id: usize,
    pub process_name: String,
    pub pid: u32,
}

/// A close request waiting for confirmation because processes still run.
#[derive(Debug)]
pub struct PendingClose {
    pub target: CloseTarget,
    pub running_processes: Vec<RunningProcessInfo>,
}

/// What a close request did.
#[derive(Debug)]
pub enum CloseOutcome {
    /// Processes still run: the request waits in `pending_close`.
    AwaitingConfirmation,
    /// The tabs were removed; these panes must be terminated.
    Closed(Vec<usize>),
    /// Nothing matched the request.
    Nothing,
}

/// The ids of a list of tabs, in order.
pub open spec fn tab_ids(tabs: Seq<TabData>) -> Seq<usize> {
    tabs.map_values(|t: TabData| t.id)
}

/// The position of the first occurrence of `id`, or the length.
pub open spec fn index_of_id(ids: Seq<usize>, id: usize) -> nat
    decreases ids.len(),
{
    if ids.len() == 0 {
        0
    } else if ids[0] == id {
        0
    } else {
        1 + index_of_id(ids.drop_first(), id)
    }
}

/// What `index_of_id` is: the first index holding `id`, or the length.
pub proof fn lemma_index_of_id(ids: Seq<usize>, id: usize)
    ensures
        index_of_id(ids, id) <= ids.len(),
        index_of_id(ids, id) < ids.len() ==> ids[index_of_id(ids, id) as int] == id,
        forall|j: int| 0 <= j < index_of_id(ids, id) ==> ids[j] != id,
        index_of_id(ids, id) == ids.len() <==> !ids.contains(id),
    decreases ids.len(),
{
    if ids.len() > 0 && ids[0] != id {
        lemma_index_of_id(ids.drop_first(), id);
        assert forall|j: int| 0 <= j < index_of_id(ids, id) implies ids[j] != id by {
            if j > 0 {
                assert(ids[j] == ids.drop_first()[j - 1]);
            }
        }
        if ids.contains(id) {
            let k = choose|k: int| 0 <= k < ids.len() && ids[k] == id;
            assert(ids.drop_first()[k - 1] == id);
        }
        if index_of_id(ids, id) < ids.len() {
            assert(ids.contains(id));
        }
    } else if ids.len() > 0 {
        assert(ids.contains(id));
    }
}

proof fn lemma_index_is(ids: Seq<usize>, id: usize, i: int)
    requires
        0 <= i <= ids.len(),
        forall|j: int| 0 <= j < i ==> ids[j] != id,
        i == ids.len() || ids[i] == id,
    ensures
        index_of_id(ids, id) == i,
    decreases i,
{
    if i > 0 {
        lemma_index_is(ids.drop_first(), id, i - 1);
    }
}

/// The running processes of the given panes, in pane order (the first
/// report for each pane).
pub open spec fn running_for_panes(
    panes: Seq<usize>,
    running: Seq<RunningProcessInfo>,
) -> Seq<RunningProcessInfo>
    decreases panes.len(),
{
    if panes.len() == 0 {
        Seq::empty()
    } else {
        let earlier = running_for_panes(panes.drop_last(), running);
        let p = panes.last();
        let k = index_of_id(running.map_values(|r: RunningProcessInfo| r.pane_id), p);
        if k < running.len() {
            earlier.push(running[k as int])
        } else {
            earlier
        }
    }
}

/// All panes of a list of tabs, tab by tab.
pub open spec fn panes_of_tabs(tabs: Seq<TabData>) -> Seq<usize>
    decreases tabs.len(),
{
    if tabs.len() == 0 {
        Seq::empty()
    } else {
        panes_of_tabs(tabs.drop_last()) + tabs.last().pane_ids@
    }
}

/// The tabs other than `keep_id`, in order.
pub open spec fn other_tabs(tabs: Seq<TabData>, keep_id: usize) -> Seq<TabData> {
    tabs.filter(|t: TabData| t.id != keep_id)
}

/// The tabs of a window and everything that refers to them: the active
/// tab, id counters, the pane whose exit quits the app, the text selection,
/// the pending close request and the rename dialog.
pub struct Workspace {
    pub tabs: Vec<TabData>,
    pub active_tab_idx: usize,
    pub next_tab_id: usize,
    pub next_pane_id: usize,
    /// The pane of a `-e`/`--exec` tab: when its process exits the app quits.
    pub exec_pane_id: Option<usize>,
    pub selection: Option<Selection>,
    pub is_selecting: bool,
    /// The pointer moved with the button held since the selection began.
    pub has_selection_dragged: bool,
    pub selection_start: Option<GridPoint>,
    pub pending_close: Option<PendingClose>,
    pub is_rename_tab_open: bool,
    pub rename_tab_idx: usize,
    pub rename_tab_input: String,
}

impl Workspace {
    /// The invariant: the active index points at a tab whenever there is
    /// one, tab ids are distinct and all below `next_tab_id`.
    pub open spec fn wf(&self) -> bool {
        &&& (self.tabs.len() == 0 || self.active_tab_idx < self.tabs.len())
        &&& tab_ids(self.tabs@).no_duplicates()
        &&& forall|i: int| 0 <= i < self.tabs.len() ==> #[trigger] self.tabs@[i].id < self.next_tab_id
    }

    /// No text selection and no selection drag in progress.
    pub open spec fn selection_cleared(&self) -> bool {
        &&& self.selection is None
        &&& !self.is_selecting
        &&& self.selection_start is None
    }

    /// A window without tabs yet.
    pub fn new() -> (r: Self)
        ensures
            r.wf(),
            r.tabs@.len() == 0,
            r.next_tab_id == 1,
            r.next_pane_id == 1,
            r.exec_pane_id is None,
            r.pending_close is None,
            r.selection_cleared(),
            !r.is_rename_tab_open,
    {
        Workspace {
            tabs: Vec::new(),
            active_tab_idx: 0,
            next_tab_id: 1,
            next_pane_id: 1,
            exec_pane_id: None,
            selection: None,
            is_selecting: false,
            has_selection_dragged: false,
            selection_start: None,
            pending_close: None,
            is_rename_tab_open: false,
            rename_tab_idx: 0,
            rename_tab_input: String::new(),
        }
    }

    /// The position of the tab with id `tab_id`, if any.
    pub fn tab_index(&self, tab_id: usize) -> (r: Option<usize>)
        ensures
            r matches Some(i) ==> i == index_of_id(tab_ids(self.tabs@), tab_id) && i
                < self.tabs.len() && self.tabs@[i as int].id == tab_id,
            r is None ==> index_of_id(tab_ids(self.tabs@), tab_id) == self.tabs.len(),
    {
        let ghost ids = tab_ids(self.tabs@);
        let mut i: usize = 0;
        while i < self.tabs.len()
            invariant
                i <= self.tabs.len(),
                ids == tab_ids(self.tabs@),
                forall|j: int| 0 <= j < i ==> ids[j] != tab_id,
            decreases self.tabs.len() - i,
        {
            if self.tabs[i].id == tab_id {
                proof {
                    lemma_index_is(ids, tab_id, i as int);
                }
                return Some(i);
            }
            i = i + 1;
        }
        proof {
            lemma_index_is(ids, tab_id, i as int);
        }
        None
    }

    /// Drops the text selection.
    pub fn clear_selection(&mut self)
        ensures
            final(self).selection_cleared(),
            final(self).tabs@ == old(self).tabs@,
            final(self).active_tab_idx == old(self).active_tab_idx,
            final(self).next_tab_id == old(self).next_tab_id,
            final(self).next_pane_id == old(self).next_pane_id,
            final(self).exec_pane_id == old(self).exec_pane_id,
            final(self).pending_close == old(self).pending_close,
            final(self).is_rename_tab_open == old(self).is_rename_tab_open,
            final(self).rename_tab_idx == old(self).rename_tab_idx,
            final(self).rename_tab_input == old(self).rename_tab_input,
    {
        self.selection = None;
        self.is_selecting = false;
        self.selection_start = None;
    }

    /// Activates the tab with id `tab_id`; switching tabs drops the text
    /// selection. Returns whether the tab exists.
    pub fn select_tab(&mut self, tab_id: usize) -> (r: bool)
        requires
            old(self).wf(),
        ensures
            final(self).wf(),
            r == (index_of_id(tab_ids(old(self).tabs@), tab_id) < old(self).tabs@.len()),
            final(self).tabs@ == old(self).tabs@,
            r ==> final(self).active_tab_idx == index_of_id(tab_ids(old(self).tabs@), tab_id),
            r ==> final(self).tabs@[final(self).active_tab_idx as int].id == tab_id,
            !r ==> final(self).active_tab_idx == old(self).active_tab_idx,
            final(self).active_tab_idx != old(self).active_tab_idx ==> final(self).selection_cleared(),
            final(self).active_tab_idx == old(self).active_tab_idx ==> final(self).selection
                == old(self).selection && final(self).is_selecting == old(self).is_selecting
                && final(self).selection_start == old(self).selection_start,
            final(self).next_tab_id == old(self).next_tab_id,
            final(self).exec_pane_id == old(self).exec_pane_id,
    {
        match self.tab_index(tab_id) {
            Some(idx) => {
                if self.active_tab_idx != idx {
                    self.clear_selection();
                }
                self.active_tab_idx = idx;
                true
            },
            None => false,
        }
    }
}


pub(crate) fn vec_contains(v: &Vec<usize>, x: usize) -> (r: bool)
    ensures
        r == v@.contains(x),
{
    let mut i: usize = 0;
    while i < v.len()
        invariant
            i <= v.len(),
            forall|j: int| 0 <= j < i ==> v@[j] != x,
        decreases v.len() - i,
    {
        if v[i] == x {
            assert(v@[i as int] == x);
            return true;
        }
        i = i + 1;
    }
    false
}

/// A copy of a running-process report.
pub fn clone_running(r: &RunningProcessInfo) -> (c: RunningProcessInfo)
    ensures
        c == *r,
{
    RunningProcessInfo { pane_id: r.pane_id, process_name: r.process_name.clone(), pid: r.pid }
}

/// The pane ids of a list of running-process reports.
pub open spec fn running_panes(running: Seq<RunningProcessInfo>) -> Seq<usize> {
    running.map_values(|r: RunningProcessInfo| r.pane_id)
}

fn find_running(running: &Vec<RunningProcessInfo>, pane: usize) -> (r: Option<usize>)
    ensures
        r matches Some(k) ==> k == index_of_id(running_panes(running@), pane) && k < running.len(),
        r is None ==> index_of_id(running_panes(running@), pane) == running.len(),
{
    let ghost ids = running_panes(running@);
    let mut i: usize = 0;
    while i < running.len()
        invariant
            i <= running.len(),
            ids == running_panes(running@),
            forall|j: int| 0 <= j < i ==> ids[j] != pane,
        decreases running.len() - i,
    {
        if running[i].pane_id == pane {
            proof {
                lemma_index_is(ids, pane, i as int);
            }
            return Some(i);
        }
        i = i + 1;
    }
    proof {
        lemma_index_is(ids, pane, i as int);
    }
    None
}

/// The running processes of `panes`, in pane order.
pub fn running_of(panes: &Vec<usize>, running: &Vec<RunningProcessInfo>) -> (r: Vec<
    RunningProcessInfo,
>)
    ensures
        r@ == running_for_panes(panes@, running@),
{
    let mut out: Vec<RunningProcessInfo> = Vec::new();
    let mut i: usize = 0;
    assert(panes@.take(0) =~= Seq::<usize>::empty());
    while i < panes.len()
        invariant
            i <= panes.len(),
            out@ == running_for_panes(panes@.take(i as int), running@),
        decreases panes.len() - i,
    {
        assert(panes@.take(i + 1).drop_last() =~= panes@.take(i as int));
        assert(panes@.take(i + 1).last() == panes@[i as int]);
        match find_running(running, panes[i]) {
            Some(k) => {
                out.push(clone_running(&running[k]));
            },
            None => {},
        }
        i = i + 1;
    }
    assert(panes@.take(panes.len() as int) =~= panes@);
    out
}

/// What closing tab `tab_id` without confirmation does to the workspace.
pub open spec fn tab_force_closed(pre: Workspace, post: Workspace, tab_id: usize, removed: Option<
    Seq<usize>,
>) -> bool {
    let idx = index_of_id(tab_ids(pre.tabs@), tab_id);
    &&& post.selection_cleared()
    &&& post.pending_close == pre.pending_close
    &&& if idx < pre.tabs.len() {
        let panes = pre.tabs@[idx as int].pane_ids@;
        &&& removed == Some(panes)
        &&& if pre.tabs.len() == 1 {
            &&& post.tabs@.len() == 1
            &&& fresh_tab(post.tabs@[0], pre.next_tab_id, pre.next_pane_id)
            &&& post.active_tab_idx == 0
            &&& post.next_tab_id == pre.next_tab_id + 1
            &&& post.next_pane_id == pre.next_pane_id + 1
        } else {
            &&& post.tabs@ == pre.tabs@.remove(idx as int)
            &&& post.active_tab_idx == (if pre.active_tab_idx >= post.tabs.len() {
                (post.tabs.len() - 1) as usize
            } else {
                pre.active_tab_idx
            })
            &&& post.next_tab_id == pre.next_tab_id
            &&& post.next_pane_id == pre.next_pane_id
        }
        &&& post.exec_pane_id == (match pre.exec_pane_id {
            Some(e) => if panes.contains(e) {
                None
            } else {
                Some(e)
            },
            None => None,
        })
    } else {
        &&& removed is None
        &&& post.tabs@ == pre.tabs@
        &&& post.active_tab_idx == pre.active_tab_idx
        &&& post.exec_pane_id == pre.exec_pane_id
        &&& post.next_tab_id == pre.next_tab_id
        &&& post.next_pane_id == pre.next_pane_id
    }
}

/// A tab just opened with one pane and nothing set yet (its title comes
/// from the shell the UI starts in the pane).
pub open spec fn fresh_tab(t: TabData, id: usize, pane: usize) -> bool {
    &&& t.id == id
    &&& t.title@.len() == 0
    &&& t.custom_title is None
    &&& t.pane_ids@ == seq![pane]
    &&& t.active_pane_id == pane
    &&& t.zoomed_pane is None
    &&& t.last_duration_ms is None
    &&& t.last_exit_code is None
    &&& t.cwd is None
}

impl Workspace {
    /// Room for the fresh tab that replaces a closed last tab: the id
    /// counters can still count up.
    pub open spec fn room_for_fresh_tab(&self) -> bool {
        self.tabs.len() <= 1 ==> self.next_tab_id < usize::MAX && self.next_pane_id < usize::MAX
    }
}

pub(crate) proof fn lemma_remove_keeps_wf(ids: Seq<usize>, idx: int)
    requires
        ids.no_duplicates(),
        0 <= idx < ids.len(),
    ensures
        ids.remove(idx).no_duplicates(),
{
    let r = ids.remove(idx);
    assert forall|a: int, b: int| 0 <= a < r.len() && 0 <= b < r.len() && a != b implies r[a]
        != r[b] by {
        let ia = if a < idx { a } else { a + 1 };
        let ib = if b < idx { b } else { b + 1 };
        assert(r[a] == ids[ia]);
        assert(r[b] == ids[ib]);
    }
}

/// The panes that a close removed, by value.
pub open spec fn closed_panes(r: CloseOutcome) -> Option<Seq<usize>> {
    match r {
        CloseOutcome::Closed(v) => Some(v@),
        _ => None,
    }
}

impl Workspace {
    /// Closes tab `tab_id` without asking: its panes are returned for the
    /// UI to terminate. A window never stays without tabs: closing the last
    /// one opens a fresh tab (whose pane the UI starts a shell in); else the
    /// active index is clamped to the last tab.
    pub fn force_close_tab(&mut self, tab_id: usize) -> (r: Option<Vec<usize>>)
        requires
            old(self).wf(),
            old(self).room_for_fresh_tab(),
        ensures
            final(self).wf(),
            tab_force_closed(*old(self), *final(self), tab_id, match r {
                Some(v) => Some(v@),
                None => None,
            }),
    {
        self.clear_selection();
        let ghost pre = *old(self);
        match self.tab_index(tab_id) {
            Some(idx) => {
                let ghost ids = tab_ids(self.tabs@);
                let removed = self.tabs.remove(idx);
                proof {
                    assert(tab_ids(self.tabs@) =~= ids.remove(idx as int));
                    lemma_remove_keeps_wf(ids, idx as int);
                    assert forall|i: int| 0 <= i < self.tabs.len() implies #[trigger] self.tabs@[i].id
                        < self.next_tab_id by {
                        if i < idx {
                            assert(self.tabs@[i] == pre.tabs@[i]);
                        } else {
                            assert(self.tabs@[i] == pre.tabs@[i + 1]);
                        }
                    }
                }
                match self.exec_pane_id {
                    Some(e) => {
                        if vec_contains(&removed.pane_ids, e) {
                            self.exec_pane_id = None;
                        }
                    },
                    None => {},
                }
                if self.tabs.len() == 0 {
                    let pane = self.allocate_pane_id();
                    self.add_tab(String::new(), pane);
                } else if self.active_tab_idx >= self.tabs.len() {
                    self.active_tab_idx = self.tabs.len() - 1;
                }
                Some(removed.pane_ids)
            },
            None => None,
        }
    }

    /// Asks to close tab `tab_id`. When any of its panes still runs a
    /// process (`running` lists every running pane), the request waits in
    /// `pending_close` with those processes; otherwise the tab closes.
    pub fn close_tab(&mut self, tab_id: usize, running: &Vec<RunningProcessInfo>) -> (r:
        CloseOutcome)
        requires
            old(self).wf(),
            old(self).room_for_fresh_tab(),
        ensures
            final(self).wf(),
            ({
                let idx = index_of_id(tab_ids(old(self).tabs@), tab_id);
                let procs = if idx < old(self).tabs.len() {
                    running_for_panes(old(self).tabs@[idx as int].pane_ids@, running@)
                } else {
                    Seq::empty()
                };
                if procs.len() > 0 {
                    &&& r is AwaitingConfirmation
                    &&& final(self).tabs@ == old(self).tabs@
                    &&& final(self).active_tab_idx == old(self).active_tab_idx
                    &&& final(self).exec_pane_id == old(self).exec_pane_id
                    &&& final(self).pending_close matches Some(pc) && pc.target == (CloseTarget::Tab {
                        tab_id,
                    }) && pc.running_processes@ == procs
                } else {
                    &&& !(r is AwaitingConfirmation)
                    &&& tab_force_closed(*old(self), *final(self), tab_id, closed_panes(r))
                }
            }),
    {
        if let Some(idx) = self.tab_index(tab_id) {
            let procs = running_of(&self.tabs[idx].pane_ids, running);
            if procs.len() > 0 {
                self.pending_close = Some(
                    PendingClose { target: CloseTarget::Tab { tab_id }, running_processes: procs },
                );
                return CloseOutcome::AwaitingConfirmation;
            }
        }
        match self.force_close_tab(tab_id) {
            Some(v) => CloseOutcome::Closed(v),
            None => CloseOutcome::Nothing,
        }
    }
}

proof fn lemma_filter_empty<A>(s: Seq<A>, pred: spec_fn(A) -> bool)
    ensures
        s.take(0).filter(pred) == Seq::<A>::empty(),
{
    reveal(Seq::filter);
    assert(s.take(0) =~= Seq::<A>::empty());
}

proof fn lemma_panes_of_tabs_push(tabs: Seq<TabData>, t: TabData)
    ensures
        panes_of_tabs(tabs.push(t)) == panes_of_tabs(tabs) + t.pane_ids@,
{
    assert(tabs.push(t).drop_last() =~= tabs);
}

fn append_ids(out: &mut Vec<usize>, v: &Vec<usize>)
    ensures
        final(out)@ == old(out)@ + v@,
{
    let mut i: usize = 0;
    while i < v.len()
        invariant
            i <= v.len(),
            out@ == old(out)@ + v@.take(i as int),
        decreases v.len() - i,
    {
        out.push(v[i]);
        i = i + 1;
        assert(out@ =~= old(out)@ + v@.take(i as int));
    }
    assert(v@.take(v.len() as int) =~= v@);
}

/// The panes of every tab other than `keep_id`, tab by tab.
pub open spec fn other_panes(tabs: Seq<TabData>, keep_id: usize) -> Seq<usize> {
    panes_of_tabs(other_tabs(tabs, keep_id))
}

/// The tabs left when only `keep_id` is kept (ids are distinct, so at most one).
pub open spec fn only_tab(tabs: Seq<TabData>, keep_id: usize) -> Seq<TabData> {
    let idx = index_of_id(tab_ids(tabs), keep_id);
    if idx < tabs.len() {
        seq![tabs[idx as int]]
    } else {
        Seq::empty()
    }
}

impl Workspace {
    /// Hands out the id of a new pane.
    pub fn allocate_pane_id(&mut self) -> (r: usize)
        requires
            old(self).wf(),
            old(self).next_pane_id < usize::MAX,
        ensures
            final(self).wf(),
            r == old(self).next_pane_id,
            final(self).next_pane_id == old(self).next_pane_id + 1,
            final(self).tabs@ == old(self).tabs@,
            final(self).active_tab_idx == old(self).active_tab_idx,
            final(self).next_tab_id == old(self).next_tab_id,
            *final(self) == (Workspace { next_pane_id: final(self).next_pane_id, ..*old(self) }),
    {
        let id = self.next_pane_id;
        self.next_pane_id = self.next_pane_id + 1;
        id
    }

    /// Adds a tab holding one freshly spawned pane and makes it active.
    pub fn add_tab(&mut self, title: String, pane_id: usize) -> (r: usize)
        requires
            old(self).wf(),
            old(self).next_tab_id < usize::MAX,
        ensures
            final(self).wf(),
            r == old(self).next_tab_id,
            final(self).next_tab_id == old(self).next_tab_id + 1,
            final(self).next_pane_id == old(self).next_pane_id,
            final(self).tabs@.len() == old(self).tabs@.len() + 1,
            final(self).tabs@.drop_last() == old(self).tabs@,
            final(self).tabs@.last().id == r,
            final(self).tabs@.last().title@ == title@,
            final(self).tabs@.last().custom_title is None,
            final(self).tabs@.last().pane_ids@ == seq![pane_id],
            final(self).tabs@.last().active_pane_id == pane_id,
            final(self).tabs@.last().zoomed_pane is None,
            final(self).tabs@.last().last_duration_ms is None,
            final(self).tabs@.last().last_exit_code is None,
            final(self).tabs@.last().cwd is None,
            final(self).active_tab_idx == old(self).tabs@.len(),
            *final(self) == (Workspace {
                tabs: final(self).tabs,
                active_tab_idx: final(self).active_tab_idx,
                next_tab_id: final(self).next_tab_id,
                ..*old(self)
            }),
    {
        let tab_id = self.next_tab_id;
        self.next_tab_id = self.next_tab_id + 1;
        let mut panes: Vec<usize> = Vec::new();
        panes.push(pane_id);
        let ghost before = self.tabs@;
        self.tabs.push(
            TabData {
                id: tab_id,
                title,
                custom_title: None,
                pane_ids: panes,
                active_pane_id: pane_id,
                zoomed_pane: None,
                last_duration_ms: None,
                last_exit_code: None,
                cwd: None,
            },
        );
        self.active_tab_idx = self.tabs.len() - 1;
        proof {
            assert(self.tabs@.drop_last() =~= before);
            assert(tab_ids(self.tabs@) =~= tab_ids(before).push(tab_id));
            assert forall|i: int| 0 <= i < tab_ids(before).len() implies tab_ids(before)[i]
                != tab_id by {
                assert(before[i].id < tab_id);
            }
            assert forall|i: int| 0 <= i < self.tabs.len() implies #[trigger] self.tabs@[i].id
                < self.next_tab_id by {
                if i < before.len() {
                    assert(self.tabs@[i] == before[i]);
                }
            }
        }
        tab_id
    }

    /// The panes of all tabs but `keep_id`, tab by tab.
    pub fn panes_of_other_tabs(&self, keep_id: usize) -> (r: Vec<usize>)
        ensures
            r@ == other_panes(self.tabs@, keep_id),
    {
        let ghost pred = |t: TabData| t.id != keep_id;
        let mut out: Vec<usize> = Vec::new();
        let mut i: usize = 0;
        proof {
            lemma_filter_empty(self.tabs@, pred);
        }
        while i < self.tabs.len()
            invariant
                i <= self.tabs.len(),
                pred == (|t: TabData| t.id != keep_id),
                out@ == panes_of_tabs(self.tabs@.take(i as int).filter(pred)),
            decreases self.tabs.len() - i,
        {
            proof {
                lemma_filter_step(self.tabs@, pred, i as int);
                lemma_panes_of_tabs_push(self.tabs@.take(i as int).filter(pred), self.tabs@[i as int]);
            }
            if self.tabs[i].id != keep_id {
                append_ids(&mut out, &self.tabs[i].pane_ids);
            }
            i = i + 1;
        }
        assert(self.tabs@.take(self.tabs.len() as int) =~= self.tabs@);
        out
    }

    /// Closes every tab but `keep_id` without asking; their panes are
    /// returned for the UI to terminate, and the first tab becomes active.
    pub fn force_close_other_tabs(&mut self, keep_id: usize) -> (r: Vec<usize>)
        requires
            old(self).wf(),
        ensures
            final(self).wf(),
            r@ == other_panes(old(self).tabs@, keep_id),
            final(self).tabs@ == only_tab(old(self).tabs@, keep_id),
            final(self).active_tab_idx == 0,
            final(self).next_tab_id == old(self).next_tab_id,
            final(self).next_pane_id == old(self).next_pane_id,
            final(self).exec_pane_id == old(self).exec_pane_id,
            final(self).pending_close == old(self).pending_close,
            final(self).selection == old(self).selection,
            final(self).is_selecting == old(self).is_selecting,
            final(self).selection_start == old(self).selection_start,
    {
        let removed = self.panes_of_other_tabs(keep_id);
        let ghost pre = self.tabs@;
        match self.tab_index(keep_id) {
            Some(idx) => {
                let kept = self.tabs.remove(idx);
                self.tabs.clear();
                self.tabs.push(kept);
                proof {
                    assert(self.tabs@ =~= seq![pre[idx as int]]);
                    assert(tab_ids(self.tabs@) =~= seq![keep_id]);
                }
            },
            None => {
                self.tabs.clear();
                proof {
                    assert(tab_ids(self.tabs@) =~= Seq::<usize>::empty());
                }
            },
        }
        self.active_tab_idx = 0;
        removed
    }

    /// Asks to close every tab but `keep_id`. When a pane of those tabs
    /// still runs a process, the request waits in `pending_close`.
    pub fn close_other_tabs(&mut self, keep_id: usize, running: &Vec<RunningProcessInfo>) -> (r:
        CloseOutcome)
        requires
            old(self).wf(),
        ensures
            final(self).wf(),
            ({
                let procs = running_for_panes(other_panes(old(self).tabs@, keep_id), running@);
                if procs.len() > 0 {
                    &&& r is AwaitingConfirmation
                    &&& final(self).tabs@ == old(self).tabs@
                    &&& final(self).active_tab_idx == old(self).active_tab_idx
                    &&& final(self).pending_close matches Some(pc) && pc.target
                        == (CloseTarget::OtherTabs { keep_id }) && pc.running_processes@ == procs
                } else {
                    &&& closed_panes(r) == Some(other_panes(old(self).tabs@, keep_id))
                    &&& final(self).tabs@ == only_tab(old(self).tabs@, keep_id)
                    &&& final(self).active_tab_idx == 0
                    &&& final(self).pending_close == old(self).pending_close
                }
            }),
            final(self).next_tab_id == old(self).next_tab_id,
            final(self).exec_pane_id == old(self).exec_pane_id,
    {
        let panes = self.panes_of_other_tabs(keep_id);
        let procs = running_of(&panes, running);
        if procs.len() > 0 {
            self.pending_close = Some(
                PendingClose { target: CloseTarget::OtherTabs { keep_id }, running_processes: procs },
            );
            return CloseOutcome::AwaitingConfirmation;
        }
        CloseOutcome::Closed(self.force_close_other_tabs(keep_id))
    }
}

/// Zoom toggling on the active pane: zoom it, or unzoom when it is zoomed.
pub open spec fn toggled_zoom(zoomed: Option<usize>, active: usize) -> Option<usize> {
    if zoomed == Some(active) {
        None
    } else {
        Some(active)
    }
}

/// Toggling zoom twice restores the previous zoom state, from either an
/// unzoomed tab or one whose active pane is zoomed.
pub proof fn lemma_toggle_zoom_twice(zoomed: Option<usize>, active: usize)
    requires
        zoomed is None || zoomed == Some(active),
    ensures
        toggled_zoom(toggled_zoom(zoomed, active), active) == zoomed,
{
}

/// The position of the first tab holding pane `pane`, or the number of tabs.
pub open spec fn tab_with_pane(tabs: Seq<TabData>, pane: usize) -> nat
    decreases tabs.len(),
{
    if tabs.len() == 0 {
        0
    } else if tabs[0].pane_ids@.contains(pane) {
        0
    } else {
        1 + tab_with_pane(tabs.drop_first(), pane)
    }
}

proof fn lemma_tab_with_pane_is(tabs: Seq<TabData>, pane: usize, i: int)
    requires
        0 <= i <= tabs.len(),
        forall|j: int| 0 <= j < i ==> !tabs[j].pane_ids@.contains(pane),
        i == tabs.len() || tabs[i].pane_ids@.contains(pane),
    ensures
        tab_with_pane(tabs, pane) == i,
    decreases i,
{
    if i > 0 {
        lemma_tab_with_pane_is(tabs.drop_first(), pane, i - 1);
    }
}

/// What closing a pane asks of the UI.
#[derive(Debug)]
pub enum PaneCloseOutcome {
    /// No tab holds the pane.
    NotFound,
    /// The pane was the last of its tab: the tab close did this.
    Tab(CloseOutcome),
    /// The pane still runs a process: the request waits for confirmation.
    AwaitingConfirmation,
    /// The UI closes the pane in its split tree, then reports back with
    /// `force_close_pane`.
    ClosePane { tab_id: usize },
}

/// What confirming a pending close asks of the UI.
#[derive(Debug)]
pub enum ConfirmOutcome {
    /// Nothing was pending, or its tabs are gone.
    Nothing,
    /// These tabs' panes were removed: the UI terminates them.
    Closed(Vec<usize>),
    /// The UI closes the pane in its split tree, then reports back.
    ClosePane { tab_id: usize, pane_id: usize },
}

impl Workspace {
    /// Toggles zoom on the active pane of the active tab (tmux `prefix+z`):
    /// no-op with fewer than two panes.
    pub fn toggle_pane_zoom(&mut self)
        requires
            old(self).wf(),
        ensures
            final(self).wf(),
            final(self).active_tab_idx == old(self).active_tab_idx,
            final(self).next_tab_id == old(self).next_tab_id,
            final(self).tabs@.len() == old(self).tabs@.len(),
            forall|i: int|
                0 <= i < old(self).tabs@.len() && i != old(self).active_tab_idx
                    ==> #[trigger] final(self).tabs@[i] == old(self).tabs@[i],
            old(self).active_tab_idx < old(self).tabs@.len() ==> ({
                let t = old(self).tabs@[old(self).active_tab_idx as int];
                let u = final(self).tabs@[old(self).active_tab_idx as int];
                &&& u.id == t.id
                &&& u.title == t.title
                &&& u.custom_title == t.custom_title
                &&& u.pane_ids == t.pane_ids
                &&& u.active_pane_id == t.active_pane_id
                &&& u.zoomed_pane == (if t.pane_ids@.len() < 2 {
                    t.zoomed_pane
                } else {
                    toggled_zoom(t.zoomed_pane, t.active_pane_id)
                })
                &&& u == (TabData { zoomed_pane: u.zoomed_pane, ..t })
            }),
            old(self).active_tab_idx >= old(self).tabs@.len() ==> final(self).tabs@ == old(self).tabs@,
            *final(self) == (Workspace { tabs: final(self).tabs, ..*old(self) }),
    {
        let i = self.active_tab_idx;
        if i >= self.tabs.len() {
            return;
        }
        if self.tabs[i].pane_ids.len() < 2 {
            return;
        }
        let ghost pre = self.tabs@;
        let mut t = self.tabs.remove(i);
        let active = t.active_pane_id;
        t.zoomed_pane = if t.zoomed_pane == Some(active) {
            None
        } else {
            Some(active)
        };
        self.tabs.insert(i, t);
        proof {
            assert(tab_ids(self.tabs@) =~= tab_ids(pre));
            assert forall|j: int| 0 <= j < self.tabs.len() implies #[trigger] self.tabs@[j].id
                < self.next_tab_id by {
                assert(self.tabs@[j].id == pre[j].id);
            }
            assert forall|j: int| 0 <= j < pre.len() && j != i implies #[trigger] self.tabs@[j]
                == pre[j] by {
                if j < i {
                    assert(self.tabs@[j] == pre[j]);
                } else {
                    assert(self.tabs@[j] == pre[j]);
                }
            }
        }
    }

    /// After the active tab's split tree changed: record its panes (in tree
    /// order) and active pane. A split leaves zoom, since the tree changed
    /// under it; a focus move keeps it.
    pub fn set_active_panes(&mut self, pane_ids: Vec<usize>, active_pane_id: usize, leaves_zoom: bool)
        requires
            old(self).wf(),
        ensures
            final(self).wf(),
            final(self).active_tab_idx == old(self).active_tab_idx,
            final(self).next_tab_id == old(self).next_tab_id,
            final(self).tabs@.len() == old(self).tabs@.len(),
            forall|i: int|
                0 <= i < old(self).tabs@.len() && i != old(self).active_tab_idx
                    ==> #[trigger] final(self).tabs@[i] == old(self).tabs@[i],
            old(self).active_tab_idx < old(self).tabs@.len() ==> ({
                let t = old(self).tabs@[old(self).active_tab_idx as int];
                let u = final(self).tabs@[old(self).active_tab_idx as int];
                &&& u.id == t.id
                &&& u.title == t.title
                &&& u.custom_title == t.custom_title
                &&& u.pane_ids@ == pane_ids@
                &&& u.active_pane_id == active_pane_id
                &&& u.zoomed_pane == (if leaves_zoom {
                    None
                } else {
                    t.zoomed_pane
                })
            }),
    {
        let i = self.active_tab_idx;
        if i >= self.tabs.len() {
            return;
        }
        let ghost pre = self.tabs@;
        let mut t = self.tabs.remove(i);
        t.pane_ids = pane_ids;
        t.active_pane_id = active_pane_id;
        if leaves_zoom {
            t.zoomed_pane = None;
        }
        self.tabs.insert(i, t);
        proof {
            assert(tab_ids(self.tabs@) =~= tab_ids(pre));
            assert forall|j: int| 0 <= j < self.tabs.len() implies #[trigger] self.tabs@[j].id
                < self.next_tab_id by {
                assert(self.tabs@[j].id == pre[j].id);
            }
            assert forall|j: int| 0 <= j < pre.len() && j != i implies #[trigger] self.tabs@[j]
                == pre[j] by {
                assert(self.tabs@[j] == pre[j]);
            }
        }
    }

    /// The position of the first tab holding pane `pane`, if any.
    pub fn tab_of_pane(&self, pane: usize) -> (r: Option<usize>)
        ensures
            r matches Some(i) ==> i == tab_with_pane(self.tabs@, pane) && i < self.tabs.len(),
            r is None ==> tab_with_pane(self.tabs@, pane) == self.tabs.len(),
    {
        let mut i: usize = 0;
        while i < self.tabs.len()
            invariant
                i <= self.tabs.len(),
                forall|j: int| 0 <= j < i ==> !self.tabs@[j].pane_ids@.contains(pane),
            decreases self.tabs.len() - i,
        {
            if vec_contains(&self.tabs[i].pane_ids, pane) {
                proof {
                    lemma_tab_with_pane_is(self.tabs@, pane, i as int);
                }
                return Some(i);
            }
            i = i + 1;
        }
        proof {
            lemma_tab_with_pane_is(self.tabs@, pane, i as int);
        }
        None
    }

    /// Asks to close pane `pane_id`. The last pane of a tab closes the tab
    /// (with its confirmation rule); a pane still running a process waits for
    /// confirmation; otherwise the UI closes it in the split tree.
    pub fn close_pane_by_id(&mut self, pane_id: usize, running: &Vec<RunningProcessInfo>) -> (r:
        PaneCloseOutcome)
        requires
            old(self).wf(),
            old(self).room_for_fresh_tab(),
        ensures
            final(self).wf(),
            ({
                let ti = tab_with_pane(old(self).tabs@, pane_id);
                let k = index_of_id(running_panes(running@), pane_id);
                if ti == old(self).tabs.len() {
                    &&& r is NotFound
                    &&& *final(self) == *old(self)
                } else if old(self).tabs@[ti as int].pane_ids@.len() <= 1 {
                    r is Tab
                } else if k < running.len() {
                    &&& r is AwaitingConfirmation
                    &&& final(self).tabs@ == old(self).tabs@
                    &&& final(self).active_tab_idx == old(self).active_tab_idx
                    &&& final(self).pending_close matches Some(pc) && pc.target == (CloseTarget::Pane {
                        tab_id: old(self).tabs@[ti as int].id,
                        pane_id,
                    }) && pc.running_processes@ == seq![running@[k as int]]
                } else {
                    &&& r == (PaneCloseOutcome::ClosePane { tab_id: old(self).tabs@[ti as int].id })
                    &&& *final(self) == *old(self)
                }
            }),
            ({
                let ti = tab_with_pane(old(self).tabs@, pane_id);
                r matches PaneCloseOutcome::Tab(o) ==> ti < old(self).tabs.len() && ({
                    let tab_id = old(self).tabs@[ti as int].id;
                    let idx = index_of_id(tab_ids(old(self).tabs@), tab_id);
                    let procs = running_for_panes(
                        old(self).tabs@[idx as int].pane_ids@,
                        running@,
                    );
                    if procs.len() > 0 {
                        &&& o is AwaitingConfirmation
                        &&& final(self).tabs@ == old(self).tabs@
                        &&& final(self).pending_close matches Some(pc) && pc.target
                            == (CloseTarget::Tab { tab_id }) && pc.running_processes@ == procs
                    } else {
                        &&& !(o is AwaitingConfirmation)
                        &&& tab_force_closed(*old(self), *final(self), tab_id, closed_panes(o))
                    }
                })
            }),
    {
        let ti = match self.tab_of_pane(pane_id) {
            Some(ti) => ti,
            None => {
                return PaneCloseOutcome::NotFound;
            },
        };
        let tab_id = self.tabs[ti].id;
        if self.tabs[ti].pane_ids.len() <= 1 {
            proof {
                lemma_index_of_id(tab_ids(self.tabs@), tab_id);
                assert(tab_ids(self.tabs@)[ti as int] == tab_id);
                assert(index_of_id(tab_ids(self.tabs@), tab_id) <= ti);
            }
            return PaneCloseOutcome::Tab(self.close_tab(tab_id, running));
        }
        match find_running(running, pane_id) {
            Some(k) => {
                let mut procs: Vec<RunningProcessInfo> = Vec::new();
                procs.push(clone_running(&running[k]));
                self.pending_close = Some(
                    PendingClose {
                        target: CloseTarget::Pane { tab_id, pane_id },
                        running_processes: procs,
                    },
                );
                PaneCloseOutcome::AwaitingConfirmation
            },
            None => PaneCloseOutcome::ClosePane { tab_id },
        }
    }
}

/// `panes` without `pane`, in order.
pub(crate) fn without_pane(panes: &Vec<usize>, pane: usize) -> (r: Vec<usize>)
    ensures
        r@ == panes@.filter(|p: usize| p != pane),
        !r@.contains(pane),
{
    let ghost keep = |p: usize| p != pane;
    let mut out: Vec<usize> = Vec::new();
    let mut k: usize = 0;
    proof {
        reveal(Seq::filter);
        assert(panes@.take(0) =~= Seq::<usize>::empty());
        assert(out@ =~= panes@.take(0).filter(keep));
    }
    while k < panes.len()
        invariant
            k <= panes.len(),
            keep == (|p: usize| p != pane),
            out@ == panes@.take(k as int).filter(keep),
            !out@.contains(pane),
        decreases panes.len() - k,
    {
        proof {
            lemma_filter_step(panes@, keep, k as int);
        }
        if panes[k] != pane {
            let ghost before = out@;
            out.push(panes[k]);
            proof {
                if out@.contains(pane) {
                    let w = choose|w: int| 0 <= w < out@.len() && out@[w] == pane;
                    if w < before.len() {
                        assert(before[w] == pane);
                    }
                }
            }
        }
        k = k + 1;
    }
    assert(panes@.take(k as int) =~= panes@);
    out
}

impl Workspace {
    /// Closes pane `pane_id` of tab `tab_id` (whose process the UI ends):
    /// drops the selection, forgets the pane as the `-e` pane, removes it
    /// from the tab's panes (the others keep their order), takes the split
    /// tree's new active pane, and leaves zoom if the closed pane was the
    /// zoomed one. Returns whether the tab exists.
    pub fn force_close_pane(
        &mut self,
        tab_id: usize,
        pane_id: usize,
        active_pane_id: usize,
    ) -> (r: bool)
        requires
            old(self).wf(),
        ensures
            final(self).wf(),
            final(self).selection_cleared(),
            final(self).exec_pane_id == (if old(self).exec_pane_id == Some(pane_id) {
                None
            } else {
                old(self).exec_pane_id
            }),
            final(self).active_tab_idx == old(self).active_tab_idx,
            final(self).next_tab_id == old(self).next_tab_id,
            final(self).pending_close == old(self).pending_close,
            final(self).tabs@.len() == old(self).tabs@.len(),
            r == (index_of_id(tab_ids(old(self).tabs@), tab_id) < old(self).tabs@.len()),
            ({
                let idx = index_of_id(tab_ids(old(self).tabs@), tab_id);
                &&& forall|i: int|
                    0 <= i < old(self).tabs@.len() && i != idx ==> #[trigger] final(self).tabs@[i]
                        == old(self).tabs@[i]
                &&& r ==> ({
                    let t = old(self).tabs@[idx as int];
                    let u = final(self).tabs@[idx as int];
                    &&& u.id == t.id
                    &&& u.title == t.title
                    &&& u.custom_title == t.custom_title
                    &&& u.pane_ids@ == t.pane_ids@.filter(|p: usize| p != pane_id)
                    &&& !u.pane_ids@.contains(pane_id)
                    &&& u.active_pane_id == active_pane_id
                    &&& u.zoomed_pane == (if t.zoomed_pane == Some(pane_id) {
                        None
                    } else {
                        t.zoomed_pane
                    })
                })
            }),
    {
        self.clear_selection();
        if self.exec_pane_id == Some(pane_id) {
            self.exec_pane_id = None;
        }
        let i = match self.tab_index(tab_id) {
            Some(i) => i,
            None => {
                return false;
            },
        };
        let ghost pre = self.tabs@;
        let mut t = self.tabs.remove(i);
        t.pane_ids = without_pane(&t.pane_ids, pane_id);
        t.active_pane_id = active_pane_id;
        if t.zoomed_pane == Some(pane_id) {
            t.zoomed_pane = None;
        }
        self.tabs.insert(i, t);
        proof {
            assert(tab_ids(self.tabs@) =~= tab_ids(pre));
            assert forall|j: int| 0 <= j < self.tabs.len() implies #[trigger] self.tabs@[j].id
                < self.next_tab_id by {
                assert(self.tabs@[j].id == pre[j].id);
            }
            assert forall|j: int| 0 <= j < pre.len() && j != i implies #[trigger] self.tabs@[j]
                == pre[j] by {
                assert(self.tabs@[j] == pre[j]);
            }
        }
        true
    }

    /// The user confirmed the pending close: tab closes happen here, pane
    /// closes go to the UI's split tree. Nothing happens without a request.
    pub fn confirm_pending_close(&mut self) -> (r: ConfirmOutcome)
        requires
            old(self).wf(),
            old(self).room_for_fresh_tab(),
        ensures
            final(self).wf(),
            final(self).pending_close is None,
            match old(self).pending_close {
                None => r is Nothing && final(self).tabs@ == old(self).tabs@,
                Some(pc) => match pc.target {
                    CloseTarget::Tab { tab_id } => {
                        let pre = Workspace { pending_close: None, ..*old(self) };
                        tab_force_closed(pre, *final(self), tab_id, match r {
                            ConfirmOutcome::Closed(v) => Some(v@),
                            _ => None,
                        }) && !(r is ClosePane)
                    },
                    CloseTarget::OtherTabs { keep_id } => {
                        &&& r matches ConfirmOutcome::Closed(v) && v@ == other_panes(
                            old(self).tabs@,
                            keep_id,
                        )
                        &&& final(self).tabs@ == only_tab(old(self).tabs@, keep_id)
                        &&& final(self).active_tab_idx == 0
                    },
                    CloseTarget::Pane { tab_id, pane_id } => {
                        &&& r == (ConfirmOutcome::ClosePane { tab_id, pane_id })
                        &&& final(self).tabs@ == old(self).tabs@
                        &&& final(self).active_tab_idx == old(self).active_tab_idx
                    },
                },
            },
    {
        let pending = self.pending_close.take();
        match pending {
            None => ConfirmOutcome::Nothing,
            Some(pc) => match pc.target {
                CloseTarget::Tab { tab_id } => match self.force_close_tab(tab_id) {
                    Some(v) => ConfirmOutcome::Closed(v),
                    None => ConfirmOutcome::Nothing,
                },
                CloseTarget::OtherTabs { keep_id } => ConfirmOutcome::Closed(
                    self.force_close_other_tabs(keep_id),
                ),
                CloseTarget::Pane { tab_id, pane_id } => ConfirmOutcome::ClosePane { tab_id, pane_id },
            },
        }
    }

    /// The user dismissed the pending close: nothing is closed.
    pub fn cancel_pending_close(&mut self)
        ensures
            final(self).pending_close is None,
            final(self).tabs@ == old(self).tabs@,
            final(self).active_tab_idx == old(self).active_tab_idx,
            final(self).next_tab_id == old(self).next_tab_id,
    {
        self.pending_close = None;
    }

    /// Opens the rename dialog for the tab at `idx`, prefilled with its
    /// custom title, else its title. No-op for a position past the tabs.
    pub fn open_rename_tab(&mut self, idx: usize)
        ensures
            final(self).tabs@ == old(self).tabs@,
            final(self).active_tab_idx == old(self).active_tab_idx,
            idx < old(self).tabs@.len() ==> ({
                let t = old(self).tabs@[idx as int];
                &&& final(self).is_rename_tab_open
                &&& final(self).rename_tab_idx == idx
                &&& final(self).rename_tab_input@ == match t.custom_title {
                    Some(c) => c@,
                    None => t.title@,
                }
            }),
            idx >= old(self).tabs@.len() ==> final(self).is_rename_tab_open
                == old(self).is_rename_tab_open && final(self).rename_tab_input
                == old(self).rename_tab_input,
    {
        if idx < self.tabs.len() {
            let input = match &self.tabs[idx].custom_title {
                Some(c) => c.clone(),
                None => self.tabs[idx].title.clone(),
            };
            self.rename_tab_idx = idx;
            self.rename_tab_input = input;
            self.is_rename_tab_open = true;
        }
    }

    /// Saves the rename dialog: the trimmed input becomes the tab's custom
    /// title, or clears it when empty. The dialog closes.
    pub fn save_rename_tab(&mut self)
        requires
            old(self).wf(),
        ensures
            final(self).wf(),
            !final(self).is_rename_tab_open,
            final(self).active_tab_idx == old(self).active_tab_idx,
            final(self).tabs@.len() == old(self).tabs@.len(),
            forall|i: int|
                0 <= i < old(self).tabs@.len() && i != old(self).rename_tab_idx
                    ==> #[trigger] final(self).tabs@[i] == old(self).tabs@[i],
            old(self).rename_tab_idx < old(self).tabs@.len() ==> ({
                let t = old(self).tabs@[old(self).rename_tab_idx as int];
                let u = final(self).tabs@[old(self).rename_tab_idx as int];
                let name = trimmed(old(self).rename_tab_input@);
                &&& u.id == t.id
                &&& u.title == t.title
                &&& u.pane_ids == t.pane_ids
                &&& u.active_pane_id == t.active_pane_id
                &&& u.zoomed_pane == t.zoomed_pane
                &&& (if name.len() == 0 {
                    u.custom_title is None
                } else {
                    u.custom_title matches Some(c) && c@ == name
                })
            }),
    {
        let i = self.rename_tab_idx;
        if i < self.tabs.len() {
            let name = trim_str(self.rename_tab_input.as_str());
            let ghost pre = self.tabs@;
            let mut t = self.tabs.remove(i);
            if name.as_str().unicode_len() == 0 {
                t.custom_title = None;
            } else {
                t.custom_title = Some(name);
            }
            self.tabs.insert(i, t);
            proof {
                assert(tab_ids(self.tabs@) =~= tab_ids(pre));
                assert forall|j: int| 0 <= j < self.tabs.len() implies #[trigger] self.tabs@[j].id
                    < self.next_tab_id by {
                    assert(self.tabs@[j].id == pre[j].id);
                }
                assert forall|j: int| 0 <= j < pre.len() && j != i implies #[trigger] self.tabs@[j]
                    == pre[j] by {
                    assert(self.tabs@[j] == pre[j]);
                }
            }
        }
        self.is_rename_tab_open = false;
    }
}

impl Workspace {
    /// After restoring a saved workspace: its active tab becomes active when
    /// the tabs reach that far.
    pub fn restore_active_tab(&mut self, idx: usize)
        requires
            old(self).wf(),
        ensures
            final(self).wf(),
            final(self).tabs@ == old(self).tabs@,
            final(self).active_tab_idx == (if idx < old(self).tabs@.len() {
                idx
            } else {
                old(self).active_tab_idx
            }),
    {
        if idx < self.tabs.len() {
            self.active_tab_idx = idx;
        }
    }
}

/// Snapshot of the visual settings a palette preview may touch, taken
/// before the first preview step so that cancelling restores them.
pub struct PalettePreviewState<F> {
    pub theme_name: String,
    pub font_size: F,
    pub tab_layout: TabLayout,
    pub sidebar_open: bool,
}

/// The view's plain state: the window's tabs, its overlays, the palette's
/// recent commands and previews, the look (theme, font size `F`, tab
/// layout) and the assistant sidebar. Rendering, terminals and I/O stay
/// with the UI layer, which hands events in; the font size is only stored
/// and restored here.
pub struct RootView<F> {
    /// Shortcut notation of the platform (macOS or not).
    pub is_mac: bool,
    pub workspace: Workspace,
    pub overlays: Overlays,
    /// Most-recently executed palette commands (most recent first, capped).
    pub palette_recent: Vec<String>,
    pub current_theme_name: String,
    pub font_size: F,
    pub tab_layout: TabLayout,
    pub sidebar_open: bool,
    /// The settings before an uncommitted palette preview, if one runs.
    pub palette_preview_original: Option<PalettePreviewState<F>>,
    pub ai: AiState,
    /// The input method's uncommitted text, if any.
    pub ime_marked_text: Option<String>,
    /// What was typed at the shell prompt since it was last cleared (Tab
    /// expands snippet triggers at its end).
    pub typed_prompt_buf: String,
    /// The app's self-update.
    pub update: UpdateState,
    /// Why the configuration file could not be read as written, if so (its
    /// defaults are used meanwhile).
    pub config_error: Option<String>,
    /// Whether the first-run hint bar shows (see `onboarding_hint_shown`).
    pub show_onboarding_hint: bool,
    /// The link under the pointer, and the grid row and columns it spans.
    pub hovered_url: Option<String>,
    pub hovered_url_range: Option<(i32, usize, usize)>,
}

impl<F> RootView<F> {
    /// A window without tabs, every overlay closed, no preview running; the
    /// tabs sidebar starts open exactly with the vertical layout.
    pub fn new(
        is_mac: bool,
        tab_layout: TabLayout,
        ai_sidebar_open: bool,
        theme_name: String,
        font_size: F,
    ) -> (r: Self)
        ensures
            r.current_theme_name@ == theme_name@,
            r.font_size == font_size,
            r.palette_preview_original is None,
            r.ime_marked_text is None,
            r.typed_prompt_buf@.len() == 0,
            r.config_error is None,
            !r.show_onboarding_hint,
            r.hovered_url is None,
            r.hovered_url_range is None,
            r.workspace.wf(),
            r.workspace.tabs@.len() == 0,
            r.is_mac == is_mac,
            r.tab_layout == tab_layout,
            r.sidebar_open == (tab_layout == TabLayout::Vertical),
            r.ai.ai_sidebar_open == ai_sidebar_open,
            r.palette_recent@.len() == 0,
            !r.overlays.is_command_palette_open,
    {
        RootView {
            is_mac,
            workspace: Workspace::new(),
            overlays: Overlays::new(),
            palette_recent: Vec::new(),
            current_theme_name: theme_name,
            font_size,
            tab_layout,
            sidebar_open: tab_layout == TabLayout::Vertical,
            palette_preview_original: None,
            ai: AiState::new(ai_sidebar_open),
            ime_marked_text: None,
            typed_prompt_buf: String::new(),
            update: UpdateState::new(),
            config_error: None,
            show_onboarding_hint: false,
            hovered_url: None,
            hovered_url_range: None,
        }
    }

    /// Palette entries matching the current query; with an empty query the
    /// most-recently executed commands sort first (stable otherwise).
    pub fn filtered_palette_commands(&self) -> (r: Vec<PaletteCommand>)
        ensures
            r@ == spec_filtered_palette_commands(
                spec_palette_commands(self.is_mac),
                self.overlays.command_palette_query@,
                strings_view(self.palette_recent@),
            ),
    {
        let all = get_all_palette_commands(self.is_mac);
        filter_palette_commands(&all, self.overlays.command_palette_query.as_str(), &self.palette_recent)
    }

    /// Records a palette execution for recent-first ordering (at most five).
    pub fn record_palette_recent(&mut self, cmd_id: &str)
        ensures
            strings_view(final(self).palette_recent@) == spec_record_recent(
                strings_view(old(self).palette_recent@),
                cmd_id@,
            ),
            final(self).workspace == old(self).workspace,
            final(self).overlays == old(self).overlays,
            *final(self) == (RootView { palette_recent: final(self).palette_recent, ..*old(self) }),
    {
        record_recent(&mut self.palette_recent, cmd_id);
    }

    /// A modal text input owns the keyboard: a picker, dialog or the
    /// assistant's focused input.
    pub open spec fn input_overlay_open(&self) -> bool {
        self.workspace.is_rename_tab_open || self.overlays.is_command_palette_open
            || self.overlays.is_ssh_manager_open || self.overlays.is_snippet_picker_open
            || self.overlays.is_pr_picker_open || self.overlays.is_search_open
            || self.overlays.is_worktree_picker_open || self.overlays.is_project_jumper_open
            || self.overlays.is_tab_overview_open || self.overlays.is_global_search_open
            || self.overlays.is_settings_open || self.overlays.is_about_open
            || self.overlays.is_update_modal_open || self.workspace.pending_close is Some || (
        self.ai.ai_sidebar_open && self.ai.ai_input_focused)
    }

    /// Whether a modal text input owns the keyboard (keys then bypass the
    /// terminal and the input method's pre-edit).
    pub fn any_input_overlay_open(&self) -> (r: bool)
        ensures
            r == self.input_overlay_open(),
    {
        self.workspace.is_rename_tab_open || self.overlays.is_command_palette_open
            || self.overlays.is_ssh_manager_open || self.overlays.is_snippet_picker_open
            || self.overlays.is_pr_picker_open || self.overlays.is_search_open
            || self.overlays.is_worktree_picker_open || self.overlays.is_project_jumper_open
            || self.overlays.is_tab_overview_open || self.overlays.is_global_search_open
            || self.overlays.is_settings_open || self.overlays.is_about_open
            || self.overlays.is_update_modal_open || self.workspace.pending_close.is_some() || (
        self.ai.ai_sidebar_open && self.ai.ai_input_focused)
    }

    /// Whether the tabs sidebar should be shown (its animation target).
    pub fn sidebar_target_open(&self) -> (r: bool)
        ensures
            r == (self.tab_layout == TabLayout::Vertical && self.sidebar_open),
    {
        self.tab_layout == TabLayout::Vertical && self.sidebar_open
    }

    /// Toggles the tabs sidebar. From the horizontal layout it switches to
    /// the vertical one with the sidebar open, and returns `true`: the new
    /// layout is saved to the configuration. Otherwise it shows or hides the
    /// sidebar and returns `false`.
    pub fn toggle_tab_sidebar(&mut self) -> (r: bool)
        ensures
            r == (old(self).tab_layout == TabLayout::Horizontal),
            final(self).tab_layout == TabLayout::Vertical,
            final(self).sidebar_open == (if r {
                true
            } else {
                !old(self).sidebar_open
            }),
            final(self).workspace == old(self).workspace,
    {
        if self.tab_layout == TabLayout::Horizontal {
            self.tab_layout = TabLayout::Vertical;
            self.sidebar_open = true;
            true
        } else {
            self.sidebar_open = !self.sidebar_open;
            false
        }
    }

    /// Sets the tab layout (a committed choice, which ends any running
    /// palette preview). Returns whether it changed, in which case it is
    /// saved and animated; the vertical layout opens the sidebar.
    pub fn set_tab_layout_mode(&mut self, layout: TabLayout) -> (r: bool)
        ensures
            final(self).palette_preview_original is None,
            final(self).current_theme_name == old(self).current_theme_name,
            final(self).font_size == old(self).font_size,
            r == (old(self).tab_layout != layout),
            final(self).tab_layout == layout,
            final(self).sidebar_open == (if r && layout == TabLayout::Vertical {
                true
            } else {
                old(self).sidebar_open
            }),
            final(self).workspace == old(self).workspace,
            *final(self) == (RootView {
                palette_preview_original: None,
                tab_layout: final(self).tab_layout,
                sidebar_open: final(self).sidebar_open,
                ..*old(self)
            }),
    {
        self.palette_preview_original = None;
        if self.tab_layout == layout {
            return false;
        }
        self.tab_layout = layout;
        if layout == TabLayout::Vertical {
            self.sidebar_open = true;
        }
        true
    }
}

/// After a tab is closed its id is gone, and every other tab is still there.
pub proof fn lemma_closed_tab_is_gone(pre: Workspace, post: Workspace, tab_id: usize, removed: Option<
    Seq<usize>,
>)
    requires
        pre.wf(),
        tab_force_closed(pre, post, tab_id, removed),
    ensures
        !tab_ids(post.tabs@).contains(tab_id),
        pre.tabs.len() != 1 ==> forall|id: usize| id != tab_id ==> (tab_ids(post.tabs@).contains(id)
            <==> tab_ids(pre.tabs@).contains(id)),
{
    let ids = tab_ids(pre.tabs@);
    let idx = index_of_id(ids, tab_id);
    lemma_index_of_id(ids, tab_id);
    if idx < pre.tabs.len() && pre.tabs.len() == 1 {
        assert(tab_ids(post.tabs@) =~= seq![pre.next_tab_id]);
        assert(pre.tabs@[idx as int].id < pre.next_tab_id);
    } else if idx < pre.tabs.len() {
        assert(tab_ids(post.tabs@) =~= ids.remove(idx as int));
        if tab_ids(post.tabs@).contains(tab_id) {
            let k = choose|k: int| 0 <= k < ids.remove(idx as int).len() && ids.remove(idx as int)[k] == tab_id;
            if k < idx {
                assert(ids[k] == tab_id);
            } else {
                assert(ids[k + 1] == tab_id);
            }
        }
        assert forall|id: usize| id != tab_id implies (tab_ids(post.tabs@).contains(id) <==> ids.contains(id)) by {
            let r = ids.remove(idx as int);
            if r.contains(id) {
                let k = choose|k: int| 0 <= k < r.len() && r[k] == id;
                if k < idx {
                    assert(ids[k] == id);
                } else {
                    assert(ids[k + 1] == id);
                }
            }
            if ids.contains(id) {
                let k = choose|k: int| 0 <= k < ids.len() && ids[k] == id;
                assert(k != idx);
                if k < idx {
                    assert(r[k] == id);
                } else {
                    assert(r[k - 1] == id);
                }
            }
        }
    } else {
        assert(tab_ids(post.tabs@) == ids);
    }
}

/// Closing the tab that was just added gives back the previous tab list
/// (from a window without tabs, a fresh tab takes its place).
pub proof fn lemma_add_then_close_restores(pre: Workspace, mid: Workspace, post: Workspace, tab_id: usize, removed: Option<
    Seq<usize>,
>)
    requires
        pre.wf(),
        mid.tabs@.drop_last() == pre.tabs@,
        mid.tabs@.len() == pre.tabs@.len() + 1,
        mid.tabs@.last().id == tab_id,
        tab_id == pre.next_tab_id,
        tab_force_closed(mid, post, tab_id, removed),
    ensures
        pre.tabs@.len() > 0 ==> post.tabs@ == pre.tabs@,
        pre.tabs@.len() == 0 ==> post.tabs@.len() == 1 && fresh_tab(
            post.tabs@[0],
            mid.next_tab_id,
            mid.next_pane_id,
        ),
        removed == Some(mid.tabs@.last().pane_ids@),
{
    let ids = tab_ids(mid.tabs@);
    let n = pre.tabs@.len() as int;
    assert forall|j: int| 0 <= j < n implies ids[j] != tab_id by {
        assert(mid.tabs@[j] == pre.tabs@[j]);
        assert(pre.tabs@[j].id < pre.next_tab_id);
    }
    lemma_index_is(ids, tab_id, n);
    assert(mid.tabs@.remove(n) =~= pre.tabs@);
}

} // verus!
