use vstd::prelude::*;

use crate::view::{tab_ids, tab_with_pane, TabData, Workspace};

verus! {

/// A tab after its pane `pane_id` changed title: the tab shows the title
/// when that pane is its active one.
pub open spec fn retitled(t: TabData, pane_id: usize, title: String) -> TabData {
    if t.pane_ids@.contains(pane_id) && t.active_pane_id == pane_id {
        TabData { title, ..t }
    } else {
        t
    }
}

/// A tab after a command finished in its pane `pane_id`: the tab shows
/// the duration and exit code when that pane is its active one.
pub open spec fn with_finished_command(
    t: TabData,
    pane_id: usize,
    duration_ms: u128,
    exit_code: Option<i32>,
) -> TabData {
    if t.pane_ids@.contains(pane_id) && t.active_pane_id == pane_id {
        TabData { last_duration_ms: Some(duration_ms), last_exit_code: exit_code, ..t }
    } else {
        t
    }
}

/// What the exit of a pane's process asks for.
#[derive(Clone, Copy, Debug, PartialEq, Eq, Structural)]
pub enum PaneExit {
    /// The `-e` pane exited: the app quits.
    Quit,
    /// Close the pane in its tab's split tree (then `force_close_pane`).
    ClosePane { tab_id: usize },
    /// The pane was its tab's last: close the tab.
    CloseTab { tab_id: usize },
    /// No tab holds the pane.
    Unknown,
}

/// What the exit of pane `pane_id`'s process asks for: the `-e` pane quits
/// the app; otherwise the first tab holding it closes the pane, or the tab
/// when it was its last pane.
pub open spec fn spec_pane_exited(w: Workspace, pane_id: usize) -> PaneExit {
    if w.exec_pane_id == Some(pane_id) {
        PaneExit::Quit
    } else {
        let ti = tab_with_pane(w.tabs@, pane_id);
        if ti >= w.tabs@.len() {
            PaneExit::Unknown
        } else if w.tabs@[ti as int].pane_ids@.len() > 1 {
            PaneExit::ClosePane { tab_id: w.tabs@[ti as int].id }
        } else {
            PaneExit::CloseTab { tab_id: w.tabs@[ti as int].id }
        }
    }
}

/// A command-line `-e` tab runs one command: once its pane is marked, the
/// exit of that pane's process quits the app.
pub proof fn lemma_exec_pane_exit_quits(before: Workspace, after: Workspace)
    requires
        before.tabs@.len() > 0,
        after.exec_pane_id == Some(before.tabs@.last().active_pane_id),
    ensures
        spec_pane_exited(after, before.tabs@.last().active_pane_id) == PaneExit::Quit,
{
}

impl Workspace {
    /// The workspace fields a pane event leaves alone.
    pub open spec fn same_but_tab_contents(&self, old: &Workspace) -> bool {
        &&& self.tabs@.len() == old.tabs@.len()
        &&& tab_ids(self.tabs@) == tab_ids(old.tabs@)
        &&& self.active_tab_idx == old.active_tab_idx
        &&& self.next_tab_id == old.next_tab_id
        &&& self.next_pane_id == old.next_pane_id
        &&& self.exec_pane_id == old.exec_pane_id
        &&& self.selection == old.selection
        &&& self.is_selecting == old.is_selecting
        &&& self.selection_start == old.selection_start
        &&& self.pending_close == old.pending_close
        &&& self.is_rename_tab_open == old.is_rename_tab_open
        &&& self.rename_tab_idx == old.rename_tab_idx
    }

    /// The workspace fields other than the tabs.
    pub open spec fn same_scalars(&self, old: &Workspace) -> bool {
        &&& self.active_tab_idx == old.active_tab_idx
        &&& self.next_tab_id == old.next_tab_id
        &&& self.next_pane_id == old.next_pane_id
        &&& self.exec_pane_id == old.exec_pane_id
        &&& self.selection == old.selection
        &&& self.is_selecting == old.is_selecting
        &&& self.selection_start == old.selection_start
        &&& self.pending_close == old.pending_close
        &&& self.is_rename_tab_open == old.is_rename_tab_open
        &&& self.rename_tab_idx == old.rename_tab_idx
    }

    /// Pane `pane_id` changed its title: every tab holding it as its
    /// active pane shows the new title.
    pub fn pane_title_changed(&mut self, pane_id: usize, title: String)
        requires
            old(self).wf(),
        ensures
            final(self).wf(),
            final(self).same_but_tab_contents(&*old(self)),
            forall|i: int|
                0 <= i < old(self).tabs@.len() ==> #[trigger] final(self).tabs@[i] == retitled(
                    old(self).tabs@[i],
                    pane_id,
                    title,
                ),
    {
        let ghost pre = self.tabs@;
        let mut i: usize = 0;
        while i < self.tabs.len()
            invariant
                self.tabs@.len() == pre.len(),
                i <= pre.len(),
                pre == old(self).tabs@,
                old(self).wf(),
                self.same_scalars(&*old(self)),
                forall|k: int| 0 <= k < i ==> #[trigger] self.tabs@[k] == retitled(pre[k], pane_id, title),
                forall|k: int| i <= k < pre.len() ==> #[trigger] self.tabs@[k] == pre[k],
            decreases pre.len() - i,
        {
            let hit = crate::view::vec_contains(&self.tabs[i].pane_ids, pane_id)
                && self.tabs[i].active_pane_id == pane_id;
            if hit {
                let ghost before = self.tabs@;
                let mut t = self.tabs.remove(i);
                t.title = title.clone();
                self.tabs.insert(i, t);
                proof {
                    assert forall|k: int| 0 <= k < self.tabs@.len() && k != i implies #[trigger] self.tabs@[k]
                        == before[k] by {}
                }
            }
            i = i + 1;
        }
        proof {
            assert(tab_ids(self.tabs@) =~= tab_ids(pre));
            assert forall|j: int| 0 <= j < self.tabs.len() implies #[trigger] self.tabs@[j].id
                < self.next_tab_id by {
                assert(self.tabs@[j].id == pre[j].id);
            }
        }
    }

    /// A command finished in pane `pane_id`: every tab holding it as its
    /// active pane shows the duration and exit code.
    pub fn pane_command_finished(&mut self, pane_id: usize, duration_ms: u128, exit_code: Option<i32>)
        requires
            old(self).wf(),
        ensures
            final(self).wf(),
            final(self).same_but_tab_contents(&*old(self)),
            forall|i: int|
                0 <= i < old(self).tabs@.len() ==> #[trigger] final(self).tabs@[i]
                    == with_finished_command(old(self).tabs@[i], pane_id, duration_ms, exit_code),
    {
        let ghost pre = self.tabs@;
        let mut i: usize = 0;
        while i < self.tabs.len()
            invariant
                self.tabs@.len() == pre.len(),
                i <= pre.len(),
                pre == old(self).tabs@,
                old(self).wf(),
                self.same_scalars(&*old(self)),
                forall|k: int|
                    0 <= k < i ==> #[trigger] self.tabs@[k] == with_finished_command(
                        pre[k],
                        pane_id,
                        duration_ms,
                        exit_code,
                    ),
                forall|k: int| i <= k < pre.len() ==> #[trigger] self.tabs@[k] == pre[k],
            decreases pre.len() - i,
        {
            let hit = crate::view::vec_contains(&self.tabs[i].pane_ids, pane_id)
                && self.tabs[i].active_pane_id == pane_id;
            if hit {
                let ghost before = self.tabs@;
                let mut t = self.tabs.remove(i);
                t.last_duration_ms = Some(duration_ms);
                t.last_exit_code = exit_code;
                self.tabs.insert(i, t);
                proof {
                    assert forall|k: int| 0 <= k < self.tabs@.len() && k != i implies #[trigger] self.tabs@[k]
                        == before[k] by {}
                }
            }
            i = i + 1;
        }
        proof {
            assert(tab_ids(self.tabs@) =~= tab_ids(pre));
            assert forall|j: int| 0 <= j < self.tabs.len() implies #[trigger] self.tabs@[j].id
                < self.next_tab_id by {
                assert(self.tabs@[j].id == pre[j].id);
            }
        }
    }

    /// The process of pane `pane_id` exited: the `-e` pane quits the app;
    /// otherwise the pane closes, or its tab when it was the last pane.
    pub fn pane_exited(&self, pane_id: usize) -> (r: PaneExit)
        ensures
            r == spec_pane_exited(*self, pane_id),
    {
        if self.exec_pane_id == Some(pane_id) {
            return PaneExit::Quit;
        }
        match self.tab_of_pane(pane_id) {
            None => PaneExit::Unknown,
            Some(ti) => {
                let t = &self.tabs[ti];
                if t.pane_ids.len() > 1 {
                    PaneExit::ClosePane { tab_id: t.id }
                } else {
                    PaneExit::CloseTab { tab_id: t.id }
                }
            },
        }
    }

    /// A tab moved in from another window gets a fresh id and becomes the
    /// active (last) tab. Returns its id.
    pub fn attach_tab(&mut self, tab: TabData) -> (r: usize)
        requires
            old(self).wf(),
            old(self).next_tab_id < usize::MAX,
        ensures
            final(self).wf(),
            r == old(self).next_tab_id,
            final(self).next_tab_id == old(self).next_tab_id + 1,
            final(self).tabs@.len() == old(self).tabs@.len() + 1,
            final(self).tabs@.drop_last() == old(self).tabs@,
            final(self).tabs@.last() == (TabData { id: r, ..tab }),
            final(self).active_tab_idx == old(self).tabs@.len(),
            final(self).next_pane_id == old(self).next_pane_id,
            final(self).selection == old(self).selection,
    {
        let tab_id = self.next_tab_id;
        self.next_tab_id = self.next_tab_id + 1;
        let mut t = tab;
        t.id = tab_id;
        let ghost before = self.tabs@;
        self.tabs.push(t);
        self.active_tab_idx = self.tabs.len() - 1;
        proof {
            assert(self.tabs@.drop_last() =~= before);
            assert(tab_ids(self.tabs@) =~= tab_ids(before).push(tab_id));
            assert forall|i: int| 0 <= i < tab_ids(before).len() implies tab_ids(before)[i]
                != tab_id by {
                assert(before[i].id < tab_id);
            }
            assert forall|i: int| 0 <= i < self.tabs.len() implies #[trigger] self.tabs@[i].id
                < self.next_tab_id by {
                if i < before.len() {
                    assert(self.tabs@[i] == before[i]);
                }
            }
        }
        tab_id
    }

    /// An attached tab's terminal changed its title.
    pub fn tab_title_changed(&mut self, tab_id: usize, title: String) -> (r: bool)
        requires
            old(self).wf(),
        ensures
            final(self).wf(),
            final(self).same_but_tab_contents(&*old(self)),
            r == (crate::view::index_of_id(tab_ids(old(self).tabs@), tab_id) < old(self).tabs@.len()),
            ({
                let idx = crate::view::index_of_id(tab_ids(old(self).tabs@), tab_id) as int;
                forall|i: int|
                    0 <= i < old(self).tabs@.len() ==> #[trigger] final(self).tabs@[i] == (if i == idx {
                        TabData { title, ..old(self).tabs@[i] }
                    } else {
                        old(self).tabs@[i]
                    })
            }),
    {
        match self.tab_index(tab_id) {
            None => false,
            Some(i) => {
                let ghost pre = self.tabs@;
                let mut t = self.tabs.remove(i);
                t.title = title;
                self.tabs.insert(i, t);
                proof {
                    assert forall|k: int| 0 <= k < self.tabs@.len() && k != i implies #[trigger] self.tabs@[k]
                        == pre[k] by {}
                    assert(tab_ids(self.tabs@) =~= tab_ids(pre));
                    assert forall|j: int| 0 <= j < self.tabs.len() implies #[trigger] self.tabs@[j].id
                        < self.next_tab_id by {
                        assert(self.tabs@[j].id == pre[j].id);
                    }
                }
                true
            },
        }
    }
}

/// The name of a program's file: the last component of its path (std's
/// `Path::file_name`), if it has one as text.
pub uninterp spec fn path_file_name(cmd: Seq<char>) -> Option<Seq<char>>;

/// Calls `Path::file_name` on the command's path; the result is named by
/// `path_file_name`.
#[verifier::external_body]
fn file_name_of(cmd: &str) -> (r: Option<String>)
    ensures
        match r {
            Some(n) => path_file_name(cmd@) == Some(n@),
            None => path_file_name(cmd@) is None,
        },
{
    std::path::Path::new(cmd).file_name().and_then(|n| n.to_str()).map(|n| n.to_string())
}

/// `s` without every trailing `.exe` (std's `trim_end_matches(".exe")`).
pub open spec fn without_exe(s: Seq<char>) -> Seq<char>
    decreases s.len(),
{
    if s.len() >= 4 && s.subrange(s.len() - 4, s.len() as int) == ".exe"@ {
        without_exe(s.subrange(0, s.len() - 4))
    } else {
        s
    }
}

/// The default title of a new pane: the program's file name without
/// `.exe`, else "fastty".
pub open spec fn spec_default_pane_title(cmd: Seq<char>) -> Seq<char> {
    match path_file_name(cmd) {
        Some(n) if without_exe(n).len() > 0 => without_exe(n),
        _ => "fastty"@,
    }
}

fn strip_exe(cs: &Vec<char>) -> (r: Vec<char>)
    ensures
        r@ == without_exe(cs@),
{
    let exe = crate::text::str_chars(".exe");
    proof {
        reveal_strlit(".exe");
    }
    let mut n: usize = cs.len();
    assert(cs@.subrange(0, n as int) =~= cs@);
    while n >= 4 && ends_with_at(cs, &exe, n)
        invariant
            n <= cs.len(),
            exe@ == ".exe"@,
            exe.len() == 4,
            without_exe(cs@) == without_exe(cs@.subrange(0, n as int)),
        decreases n,
    {
        proof {
            let t = cs@.subrange(0, n as int);
            assert(t.subrange(t.len() - 4, t.len() as int) =~= cs@.subrange(n - 4, n as int));
            assert(t.subrange(0, t.len() - 4) =~= cs@.subrange(0, n - 4));
        }
        n = n - 4;
    }
    proof {
        let t = cs@.subrange(0, n as int);
        if n >= 4 {
            assert(t.subrange(t.len() - 4, t.len() as int) =~= cs@.subrange(n - 4, n as int));
        }
    }
    let mut out: Vec<char> = Vec::new();
    let mut k: usize = 0;
    while k < n
        invariant
            k <= n,
            n <= cs.len(),
            out@ == cs@.subrange(0, k as int),
        decreases n - k,
    {
        out.push(cs[k]);
        k = k + 1;
        assert(out@ =~= cs@.subrange(0, k as int));
    }
    out
}

fn ends_with_at(cs: &Vec<char>, pat: &Vec<char>, n: usize) -> (r: bool)
    requires
        n <= cs.len(),
        pat.len() == 4,
        n >= 4,
    ensures
        r == (cs@.subrange(n - 4, n as int) == pat@),
{
    let mut k: usize = 0;
    while k < 4
        invariant
            k <= 4,
            n <= cs.len(),
            n >= 4,
            pat.len() == 4,
            forall|j: int| 0 <= j < k ==> cs@[n - 4 + j] == pat@[j],
        decreases 4 - k,
    {
        if cs[n - 4 + k] != pat[k] {
            assert(cs@.subrange(n - 4, n as int)[k as int] != pat@[k as int]);
            return false;
        }
        k = k + 1;
    }
    assert(cs@.subrange(n - 4, n as int) =~= pat@);
    true
}

/// The title of a new pane: the given one, else the program's name (see
/// `spec_default_pane_title`).
pub fn pane_title(cmd: &str, title_override: Option<String>) -> (r: String)
    ensures
        r@ == match title_override {
            Some(t) => t@,
            None => spec_default_pane_title(cmd@),
        },
{
    match title_override {
        Some(t) => t,
        None => {
            match file_name_of(cmd) {
                Some(n) => {
                    let cs = crate::text::str_chars(n.as_str());
                    let s = strip_exe(&cs);
                    if s.len() > 0 {
                        crate::text::string_from_chars(s.as_slice())
                    } else {
                        "fastty".to_owned()
                    }
                },
                None => "fastty".to_owned(),
            }
        },
    }
}


/// The title of a desktop notification: the given one, else "Fastty".
pub fn notification_summary(title: &str) -> (r: String)
    ensures
        r@ == (if title@.len() == 0 {
            "Fastty"@
        } else {
            title@
        }),
{
    if title.unicode_len() == 0 {
        "Fastty".to_owned()
    } else {
        title.to_owned()
    }
}

/// A text quoted for an AppleScript string literal: each backslash and
/// double quote gets a backslash before it.
pub open spec fn applescript_escaped(s: Seq<char>) -> Seq<char>
    decreases s.len(),
{
    if s.len() == 0 {
        s
    } else {
        let rest = applescript_escaped(s.drop_last());
        let c = s.last();
        if c == '\\' || c == '"' {
            rest + seq!['\\', c]
        } else {
            rest.push(c)
        }
    }
}

/// Escapes a text for an AppleScript string literal (the notification
/// fallback on macOS).
pub fn applescript_escape(s: &str) -> (r: String)
    ensures
        r@ == applescript_escaped(s@),
{
    let cs = crate::text::str_chars(s);
    let mut out: Vec<char> = Vec::new();
    let mut i: usize = 0;
    assert(cs@.take(0) =~= Seq::<char>::empty());
    while i < cs.len()
        invariant
            i <= cs.len(),
            out@ == applescript_escaped(cs@.take(i as int)),
        decreases cs.len() - i,
    {
        proof {
            assert(cs@.take(i + 1).drop_last() =~= cs@.take(i as int));
            assert(cs@.take(i + 1).last() == cs@[i as int]);
        }
        let c = cs[i];
        if c == '\\' || c == '"' {
            out.push('\\');
            out.push(c);
        } else {
            out.push(c);
        }
        assert(out@ =~= applescript_escaped(cs@.take(i + 1)));
        i = i + 1;
    }
    assert(cs@.take(i as int) =~= s@);
    crate::text::string_from_chars(out.as_slice())
}

} // verus!
