use vstd::prelude::*;

use vstd::string::StringExecFns;

use crate::pr::{row_view, PrPickerRow};
use crate::view::{CloseTarget, PendingClose, RunningProcessInfo};
use crate::text::{
    decimal, fuzzy_match_str, lemma_filter_step, lowercase, seq_contains, spec_fuzzy_match,
    str_contains, to_lowercase, usize_to_decimal,
};

verus! {

/// The positions of the items that pass `keep`, in order.
pub open spec fn positions_where<T>(items: Seq<T>, keep: spec_fn(T) -> bool) -> Seq<usize>
    decreases items.len(),
{
    if items.len() == 0 {
        Seq::empty()
    } else {
        positions_where(items.drop_last(), keep) + if keep(items.last()) {
            seq![(items.len() - 1) as usize]
        } else {
            Seq::empty()
        }
    }
}

proof fn lemma_positions_step<T>(items: Seq<T>, keep: spec_fn(T) -> bool, i: int)
    requires
        0 <= i < items.len(),
    ensures
        positions_where(items.take(i + 1), keep) == positions_where(items.take(i), keep) + if keep(
            items[i],
        ) {
            seq![i as usize]
        } else {
            Seq::empty()
        },
{
    assert(items.take(i + 1).drop_last() =~= items.take(i));
    assert(items.take(i + 1).last() == items[i]);
}

/// A snippet (trigger, body) offered for the lowercased query `q`.
pub open spec fn snippet_shown(q: Seq<char>, snippet: (Seq<char>, Seq<char>)) -> bool {
    q.len() == 0 || spec_fuzzy_match(q, snippet.0) || spec_fuzzy_match(q, snippet.1)
}

pub open spec fn snippet_views(s: Seq<(String, String)>) -> Seq<(Seq<char>, Seq<char>)> {
    s.map_values(|p: (String, String)| (p.0@, p.1@))
}

/// The snippets the picker lists: those whose trigger or body fuzzily
/// matches the lowercased query (all of them for an empty query), in order.
pub fn filter_snippets(all: &Vec<(String, String)>, query: &str) -> (r: Vec<(String, String)>)
    ensures
        snippet_views(r@) == snippet_views(all@).filter(
            |p: (Seq<char>, Seq<char>)| snippet_shown(lowercase(query@), p),
        ),
        query@.len() == 0 ==> snippet_views(r@) == snippet_views(all@),
{
    let q = to_lowercase(query);
    let ghost qv = q@;
    let ghost keep = |p: (Seq<char>, Seq<char>)| snippet_shown(qv, p);
    let ghost sv = snippet_views(all@);
    let mut out: Vec<(String, String)> = Vec::new();
    let mut i: usize = 0;
    proof {
        reveal(Seq::filter);
        assert(sv.take(0) =~= Seq::<(Seq<char>, Seq<char>)>::empty());
        assert(snippet_views(out@) =~= sv.take(0).filter(keep));
    }
    while i < all.len()
        invariant
            i <= all.len(),
            sv == snippet_views(all@),
            qv == q@,
            keep == (|p: (Seq<char>, Seq<char>)| snippet_shown(qv, p)),
            snippet_views(out@) == sv.take(i as int).filter(keep),
            query@.len() == 0 ==> qv.len() == 0 && snippet_views(out@) == sv.take(i as int),
        decreases all.len() - i,
    {
        proof {
            lemma_filter_step(sv, keep, i as int);
        }
        let (t, b) = &all[i];
        let shown = q.as_str().unicode_len() == 0 || fuzzy_match_str(q.as_str(), t.as_str())
            || fuzzy_match_str(q.as_str(), b.as_str());
        if shown {
            let ghost before = snippet_views(out@);
            out.push((t.clone(), b.clone()));
            assert(snippet_views(out@) =~= before.push(sv[i as int]));
        }
        i = i + 1;
    }
    assert(sv.take(i as int) =~= sv);
    out
}

/// A pull-request row offered for the lowercased query `q`: its title,
/// detail or number matches fuzzily.
pub open spec fn pr_row_shown(q: Seq<char>, r: (usize, Seq<char>, Seq<char>, bool)) -> bool {
    q.len() == 0 || spec_fuzzy_match(q, r.1) || spec_fuzzy_match(q, r.2) || spec_fuzzy_match(
        q,
        decimal(r.0 as nat),
    )
}

pub open spec fn pr_row_views(s: Seq<PrPickerRow>) -> Seq<(usize, Seq<char>, Seq<char>, bool)> {
    s.map_values(|r: PrPickerRow| row_view(r))
}

/// The pull requests the picker lists for a query, in order.
pub fn filter_pr_rows(rows: &Vec<PrPickerRow>, query: &str) -> (r: Vec<PrPickerRow>)
    ensures
        pr_row_views(r@) == pr_row_views(rows@).filter(
            |x: (usize, Seq<char>, Seq<char>, bool)| pr_row_shown(lowercase(query@), x),
        ),
        query@.len() == 0 ==> pr_row_views(r@) == pr_row_views(rows@),
{
    let q = to_lowercase(query);
    let ghost qv = q@;
    let ghost keep = |x: (usize, Seq<char>, Seq<char>, bool)| pr_row_shown(qv, x);
    let ghost sv = pr_row_views(rows@);
    let mut out: Vec<PrPickerRow> = Vec::new();
    let mut i: usize = 0;
    proof {
        reveal(Seq::filter);
        assert(sv.take(0) =~= Seq::<(usize, Seq<char>, Seq<char>, bool)>::empty());
        assert(pr_row_views(out@) =~= sv.take(0).filter(keep));
    }
    while i < rows.len()
        invariant
            i <= rows.len(),
            sv == pr_row_views(rows@),
            qv == q@,
            keep == (|x: (usize, Seq<char>, Seq<char>, bool)| pr_row_shown(qv, x)),
            pr_row_views(out@) == sv.take(i as int).filter(keep),
            query@.len() == 0 ==> qv.len() == 0 && pr_row_views(out@) == sv.take(i as int),
        decreases rows.len() - i,
    {
        proof {
            lemma_filter_step(sv, keep, i as int);
        }
        let row = &rows[i];
        let num = usize_to_decimal(row.number);
        let shown = q.as_str().unicode_len() == 0 || fuzzy_match_str(q.as_str(), row.title.as_str())
            || fuzzy_match_str(q.as_str(), row.detail.as_str()) || fuzzy_match_str(
            q.as_str(),
            num.as_str(),
        );
        if shown {
            let ghost before = pr_row_views(out@);
            out.push(
                PrPickerRow {
                    number: row.number,
                    title: row.title.clone(),
                    detail: row.detail.clone(),
                    is_current: row.is_current,
                },
            );
            assert(pr_row_views(out@) =~= before.push(sv[i as int]));
        }
        i = i + 1;
    }
    assert(sv.take(i as int) =~= sv);
    out
}

/// An SSH host as the manager lists it.
#[derive(Debug)]
pub struct SshHostText {
    pub name: String,
    pub hostname: String,
    pub user: String,
    pub tag: String,
}

/// A host offered for the lowercased query `q`: its name, host name, user
/// or tag matches fuzzily.
pub open spec fn ssh_host_shown(q: Seq<char>, h: SshHostText) -> bool {
    q.len() == 0 || spec_fuzzy_match(q, h.name@) || spec_fuzzy_match(q, h.hostname@)
        || spec_fuzzy_match(q, h.user@) || spec_fuzzy_match(q, h.tag@)
}

/// The positions of the hosts the SSH manager lists for a query.
pub fn filter_ssh_hosts(hosts: &Vec<SshHostText>, query: &str) -> (r: Vec<usize>)
    ensures
        r@ == positions_where(hosts@, |h: SshHostText| ssh_host_shown(lowercase(query@), h)),
        query@.len() == 0 ==> r@ == Seq::new(hosts@.len(), |i: int| i as usize),
{
    let q = to_lowercase(query);
    let ghost keep = |h: SshHostText| ssh_host_shown(lowercase(query@), h);
    let mut out: Vec<usize> = Vec::new();
    let mut i: usize = 0;
    assert(hosts@.take(0) =~= Seq::<SshHostText>::empty());
    while i < hosts.len()
        invariant
            i <= hosts.len(),
            q@ == lowercase(query@),
            keep == (|h: SshHostText| ssh_host_shown(lowercase(query@), h)),
            out@ == positions_where(hosts@.take(i as int), keep),
            query@.len() == 0 ==> q@.len() == 0 && out@ == Seq::new(i as nat, |j: int| j as usize),
        decreases hosts.len() - i,
    {
        proof {
            lemma_positions_step(hosts@, keep, i as int);
        }
        let h = &hosts[i];
        let qs = q.as_str();
        if qs.unicode_len() == 0 || fuzzy_match_str(qs, h.name.as_str()) || fuzzy_match_str(
            qs,
            h.hostname.as_str(),
        ) || fuzzy_match_str(qs, h.user.as_str()) || fuzzy_match_str(qs, h.tag.as_str()) {
            out.push(i);
        }
        proof {
            if query@.len() == 0 {
                assert(out@ =~= Seq::new((i + 1) as nat, |j: int| j as usize));
            }
        }
        i = i + 1;
    }
    assert(hosts@.take(i as int) =~= hosts@);
    out
}

/// A git worktree as the picker lists it: its branch (without
/// `refs/heads/`) and its path.
#[derive(Debug)]
pub struct WorktreeText {
    pub branch: String,
    pub path: String,
}

/// A worktree offered for the lowercased query `q`: its lowercased branch
/// or path contains it.
pub open spec fn worktree_shown(q: Seq<char>, w: WorktreeText) -> bool {
    q.len() == 0 || seq_contains(lowercase(w.branch@), q) || seq_contains(lowercase(w.path@), q)
}

/// The positions of the worktrees the picker lists for a query.
pub fn filter_worktrees(worktrees: &Vec<WorktreeText>, query: &str) -> (r: Vec<usize>)
    ensures
        r@ == positions_where(worktrees@, |w: WorktreeText| worktree_shown(lowercase(query@), w)),
        query@.len() == 0 ==> r@ == Seq::new(worktrees@.len(), |i: int| i as usize),
{
    let q = to_lowercase(query);
    let ghost keep = |w: WorktreeText| worktree_shown(lowercase(query@), w);
    let mut out: Vec<usize> = Vec::new();
    let mut i: usize = 0;
    assert(worktrees@.take(0) =~= Seq::<WorktreeText>::empty());
    while i < worktrees.len()
        invariant
            i <= worktrees.len(),
            q@ == lowercase(query@),
            keep == (|w: WorktreeText| worktree_shown(lowercase(query@), w)),
            out@ == positions_where(worktrees@.take(i as int), keep),
            query@.len() == 0 ==> q@.len() == 0 && out@ == Seq::new(i as nat, |j: int| j as usize),
        decreases worktrees.len() - i,
    {
        proof {
            lemma_positions_step(worktrees@, keep, i as int);
        }
        let w = &worktrees[i];
        let qs = q.as_str();
        let shown = qs.unicode_len() == 0 || str_contains(
            to_lowercase(w.branch.as_str()).as_str(),
            qs,
        ) || str_contains(to_lowercase(w.path.as_str()).as_str(), qs);
        if shown {
            out.push(i);
        }
        proof {
            if query@.len() == 0 {
                assert(out@ =~= Seq::new((i + 1) as nat, |j: int| j as usize));
            }
        }
        i = i + 1;
    }
    assert(worktrees@.take(i as int) =~= worktrees@);
    out
}

/// A tab as the project jumper searches it: title, working directory and
/// git branch.
#[derive(Debug)]
pub struct JumpTarget {
    pub title: String,
    pub cwd: Option<String>,
    pub branch: Option<String>,
}

pub open spec fn opt_contains(s: Option<String>, q: Seq<char>) -> bool {
    match s {
        Some(t) => seq_contains(lowercase(t@), q),
        None => false,
    }
}

/// A tab offered for the lowercased query `q`: its lowercased title,
/// directory or branch contains it.
pub open spec fn jump_target_shown(q: Seq<char>, t: JumpTarget) -> bool {
    q.len() == 0 || seq_contains(lowercase(t.title@), q) || opt_contains(t.cwd, q) || opt_contains(
        t.branch,
        q,
    )
}

fn opt_str_contains(s: &Option<String>, q: &str) -> (r: bool)
    ensures
        r == opt_contains(*s, q@),
{
    match s {
        Some(t) => str_contains(to_lowercase(t.as_str()).as_str(), q),
        None => false,
    }
}

/// The positions of the tabs the project jumper lists for a query.
pub fn filter_jump_targets(tabs: &Vec<JumpTarget>, query: &str) -> (r: Vec<usize>)
    ensures
        r@ == positions_where(tabs@, |t: JumpTarget| jump_target_shown(lowercase(query@), t)),
        query@.len() == 0 ==> r@ == Seq::new(tabs@.len(), |i: int| i as usize),
{
    let q = to_lowercase(query);
    let ghost keep = |t: JumpTarget| jump_target_shown(lowercase(query@), t);
    let mut out: Vec<usize> = Vec::new();
    let mut i: usize = 0;
    assert(tabs@.take(0) =~= Seq::<JumpTarget>::empty());
    while i < tabs.len()
        invariant
            i <= tabs.len(),
            q@ == lowercase(query@),
            keep == (|t: JumpTarget| jump_target_shown(lowercase(query@), t)),
            out@ == positions_where(tabs@.take(i as int), keep),
            query@.len() == 0 ==> q@.len() == 0 && out@ == Seq::new(i as nat, |j: int| j as usize),
        decreases tabs.len() - i,
    {
        proof {
            lemma_positions_step(tabs@, keep, i as int);
        }
        let t = &tabs[i];
        let qs = q.as_str();
        let shown = qs.unicode_len() == 0 || str_contains(to_lowercase(t.title.as_str()).as_str(), qs)
            || opt_str_contains(&t.cwd, qs) || opt_str_contains(&t.branch, qs);
        if shown {
            out.push(i);
        }
        proof {
            if query@.len() == 0 {
                assert(out@ =~= Seq::new((i + 1) as nat, |j: int| j as usize));
            }
        }
        i = i + 1;
    }
    assert(tabs@.take(i as int) =~= tabs@);
    out
}


/// The title and message of the dialog that asks to close despite running
/// processes.
pub open spec fn spec_close_prompt(target: CloseTarget, names: Seq<Seq<char>>) -> (Seq<char>, Seq<char>) {
    match target {
        CloseTarget::Pane { .. } => (
            "Close Pane?"@,
            "Process '"@ + (if names.len() > 0 {
                names[0]
            } else {
                "process"@
            }) + "' is still running in this pane."@,
        ),
        CloseTarget::Tab { .. } => (
            "Close Tab?"@,
            if names.len() == 1 {
                "Process '"@ + names[0] + "' is still running in this tab."@
            } else {
                decimal(names.len()) + " processes are still running in this tab."@
            },
        ),
        CloseTarget::OtherTabs { .. } => (
            "Close Other Tabs?"@,
            decimal(names.len()) + " processes are still running in other tabs."@,
        ),
    }
}

pub open spec fn process_names(p: PendingClose) -> Seq<Seq<char>> {
    p.running_processes@.map_values(|r: RunningProcessInfo| r.process_name@)
}

/// The dialog text for a pending close request.
pub fn close_prompt(pending: &PendingClose) -> (r: (String, String))
    ensures
        (r.0@, r.1@) == spec_close_prompt(pending.target, process_names(*pending)),
{
    let procs = &pending.running_processes;
    let n = procs.len();
    proof {
        reveal_strlit("Close Pane?");
        reveal_strlit("Close Tab?");
        reveal_strlit("Close Other Tabs?");
        reveal_strlit("Process '");
        reveal_strlit("process");
        reveal_strlit("' is still running in this pane.");
        reveal_strlit("' is still running in this tab.");
        reveal_strlit(" processes are still running in this tab.");
        reveal_strlit(" processes are still running in other tabs.");
    }
    match pending.target {
        CloseTarget::Pane { .. } => {
            let mut d = String::from_str("Process '");
            if n > 0 {
                d.append(procs[0].process_name.as_str());
            } else {
                d.append("process");
            }
            d.append("' is still running in this pane.");
            (String::from_str("Close Pane?"), d)
        },
        CloseTarget::Tab { .. } => {
            if n == 1 {
                let mut d = String::from_str("Process '");
                d.append(procs[0].process_name.as_str());
                d.append("' is still running in this tab.");
                (String::from_str("Close Tab?"), d)
            } else {
                let mut d = usize_to_decimal(n);
                d.append(" processes are still running in this tab.");
                (String::from_str("Close Tab?"), d)
            }
        },
        CloseTarget::OtherTabs { .. } => {
            let mut d = usize_to_decimal(n);
            d.append(" processes are still running in other tabs.");
            (String::from_str("Close Other Tabs?"), d)
        },
    }
}

} // verus!
