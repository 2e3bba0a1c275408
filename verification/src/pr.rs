use vstd::prelude::*;
use vstd::string::StringExecFns;

use crate::text::{decimal, str_chars, string_from_chars, usize_to_decimal};

verus! {

#[verifier::external_type_specification]
#[verifier::external_body]
pub struct ExPathBuf(std::path::PathBuf);

/// The pull request of the current branch, as `gh pr view` reports it.
#[derive(Clone, Debug)]
pub struct GhPrView {
    pub state: String,
    pub number: usize,
    pub title: String,
    pub url: String,
    pub review_decision: Option<String>,
}

/// The author of a listed pull request.
#[derive(Clone, Debug)]
pub struct GhPrAuthor {
    pub login: String,
}

/// One pull request of `gh pr list`.
#[derive(Clone, Debug)]
pub struct GhPrList {
    pub number: usize,
    pub title: String,
    pub url: String,
    pub author: Option<GhPrAuthor>,
}

/// A snapshot of the pull requests of a repository.
#[derive(Debug)]
pub struct PrsSummary {
    pub current_pr: Option<GhPrView>,
    pub open_prs: Vec<GhPrList>,
    pub review_requested_prs: Vec<GhPrList>,
    pub cwd: std::path::PathBuf,
}

/// PR picker mode. Browse lists PRs; Actions operates on one PR with an
/// explicit command preview per row (the two-step flow is the confirmation).
#[derive(Clone, Debug, PartialEq)]
pub enum PrPickerMode {
    Browse,
    Actions { number: usize, title: String },
}

/// One browsable PR row (current-branch PR pinned first, deduplicated).
#[derive(Clone, Debug)]
pub struct PrPickerRow {
    pub number: usize,
    pub title: String,
    /// `@author` for listed PRs, review state for the current-branch one.
    pub detail: String,
    pub is_current: bool,
}

/// A picker row by its plain values: number, title, detail, current flag.
pub open spec fn row_view(r: PrPickerRow) -> (usize, Seq<char>, Seq<char>, bool) {
    (r.number, r.title@, r.detail@, r.is_current)
}

/// The detail of the current-branch PR: its review decision, else its state.
pub open spec fn current_detail(pr: GhPrView) -> Seq<char> {
    match pr.review_decision {
        Some(d) => d@,
        None => pr.state@,
    }
}

/// The detail of a listed PR: `@login`, or empty without an author.
pub open spec fn listed_detail(pr: GhPrList) -> Seq<char> {
    match pr.author {
        Some(a) => "@"@ + a.login@,
        None => Seq::empty(),
    }
}

/// The PR number already shown before position `i` of the list, or as the
/// current-branch PR.
pub open spec fn number_shown_before(
    current: Option<usize>,
    prs: Seq<GhPrList>,
    i: int,
) -> bool {
    current == Some(prs[i].number) || exists|j: int| 0 <= j < i && prs[j].number == prs[i].number
}

/// The rows of the listed PRs, skipping numbers already shown.
pub open spec fn listed_rows(current: Option<usize>, prs: Seq<GhPrList>) -> Seq<
    (usize, Seq<char>, Seq<char>, bool),
>
    decreases prs.len(),
{
    if prs.len() == 0 {
        Seq::empty()
    } else {
        let earlier = listed_rows(current, prs.drop_last());
        let i = prs.len() - 1;
        if number_shown_before(current, prs, i) {
            earlier
        } else {
            earlier.push((prs[i].number, prs[i].title@, listed_detail(prs[i]), false))
        }
    }
}

/// The picker rows of a snapshot: the current-branch PR first, then the open
/// PRs whose number was not shown yet, in list order.
pub open spec fn spec_pr_picker_rows(s: PrsSummary) -> Seq<(usize, Seq<char>, Seq<char>, bool)> {
    match s.current_pr {
        Some(pr) => seq![(pr.number, pr.title@, current_detail(pr), true)] + listed_rows(
            Some(pr.number),
            s.open_prs@,
        ),
        None => listed_rows(None, s.open_prs@),
    }
}

proof fn lemma_listed_rows_step(current: Option<usize>, prs: Seq<GhPrList>, i: int)
    requires
        0 <= i < prs.len(),
    ensures
        listed_rows(current, prs.take(i + 1)) == (if number_shown_before(current, prs, i) {
            listed_rows(current, prs.take(i))
        } else {
            listed_rows(current, prs.take(i)).push(
                (prs[i].number, prs[i].title@, listed_detail(prs[i]), false),
            )
        }),
{
    let t = prs.take(i + 1);
    assert(t.drop_last() =~= prs.take(i));
    assert(t[i] == prs[i]);
    assert(number_shown_before(current, t, i) == number_shown_before(current, prs, i)) by {
        if number_shown_before(current, prs, i) && current != Some(prs[i].number) {
            let j = choose|j: int| 0 <= j < i && prs[j].number == prs[i].number;
            assert(t[j] == prs[j]);
        }
        if number_shown_before(current, t, i) && current != Some(prs[i].number) {
            let j = choose|j: int| 0 <= j < i && t[j].number == t[i].number;
            assert(t[j] == prs[j]);
        }
    }
}

pub open spec fn number_listed(prs: Seq<GhPrList>, n: usize) -> bool {
    exists|j: int| 0 <= j < prs.len() && prs[j].number == n
}

proof fn lemma_listed_rows_numbers(current: Option<usize>, prs: Seq<GhPrList>)
    ensures
        forall|k: int|
            0 <= k < listed_rows(current, prs).len() ==> number_listed(
                prs,
                #[trigger] listed_rows(current, prs)[k].0,
            ),
        forall|k: int|
            0 <= k < listed_rows(current, prs).len() ==> current != Some(
                #[trigger] listed_rows(current, prs)[k].0,
            ),
        forall|a: int, b: int|
            0 <= a < b < listed_rows(current, prs).len() ==> #[trigger] listed_rows(current, prs)[a].0
                != #[trigger] listed_rows(current, prs)[b].0,
    decreases prs.len(),
{
    if prs.len() > 0 {
        let d = prs.drop_last();
        lemma_listed_rows_numbers(current, d);
        let e = listed_rows(current, d);
        let i = prs.len() - 1;
        let rows = listed_rows(current, prs);
        assert forall|k: int| 0 <= k < e.len() implies number_listed(prs, #[trigger] e[k].0) by {
            assert(number_listed(d, e[k].0));
            let j = choose|j: int| 0 <= j < d.len() && d[j].number == e[k].0;
            assert(prs[j] == d[j]);
        }
        if !number_shown_before(current, prs, i) {
            assert forall|a: int, b: int| 0 <= a < b < rows.len() implies #[trigger] rows[a].0
                != #[trigger] rows[b].0 by {
                if b == e.len() {
                    assert(rows[a] == e[a]);
                    assert(number_listed(d, e[a].0));
                    let j = choose|j: int| 0 <= j < d.len() && d[j].number == e[a].0;
                    assert(prs[j] == d[j]);
                    assert(prs[j].number != prs[i].number);
                } else {
                    assert(rows[a] == e[a]);
                    assert(rows[b] == e[b]);
                }
            }
            assert forall|k: int| 0 <= k < rows.len() implies number_listed(prs, #[trigger] rows[k].0) by {
                if k == e.len() {
                    assert(prs[i].number == rows[k].0);
                } else {
                    assert(rows[k] == e[k]);
                }
            }
            assert forall|k: int| 0 <= k < rows.len() implies current != Some(#[trigger] rows[k].0) by {
                if k < e.len() {
                    assert(rows[k] == e[k]);
                }
            }
        }
    }
}

/// The picker never lists a pull request twice: row numbers are distinct.
pub proof fn lemma_pr_rows_distinct(s: PrsSummary)
    ensures
        forall|a: int, b: int|
            0 <= a < b < spec_pr_picker_rows(s).len() ==> #[trigger] spec_pr_picker_rows(s)[a].0
                != #[trigger] spec_pr_picker_rows(s)[b].0,
{
    match s.current_pr {
        Some(pr) => {
            let l = listed_rows(Some(pr.number), s.open_prs@);
            lemma_listed_rows_numbers(Some(pr.number), s.open_prs@);
            let rows = spec_pr_picker_rows(s);
            assert forall|a: int, b: int| 0 <= a < b < rows.len() implies #[trigger] rows[a].0
                != #[trigger] rows[b].0 by {
                assert(rows[b] == l[b - 1]);
                if a == 0 {
                    assert(Some(pr.number) != Some(l[b - 1].0));
                } else {
                    assert(rows[a] == l[a - 1]);
                }
            }
        },
        None => {
            lemma_listed_rows_numbers(None, s.open_prs@);
        },
    }
}

fn shown_before(current: Option<usize>, prs: &Vec<GhPrList>, i: usize) -> (r: bool)
    requires
        i < prs.len(),
    ensures
        r == number_shown_before(current, prs@, i as int),
{
    let n = prs[i].number;
    if current == Some(n) {
        return true;
    }
    let mut j: usize = 0;
    while j < i
        invariant
            j <= i,
            i < prs.len(),
            n == prs@[i as int].number,
            forall|t: int| 0 <= t < j ==> prs@[t].number != n,
        decreases i - j,
    {
        if prs[j].number == n {
            return true;
        }
        j = j + 1;
    }
    false
}

fn listed_row(pr: &GhPrList) -> (r: PrPickerRow)
    ensures
        row_view(r) == (pr.number, pr.title@, listed_detail(*pr), false),
{
    let detail = match &pr.author {
        Some(a) => {
            let mut d = String::from_str("@");
            d.append(a.login.as_str());
            d
        },
        None => String::new(),
    };
    PrPickerRow { number: pr.number, title: pr.title.clone(), detail, is_current: false }
}

/// Flattens a snapshot into picker rows: the current-branch PR pinned first
/// (detail: review decision, else state), then each open PR not shown yet
/// (detail: `@author`).
pub fn pr_picker_rows(snapshot: &PrsSummary) -> (r: Vec<PrPickerRow>)
    ensures
        r@.map_values(|x: PrPickerRow| row_view(x)) == spec_pr_picker_rows(*snapshot),
{
    let mut rows: Vec<PrPickerRow> = Vec::new();
    let mut current: Option<usize> = None;
    if let Some(pr) = &snapshot.current_pr {
        current = Some(pr.number);
        let detail = match &pr.review_decision {
            Some(d) => d.clone(),
            None => pr.state.clone(),
        };
        rows.push(
            PrPickerRow { number: pr.number, title: pr.title.clone(), detail, is_current: true },
        );
    }
    let ghost head = rows@.map_values(|x: PrPickerRow| row_view(x));
    let prs = &snapshot.open_prs;
    let mut i: usize = 0;
    assert(prs@.take(0) =~= Seq::<GhPrList>::empty());
    assert(rows@.map_values(|x: PrPickerRow| row_view(x)) =~= head + listed_rows(current, prs@.take(0)));
    while i < prs.len()
        invariant
            i <= prs.len(),
            rows@.map_values(|x: PrPickerRow| row_view(x)) == head + listed_rows(current, prs@.take(i as int)),
        decreases prs.len() - i,
    {
        proof {
            lemma_listed_rows_step(current, prs@, i as int);
        }
        if !shown_before(current, prs, i) {
            let ghost before = rows@;
            rows.push(listed_row(&prs[i]));
            assert(rows@.map_values(|x: PrPickerRow| row_view(x)) =~= before.map_values(|x: PrPickerRow| row_view(x)).push(row_view(rows@.last())));
        }
        i = i + 1;
    }
    assert(prs@.take(prs.len() as int) =~= prs@);
    rows
}

/// Actions available on a selected PR, in fixed order.
#[derive(Clone, Copy, Debug, PartialEq, Eq, Structural)]
pub enum PrPickerAction {
    Checkout,
    Approve,
    Merge,
    Back,
}

/// The number of actions offered for a PR.
pub fn pr_action_count() -> (r: usize)
    ensures
        r == 4,
{
    4
}

/// The action at a row of the actions list; rows past the last are "Back".
pub open spec fn spec_pr_action_for_index(idx: usize) -> PrPickerAction {
    if idx == 0 {
        PrPickerAction::Checkout
    } else if idx == 1 {
        PrPickerAction::Approve
    } else if idx == 2 {
        PrPickerAction::Merge
    } else {
        PrPickerAction::Back
    }
}

/// The action at a row of the actions list.
pub fn pr_action_for_index(idx: usize) -> (r: PrPickerAction)
    ensures
        r == spec_pr_action_for_index(idx),
{
    match idx {
        0 => PrPickerAction::Checkout,
        1 => PrPickerAction::Approve,
        2 => PrPickerAction::Merge,
        _ => PrPickerAction::Back,
    }
}

/// The label of an action row.
pub open spec fn spec_pr_action_label(action: PrPickerAction, number: usize) -> Seq<char> {
    match action {
        PrPickerAction::Checkout => "Checkout PR #"@ + decimal(number as nat),
        PrPickerAction::Approve => "Approve PR #"@ + decimal(number as nat),
        PrPickerAction::Merge => "Merge PR #"@ + decimal(number as nat),
        PrPickerAction::Back => "← Back to list"@,
    }
}

/// The label of an action row, e.g. "Checkout PR #12".
pub fn pr_action_label(action: PrPickerAction, number: usize) -> (r: String)
    ensures
        r@ == spec_pr_action_label(action, number),
{
    let prefix = match action {
        PrPickerAction::Checkout => "Checkout PR #",
        PrPickerAction::Approve => "Approve PR #",
        PrPickerAction::Merge => "Merge PR #",
        PrPickerAction::Back => {
            return String::from_str("← Back to list");
        },
    };
    let mut s = String::from_str(prefix);
    let n = usize_to_decimal(number);
    s.append(n.as_str());
    s
}

/// The command typed into the pane for an action; "Back" types nothing.
pub open spec fn spec_pr_action_command(action: PrPickerAction, number: usize) -> Option<Seq<char>> {
    match action {
        PrPickerAction::Checkout => Some("gh pr checkout "@ + decimal(number as nat)),
        PrPickerAction::Approve => Some("gh pr review "@ + decimal(number as nat) + " --approve"@),
        PrPickerAction::Merge => Some("gh pr merge "@ + decimal(number as nat) + " --merge"@),
        PrPickerAction::Back => None,
    }
}

/// The exact command that will be typed into the pane (shown as preview in
/// the row, so the action is explicit before committing with Enter).
pub fn pr_action_command(action: PrPickerAction, number: usize) -> (r: Option<String>)
    ensures
        r matches Some(s) ==> spec_pr_action_command(action, number) == Some(s@),
        r is None ==> spec_pr_action_command(action, number) is None,
{
    let (prefix, suffix) = match action {
        PrPickerAction::Checkout => ("gh pr checkout ", ""),
        PrPickerAction::Approve => ("gh pr review ", " --approve"),
        PrPickerAction::Merge => ("gh pr merge ", " --merge"),
        PrPickerAction::Back => {
            return None;
        },
    };
    let mut s = String::from_str(prefix);
    let n = usize_to_decimal(number);
    s.append(n.as_str());
    s.append(suffix);
    proof {
        if action is Checkout {
            reveal_strlit("");
            assert(""@ =~= Seq::<char>::empty());
        }
    }
    Some(s)
}


/// The picker's header: the query being typed (with a caret) or a hint
/// while browsing; the chosen PR (title cut to 40 characters) while
/// picking an action.
pub open spec fn spec_pr_picker_header(mode: PrPickerMode, query: Seq<char>) -> Seq<char> {
    match mode {
        PrPickerMode::Browse => if query.len() == 0 {
            "Browse pull requests... (↑↓ to navigate, Enter for actions)"@
        } else {
            query + "|"@
        },
        PrPickerMode::Actions { number, title } => "PR #"@ + decimal(number as nat) + ": "@ + (if title@.len()
            > 40 {
            title@.take(40)
        } else {
            title@
        }) + " (Enter runs, Esc backs out)"@,
    }
}

/// The header line of the pull-request picker.
pub fn pr_picker_header(mode: &PrPickerMode, query: &str) -> (r: String)
    ensures
        r@ == spec_pr_picker_header(*mode, query@),
{
    proof {
        reveal_strlit("Browse pull requests... (↑↓ to navigate, Enter for actions)");
        reveal_strlit("|");
        reveal_strlit("PR #");
        reveal_strlit(": ");
        reveal_strlit(" (Enter runs, Esc backs out)");
    }
    match mode {
        PrPickerMode::Browse => {
            if query.unicode_len() == 0 {
                String::from_str("Browse pull requests... (↑↓ to navigate, Enter for actions)")
            } else {
                let mut s = String::from_str(query);
                s.append("|");
                s
            }
        },
        PrPickerMode::Actions { number, title } => {
            let cs = str_chars(title.as_str());
            let n = if cs.len() > 40 {
                40
            } else {
                cs.len()
            };
            let mut short: Vec<char> = Vec::new();
            let mut k: usize = 0;
            while k < n
                invariant
                    k <= n,
                    n <= cs.len(),
                    short@ == cs@.take(k as int),
                decreases n - k,
            {
                short.push(cs[k]);
                k = k + 1;
                assert(short@ =~= cs@.take(k as int));
            }
            assert(short@ =~= (if title@.len() > 40 {
                title@.take(40)
            } else {
                title@
            }));
            let mut s = String::from_str("PR #");
            s.append(usize_to_decimal(*number).as_str());
            s.append(": ");
            s.append(string_from_chars(short.as_slice()).as_str());
            s.append(" (Enter runs, Esc backs out)");
            s
        },
    }
}

} // verus!
