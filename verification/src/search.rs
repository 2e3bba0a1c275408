use vstd::prelude::*;

use crate::text::{trim_str, trimmed};
use crate::overlays::Overlays;
use crate::view::{RootView, TabData};

verus! {

/// A line of a terminal's history that matched a search: its scroll
/// offset, line index and text.
#[derive(Debug)]
pub struct SearchSnippet {
    pub offset: usize,
    pub line_index: usize,
    pub text: String,
}

/// A search hit across the tabs; pane 0 is the tab's own terminal.
#[derive(Debug)]
pub struct GlobalSearchResult {
    pub tab_idx: usize,
    pub tab_id: usize,
    pub tab_title: String,
    pub process_name: Option<String>,
    pub pane_id: usize,
    pub offset: usize,
    pub line_index: usize,
    pub line_content: String,
}

/// The hits of one split pane, with the pane's title and foreground process.
#[derive(Debug)]
pub struct PaneHits {
    pub pane_id: usize,
    pub title: String,
    pub process_name: Option<String>,
    pub snippets: Vec<SearchSnippet>,
}

/// The hits of one tab: its own terminal's (if it has one), then its split
/// panes'.
#[derive(Debug)]
pub struct TabHits {
    pub tab_id: usize,
    pub title: String,
    pub process_name: Option<String>,
    pub main: Vec<SearchSnippet>,
    pub panes: Vec<PaneHits>,
}

/// The query a multi-tab search runs: the typed one without surrounding
/// whitespace; none when that is empty.
pub fn global_search_query(query: &str) -> (r: Option<String>)
    ensures
        r matches Some(q) ==> q@ == trimmed(query@) && q@.len() > 0,
        r is None ==> trimmed(query@).len() == 0,
{
    let q = trim_str(query);
    if q.as_str().unicode_len() == 0 {
        None
    } else {
        Some(q)
    }
}

/// A tab's title as shown: its custom title, else its own.
pub open spec fn shown_title(t: TabData) -> Seq<char> {
    match t.custom_title {
        Some(c) => c@,
        None => t.title@,
    }
}

/// The title a tab shows.
pub fn tab_display_title(t: &TabData) -> (r: String)
    ensures
        r@ == shown_title(*t),
{
    match &t.custom_title {
        Some(c) => c.clone(),
        None => t.title.clone(),
    }
}

/// The result for one snippet of tab `tab_idx`.
pub open spec fn hit(
    tab_idx: usize,
    tab_id: usize,
    title: String,
    process_name: Option<String>,
    pane_id: usize,
    s: SearchSnippet,
) -> GlobalSearchResult {
    GlobalSearchResult {
        tab_idx,
        tab_id,
        tab_title: title,
        process_name,
        pane_id,
        offset: s.offset,
        line_index: s.line_index,
        line_content: s.text,
    }
}

/// The results of a list of snippets, in order.
pub open spec fn hits_of(
    tab_idx: usize,
    tab_id: usize,
    title: String,
    process_name: Option<String>,
    pane_id: usize,
    snippets: Seq<SearchSnippet>,
) -> Seq<GlobalSearchResult> {
    snippets.map_values(|s: SearchSnippet| hit(tab_idx, tab_id, title, process_name, pane_id, s))
}

/// The results of a tab's split panes, pane by pane.
pub open spec fn pane_results(tab_idx: usize, tab_id: usize, panes: Seq<PaneHits>) -> Seq<
    GlobalSearchResult,
>
    decreases panes.len(),
{
    if panes.len() == 0 {
        Seq::empty()
    } else {
        let p = panes.last();
        pane_results(tab_idx, tab_id, panes.drop_last()) + hits_of(
            tab_idx,
            tab_id,
            p.title,
            p.process_name,
            p.pane_id,
            p.snippets@,
        )
    }
}

/// The results of tab `tab_idx`: its own terminal's hits (pane 0), then
/// its panes'.
pub open spec fn tab_results(tab_idx: usize, t: TabHits) -> Seq<GlobalSearchResult> {
    hits_of(tab_idx, t.tab_id, t.title, t.process_name, 0, t.main@) + pane_results(
        tab_idx,
        t.tab_id,
        t.panes@,
    )
}

/// The results of all tabs, tab by tab.
pub open spec fn all_results(tabs: Seq<TabHits>) -> Seq<GlobalSearchResult>
    decreases tabs.len(),
{
    if tabs.len() == 0 {
        Seq::empty()
    } else {
        all_results(tabs.drop_last()) + tab_results((tabs.len() - 1) as usize, tabs.last())
    }
}

fn clone_name(n: &Option<String>) -> (r: Option<String>)
    ensures
        r == *n,
{
    match n {
        Some(s) => Some(s.clone()),
        None => None,
    }
}

fn push_hits(
    out: &mut Vec<GlobalSearchResult>,
    tab_idx: usize,
    tab_id: usize,
    title: &String,
    process_name: &Option<String>,
    pane_id: usize,
    snippets: &Vec<SearchSnippet>,
)
    ensures
        final(out)@ == old(out)@ + hits_of(
            tab_idx,
            tab_id,
            *title,
            *process_name,
            pane_id,
            snippets@,
        ),
{
    let ghost base = out@;
    let mut i: usize = 0;
    while i < snippets.len()
        invariant
            i <= snippets.len(),
            out@ == base + hits_of(
                tab_idx,
                tab_id,
                *title,
                *process_name,
                pane_id,
                snippets@.take(i as int),
            ),
        decreases snippets.len() - i,
    {
        let s = &snippets[i];
        out.push(
            GlobalSearchResult {
                tab_idx,
                tab_id,
                tab_title: title.clone(),
                process_name: clone_name(process_name),
                pane_id,
                offset: s.offset,
                line_index: s.line_index,
                line_content: s.text.clone(),
            },
        );
        proof {
            assert(snippets@.take(i + 1) =~= snippets@.take(i as int).push(snippets@[i as int]));
            assert(out@ =~= base + hits_of(
                tab_idx,
                tab_id,
                *title,
                *process_name,
                pane_id,
                snippets@.take(i + 1),
            ));
        }
        i = i + 1;
    }
    assert(snippets@.take(i as int) =~= snippets@);
}

/// The results of a multi-tab search, in tab order: each tab's own
/// terminal's hits first (as pane 0), then each split pane's, in order.
pub fn global_search_results(tabs: &Vec<TabHits>) -> (r: Vec<GlobalSearchResult>)
    ensures
        r@ == all_results(tabs@),
{
    let mut out: Vec<GlobalSearchResult> = Vec::new();
    let mut k: usize = 0;
    while k < tabs.len()
        invariant
            k <= tabs.len(),
            out@ == all_results(tabs@.take(k as int)),
        decreases tabs.len() - k,
    {
        let t = &tabs[k];
        let ghost before = out@;
        push_hits(&mut out, k, t.tab_id, &t.title, &t.process_name, 0, &t.main);
        let mut j: usize = 0;
        while j < t.panes.len()
            invariant
                j <= t.panes.len(),
                t == tabs@[k as int],
                out@ == before + hits_of(k, t.tab_id, t.title, t.process_name, 0, t.main@)
                    + pane_results(k, t.tab_id, t.panes@.take(j as int)),
            decreases t.panes.len() - j,
        {
            let p = &t.panes[j];
            push_hits(&mut out, k, t.tab_id, &p.title, &p.process_name, p.pane_id, &p.snippets);
            proof {
                assert(t.panes@.take(j + 1).drop_last() =~= t.panes@.take(j as int));
                assert(t.panes@.take(j + 1).last() == t.panes@[j as int]);
            }
            j = j + 1;
        }
        proof {
            assert(t.panes@.take(j as int) =~= t.panes@);
            assert(tabs@.take(k + 1).drop_last() =~= tabs@.take(k as int));
            assert(tabs@.take(k + 1).last() == tabs@[k as int]);
            assert(out@ =~= all_results(tabs@.take(k + 1)));
        }
        k = k + 1;
    }
    assert(tabs@.take(k as int) =~= tabs@);
    out
}


/// The results for `query` over the terminals' hits, back on the first row.
fn refresh_results(
    query: &String,
    selected: &mut usize,
    results: &mut Vec<GlobalSearchResult>,
    hits: &Vec<TabHits>,
)
    ensures
        *final(selected) == 0,
        final(results)@ == (if trimmed(query@).len() == 0 {
            Seq::empty()
        } else {
            all_results(hits@)
        }),
{
    *selected = 0;
    let q = global_search_query(query.as_str());
    if q.is_none() {
        *results = Vec::new();
    } else {
        *results = global_search_results(hits);
    }
}

impl<F> RootView<F> {
    /// Re-runs the multi-tab search: `hits` are what the terminals found for
    /// the trimmed query. With a blank query there are no results; the
    /// selection returns to the first row.
    pub fn update_global_search(&mut self, hits: &Vec<TabHits>)
        ensures
            final(self).overlays.global_search_results@ == (if trimmed(
                old(self).overlays.global_search_query@,
            ).len() == 0 {
                Seq::empty()
            } else {
                all_results(hits@)
            }),
            final(self).overlays == (Overlays {
                global_search_results: final(self).overlays.global_search_results,
                global_search_selected: 0,
                ..old(self).overlays
            }),
            final(self).workspace == old(self).workspace,
            final(self).ai == old(self).ai,
    {
        refresh_results(
            &self.overlays.global_search_query,
            &mut self.overlays.global_search_selected,
            &mut self.overlays.global_search_results,
            hits,
        );
    }
}

} // verus!
