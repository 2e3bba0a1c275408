use vstd::prelude::*;
use vstd::string::StringExecFns;

use crate::chat::ChatMessage;
use crate::palette::strings_view;
use crate::sorting::{sort_chars, sort_strings};
use crate::view::RootView;
use crate::text::{
    lemma_filter_step,
    contains_chars, lowercase, seq_contains, str_chars, str_contains, string_from_chars,
    to_lowercase,
};

verus! {

/// The hint appended to a provider or stream error: key problems, network
/// problems, or a generic retry hint.
pub open spec fn ai_error_hint(err: Seq<char>) -> Seq<char> {
    if seq_contains(err, "API key"@) || seq_contains(err, "api_key"@) || seq_contains(
        err,
        "not found in configuration"@,
    ) {
        "Tip: set your API key under Settings (AI tab) or via environment variable."@
    } else if seq_contains(err, "Timeout"@) || seq_contains(err, "timed out"@) || seq_contains(
        err,
        "connect"@,
    ) || seq_contains(err, "Connection"@) || seq_contains(err, "network"@) || seq_contains(
        err,
        "DNS"@,
    ) {
        "Tip: check your network connection and provider status, then retry."@
    } else {
        "Tip: retry, or check provider settings under Settings (AI tab)."@
    }
}

/// The text of the error bubble: the raw error, a blank line, and the hint.
pub open spec fn spec_ai_error_message(err: Seq<char>) -> Seq<char> {
    "Error: "@ + err + "\n\n"@ + ai_error_hint(err)
}

/// The text of the error-styled bubble for a raw provider or stream error,
/// with an actionable hint.
pub fn ai_error_message(err: &str) -> (r: String)
    ensures
        r@ == spec_ai_error_message(err@),
{
    let hint = if str_contains(err, "API key") || str_contains(err, "api_key") || str_contains(
        err,
        "not found in configuration",
    ) {
        "Tip: set your API key under Settings (AI tab) or via environment variable."
    } else if str_contains(err, "Timeout") || str_contains(err, "timed out") || str_contains(
        err,
        "connect",
    ) || str_contains(err, "Connection") || str_contains(err, "network") || str_contains(
        err,
        "DNS",
    ) {
        "Tip: check your network connection and provider status, then retry."
    } else {
        "Tip: retry, or check provider settings under Settings (AI tab)."
    };
    let mut s = String::from_str("Error: ");
    s.append(err);
    s.append("\n\n");
    s.append(hint);
    s
}

/// The position of the last occurrence of `c` in `s`, or -1.
pub open spec fn last_index_of(s: Seq<char>, c: char) -> int
    decreases s.len(),
{
    if s.len() == 0 {
        -1
    } else if s.last() == c {
        s.len() - 1
    } else {
        last_index_of(s.drop_last(), c)
    }
}

proof fn lemma_last_index_of(s: Seq<char>, c: char, i: int)
    requires
        -1 <= i < s.len(),
        forall|k: int| i < k < s.len() ==> s[k] != c,
        i == -1 || s[i] == c,
    ensures
        last_index_of(s, c) == i,
    decreases s.len(),
{
    if s.len() > 0 && i < s.len() - 1 {
        lemma_last_index_of(s.drop_last(), c, i);
    }
}

pub(crate) fn find_last(s: &Vec<char>, upto: usize, c: char) -> (r: Option<usize>)
    requires
        upto <= s.len(),
    ensures
        r matches Some(i) ==> i < upto && last_index_of(s@.take(upto as int), c) == i,
        r is None ==> last_index_of(s@.take(upto as int), c) == -1,
{
    let ghost t = s@.take(upto as int);
    let mut k: usize = upto;
    while k > 0
        invariant
            k <= upto,
            upto <= s.len(),
            t == s@.take(upto as int),
            forall|j: int| k <= j < upto ==> t[j] != c,
        decreases k,
    {
        if s[k - 1] == c {
            proof {
                lemma_last_index_of(t, c, k - 1);
            }
            return Some(k - 1);
        }
        k = k - 1;
    }
    proof {
        lemma_last_index_of(t, c, -1);
    }
    None
}

/// The characters of `text` before the cursor (clamped to the text).
pub open spec fn before_cursor(text: Seq<char>, cursor: usize) -> Seq<char> {
    if cursor < text.len() {
        text.take(cursor as int)
    } else {
        text
    }
}

/// The `@` file query being typed at the cursor: what follows the last `@`
/// before the cursor, unless it holds a space or a newline.
pub open spec fn spec_at_query(text: Seq<char>, cursor: usize) -> Option<Seq<char>> {
    let before = before_cursor(text, cursor);
    let a = last_index_of(before, '@');
    if a < 0 {
        None
    } else {
        let q = before.skip(a + 1);
        if q.contains(' ') || q.contains('\n') {
            None
        } else {
            Some(q)
        }
    }
}

/// The `@` file query at the cursor of the assistant's input, if the menu
/// of matching files should show.
pub fn at_query(text: &str, cursor: usize) -> (r: Option<String>)
    ensures
        r matches Some(q) ==> spec_at_query(text@, cursor) == Some(q@),
        r is None ==> spec_at_query(text@, cursor) is None,
{
    let chars = str_chars(text);
    let c = if cursor < chars.len() {
        cursor
    } else {
        chars.len()
    };
    assert(before_cursor(text@, cursor) =~= chars@.take(c as int));
    match find_last(&chars, c, '@') {
        None => None,
        Some(a) => {
            let ghost before = chars@.take(c as int);
            let mut q: Vec<char> = Vec::new();
            let mut bad = false;
            let mut k: usize = a + 1;
            while k < c
                invariant
                    a < c,
                    a + 1 <= k <= c,
                    c <= chars.len(),
                    before == chars@.take(c as int),
                    q@ == before.subrange(a + 1, k as int),
                    bad == (q@.contains(' ') || q@.contains('\n')),
                decreases c - k,
            {
                let ch = chars[k];
                if ch == ' ' || ch == '\n' {
                    bad = true;
                }
                let ghost old_q = q@;
                q.push(ch);
                k = k + 1;
                proof {
                    assert(q@ =~= before.subrange(a + 1, k as int));
                    assert(q@.last() == ch);
                    if old_q.contains(' ') {
                        let w = choose|w: int| 0 <= w < old_q.len() && old_q[w] == ' ';
                        assert(q@[w] == ' ');
                    }
                    if old_q.contains('\n') {
                        let w = choose|w: int| 0 <= w < old_q.len() && old_q[w] == '\n';
                        assert(q@[w] == '\n');
                    }
                    if q@.contains(' ') && ch != ' ' {
                        let w = choose|w: int| 0 <= w < q@.len() && q@[w] == ' ';
                        assert(old_q[w] == ' ');
                    }
                    if q@.contains('\n') && ch != '\n' {
                        let w = choose|w: int| 0 <= w < q@.len() && q@[w] == '\n';
                        assert(old_q[w] == '\n');
                    }
                }
            }
            assert(before.skip(a + 1) =~= before.subrange(a + 1, c as int));
            if bad {
                None
            } else {
                Some(string_from_chars(q.as_slice()))
            }
        },
    }
}

/// How picking a file from the `@` menu edits the assistant's input.
#[derive(Debug)]
pub enum AtInsertion {
    /// Replace the whole text and move the cursor.
    Replace { text: String, cursor: usize },
    /// No `@` before the cursor: insert this at the cursor.
    Insert(String),
}

/// Picking `path` replaces the `@` query before the cursor by `@path `, or
/// inserts `@path ` at the cursor when no `@` precedes it.
pub open spec fn spec_insert_at_path(text: Seq<char>, cursor: usize, path: Seq<char>) -> (
    bool,
    Seq<char>,
    int,
) {
    let before = before_cursor(text, cursor);
    let after = text.skip(before.len() as int);
    let a = last_index_of(before, '@');
    if a >= 0 {
        (true, before.take(a) + seq!['@'] + path + seq![' '] + after, a + 1 + path.len() + 1)
    } else {
        (false, seq!['@'] + path + seq![' '], 0)
    }
}

/// The edit of the assistant's input when `path` is picked from the `@` menu.
pub fn insert_at_path(text: &str, cursor: usize, path: &str) -> (r: AtInsertion)
    requires
        text@.len() + path@.len() + 2 <= usize::MAX,
    ensures
        match r {
            AtInsertion::Replace { text: t, cursor: c } => {
                let e = spec_insert_at_path(text@, cursor, path@);
                e.0 && t@ == e.1 && c == e.2
            },
            AtInsertion::Insert(t) => {
                let e = spec_insert_at_path(text@, cursor, path@);
                !e.0 && t@ == e.1
            },
        },
{
    let chars = str_chars(text);
    let p = str_chars(path);
    let c = if cursor < chars.len() {
        cursor
    } else {
        chars.len()
    };
    assert(before_cursor(text@, cursor) =~= chars@.take(c as int));
    match find_last(&chars, c, '@') {
        Some(a) => {
            let mut out: Vec<char> = Vec::new();
            let mut k: usize = 0;
            while k < a
                invariant
                    k <= a,
                    a < c,
                    c <= chars.len(),
                    out@ == chars@.take(k as int),
                decreases a - k,
            {
                out.push(chars[k]);
                k = k + 1;
                assert(out@ =~= chars@.take(k as int));
            }
            out.push('@');
            let mut j: usize = 0;
            let ghost base = out@;
            while j < p.len()
                invariant
                    j <= p.len(),
                    out@ == base + p@.take(j as int),
                decreases p.len() - j,
            {
                out.push(p[j]);
                j = j + 1;
                assert(out@ =~= base + p@.take(j as int));
            }
            out.push(' ');
            let ghost base2 = out@;
            let mut m: usize = c;
            while m < chars.len()
                invariant
                    c <= m <= chars.len(),
                    out@ == base2 + chars@.subrange(c as int, m as int),
                decreases chars.len() - m,
            {
                out.push(chars[m]);
                m = m + 1;
                assert(out@ =~= base2 + chars@.subrange(c as int, m as int));
            }
            proof {
                assert(p@.take(p.len() as int) =~= p@);
                assert(chars@.take(c as int).take(a as int) =~= chars@.take(a as int));
                assert(chars@.skip(c as int) =~= chars@.subrange(c as int, chars.len() as int));
                assert(out@ =~= chars@.take(a as int) + seq!['@'] + p@ + seq![' '] + chars@.skip(
                    c as int,
                ));
            }
            AtInsertion::Replace {
                text: string_from_chars(out.as_slice()),
                cursor: a + 1 + p.len() + 1,
            }
        },
        None => {
            let mut s = String::from_str("@");
            s.append(path);
            s.append(" ");
            proof {
                reveal_strlit("@");
                reveal_strlit(" ");
            }
            AtInsertion::Insert(s)
        },
    }
}

proof fn lemma_last_index_bounds(s: Seq<char>, c: char)
    ensures
        -1 <= last_index_of(s, c) < s.len(),
        last_index_of(s, c) >= 0 ==> s[last_index_of(s, c)] == c,
    decreases s.len(),
{
    if s.len() > 0 && s.last() != c {
        lemma_last_index_bounds(s.drop_last(), c);
    }
}

proof fn lemma_last_index_at_least(s: Seq<char>, c: char, i: int)
    requires
        0 <= i < s.len(),
        s[i] == c,
    ensures
        i <= last_index_of(s, c) < s.len(),
    decreases s.len(),
{
    if s.last() != c {
        lemma_last_index_at_least(s.drop_last(), c, i);
    }
}

/// Picking a file from the `@` menu leaves no open query at the new
/// cursor: the next check of the input keeps the menu closed.
pub proof fn lemma_pick_closes_at_menu(text: Seq<char>, cursor: usize, path: Seq<char>)
    requires
        spec_insert_at_path(text, cursor, path).0,
        spec_insert_at_path(text, cursor, path).2 <= usize::MAX,
    ensures
        spec_at_query(
            spec_insert_at_path(text, cursor, path).1,
            spec_insert_at_path(text, cursor, path).2 as usize,
        ) is None,
{
    let e = spec_insert_at_path(text, cursor, path);
    let before = before_cursor(text, cursor);
    let a = last_index_of(before, '@');
    let head = before.take(a) + seq!['@'] + path + seq![' '];
    let after = text.skip(before.len() as int);
    lemma_last_index_bounds(before, '@');
    assert(e.1 == head + after);
    assert(head.len() == e.2);
    let b = before_cursor(e.1, e.2 as usize);
    assert(b =~= head);
    assert(head[a] == '@');
    lemma_last_index_at_least(head, '@', a);
    let li = last_index_of(head, '@');
    lemma_last_index_bounds(head, '@');
    assert(head[head.len() - 1] == ' ');
    assert(li < head.len() - 1);
    let q = head.skip(li + 1);
    assert(q[q.len() - 1] == ' ');
    assert(q.contains(' '));
}

/// The files offered by the `@` menu: the repository's files in sorted
/// order, those whose lowercased path contains the lowercased query (all of
/// them for an empty query), at most twenty.
pub open spec fn spec_at_matches(files: Seq<Seq<char>>, query: Seq<char>) -> Seq<Seq<char>> {
    let sorted = sort_chars(files);
    let q = lowercase(query);
    let m = if q.len() == 0 {
        sorted
    } else {
        sorted.filter(|f: Seq<char>| seq_contains(lowercase(f), q))
    };
    if m.len() > 20 {
        m.take(20)
    } else {
        m
    }
}

/// The `@` menu entries for a query over the listed files.
pub fn at_matches(all_files: &Vec<String>, query: &str) -> (r: Vec<String>)
    ensures
        strings_view(r@) == spec_at_matches(strings_view(all_files@), query@),
{
    let sorted = sort_strings(all_files);
    let q = to_lowercase(query);
    let qc = str_chars(q.as_str());
    let ghost sv = strings_view(sorted@);
    let ghost qv = q@;
    let ghost pred = |f: Seq<char>| seq_contains(lowercase(f), qv);
    let mut out: Vec<String> = Vec::new();
    if qc.len() == 0 {
        let mut i: usize = 0;
        while i < sorted.len()
            invariant
                i <= sorted.len(),
                sv == strings_view(sorted@),
                strings_view(out@) == sv.take(i as int),
            decreases sorted.len() - i,
        {
            let ghost before = strings_view(out@);
            out.push(sorted[i].clone());
            assert(strings_view(out@) =~= before.push(sv[i as int]));
            i = i + 1;
            assert(strings_view(out@) =~= sv.take(i as int));
        }
        assert(sv.take(sorted.len() as int) =~= sv);
    } else {
        let mut i: usize = 0;
        proof {
            reveal(Seq::filter);
            assert(sv.take(0) =~= Seq::<Seq<char>>::empty());
            assert(strings_view(out@) =~= sv.take(0).filter(pred));
        }
        while i < sorted.len()
            invariant
                i <= sorted.len(),
                sv == strings_view(sorted@),
                qc@ == qv,
                pred == (|f: Seq<char>| seq_contains(lowercase(f), qv)),
                strings_view(out@) == sv.take(i as int).filter(pred),
            decreases sorted.len() - i,
        {
            proof {
                lemma_filter_step(sv, pred, i as int);
            }
            let low = to_lowercase(sorted[i].as_str());
            let lc = str_chars(low.as_str());
            if contains_chars(&lc, &qc) {
                let ghost before = strings_view(out@);
                out.push(sorted[i].clone());
                assert(strings_view(out@) =~= before.push(sv[i as int]));
            }
            i = i + 1;
        }
        assert(sv.take(sorted.len() as int) =~= sv);
    }
    let ghost m = strings_view(out@);
    out.truncate(20);
    assert(strings_view(out@) =~= (if m.len() > 20 {
        m.take(20)
    } else {
        m
    }));
    out
}

/// What Escape does in the assistant's input, in order of precedence.
#[derive(Clone, Copy, Debug, PartialEq, Eq, Structural)]
pub enum AiEscapeAction {
    /// Close the `@` file menu.
    CloseAtMenu,
    /// Deny the tool call waiting for permission.
    DenyConfirmation,
    /// Stop the running answer.
    CancelStream,
    /// Close the assistant sidebar.
    CloseSidebar,
}

/// Escape closes the innermost thing first: the `@` menu, then a waiting
/// permission request, then a running answer, and else the sidebar.
pub open spec fn spec_ai_escape_action(
    at_menu_open: bool,
    awaiting_permission: bool,
    is_streaming: bool,
) -> AiEscapeAction {
    if at_menu_open {
        AiEscapeAction::CloseAtMenu
    } else if awaiting_permission {
        AiEscapeAction::DenyConfirmation
    } else if is_streaming {
        AiEscapeAction::CancelStream
    } else {
        AiEscapeAction::CloseSidebar
    }
}

/// The action of Escape in the assistant's input.
pub fn ai_escape_action(at_menu_open: bool, awaiting_permission: bool, is_streaming: bool) -> (r:
    AiEscapeAction)
    ensures
        r == spec_ai_escape_action(at_menu_open, awaiting_permission, is_streaming),
{
    if at_menu_open {
        AiEscapeAction::CloseAtMenu
    } else if awaiting_permission {
        AiEscapeAction::DenyConfirmation
    } else if is_streaming {
        AiEscapeAction::CancelStream
    } else {
        AiEscapeAction::CloseSidebar
    }
}

/// The assistant sidebar's conversation state that the view keeps: the
/// answer text revealed so far, the text received but not yet revealed,
/// and token usage.
#[derive(Debug)]
pub struct AiState {
    pub ai_sidebar_open: bool,
    pub ai_input_focused: bool,
    pub ai_at_menu_open: bool,
    pub ai_streaming_text: String,
    pub ai_streaming_thinking: String,
    pub ai_pending_text: String,
    pub ai_pending_thinking: String,
    pub ai_is_streaming: bool,
    pub ai_has_pending_confirmation: bool,
    pub ai_last_usage: Option<(u64, u64)>,
    pub ai_accumulated_usage: (u64, u64),
    pub ai_current_turn_usage: (u64, u64),
    /// The conversation shown in the sidebar.
    pub ai_messages: Vec<ChatMessage>,
    /// The text typed into the assistant's input.
    pub ai_input_text: String,
    /// Files attached to the next prompt.
    pub ai_attached_files: Vec<std::path::PathBuf>,
    /// The messages whose thinking is shown expanded (each once).
    pub ai_expanded_thinkings: Vec<usize>,
    /// Text selected in a message: message, first and end character.
    pub ai_message_selection: Option<(usize, usize, usize)>,
    /// Where a message selection started: message and character.
    pub ai_message_selection_anchor: Option<(usize, usize)>,
    pub is_dragging_message_selection: bool,
}

impl AiState {
    /// A closed or open sidebar with an empty conversation.
    pub fn new(ai_sidebar_open: bool) -> (r: Self)
        ensures
            r.ai_sidebar_open == ai_sidebar_open,
            r.ai_input_focused,
            !r.ai_is_streaming,
            r.ai_streaming_text@.len() == 0,
            r.ai_pending_text@.len() == 0,
            r.ai_accumulated_usage == (0u64, 0u64),
            r.ai_current_turn_usage == (0u64, 0u64),
            r.ai_last_usage is None,
            r.ai_messages@.len() == 0,
            r.ai_input_text@.len() == 0,
            r.ai_attached_files@.len() == 0,
            r.ai_expanded_thinkings@.len() == 0,
            r.ai_message_selection is None,
            r.ai_message_selection_anchor is None,
            !r.is_dragging_message_selection,
    {
        AiState {
            ai_sidebar_open,
            ai_input_focused: true,
            ai_at_menu_open: false,
            ai_streaming_text: String::new(),
            ai_streaming_thinking: String::new(),
            ai_pending_text: String::new(),
            ai_pending_thinking: String::new(),
            ai_is_streaming: false,
            ai_has_pending_confirmation: false,
            ai_last_usage: None,
            ai_accumulated_usage: (0, 0),
            ai_current_turn_usage: (0, 0),
            ai_messages: Vec::new(),
            ai_input_text: String::new(),
            ai_attached_files: Vec::new(),
            ai_expanded_thinkings: Vec::new(),
            ai_message_selection: None,
            ai_message_selection_anchor: None,
            is_dragging_message_selection: false,
        }
    }

    /// Stops the running answer: text received but not yet revealed is
    /// revealed at once, any permission request is dropped, and this turn's
    /// token usage is added to the conversation's.
    pub fn cancel_ai_stream(&mut self)
        requires
            old(self).ai_accumulated_usage.0 + old(self).ai_current_turn_usage.0 <= u64::MAX,
            old(self).ai_accumulated_usage.1 + old(self).ai_current_turn_usage.1 <= u64::MAX,
        ensures
            final(self).ai_streaming_text@ == old(self).ai_streaming_text@ + old(self).ai_pending_text@,
            final(self).ai_streaming_thinking@ == old(self).ai_streaming_thinking@ + old(self).ai_pending_thinking@,
            final(self).ai_pending_text@.len() == 0,
            final(self).ai_pending_thinking@.len() == 0,
            !final(self).ai_has_pending_confirmation,
            !final(self).ai_is_streaming,
            final(self).ai_accumulated_usage == (
                (old(self).ai_accumulated_usage.0 + old(self).ai_current_turn_usage.0) as u64,
                (old(self).ai_accumulated_usage.1 + old(self).ai_current_turn_usage.1) as u64,
            ),
            final(self).ai_current_turn_usage == (0u64, 0u64),
            final(self).ai_last_usage == (if final(self).ai_accumulated_usage == (0u64, 0u64) {
                old(self).ai_last_usage
            } else {
                Some(final(self).ai_accumulated_usage)
            }),
            final(self).ai_sidebar_open == old(self).ai_sidebar_open,
            final(self).ai_input_focused == old(self).ai_input_focused,
            final(self).ai_at_menu_open == old(self).ai_at_menu_open,
    {
        self.ai_has_pending_confirmation = false;
        self.ai_streaming_text.append(self.ai_pending_text.as_str());
        self.ai_pending_text = String::new();
        self.ai_streaming_thinking.append(self.ai_pending_thinking.as_str());
        self.ai_pending_thinking = String::new();
        self.ai_accumulated_usage.0 = self.ai_accumulated_usage.0 + self.ai_current_turn_usage.0;
        self.ai_accumulated_usage.1 = self.ai_accumulated_usage.1 + self.ai_current_turn_usage.1;
        self.ai_current_turn_usage = (0, 0);
        if self.ai_accumulated_usage.0 != 0 || self.ai_accumulated_usage.1 != 0 {
            self.ai_last_usage = Some(self.ai_accumulated_usage);
        }
        self.ai_is_streaming = false;
    }

    /// Opens or closes the assistant sidebar; opening focuses its input.
    pub fn toggle_ai_sidebar(&mut self)
        ensures
            final(self).ai_sidebar_open == !old(self).ai_sidebar_open,
            final(self).ai_input_focused == (old(self).ai_input_focused || final(self).ai_sidebar_open),
            final(self).ai_is_streaming == old(self).ai_is_streaming,
            final(self).ai_streaming_text == old(self).ai_streaming_text,
    {
        self.ai_sidebar_open = !self.ai_sidebar_open;
        if self.ai_sidebar_open {
            self.ai_input_focused = true;
        }
    }
}

impl<F> RootView<F> {
    /// Picking `path` from the `@` menu: the edit of the assistant's input
    /// (text and cursor as the input holds them), and the menu closes.
    pub fn insert_ai_at_path(&mut self, text: &str, cursor: usize, path: &str) -> (r: AtInsertion)
        requires
            text@.len() + path@.len() + 2 <= usize::MAX,
        ensures
            match r {
                AtInsertion::Replace { text: t, cursor: c } => {
                    let e = spec_insert_at_path(text@, cursor, path@);
                    e.0 && t@ == e.1 && c == e.2
                },
                AtInsertion::Insert(t) => {
                    let e = spec_insert_at_path(text@, cursor, path@);
                    !e.0 && t@ == e.1
                },
            },
            !final(self).ai.ai_at_menu_open,
            final(self).ai.ai_sidebar_open == old(self).ai.ai_sidebar_open,
            final(self).ai.ai_is_streaming == old(self).ai.ai_is_streaming,
            final(self).workspace == old(self).workspace,
            final(self).overlays == old(self).overlays,
    {
        let r = insert_at_path(text, cursor, path);
        self.ai.ai_at_menu_open = false;
        r
    }

    /// After an edit of the assistant's input: the `@` menu opens exactly
    /// when an `@` query stands before the cursor, and that query (whose
    /// matching files the menu then lists) is returned.
    pub fn check_ai_at_trigger(&mut self, text: &str, cursor: usize) -> (r: Option<String>)
        ensures
            r matches Some(q) ==> spec_at_query(text@, cursor) == Some(q@),
            r is None ==> spec_at_query(text@, cursor) is None,
            final(self).ai.ai_at_menu_open == r is Some,
            final(self).ai.ai_sidebar_open == old(self).ai.ai_sidebar_open,
            final(self).ai.ai_is_streaming == old(self).ai.ai_is_streaming,
            final(self).workspace == old(self).workspace,
            final(self).overlays == old(self).overlays,
    {
        let r = at_query(text, cursor);
        self.ai.ai_at_menu_open = r.is_some();
        r
    }
}

/// The number of bytes revealed per tick: at least `base`, or a `divisor`th
/// of what is waiting to catch up with a large chunk, never more than waits.
pub open spec fn spec_reveal_drain_size(len: usize, base: usize, divisor: usize) -> usize
    recommends
        divisor > 0,
{
    let d = if base > len / divisor {
        base
    } else {
        (len / divisor) as usize
    };
    if d < len {
        d
    } else {
        len
    }
}

/// How many bytes of waiting stream text the next animation tick reveals
/// (before moving forward to a character boundary).
pub fn reveal_drain_size(len: usize, base: usize, divisor: usize) -> (r: usize)
    requires
        divisor > 0,
    ensures
        r == spec_reveal_drain_size(len, base, divisor),
        r <= len,
        len > 0 && base > 0 ==> r > 0,
{
    let q = len / divisor;
    let d = if base > q {
        base
    } else {
        q
    };
    if d < len {
        d
    } else {
        len
    }
}

} // verus!
