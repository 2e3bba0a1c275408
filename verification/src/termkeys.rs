use vstd::prelude::*;
use vstd::slice::slice_to_vec;
use vstd::utf8::encode_utf8;

use crate::keys::{
    alt_gr, ctrl_held, is_alt_gr, is_ctrl, is_one_byte_key, key_lower, one_byte_name, KeyPress,
};
use crate::pickers::{erased, pop_char};
use crate::text::{str_chars, str_eq, to_lowercase};
use crate::view::RootView;
use vstd::string::StringExecFns;

verus! {

/// How a key press changes the record of what was typed at the prompt
/// (used to expand snippet triggers on Tab).
pub enum PromptEdit {
    Keep,
    Clear,
    Push(String),
    PushNewline,
    /// Drop the last character.
    Pop,
}

/// A prompt edit with pushed text by its characters.
#[verifier::ext_equal]
pub enum PromptEditView {
    Keep,
    Clear,
    Push(Seq<char>),
    PushNewline,
    Pop,
}

pub open spec fn prompt_edit_view(e: PromptEdit) -> PromptEditView {
    match e {
        PromptEdit::Keep => PromptEditView::Keep,
        PromptEdit::Clear => PromptEditView::Clear,
        PromptEdit::Push(s) => PromptEditView::Push(s@),
        PromptEdit::PushNewline => PromptEditView::PushNewline,
        PromptEdit::Pop => PromptEditView::Pop,
    }
}

/// A scrollback move asked for by Shift with a navigation key.
#[derive(Clone, Copy, Debug, PartialEq, Eq, Structural)]
pub enum TermScroll {
    LineUp,
    LineDown,
    Top,
    Bottom,
    PageUp,
    PageDown,
}

/// What a key press sends to the terminal's program, how it edits the
/// prompt record, which scrollback move it asks for, and whether Tab may
/// expand a snippet trigger first (the bytes are then sent only when no
/// trigger matched).
pub struct TermKeyOutput {
    pub send: Option<Vec<u8>>,
    pub prompt: PromptEdit,
    pub scroll: Option<TermScroll>,
    pub snippet_tab: bool,
}

/// A terminal key output by its bytes and characters.
#[verifier::ext_equal]
pub struct TermKeyView {
    pub send: Option<Seq<u8>>,
    pub prompt: PromptEditView,
    pub scroll: Option<TermScroll>,
    pub snippet_tab: bool,
}

pub open spec fn term_key_view(o: TermKeyOutput) -> TermKeyView {
    TermKeyView {
        send: match o.send {
            Some(b) => Some(b@),
            None => None,
        },
        prompt: prompt_edit_view(o.prompt),
        scroll: o.scroll,
        snippet_tab: o.snippet_tab,
    }
}

/// Sends `bytes`, leaves the prompt record.
pub open spec fn sends(bytes: Seq<u8>) -> TermKeyView {
    TermKeyView {
        send: Some(bytes),
        prompt: PromptEditView::Keep,
        scroll: None,
        snippet_tab: false,
    }
}

/// Sends nothing.
pub open spec fn no_output() -> TermKeyView {
    TermKeyView { send: None, prompt: PromptEditView::Keep, scroll: None, snippet_tab: false }
}

/// Asks for a scrollback move and sends nothing.
pub open spec fn scrolls(s: TermScroll) -> TermKeyView {
    TermKeyView { send: None, prompt: PromptEditView::Keep, scroll: Some(s), snippet_tab: false }
}

/// The control byte of Ctrl with a letter: the letter's place in the
/// alphabet, for every letter but `i` and `m` (Tab and Enter have keys of
/// their own).
pub open spec fn ctrl_code(l: Seq<char>) -> Option<u8> {
    if l.len() == 1 && 97 <= (l[0] as u32) <= 122 && (l[0] as u32) != 105 && (l[0] as u32)
        != 109 {
        Some(((l[0] as u32) - 96) as u8)
    } else {
        None
    }
}

/// An ASCII lower-case letter.
pub open spec fn is_ascii_lower(c: char) -> bool {
    97 <= (c as u32) <= 122
}

/// The bytes after ESC for Alt with a one-character key: the key's UTF-8
/// bytes, an ASCII lower-case letter in upper case when Shift is held.
pub open spec fn alt_char_bytes(k: Seq<char>, shift: bool) -> Seq<u8> {
    if shift && is_ascii_lower(k[0]) {
        seq![((k[0] as u32) - 32) as u8]
    } else {
        encode_utf8(k)
    }
}

/// Typed text goes to the program and, without modifiers, to the prompt
/// record.
pub open spec fn typed_output(text: Seq<char>, p: KeyPress) -> TermKeyView {
    TermKeyView {
        send: Some(encode_utf8(text)),
        prompt: if !p.mods.platform && !p.mods.control && !p.mods.alt {
            PromptEditView::Push(text)
        } else {
            PromptEditView::Keep
        },
        scroll: None,
        snippet_tab: false,
    }
}

/// The plain keys (no Ctrl, Alt or AltGr): Enter (Shift+Enter a line
/// feed), Backspace, Tab and Shift+Tab, Esc, the arrows, Home, End, Page
/// Up/Down as VT sequences (with Shift the vertical ones scroll the
/// history instead), any other key as the text it types.
pub open spec fn spec_plain_key(p: KeyPress) -> TermKeyView {
    let l = key_lower(p);
    let shift = p.mods.shift;
    if l == "enter"@ || l == "return"@ {
        if shift {
            TermKeyView {
                send: Some(seq![10u8]),
                prompt: PromptEditView::PushNewline,
                scroll: None,
                snippet_tab: false,
            }
        } else {
            TermKeyView {
                send: Some(seq![13u8]),
                prompt: PromptEditView::Clear,
                scroll: None,
                snippet_tab: false,
            }
        }
    } else if l == "backspace"@ {
        TermKeyView {
            send: Some(seq![127u8]),
            prompt: PromptEditView::Pop,
            scroll: None,
            snippet_tab: false,
        }
    } else if l == "tab"@ {
        if shift {
            sends(seq![27u8, 91u8, 90u8])
        } else {
            TermKeyView {
                send: Some(seq![9u8]),
                prompt: PromptEditView::Keep,
                scroll: None,
                snippet_tab: true,
            }
        }
    } else if l == "escape"@ || l == "esc"@ {
        sends(seq![27u8])
    } else if l == "up"@ || l == "arrowup"@ {
        if shift {
            scrolls(TermScroll::LineUp)
        } else {
            sends(seq![27u8, 91u8, 65u8])
        }
    } else if l == "down"@ || l == "arrowdown"@ {
        if shift {
            scrolls(TermScroll::LineDown)
        } else {
            sends(seq![27u8, 91u8, 66u8])
        }
    } else if l == "right"@ || l == "arrowright"@ {
        sends(seq![27u8, 91u8, 67u8])
    } else if l == "left"@ || l == "arrowleft"@ {
        sends(seq![27u8, 91u8, 68u8])
    } else if l == "home"@ {
        if shift {
            scrolls(TermScroll::Top)
        } else {
            sends(seq![27u8, 91u8, 72u8])
        }
    } else if l == "end"@ {
        if shift {
            scrolls(TermScroll::Bottom)
        } else {
            sends(seq![27u8, 91u8, 70u8])
        }
    } else if l == "pageup"@ {
        if shift {
            scrolls(TermScroll::PageUp)
        } else {
            sends(seq![27u8, 91u8, 53u8, 126u8])
        }
    } else if l == "pagedown"@ {
        if shift {
            scrolls(TermScroll::PageDown)
        } else {
            sends(seq![27u8, 91u8, 54u8, 126u8])
        }
    } else {
        match p.key_char {
            Some(ch) => typed_output(ch@, p),
            None => if one_byte_name(p.key@) {
                typed_output(p.key@, p)
            } else {
                no_output()
            },
        }
    }
}

/// What a key press that reached the terminal does: AltGr types its text;
/// Ctrl with a letter sends its control byte (Ctrl+C and Ctrl+U also clear
/// the prompt record); Alt sends ESC-prefixed word motions (`b`, `f`, `d`),
/// Alt+Backspace deletes a word (Ctrl+W), Alt with any other one-character
/// key sends ESC and that key; plain keys as `spec_plain_key`.
pub open spec fn spec_terminal_key(p: KeyPress) -> TermKeyView {
    let l = key_lower(p);
    let m = p.mods;
    if alt_gr(m) {
        match p.key_char {
            Some(ch) => TermKeyView {
                send: Some(encode_utf8(ch@)),
                prompt: PromptEditView::Push(ch@),
                scroll: None,
                snippet_tab: false,
            },
            None => if one_byte_name(p.key@) {
                TermKeyView {
                    send: Some(encode_utf8(p.key@)),
                    prompt: PromptEditView::Push(p.key@),
                    scroll: None,
                    snippet_tab: false,
                }
            } else {
                no_output()
            },
        }
    } else if ctrl_held(m) {
        match ctrl_code(l) {
            Some(c) => TermKeyView {
                send: Some(seq![c]),
                prompt: if l == "c"@ || l == "u"@ {
                    PromptEditView::Clear
                } else {
                    PromptEditView::Keep
                },
                scroll: None,
                snippet_tab: false,
            },
            None => no_output(),
        }
    } else if m.alt {
        if l == "b"@ {
            sends(seq![27u8, 98u8])
        } else if l == "f"@ {
            sends(seq![27u8, 102u8])
        } else if l == "d"@ {
            sends(seq![27u8, 100u8])
        } else if l == "backspace"@ {
            sends(seq![23u8])
        } else if p.key@.len() == 1 {
            sends(seq![27u8] + alt_char_bytes(p.key@, m.shift))
        } else {
            no_output()
        }
    } else {
        spec_plain_key(p)
    }
}

fn ctrl_letter_code(l: &str) -> (r: Option<u8>)
    ensures
        r == ctrl_code(l@),
{
    let cs = str_chars(l);
    if cs.len() == 1 {
        let c: u32 = cs[0] as u32;
        if 97 <= c && c <= 122 && c != 105 && c != 109 {
            return Some((c - 96) as u8);
        }
    }
    None
}

fn utf8_bytes(s: &str) -> (r: Vec<u8>)
    ensures
        r@ == encode_utf8(s@),
{
    let b = s.as_bytes();
    slice_to_vec(b)
}

fn output(send: Option<Vec<u8>>, prompt: PromptEdit) -> (o: TermKeyOutput)
    ensures
        o.send == send,
        o.prompt == prompt,
        o.scroll is None,
        !o.snippet_tab,
{
    TermKeyOutput { send, prompt, scroll: None, snippet_tab: false }
}

fn send_only(bytes: Vec<u8>) -> (o: TermKeyOutput)
    ensures
        term_key_view(o) == sends(bytes@),
{
    TermKeyOutput { send: Some(bytes), prompt: PromptEdit::Keep, scroll: None, snippet_tab: false }
}

fn scroll_only(s: TermScroll) -> (o: TermKeyOutput)
    ensures
        term_key_view(o) == scrolls(s),
{
    TermKeyOutput { send: None, prompt: PromptEdit::Keep, scroll: Some(s), snippet_tab: false }
}

fn nothing() -> (o: TermKeyOutput)
    ensures
        term_key_view(o) == no_output(),
{
    TermKeyOutput { send: None, prompt: PromptEdit::Keep, scroll: None, snippet_tab: false }
}

fn typed(text: &String, p: &KeyPress) -> (o: TermKeyOutput)
    ensures
        term_key_view(o) == typed_output(text@, *p),
{
    let prompt = if !p.mods.platform && !p.mods.control && !p.mods.alt {
        PromptEdit::Push(text.clone())
    } else {
        PromptEdit::Keep
    };
    output(Some(utf8_bytes(text.as_str())), prompt)
}

fn plain_key(p: &KeyPress, l: &str) -> (o: TermKeyOutput)
    requires
        l@ == key_lower(*p),
    ensures
        term_key_view(o) == spec_plain_key(*p),
{
    let shift = p.mods.shift;
    if str_eq(l, "enter") || str_eq(l, "return") {
        if shift {
            output(Some(vec![10u8]), PromptEdit::PushNewline)
        } else {
            output(Some(vec![13u8]), PromptEdit::Clear)
        }
    } else if str_eq(l, "backspace") {
        output(Some(vec![127u8]), PromptEdit::Pop)
    } else if str_eq(l, "tab") {
        if shift {
            send_only(vec![27u8, 91u8, 90u8])
        } else {
            TermKeyOutput {
                send: Some(vec![9u8]),
                prompt: PromptEdit::Keep,
                scroll: None,
                snippet_tab: true,
            }
        }
    } else if str_eq(l, "escape") || str_eq(l, "esc") {
        send_only(vec![27u8])
    } else if str_eq(l, "up") || str_eq(l, "arrowup") {
        if shift {
            scroll_only(TermScroll::LineUp)
        } else {
            send_only(vec![27u8, 91u8, 65u8])
        }
    } else if str_eq(l, "down") || str_eq(l, "arrowdown") {
        if shift {
            scroll_only(TermScroll::LineDown)
        } else {
            send_only(vec![27u8, 91u8, 66u8])
        }
    } else if str_eq(l, "right") || str_eq(l, "arrowright") {
        send_only(vec![27u8, 91u8, 67u8])
    } else if str_eq(l, "left") || str_eq(l, "arrowleft") {
        send_only(vec![27u8, 91u8, 68u8])
    } else if str_eq(l, "home") {
        if shift {
            scroll_only(TermScroll::Top)
        } else {
            send_only(vec![27u8, 91u8, 72u8])
        }
    } else if str_eq(l, "end") {
        if shift {
            scroll_only(TermScroll::Bottom)
        } else {
            send_only(vec![27u8, 91u8, 70u8])
        }
    } else if str_eq(l, "pageup") {
        if shift {
            scroll_only(TermScroll::PageUp)
        } else {
            send_only(vec![27u8, 91u8, 53u8, 126u8])
        }
    } else if str_eq(l, "pagedown") {
        if shift {
            scroll_only(TermScroll::PageDown)
        } else {
            send_only(vec![27u8, 91u8, 54u8, 126u8])
        }
    } else {
        match &p.key_char {
            Some(ch) => typed(ch, p),
            None => {
                if is_one_byte_key(p.key.as_str()) {
                    typed(&p.key, p)
                } else {
                    nothing()
                }
            },
        }
    }
}

/// Encodes a key press for the terminal's program (see
/// `spec_terminal_key`).
pub fn terminal_key(p: &KeyPress) -> (o: TermKeyOutput)
    ensures
        term_key_view(o) == spec_terminal_key(*p),
{
    let lower = to_lowercase(p.key.as_str());
    let l = lower.as_str();
    let m = p.mods;
    if is_alt_gr(m) {
        match &p.key_char {
            Some(ch) => output(Some(utf8_bytes(ch.as_str())), PromptEdit::Push(ch.clone())),
            None => {
                if is_one_byte_key(p.key.as_str()) {
                    output(Some(utf8_bytes(p.key.as_str())), PromptEdit::Push(p.key.clone()))
                } else {
                    nothing()
                }
            },
        }
    } else if is_ctrl(m) {
        match ctrl_letter_code(l) {
            Some(c) => {
                let prompt = if str_eq(l, "c") || str_eq(l, "u") {
                    PromptEdit::Clear
                } else {
                    PromptEdit::Keep
                };
                output(Some(vec![c]), prompt)
            },
            None => nothing(),
        }
    } else if m.alt {
        if str_eq(l, "b") {
            send_only(vec![27u8, 98u8])
        } else if str_eq(l, "f") {
            send_only(vec![27u8, 102u8])
        } else if str_eq(l, "d") {
            send_only(vec![27u8, 100u8])
        } else if str_eq(l, "backspace") {
            send_only(vec![23u8])
        } else {
            let cs = str_chars(p.key.as_str());
            if cs.len() == 1 {
                let c: u32 = cs[0] as u32;
                let mut out: Vec<u8> = vec![27u8];
                if m.shift && 97 <= c && c <= 122 {
                    out.push((c - 32) as u8);
                } else {
                    let mut rest = utf8_bytes(p.key.as_str());
                    out.append(&mut rest);
                }
                proof {
                    assert(out@ =~= seq![27u8] + alt_char_bytes(p.key@, m.shift));
                }
                send_only(out)
            } else {
                nothing()
            }
        }
    } else {
        plain_key(p, l)
    }
}


impl<F> RootView<F> {
    /// Records a prompt edit of a key sent to the terminal.
    pub fn apply_prompt_edit(&mut self, edit: &PromptEdit)
        ensures
            final(self).typed_prompt_buf@ == match prompt_edit_view(*edit) {
                PromptEditView::Keep => old(self).typed_prompt_buf@,
                PromptEditView::Clear => Seq::empty(),
                PromptEditView::Push(t) => old(self).typed_prompt_buf@ + t,
                PromptEditView::PushNewline => old(self).typed_prompt_buf@.push('\n'),
                PromptEditView::Pop => erased(old(self).typed_prompt_buf@),
            },
            final(self).workspace == old(self).workspace,
            final(self).overlays == old(self).overlays,
    {
        match edit {
            PromptEdit::Keep => {},
            PromptEdit::Clear => {
                self.typed_prompt_buf = String::new();
            },
            PromptEdit::Push(t) => {
                self.typed_prompt_buf.append(t.as_str());
            },
            PromptEdit::PushNewline => {
                self.typed_prompt_buf.append("\n");
                proof {
                    reveal_strlit("\n");
                }
            },
            PromptEdit::Pop => {
                pop_char(&mut self.typed_prompt_buf);
            },
        }
    }

    /// The input method shows uncommitted text.
    pub fn ime_set_marked_text(&mut self, text: &str)
        ensures
            final(self).ime_marked_text matches Some(t) && t@ == text@,
            final(self).workspace == old(self).workspace,
            final(self).overlays == old(self).overlays,
            final(self).typed_prompt_buf == old(self).typed_prompt_buf,
    {
        self.ime_marked_text = Some(text.to_owned());
    }

    /// The input method drops its uncommitted text. Returns whether there
    /// was any (then the view redraws).
    pub fn ime_clear_marked_text(&mut self) -> (r: bool)
        ensures
            r == (old(self).ime_marked_text is Some),
            final(self).ime_marked_text is None,
            final(self).workspace == old(self).workspace,
            final(self).overlays == old(self).overlays,
            final(self).typed_prompt_buf == old(self).typed_prompt_buf,
    {
        let had = self.ime_marked_text.is_some();
        self.ime_marked_text = None;
        had
    }

    /// The input method commits `text`. While a modal input owns the
    /// keyboard, or without a terminal, nothing is sent; otherwise the text
    /// is sent to the terminal as UTF-8, recorded at the prompt, and drops
    /// the text selection. Returns the bytes to send.
    pub fn ime_commit_text(&mut self, text: &str, has_terminal: bool) -> (r: Option<Vec<u8>>)
        requires
            old(self).workspace.wf(),
        ensures
            final(self).ime_marked_text is None,
            final(self).workspace.wf(),
            final(self).overlays == old(self).overlays,
            (old(self).input_overlay_open() || !has_terminal) ==> r is None
                && final(self).workspace == old(self).workspace
                && final(self).typed_prompt_buf == old(self).typed_prompt_buf,
            !(old(self).input_overlay_open() || !has_terminal) ==> ({
                &&& r matches Some(b) && b@ == encode_utf8(text@)
                &&& final(self).typed_prompt_buf@ == old(self).typed_prompt_buf@ + text@
                &&& final(self).workspace.selection is None
                &&& final(self).workspace.tabs@ == old(self).workspace.tabs@
                &&& final(self).workspace.active_tab_idx == old(self).workspace.active_tab_idx
            }),
    {
        self.ime_marked_text = None;
        if self.any_input_overlay_open() || !has_terminal {
            return None;
        }
        self.workspace.drop_selection_for_typing();
        self.typed_prompt_buf.append(text);
        Some(utf8_bytes(text))
    }

    /// Runs a PR action in the active pane: the command line is sent with a
    /// carriage return, and the PR picker closes. Returns the bytes to send.
    pub fn run_pr_action_command(&mut self, cmd: &str) -> (r: Vec<u8>)
        ensures
            r@ == encode_utf8(cmd@).push(13u8),
            !final(self).overlays.is_pr_picker_open,
            final(self).workspace == old(self).workspace,
            final(self).typed_prompt_buf == old(self).typed_prompt_buf,
    {
        self.overlays.is_pr_picker_open = false;
        let mut bytes = utf8_bytes(cmd);
        bytes.push(13u8);
        bytes
    }

    /// Inserts an expanded snippet in the active pane: its text is sent as
    /// typed, and the snippet picker closes. Returns the bytes to send.
    pub fn insert_snippet_body(&mut self, expanded: &str) -> (r: Vec<u8>)
        ensures
            r@ == encode_utf8(expanded@),
            !final(self).overlays.is_snippet_picker_open,
            final(self).workspace == old(self).workspace,
            final(self).typed_prompt_buf == old(self).typed_prompt_buf,
    {
        self.overlays.is_snippet_picker_open = false;
        utf8_bytes(expanded)
    }
}

/// Whether a scrollback move goes toward the older lines of the history.
pub open spec fn scrolls_back(s: TermScroll) -> bool {
    s == TermScroll::LineUp || s == TermScroll::PageUp || s == TermScroll::Top
}

/// A key's output that sends nothing, leaves the prompt record and moves
/// the scrollback by `s`.
pub open spec fn shift_scroll(o: TermKeyView, s: TermScroll) -> bool {
    &&& o.send is None
    &&& o.prompt == PromptEditView::Keep
    &&& o.scroll == Some(s)
    &&& !o.snippet_tab
}

/// With Shift alone among the modifiers that change a key's meaning (no
/// Ctrl, Alt or AltGr), the vertical navigation keys send nothing to the
/// program and scroll the history, each in its own direction: Up one line
/// toward the older lines, Down one line back, Page Up one page older, Page
/// Down one page back, Home to the top, End to the bottom. So the keys that
/// name an upward move scroll back and the others forward, and no two of
/// them scroll alike.
pub proof fn lemma_shift_scrolls_history(p: KeyPress)
    requires
        p.mods.shift,
        !p.mods.control,
        !p.mods.alt,
    ensures
        (key_lower(p) == "up"@ || key_lower(p) == "arrowup"@) ==> shift_scroll(
            spec_terminal_key(p),
            TermScroll::LineUp,
        ),
        (key_lower(p) == "down"@ || key_lower(p) == "arrowdown"@) ==> shift_scroll(
            spec_terminal_key(p),
            TermScroll::LineDown,
        ),
        key_lower(p) == "pageup"@ ==> shift_scroll(spec_terminal_key(p), TermScroll::PageUp),
        key_lower(p) == "pagedown"@ ==> shift_scroll(spec_terminal_key(p), TermScroll::PageDown),
        key_lower(p) == "home"@ ==> shift_scroll(spec_terminal_key(p), TermScroll::Top),
        key_lower(p) == "end"@ ==> shift_scroll(spec_terminal_key(p), TermScroll::Bottom),
        (key_lower(p) == "up"@ || key_lower(p) == "pageup"@ || key_lower(p) == "home"@) ==> (
        spec_terminal_key(p).scroll matches Some(s) && scrolls_back(s)),
        (key_lower(p) == "down"@ || key_lower(p) == "pagedown"@ || key_lower(p) == "end"@) ==> (
        spec_terminal_key(p).scroll matches Some(s) && !scrolls_back(s)),
{
    reveal_strlit("enter");
    reveal_strlit("return");
    reveal_strlit("backspace");
    reveal_strlit("tab");
    reveal_strlit("escape");
    reveal_strlit("esc");
    reveal_strlit("up");
    reveal_strlit("arrowup");
    reveal_strlit("down");
    reveal_strlit("arrowdown");
    reveal_strlit("right");
    reveal_strlit("arrowright");
    reveal_strlit("left");
    reveal_strlit("arrowleft");
    reveal_strlit("home");
    reveal_strlit("end");
    reveal_strlit("pageup");
    reveal_strlit("pagedown");
    assert("arrowdown"@[0] != "backspace"@[0]);
    assert("pageup"@[0] != "return"@[0] && "pageup"@[0] != "escape"@[0]);
    assert("home"@[0] != "down"@[0]);
    assert("end"@[0] != "tab"@[0] && "end"@[1] != "esc"@[1]);
    assert("pagedown"@[0] != "arrowup"@[0]);
}

} // verus!
