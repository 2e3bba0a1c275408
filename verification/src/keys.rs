use vstd::prelude::*;

use crate::nav::OverviewMove;
use crate::text::{lowercase, str_chars, str_eq, to_lowercase};
use crate::view::RootView;

verus! {

/// The modifier keys held with a key press (`platform`: Cmd on macOS, the
/// Windows/Super key elsewhere).
#[derive(Clone, Copy, Debug, PartialEq, Eq, Structural)]
pub struct KeyMods {
    pub shift: bool,
    pub control: bool,
    pub alt: bool,
    pub platform: bool,
}

/// AltGr, which keyboards report as Ctrl+Alt without the platform key.
pub open spec fn alt_gr(m: KeyMods) -> bool {
    m.control && !m.platform && m.alt
}

/// Ctrl held as itself, not as part of AltGr.
pub open spec fn ctrl_held(m: KeyMods) -> bool {
    m.control && !alt_gr(m)
}

/// Whether AltGr is held.
pub fn is_alt_gr(m: KeyMods) -> (r: bool)
    ensures
        r == alt_gr(m),
{
    m.control && !m.platform && m.alt
}

/// Whether Ctrl is held as itself.
pub fn is_ctrl(m: KeyMods) -> (r: bool)
    ensures
        r == ctrl_held(m),
{
    m.control && !is_alt_gr(m)
}

/// A key press: the key's name, the text it types (if any), the modifiers.
#[derive(Debug)]
pub struct KeyPress {
    pub key: String,
    pub key_char: Option<String>,
    pub mods: KeyMods,
}

/// The key's name in lower case.
pub open spec fn key_lower(p: KeyPress) -> Seq<char> {
    lowercase(p.key@)
}

pub open spec fn is_escape_key(l: Seq<char>) -> bool {
    l == "escape"@ || l == "esc"@
}

pub open spec fn is_enter_key(l: Seq<char>) -> bool {
    l == "enter"@ || l == "return"@
}

pub open spec fn is_down_key(l: Seq<char>) -> bool {
    l == "down"@ || l == "arrowdown"@
}

pub open spec fn is_up_key(l: Seq<char>) -> bool {
    l == "up"@ || l == "arrowup"@
}

pub open spec fn is_left_key(l: Seq<char>) -> bool {
    l == "left"@ || l == "arrowleft"@
}

pub open spec fn is_right_key(l: Seq<char>) -> bool {
    l == "right"@ || l == "arrowright"@
}

/// A key name one byte long in UTF-8: a single ASCII character.
pub open spec fn one_byte_name(k: Seq<char>) -> bool {
    k.len() == 1 && (k[0] as u32) < 128
}

/// Whether a key name is one byte long.
pub fn is_one_byte_key(k: &str) -> (r: bool)
    ensures
        r == one_byte_name(k@),
{
    let cs = str_chars(k);
    cs.len() == 1 && (cs[0] as u32) < 128
}

/// The text a press types into a text field: its typed text, or a key whose
/// name is one byte long, unless the platform key or Ctrl is held.
pub open spec fn spec_typed_text(p: KeyPress) -> Option<Seq<char>> {
    if p.mods.platform || ctrl_held(p.mods) {
        None
    } else {
        match p.key_char {
            Some(ch) => Some(ch@),
            None => if one_byte_name(p.key@) {
                Some(p.key@)
            } else {
                None
            },
        }
    }
}

/// The text a press types into a text field (see `spec_typed_text`).
pub fn typed_text(p: &KeyPress) -> (r: Option<String>)
    ensures
        r matches Some(t) ==> spec_typed_text(*p) == Some(t@),
        r is None ==> spec_typed_text(*p) is None,
{
    if p.mods.platform || is_ctrl(p.mods) {
        return None;
    }
    match &p.key_char {
        Some(ch) => Some(ch.clone()),
        None => {
            if is_one_byte_key(p.key.as_str()) {
                Some(p.key.clone())
            } else {
                None
            }
        },
    }
}

/// A key of a dead-key sequence (its name starts with `dead`): ignored.
pub open spec fn is_dead_key(l: Seq<char>) -> bool {
    "dead"@.is_prefix_of(l)
}

fn starts_with_dead(lower: &str) -> (r: bool)
    ensures
        r == is_dead_key(lower@),
{
    let cs = str_chars(lower);
    let pre = "dead";
    proof {
        reveal_strlit("dead");
    }
    let ps = str_chars(pre);
    if cs.len() < ps.len() {
        return false;
    }
    let mut i: usize = 0;
    while i < ps.len()
        invariant
            i <= ps.len(),
            ps.len() <= cs.len(),
            ps@ == "dead"@,
            cs@ == lower@,
            forall|j: int| 0 <= j < i ==> ps@[j] == cs@[j],
        decreases ps.len() - i,
    {
        if ps[i] != cs[i] {
            return false;
        }
        i = i + 1;
    }
    true
}

/// What a key does in a list picker (palette, snippets, PRs, SSH hosts,
/// worktrees, tab jumper, multi-tab search).
pub enum ListKey {
    Close,
    Accept,
    Next,
    Prev,
    /// Backspace: drop the query's last character.
    Erase,
    /// Add text to the query.
    Type(String),
    Ignore,
}

/// A list key with typed text by its characters.
pub enum ListKeyView {
    Close,
    Accept,
    Next,
    Prev,
    Erase,
    Type(Seq<char>),
    Ignore,
}

pub open spec fn list_key_view(k: ListKey) -> ListKeyView {
    match k {
        ListKey::Close => ListKeyView::Close,
        ListKey::Accept => ListKeyView::Accept,
        ListKey::Next => ListKeyView::Next,
        ListKey::Prev => ListKeyView::Prev,
        ListKey::Erase => ListKeyView::Erase,
        ListKey::Type(t) => ListKeyView::Type(t@),
        ListKey::Ignore => ListKeyView::Ignore,
    }
}

/// A text field's keys: Esc closes, Enter accepts, Backspace erases,
/// typed text is added; nothing else.
pub open spec fn spec_text_field_key(p: KeyPress) -> ListKeyView {
    let l = key_lower(p);
    if is_escape_key(l) {
        ListKeyView::Close
    } else if is_enter_key(l) {
        ListKeyView::Accept
    } else if l == "backspace"@ {
        ListKeyView::Erase
    } else {
        match spec_typed_text(p) {
            Some(t) => ListKeyView::Type(t),
            None => ListKeyView::Ignore,
        }
    }
}

/// A list picker's keys: as a text field, and Down or Tab moves to the
/// next row, Up to the previous one.
pub open spec fn spec_list_key(p: KeyPress) -> ListKeyView {
    let l = key_lower(p);
    if is_escape_key(l) {
        ListKeyView::Close
    } else if is_enter_key(l) {
        ListKeyView::Accept
    } else if is_down_key(l) || l == "tab"@ {
        ListKeyView::Next
    } else if is_up_key(l) {
        ListKeyView::Prev
    } else {
        spec_text_field_key(p)
    }
}

/// The scrollback search bar's keys: Enter steps to the next match,
/// Shift+Enter to the previous one.
pub open spec fn spec_search_key(p: KeyPress) -> ListKeyView {
    let l = key_lower(p);
    if is_escape_key(l) {
        ListKeyView::Close
    } else if is_enter_key(l) {
        if p.mods.shift {
            ListKeyView::Prev
        } else {
            ListKeyView::Next
        }
    } else {
        spec_text_field_key(p)
    }
}

/// The pending-close dialog's keys: Esc cancels, Enter confirms.
pub open spec fn spec_confirm_key(p: KeyPress) -> ListKeyView {
    let l = key_lower(p);
    if is_escape_key(l) {
        ListKeyView::Close
    } else if is_enter_key(l) {
        ListKeyView::Accept
    } else {
        ListKeyView::Ignore
    }
}

fn text_field_key_lower(p: &KeyPress, l: &String) -> (r: ListKey)
    requires
        l@ == key_lower(*p),
    ensures
        list_key_view(r) == spec_text_field_key(*p),
{
    if str_eq(l.as_str(), "escape") || str_eq(l.as_str(), "esc") {
        ListKey::Close
    } else if str_eq(l.as_str(), "enter") || str_eq(l.as_str(), "return") {
        ListKey::Accept
    } else if str_eq(l.as_str(), "backspace") {
        ListKey::Erase
    } else {
        match typed_text(p) {
            Some(t) => ListKey::Type(t),
            None => ListKey::Ignore,
        }
    }
}

/// Classifies a key for a text field (the tab rename dialog).
pub fn text_field_key(p: &KeyPress) -> (r: ListKey)
    ensures
        list_key_view(r) == spec_text_field_key(*p),
{
    let l = to_lowercase(p.key.as_str());
    text_field_key_lower(p, &l)
}

/// Classifies a key for a list picker.
pub fn list_key(p: &KeyPress) -> (r: ListKey)
    ensures
        list_key_view(r) == spec_list_key(*p),
{
    let l = to_lowercase(p.key.as_str());
    let s = l.as_str();
    if str_eq(s, "escape") || str_eq(s, "esc") {
        ListKey::Close
    } else if str_eq(s, "enter") || str_eq(s, "return") {
        ListKey::Accept
    } else if str_eq(s, "down") || str_eq(s, "arrowdown") || str_eq(s, "tab") {
        ListKey::Next
    } else if str_eq(s, "up") || str_eq(s, "arrowup") {
        ListKey::Prev
    } else {
        text_field_key_lower(p, &l)
    }
}

/// Classifies a key for the scrollback search bar.
pub fn search_key(p: &KeyPress) -> (r: ListKey)
    ensures
        list_key_view(r) == spec_search_key(*p),
{
    let l = to_lowercase(p.key.as_str());
    let s = l.as_str();
    if str_eq(s, "escape") || str_eq(s, "esc") {
        ListKey::Close
    } else if str_eq(s, "enter") || str_eq(s, "return") {
        if p.mods.shift {
            ListKey::Prev
        } else {
            ListKey::Next
        }
    } else {
        text_field_key_lower(p, &l)
    }
}

/// Classifies a key for the pending-close confirmation.
pub fn confirm_key(p: &KeyPress) -> (r: ListKey)
    ensures
        list_key_view(r) == spec_confirm_key(*p),
{
    let l = to_lowercase(p.key.as_str());
    let s = l.as_str();
    if str_eq(s, "escape") || str_eq(s, "esc") {
        ListKey::Close
    } else if str_eq(s, "enter") || str_eq(s, "return") {
        ListKey::Accept
    } else {
        ListKey::Ignore
    }
}

/// What a key does in the tab overview grid.
#[derive(Clone, Copy, Debug, PartialEq, Eq, Structural)]
pub enum OverviewKey {
    Close,
    /// Switch to the selected tab.
    Accept,
    Move(OverviewMove),
    /// Close the selected tab.
    CloseTab,
    NewTab,
    Ignore,
}

/// The overview's keys: arrows or `hjkl` (and Tab for right) move, `d`,
/// `x` or Backspace close the selected tab, `t` or `n` open a new one.
pub open spec fn spec_overview_key(l: Seq<char>) -> OverviewKey {
    if is_escape_key(l) {
        OverviewKey::Close
    } else if is_enter_key(l) {
        OverviewKey::Accept
    } else if is_right_key(l) || l == "l"@ || l == "tab"@ {
        OverviewKey::Move(OverviewMove::Right)
    } else if is_left_key(l) || l == "h"@ {
        OverviewKey::Move(OverviewMove::Left)
    } else if is_down_key(l) || l == "j"@ {
        OverviewKey::Move(OverviewMove::Down)
    } else if is_up_key(l) || l == "k"@ {
        OverviewKey::Move(OverviewMove::Up)
    } else if l == "d"@ || l == "x"@ || l == "backspace"@ {
        OverviewKey::CloseTab
    } else if l == "t"@ || l == "n"@ {
        OverviewKey::NewTab
    } else {
        OverviewKey::Ignore
    }
}

/// Classifies a key for the tab overview.
pub fn overview_key(p: &KeyPress) -> (r: OverviewKey)
    ensures
        r == spec_overview_key(key_lower(*p)),
{
    let l = to_lowercase(p.key.as_str());
    let s = l.as_str();
    if str_eq(s, "escape") || str_eq(s, "esc") {
        OverviewKey::Close
    } else if str_eq(s, "enter") || str_eq(s, "return") {
        OverviewKey::Accept
    } else if str_eq(s, "right") || str_eq(s, "arrowright") || str_eq(s, "l") || str_eq(s, "tab") {
        OverviewKey::Move(OverviewMove::Right)
    } else if str_eq(s, "left") || str_eq(s, "arrowleft") || str_eq(s, "h") {
        OverviewKey::Move(OverviewMove::Left)
    } else if str_eq(s, "down") || str_eq(s, "arrowdown") || str_eq(s, "j") {
        OverviewKey::Move(OverviewMove::Down)
    } else if str_eq(s, "up") || str_eq(s, "arrowup") || str_eq(s, "k") {
        OverviewKey::Move(OverviewMove::Up)
    } else if str_eq(s, "d") || str_eq(s, "x") || str_eq(s, "backspace") {
        OverviewKey::CloseTab
    } else if str_eq(s, "t") || str_eq(s, "n") {
        OverviewKey::NewTab
    } else {
        OverviewKey::Ignore
    }
}

/// What a key does in the assistant's input field.
pub enum AiInputKey {
    Escape,
    ToggleSidebar,
    SelectAll,
    Copy,
    Cut,
    Paste,
    Enter,
    Backspace,
    Delete,
    Left,
    Right,
    Home,
    End,
    Type(String),
    /// Not an input key: the press goes on to the other handlers.
    PassThrough,
}

/// An input key with typed text by its characters.
pub enum AiInputKeyView {
    Escape,
    ToggleSidebar,
    SelectAll,
    Copy,
    Cut,
    Paste,
    Enter,
    Backspace,
    Delete,
    Left,
    Right,
    Home,
    End,
    Type(Seq<char>),
    PassThrough,
}

pub open spec fn ai_input_key_view(k: AiInputKey) -> AiInputKeyView {
    match k {
        AiInputKey::Escape => AiInputKeyView::Escape,
        AiInputKey::ToggleSidebar => AiInputKeyView::ToggleSidebar,
        AiInputKey::SelectAll => AiInputKeyView::SelectAll,
        AiInputKey::Copy => AiInputKeyView::Copy,
        AiInputKey::Cut => AiInputKeyView::Cut,
        AiInputKey::Paste => AiInputKeyView::Paste,
        AiInputKey::Enter => AiInputKeyView::Enter,
        AiInputKey::Backspace => AiInputKeyView::Backspace,
        AiInputKey::Delete => AiInputKeyView::Delete,
        AiInputKey::Left => AiInputKeyView::Left,
        AiInputKey::Right => AiInputKeyView::Right,
        AiInputKey::Home => AiInputKeyView::Home,
        AiInputKey::End => AiInputKeyView::End,
        AiInputKey::Type(t) => AiInputKeyView::Type(t@),
        AiInputKey::PassThrough => AiInputKeyView::PassThrough,
    }
}

/// The editing shortcut modifier: Cmd on macOS, Ctrl elsewhere.
pub open spec fn edit_shortcut(m: KeyMods, is_mac: bool) -> bool {
    if is_mac {
        m.platform
    } else {
        ctrl_held(m)
    }
}

/// The assistant input's keys: Esc, Cmd+L or Ctrl+Shift+L (toggle the
/// sidebar), the platform's select-all/copy/cut/paste shortcuts, Enter,
/// Backspace, Delete, the arrows, Home, End and typed text.
pub open spec fn spec_ai_input_key(p: KeyPress, is_mac: bool) -> AiInputKeyView {
    let l = key_lower(p);
    let m = p.mods;
    if is_escape_key(l) {
        AiInputKeyView::Escape
    } else if (m.platform && l == "l"@) || (m.shift && ctrl_held(m) && l == "l"@) {
        AiInputKeyView::ToggleSidebar
    } else if edit_shortcut(m, is_mac) && l == "a"@ {
        AiInputKeyView::SelectAll
    } else if edit_shortcut(m, is_mac) && l == "c"@ {
        AiInputKeyView::Copy
    } else if edit_shortcut(m, is_mac) && l == "x"@ {
        AiInputKeyView::Cut
    } else if edit_shortcut(m, is_mac) && l == "v"@ {
        AiInputKeyView::Paste
    } else if is_enter_key(l) {
        AiInputKeyView::Enter
    } else if l == "backspace"@ {
        AiInputKeyView::Backspace
    } else if l == "delete"@ {
        AiInputKeyView::Delete
    } else if is_left_key(l) {
        AiInputKeyView::Left
    } else if is_right_key(l) {
        AiInputKeyView::Right
    } else if l == "home"@ {
        AiInputKeyView::Home
    } else if l == "end"@ {
        AiInputKeyView::End
    } else {
        match spec_typed_text(p) {
            Some(t) => AiInputKeyView::Type(t),
            None => AiInputKeyView::PassThrough,
        }
    }
}

/// Classifies a key for the assistant's input field.
pub fn ai_input_key(p: &KeyPress, is_mac: bool) -> (r: AiInputKey)
    ensures
        ai_input_key_view(r) == spec_ai_input_key(*p, is_mac),
{
    let l = to_lowercase(p.key.as_str());
    let s = l.as_str();
    let m = p.mods;
    let shortcut = if is_mac {
        m.platform
    } else {
        is_ctrl(m)
    };
    if str_eq(s, "escape") || str_eq(s, "esc") {
        AiInputKey::Escape
    } else if (m.platform && str_eq(s, "l")) || (m.shift && is_ctrl(m) && str_eq(s, "l")) {
        AiInputKey::ToggleSidebar
    } else if shortcut && str_eq(s, "a") {
        AiInputKey::SelectAll
    } else if shortcut && str_eq(s, "c") {
        AiInputKey::Copy
    } else if shortcut && str_eq(s, "x") {
        AiInputKey::Cut
    } else if shortcut && str_eq(s, "v") {
        AiInputKey::Paste
    } else if str_eq(s, "enter") || str_eq(s, "return") {
        AiInputKey::Enter
    } else if str_eq(s, "backspace") {
        AiInputKey::Backspace
    } else if str_eq(s, "delete") {
        AiInputKey::Delete
    } else if str_eq(s, "left") || str_eq(s, "arrowleft") {
        AiInputKey::Left
    } else if str_eq(s, "right") || str_eq(s, "arrowright") {
        AiInputKey::Right
    } else if str_eq(s, "home") {
        AiInputKey::Home
    } else if str_eq(s, "end") {
        AiInputKey::End
    } else {
        match typed_text(p) {
            Some(t) => AiInputKey::Type(t),
            None => AiInputKey::PassThrough,
        }
    }
}

/// Which part of the view a key press goes to.
#[derive(Clone, Copy, Debug, PartialEq, Eq, Structural)]
pub enum KeyTarget {
    /// Part of a dead-key sequence: ignored.
    Dead,
    AiInput,
    PendingClose,
    RenameTab,
    TabOverview,
    GlobalSearch,
    CommandPalette,
    SnippetPicker,
    PrPicker,
    SshManager,
    SearchBar,
    WorktreePicker,
    ProjectJumper,
    /// Esc closes the open menus and dialogs.
    DismissOverlays,
    /// The rename-tab shortcut (Cmd+Shift+R, or Ctrl+Shift+R off macOS).
    OpenRenameTab,
    /// Key bindings, then the terminal.
    Shortcuts,
}

/// The view state that decides where keys go.
#[derive(Clone, Copy, Debug, PartialEq, Eq, Structural)]
pub struct KeyFocus {
    pub ai_input: bool,
    pub pending_close: bool,
    pub rename_tab: bool,
    pub tab_overview: bool,
    pub global_search: bool,
    pub command_palette: bool,
    pub snippet_picker: bool,
    pub pr_picker: bool,
    pub ssh_manager: bool,
    pub search_bar: bool,
    pub worktree_picker: bool,
    pub project_jumper: bool,
    /// A menu or dialog that Esc closes (settings, about, context menus,
    /// git menu, update dialog).
    pub dismissable: bool,
}

/// Where a key goes: dead keys nowhere; the assistant input takes its own
/// keys first; then the first open of the pending-close dialog, the rename
/// dialog, the overview, the multi-tab search, the palette, the snippet,
/// PR, SSH pickers, the search bar, the worktree picker and the tab jumper
/// takes every key; then Esc closes menus, the rename shortcut opens the
/// rename dialog, and everything else goes to the key bindings.
pub open spec fn spec_key_target(f: KeyFocus, p: KeyPress, is_mac: bool) -> KeyTarget {
    let l = key_lower(p);
    let m = p.mods;
    if is_dead_key(l) {
        KeyTarget::Dead
    } else if f.ai_input && !(spec_ai_input_key(p, is_mac) is PassThrough) {
        KeyTarget::AiInput
    } else if f.pending_close {
        KeyTarget::PendingClose
    } else if f.rename_tab {
        KeyTarget::RenameTab
    } else if f.tab_overview {
        KeyTarget::TabOverview
    } else if f.global_search {
        KeyTarget::GlobalSearch
    } else if f.command_palette {
        KeyTarget::CommandPalette
    } else if f.snippet_picker {
        KeyTarget::SnippetPicker
    } else if f.pr_picker {
        KeyTarget::PrPicker
    } else if f.ssh_manager {
        KeyTarget::SshManager
    } else if f.search_bar {
        KeyTarget::SearchBar
    } else if f.worktree_picker {
        KeyTarget::WorktreePicker
    } else if f.project_jumper {
        KeyTarget::ProjectJumper
    } else if f.dismissable && is_escape_key(l) {
        KeyTarget::DismissOverlays
    } else if (if is_mac {
        m.platform
    } else {
        ctrl_held(m)
    }) && m.shift && l == "r"@ {
        KeyTarget::OpenRenameTab
    } else {
        KeyTarget::Shortcuts
    }
}

/// Decides where a key press goes (see `spec_key_target`).
pub fn key_target(f: KeyFocus, p: &KeyPress, is_mac: bool) -> (r: KeyTarget)
    ensures
        r == spec_key_target(f, *p, is_mac),
{
    let l = to_lowercase(p.key.as_str());
    let s = l.as_str();
    let m = p.mods;
    if starts_with_dead(s) {
        return KeyTarget::Dead;
    }
    if f.ai_input {
        match ai_input_key(p, is_mac) {
            AiInputKey::PassThrough => {},
            _ => {
                return KeyTarget::AiInput;
            },
        }
    }
    if f.pending_close {
        KeyTarget::PendingClose
    } else if f.rename_tab {
        KeyTarget::RenameTab
    } else if f.tab_overview {
        KeyTarget::TabOverview
    } else if f.global_search {
        KeyTarget::GlobalSearch
    } else if f.command_palette {
        KeyTarget::CommandPalette
    } else if f.snippet_picker {
        KeyTarget::SnippetPicker
    } else if f.pr_picker {
        KeyTarget::PrPicker
    } else if f.ssh_manager {
        KeyTarget::SshManager
    } else if f.search_bar {
        KeyTarget::SearchBar
    } else if f.worktree_picker {
        KeyTarget::WorktreePicker
    } else if f.project_jumper {
        KeyTarget::ProjectJumper
    } else if f.dismissable && (str_eq(s, "escape") || str_eq(s, "esc")) {
        KeyTarget::DismissOverlays
    } else if (if is_mac {
        m.platform
    } else {
        is_ctrl(m)
    }) && m.shift && str_eq(s, "r") {
        KeyTarget::OpenRenameTab
    } else {
        KeyTarget::Shortcuts
    }
}

impl<F> RootView<F> {
    /// Which inputs and overlays are open, for routing keys.
    pub fn key_focus(&self) -> (f: KeyFocus)
        ensures
            f.ai_input == (self.ai.ai_sidebar_open && self.ai.ai_input_focused),
            f.pending_close == (self.workspace.pending_close is Some),
            f.rename_tab == self.workspace.is_rename_tab_open,
            f.tab_overview == self.overlays.is_tab_overview_open,
            f.global_search == self.overlays.is_global_search_open,
            f.command_palette == self.overlays.is_command_palette_open,
            f.snippet_picker == self.overlays.is_snippet_picker_open,
            f.pr_picker == self.overlays.is_pr_picker_open,
            f.ssh_manager == self.overlays.is_ssh_manager_open,
            f.search_bar == self.overlays.is_search_open,
            f.worktree_picker == self.overlays.is_worktree_picker_open,
            f.project_jumper == self.overlays.is_project_jumper_open,
            f.dismissable == (self.overlays.is_settings_open || self.overlays.is_about_open
                || self.overlays.is_context_menu_open || self.overlays.is_git_menu_open
                || self.overlays.is_tab_context_menu_open || self.overlays.is_pane_context_menu_open
                || self.overlays.is_update_modal_open),
    {
        let o = &self.overlays;
        KeyFocus {
            ai_input: self.ai.ai_sidebar_open && self.ai.ai_input_focused,
            pending_close: self.workspace.pending_close.is_some(),
            rename_tab: self.workspace.is_rename_tab_open,
            tab_overview: o.is_tab_overview_open,
            global_search: o.is_global_search_open,
            command_palette: o.is_command_palette_open,
            snippet_picker: o.is_snippet_picker_open,
            pr_picker: o.is_pr_picker_open,
            ssh_manager: o.is_ssh_manager_open,
            search_bar: o.is_search_open,
            worktree_picker: o.is_worktree_picker_open,
            project_jumper: o.is_project_jumper_open,
            dismissable: o.is_settings_open || o.is_about_open || o.is_context_menu_open
                || o.is_git_menu_open || o.is_tab_context_menu_open || o.is_pane_context_menu_open
                || o.is_update_modal_open,
        }
    }
}

} // verus!
