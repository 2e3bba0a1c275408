use fastty::keys::{
    ai_input_key, confirm_key, key_target, list_key, overview_key, search_key, text_field_key,
    typed_text, AiInputKey, KeyFocus, KeyMods, KeyPress, KeyTarget, ListKey, OverviewKey,
};
use fastty::mouse::{
    drag_point, grid_point_at, hover_link, press_report_code, release_report_code, scroll_blocked,
    scrolled_offset, wheel_report_code, ClickAction, DragRow, DragStep, GridClick, PointerButton,
    LinkToken, TokenAt,
};
use fastty::nav::OverviewMove;
use fastty::overlays::Overlays;
use fastty::pickers::{
    edit_text, step_list, OverviewStep, PickerStep, RenameStep, SearchStep,
};
use fastty::pr::PrPickerMode;
use fastty::selection::{GridPoint, Selection};
use fastty::termkeys::{terminal_key, PromptEdit, TermScroll};
use fastty::view::{RootView, Workspace};
use fastty::palette::TabLayout;

fn mods(shift: bool, control: bool, alt: bool, platform: bool) -> KeyMods {
    KeyMods { shift, control, alt, platform }
}

fn press(key: &str, key_char: Option<&str>, m: KeyMods) -> KeyPress {
    KeyPress { key: key.to_string(), key_char: key_char.map(|s| s.to_string()), mods: m }
}

fn plain(key: &str, key_char: Option<&str>) -> KeyPress {
    press(key, key_char, mods(false, false, false, false))
}

fn focus() -> KeyFocus {
    KeyFocus {
        ai_input: false,
        pending_close: false,
        rename_tab: false,
        tab_overview: false,
        global_search: false,
        command_palette: false,
        snippet_picker: false,
        pr_picker: false,
        ssh_manager: false,
        search_bar: false,
        worktree_picker: false,
        project_jumper: false,
        dismissable: false,
    }
}

fn sent(p: &KeyPress) -> Option<Vec<u8>> {
    terminal_key(p).send
}

#[test]
fn typed_text_follows_key_char_and_one_byte_names() {
    assert_eq!(typed_text(&plain("a", Some("a"))), Some("a".to_string()));
    assert_eq!(typed_text(&plain("q", None)), Some("q".to_string()));
    assert_eq!(typed_text(&plain("tab", None)), None);
    assert_eq!(typed_text(&plain("é", None)), None);
    assert_eq!(typed_text(&press("a", Some("a"), mods(false, true, false, false))), None);
    assert_eq!(typed_text(&press("a", Some("a"), mods(false, false, false, true))), None);
    // AltGr (Ctrl+Alt) still types.
    assert_eq!(typed_text(&press("q", Some("@"), mods(false, true, true, false))), Some("@".to_string()));
}

#[test]
fn list_keys_classify_navigation_and_editing() {
    assert!(matches!(list_key(&plain("Escape", None)), ListKey::Close));
    assert!(matches!(list_key(&plain("esc", None)), ListKey::Close));
    assert!(matches!(list_key(&plain("Enter", None)), ListKey::Accept));
    assert!(matches!(list_key(&plain("tab", Some("\t"))), ListKey::Next));
    assert!(matches!(list_key(&plain("ArrowDown", None)), ListKey::Next));
    assert!(matches!(list_key(&plain("up", None)), ListKey::Prev));
    assert!(matches!(list_key(&plain("backspace", None)), ListKey::Erase));
    assert!(matches!(list_key(&plain("x", Some("x"))), ListKey::Type(ref t) if t == "x"));
    assert!(matches!(list_key(&plain("f5", None)), ListKey::Ignore));
    // A text field has no row moves: Down types nothing.
    assert!(matches!(text_field_key(&plain("down", None)), ListKey::Ignore));
    assert!(matches!(confirm_key(&plain("return", None)), ListKey::Accept));
    assert!(matches!(confirm_key(&plain("y", Some("y"))), ListKey::Ignore));
    assert!(matches!(search_key(&press("enter", None, mods(true, false, false, false))), ListKey::Prev));
    assert!(matches!(search_key(&plain("enter", None)), ListKey::Next));
}

#[test]
fn overview_keys_use_arrows_and_vim_letters() {
    assert_eq!(overview_key(&plain("l", Some("l"))), OverviewKey::Move(OverviewMove::Right));
    assert_eq!(overview_key(&plain("tab", None)), OverviewKey::Move(OverviewMove::Right));
    assert_eq!(overview_key(&plain("h", Some("h"))), OverviewKey::Move(OverviewMove::Left));
    assert_eq!(overview_key(&plain("j", Some("j"))), OverviewKey::Move(OverviewMove::Down));
    assert_eq!(overview_key(&plain("ArrowUp", None)), OverviewKey::Move(OverviewMove::Up));
    assert_eq!(overview_key(&plain("x", Some("x"))), OverviewKey::CloseTab);
    assert_eq!(overview_key(&plain("n", Some("n"))), OverviewKey::NewTab);
    assert_eq!(overview_key(&plain("escape", None)), OverviewKey::Close);
    assert_eq!(overview_key(&plain("q", Some("q"))), OverviewKey::Ignore);
}

#[test]
fn ai_input_keys_use_platform_shortcuts() {
    let cmd = mods(false, false, false, true);
    let ctrl = mods(false, true, false, false);
    assert!(matches!(ai_input_key(&press("c", Some("c"), cmd), true), AiInputKey::Copy));
    assert!(matches!(ai_input_key(&press("c", Some("c"), ctrl), false), AiInputKey::Copy));
    // Ctrl+C on macOS is not the copy shortcut and passes on.
    assert!(matches!(ai_input_key(&press("c", Some("c"), ctrl), true), AiInputKey::PassThrough));
    assert!(matches!(ai_input_key(&press("l", Some("l"), cmd), false), AiInputKey::ToggleSidebar));
    assert!(matches!(
        ai_input_key(&press("l", None, mods(true, true, false, false)), true),
        AiInputKey::ToggleSidebar
    ));
    assert!(matches!(ai_input_key(&plain("Escape", None), true), AiInputKey::Escape));
    assert!(matches!(ai_input_key(&plain("delete", None), true), AiInputKey::Delete));
    assert!(matches!(ai_input_key(&plain("a", Some("a")), true), AiInputKey::Type(ref t) if t == "a"));
}

#[test]
fn key_target_follows_overlay_priority() {
    let f = KeyFocus { pending_close: true, command_palette: true, ..focus() };
    assert_eq!(key_target(f, &plain("x", Some("x")), true), KeyTarget::PendingClose);
    let f = KeyFocus { command_palette: true, search_bar: true, ..focus() };
    assert_eq!(key_target(f, &plain("x", Some("x")), true), KeyTarget::CommandPalette);
    let f = KeyFocus { ai_input: true, command_palette: true, ..focus() };
    assert_eq!(key_target(f, &plain("x", Some("x")), true), KeyTarget::AiInput);
    // Keys the assistant input does not take go on.
    assert_eq!(key_target(f, &press("t", Some("t"), mods(false, false, false, true)), true), KeyTarget::CommandPalette);
    assert_eq!(key_target(focus(), &plain("Dead", None), true), KeyTarget::Dead);
    assert_eq!(key_target(focus(), &plain("deadgrave", None), false), KeyTarget::Dead);
    let f = KeyFocus { dismissable: true, ..focus() };
    assert_eq!(key_target(f, &plain("escape", None), true), KeyTarget::DismissOverlays);
    assert_eq!(key_target(f, &plain("a", Some("a")), true), KeyTarget::Shortcuts);
    let rename_mac = press("r", Some("R"), mods(true, false, false, true));
    assert_eq!(key_target(focus(), &rename_mac, true), KeyTarget::OpenRenameTab);
    assert_eq!(key_target(focus(), &rename_mac, false), KeyTarget::Shortcuts);
    let rename_linux = press("r", Some("R"), mods(true, true, false, false));
    assert_eq!(key_target(focus(), &rename_linux, false), KeyTarget::OpenRenameTab);
}

#[test]
fn root_view_key_focus_reflects_open_overlays() {
    let mut root = RootView::new(true, TabLayout::Horizontal, false, "default".to_string(), 13.0f32);
    root.overlays.is_about_open = true;
    root.overlays.is_search_open = true;
    let f = root.key_focus();
    assert!(f.dismissable);
    assert!(f.search_bar);
    assert!(!f.ai_input);
    assert!(!f.command_palette);
}

#[test]
fn terminal_key_sends_control_bytes() {
    let ctrl = mods(false, true, false, false);
    assert_eq!(sent(&press("c", Some("c"), ctrl)), Some(vec![3]));
    assert!(matches!(terminal_key(&press("c", Some("c"), ctrl)).prompt, PromptEdit::Clear));
    assert_eq!(sent(&press("U", None, ctrl)), Some(vec![21]));
    assert_eq!(sent(&press("d", None, ctrl)), Some(vec![4]));
    assert_eq!(sent(&press("z", None, ctrl)), Some(vec![26]));
    assert_eq!(sent(&press("s", None, ctrl)), Some(vec![19]));
    assert!(matches!(terminal_key(&press("d", None, ctrl)).prompt, PromptEdit::Keep));
    // Ctrl+I and Ctrl+M have no byte of their own here.
    assert_eq!(sent(&press("i", None, ctrl)), None);
    assert_eq!(sent(&press("m", None, ctrl)), None);
    assert_eq!(sent(&press("1", None, ctrl)), None);
}

#[test]
fn terminal_key_sends_alt_sequences() {
    let alt = mods(false, false, true, false);
    assert_eq!(sent(&press("b", None, alt)), Some(b"\x1bb".to_vec()));
    assert_eq!(sent(&press("f", None, alt)), Some(b"\x1bf".to_vec()));
    assert_eq!(sent(&press("d", None, alt)), Some(b"\x1bd".to_vec()));
    assert_eq!(sent(&press("backspace", None, alt)), Some(vec![0x17]));
    assert_eq!(sent(&press("x", None, alt)), Some(b"\x1bx".to_vec()));
    assert_eq!(sent(&press("x", None, mods(true, false, true, false))), Some(b"\x1bX".to_vec()));
    assert_eq!(sent(&press("é", None, mods(true, false, true, false))), Some("\u{1b}é".as_bytes().to_vec()));
    assert_eq!(sent(&press("left", None, alt)), None);
}

#[test]
fn terminal_key_sends_vt_sequences_and_scrolls_with_shift() {
    assert_eq!(sent(&plain("enter", None)), Some(b"\r".to_vec()));
    assert!(matches!(terminal_key(&plain("enter", None)).prompt, PromptEdit::Clear));
    let shift = mods(true, false, false, false);
    assert_eq!(sent(&press("enter", None, shift)), Some(b"\n".to_vec()));
    assert!(matches!(terminal_key(&press("enter", None, shift)).prompt, PromptEdit::PushNewline));
    assert_eq!(sent(&plain("backspace", None)), Some(vec![0x7f]));
    assert!(matches!(terminal_key(&plain("backspace", None)).prompt, PromptEdit::Pop));
    let tab = terminal_key(&plain("tab", None));
    assert_eq!(tab.send, Some(b"\t".to_vec()));
    assert!(tab.snippet_tab);
    assert_eq!(sent(&press("tab", None, shift)), Some(b"\x1b[Z".to_vec()));
    assert_eq!(sent(&plain("Escape", None)), Some(vec![0x1b]));
    assert_eq!(sent(&plain("ArrowUp", None)), Some(b"\x1b[A".to_vec()));
    assert_eq!(sent(&plain("down", None)), Some(b"\x1b[B".to_vec()));
    assert_eq!(sent(&plain("right", None)), Some(b"\x1b[C".to_vec()));
    assert_eq!(sent(&plain("left", None)), Some(b"\x1b[D".to_vec()));
    assert_eq!(sent(&plain("home", None)), Some(b"\x1b[H".to_vec()));
    assert_eq!(sent(&plain("end", None)), Some(b"\x1b[F".to_vec()));
    assert_eq!(sent(&plain("pageup", None)), Some(b"\x1b[5~".to_vec()));
    assert_eq!(sent(&plain("pagedown", None)), Some(b"\x1b[6~".to_vec()));
    let up = terminal_key(&press("up", None, shift));
    assert_eq!(up.send, None);
    assert_eq!(up.scroll, Some(TermScroll::LineUp));
    assert_eq!(terminal_key(&press("home", None, shift)).scroll, Some(TermScroll::Top));
    assert_eq!(terminal_key(&press("pagedown", None, shift)).scroll, Some(TermScroll::PageDown));
}

#[test]
fn terminal_key_types_text() {
    let t = terminal_key(&plain("a", Some("a")));
    assert_eq!(t.send, Some(b"a".to_vec()));
    assert!(matches!(t.prompt, PromptEdit::Push(ref s) if s == "a"));
    let e = terminal_key(&plain("e", Some("é")));
    assert_eq!(e.send, Some("é".as_bytes().to_vec()));
    // With the platform key the text is sent but not recorded.
    let cmd = terminal_key(&press("k", Some("k"), mods(false, false, false, true)));
    assert_eq!(cmd.send, Some(b"k".to_vec()));
    assert!(matches!(cmd.prompt, PromptEdit::Keep));
    assert_eq!(sent(&plain("f5", None)), None);
    // AltGr types its character and records it.
    let at = terminal_key(&press("q", Some("@"), mods(false, true, true, false)));
    assert_eq!(at.send, Some(b"@".to_vec()));
    assert!(matches!(at.prompt, PromptEdit::Push(ref s) if s == "@"));
}

#[test]
fn step_list_wraps_and_edits() {
    let mut open = true;
    let mut q = "ab".to_string();
    let mut sel = 2usize;
    assert_eq!(step_list(&mut open, &mut q, &mut sel, 3, &ListKey::Next), PickerStep::Moved);
    assert_eq!(sel, 0);
    assert_eq!(step_list(&mut open, &mut q, &mut sel, 3, &ListKey::Prev), PickerStep::Moved);
    assert_eq!(sel, 2);
    assert_eq!(step_list(&mut open, &mut q, &mut sel, 0, &ListKey::Next), PickerStep::Unchanged);
    assert_eq!(sel, 2);
    assert_eq!(step_list(&mut open, &mut q, &mut sel, 3, &ListKey::Type("é".to_string())), PickerStep::Edited);
    assert_eq!(q, "abé");
    assert_eq!(sel, 0);
    assert_eq!(step_list(&mut open, &mut q, &mut sel, 3, &ListKey::Erase), PickerStep::Edited);
    assert_eq!(q, "ab");
    assert_eq!(step_list(&mut open, &mut q, &mut sel, 3, &ListKey::Accept), PickerStep::Accept);
    assert!(open);
    assert_eq!(step_list(&mut open, &mut q, &mut sel, 3, &ListKey::Close), PickerStep::Closed);
    assert!(!open);
    let mut empty = String::new();
    assert!(edit_text(&mut empty, &ListKey::Erase));
    assert_eq!(empty, "");
    assert!(!edit_text(&mut empty, &ListKey::Ignore));
}

#[test]
fn picker_keys_touch_only_their_picker() {
    let mut o = Overlays::new();
    o.is_command_palette_open = true;
    o.is_snippet_picker_open = true;
    o.snippet_query = "zz".to_string();
    assert_eq!(o.command_palette_key(5, &ListKey::Type("th".to_string())), PickerStep::Edited);
    assert_eq!(o.command_palette_query, "th");
    assert_eq!(o.snippet_query, "zz");
    assert_eq!(o.command_palette_key(5, &ListKey::Close), PickerStep::Closed);
    assert!(!o.is_command_palette_open);
    assert!(o.is_snippet_picker_open);
    o.ssh_manager_selected = 1;
    assert_eq!(o.ssh_manager_key(2, &ListKey::Next), PickerStep::Moved);
    assert_eq!(o.ssh_manager_selected, 0);
    assert_eq!(o.global_search_key(0, &ListKey::Prev), PickerStep::Unchanged);
}

#[test]
fn pr_picker_actions_mode_goes_back_on_escape() {
    let mut o = Overlays::new();
    o.is_pr_picker_open = true;
    o.pr_picker_mode = PrPickerMode::Actions { number: 42, title: "Fix".to_string() };
    o.pr_picker_selected = 3;
    o.pr_picker_query = "fi".to_string();
    assert_eq!(o.pr_picker_key(4, &ListKey::Type("x".to_string())), PickerStep::Unchanged);
    assert_eq!(o.pr_picker_query, "fi");
    assert_eq!(o.pr_picker_key(4, &ListKey::Next), PickerStep::Moved);
    assert_eq!(o.pr_picker_selected, 0);
    assert_eq!(o.pr_picker_key(4, &ListKey::Close), PickerStep::BackToList);
    assert!(matches!(o.pr_picker_mode, PrPickerMode::Browse));
    assert!(o.is_pr_picker_open);
    assert_eq!(o.pr_picker_key(4, &ListKey::Close), PickerStep::Closed);
    assert!(!o.is_pr_picker_open);
}

#[test]
fn tab_overview_keys_move_switch_and_close() {
    let mut o = Overlays::new();
    o.is_tab_overview_open = true;
    o.tab_overview_selected = 1;
    assert_eq!(o.tab_overview_key(OverviewKey::Move(OverviewMove::Down), 5), OverviewStep::Moved);
    assert_eq!(o.tab_overview_selected, 4);
    assert_eq!(o.tab_overview_key(OverviewKey::CloseTab, 5), OverviewStep::CloseTab(4));
    o.clamp_tab_overview(4);
    assert_eq!(o.tab_overview_selected, 3);
    assert!(o.is_tab_overview_open);
    assert_eq!(o.tab_overview_key(OverviewKey::Accept, 4), OverviewStep::SwitchTo(3));
    assert!(!o.is_tab_overview_open);
    o.is_tab_overview_open = true;
    assert_eq!(o.tab_overview_key(OverviewKey::Move(OverviewMove::Up), 0), OverviewStep::Closed);
    assert!(!o.is_tab_overview_open);
    o.is_tab_overview_open = true;
    o.clamp_tab_overview(0);
    assert!(!o.is_tab_overview_open);
}

#[test]
fn search_bar_steps_through_matches() {
    let mut o = Overlays::new();
    o.is_search_open = true;
    assert_eq!(o.set_search_matches(vec![10, 20, 30]), Some(10));
    assert_eq!(o.search_bar_key(&ListKey::Next, true), SearchStep::ScrollTo(20));
    assert_eq!(o.search_bar_key(&ListKey::Prev, true), SearchStep::ScrollTo(10));
    assert_eq!(o.search_bar_key(&ListKey::Prev, true), SearchStep::ScrollTo(30));
    assert_eq!(o.search_match_idx, 2);
    assert_eq!(o.search_bar_key(&ListKey::Type("ls".to_string()), true), SearchStep::QueryEdited);
    assert_eq!(o.search_query, "ls");
    assert_eq!(o.search_bar_key(&ListKey::Type("x".to_string()), false), SearchStep::Unchanged);
    assert_eq!(o.search_query, "ls");
    assert_eq!(o.set_search_matches(Vec::new()), None);
    assert_eq!(o.search_bar_key(&ListKey::Next, true), SearchStep::Unchanged);
    assert_eq!(o.search_bar_key(&ListKey::Close, false), SearchStep::Closed);
    assert!(!o.is_search_open);
}

fn workspace_with_tabs(n: usize) -> Workspace {
    let mut ws = Workspace::new();
    for i in 0..n {
        let pane = ws.allocate_pane_id();
        ws.add_tab(format!("tab {}", i), pane);
    }
    ws
}

#[test]
fn tab_switching_keys_wrap_and_drop_selection() {
    let mut ws = workspace_with_tabs(3);
    assert_eq!(ws.active_tab_idx, 2);
    ws.selection = Some(Selection { start: GridPoint { line: 0, column: 0 }, end: GridPoint { line: 0, column: 3 } });
    assert!(ws.next_tab());
    assert_eq!(ws.active_tab_idx, 0);
    assert!(ws.selection.is_none());
    assert!(ws.prev_tab());
    assert_eq!(ws.active_tab_idx, 2);
    assert!(ws.select_tab_number(2));
    assert_eq!(ws.active_tab_idx, 1);
    assert!(!ws.select_tab_number(4));
    assert!(!ws.select_tab_number(0));
    assert_eq!(ws.active_tab_idx, 1);
    let mut empty = Workspace::new();
    assert!(!empty.next_tab());
    assert!(!empty.prev_tab());
}

#[test]
fn rename_dialog_keys_edit_and_close() {
    let mut ws = workspace_with_tabs(1);
    ws.open_rename_tab(0);
    assert_eq!(ws.rename_tab_input, "tab 0");
    assert_eq!(ws.rename_tab_key(&ListKey::Erase), RenameStep::Edited);
    assert_eq!(ws.rename_tab_key(&ListKey::Type("X".to_string())), RenameStep::Edited);
    assert_eq!(ws.rename_tab_input, "tab X");
    assert_eq!(ws.rename_tab_key(&ListKey::Accept), RenameStep::Save);
    assert!(ws.is_rename_tab_open);
    assert_eq!(ws.rename_tab_key(&ListKey::Close), RenameStep::Closed);
    assert!(!ws.is_rename_tab_open);
    ws.selection = Some(Selection { start: GridPoint { line: 1, column: 0 }, end: GridPoint { line: 1, column: 2 } });
    assert!(ws.drop_selection_for_typing());
    assert!(!ws.drop_selection_for_typing());
}

#[test]
fn grid_points_clamp_to_history_and_screen() {
    let p = grid_point_at(3, 100, 2, 50, 24, 80);
    assert_eq!(p, GridPoint { line: 1, column: 79 });
    let p = grid_point_at(0, 5, 80, 50, 24, 80);
    assert_eq!(p, GridPoint { line: -50, column: 5 });
    let p = grid_point_at(40, 0, 0, 50, 24, 80);
    assert_eq!(p.line, 23);
    assert_eq!(drag_point(DragRow::AboveTop, true, 7, 3, 100, 24, 80), GridPoint { line: -3, column: 0 });
    assert_eq!(drag_point(DragRow::AboveTop, false, 7, 3, 100, 24, 80), GridPoint { line: -3, column: 7 });
    assert_eq!(drag_point(DragRow::BelowBottom, true, 90, 3, 100, 24, 80), GridPoint { line: 20, column: 79 });
    assert_eq!(drag_point(DragRow::Inside(5), false, 1, 0, 0, 24, 80), GridPoint { line: 5, column: 1 });
}

#[test]
fn report_codes_match_xterm_buttons() {
    assert_eq!(press_report_code(PointerButton::Left), 0);
    assert_eq!(press_report_code(PointerButton::Middle), 1);
    assert_eq!(press_report_code(PointerButton::Right), 0);
    assert_eq!(release_report_code(PointerButton::Right), 2);
    assert_eq!(release_report_code(PointerButton::Other), 0);
    assert_eq!(wheel_report_code(true), 64);
    assert_eq!(wheel_report_code(false), 65);
}

#[test]
fn scrolling_stays_within_history() {
    assert_eq!(scrolled_offset(5, 100, 3), 8);
    assert_eq!(scrolled_offset(5, 100, -10), 0);
    assert_eq!(scrolled_offset(98, 100, 7), 100);
    assert_eq!(scrolled_offset(0, 0, isize::MIN), 0);
    assert_eq!(scrolled_offset(3, 100, isize::MAX), 100);
    assert!(scroll_blocked(0, 100, false));
    assert!(!scroll_blocked(0, 100, true));
    assert!(scroll_blocked(100, 100, true));
    assert!(!scroll_blocked(50, 100, true));
}

fn click(button: PointerButton, click_count: usize, token: TokenAt) -> GridClick {
    GridClick {
        button,
        click_count,
        mouse_mode: false,
        link_modifier: false,
        over_link: false,
        below_pane: false,
        point: GridPoint { line: 2, column: 6 },
        screen_cols: 80,
        token,
    }
}

#[test]
fn clicks_select_words_lines_and_start_drags() {
    let mut ws = workspace_with_tabs(1);
    let single = click(PointerButton::Left, 1, TokenAt::Missing);
    assert_eq!(ws.press_on_grid(&single), ClickAction::StartSelection);
    assert!(ws.is_selecting);
    assert_eq!(ws.selection_start, Some(GridPoint { line: 2, column: 6 }));
    assert!(ws.selection.is_none());

    let double = click(PointerButton::Left, 2, TokenAt::Found(4, 9));
    assert_eq!(ws.press_on_grid(&double), ClickAction::ContextMenu);
    assert_eq!(ws.selection, Some(Selection { start: GridPoint { line: 2, column: 4 }, end: GridPoint { line: 2, column: 8 } }));
    assert!(!ws.is_selecting);
    assert!(ws.selection_start.is_none());

    let locked = click(PointerButton::Left, 2, TokenAt::Unreadable);
    ws.press_on_grid(&locked);
    assert!(ws.selection.is_some());

    let triple = click(PointerButton::Left, 3, TokenAt::Missing);
    assert_eq!(ws.press_on_grid(&triple), ClickAction::ContextMenu);
    assert_eq!(ws.selection, Some(Selection { start: GridPoint { line: 2, column: 0 }, end: GridPoint { line: 2, column: 79 } }));

    // A right click keeps an existing selection.
    let right = click(PointerButton::Right, 1, TokenAt::Found(0, 3));
    assert_eq!(ws.press_on_grid(&right), ClickAction::ContextMenu);
    assert_eq!(ws.selection.unwrap().end.column, 79);
    ws.selection = None;
    ws.press_on_grid(&right);
    assert_eq!(ws.selection, Some(Selection { start: GridPoint { line: 2, column: 0 }, end: GridPoint { line: 2, column: 2 } }));
}

#[test]
fn clicks_in_mouse_mode_are_reported() {
    let mut ws = workspace_with_tabs(1);
    let mut c = click(PointerButton::Middle, 1, TokenAt::Missing);
    c.mouse_mode = true;
    assert_eq!(ws.press_on_grid(&c), ClickAction::Report(1));
    assert!(!ws.is_selecting);
    // A double click selects even in mouse mode.
    c.button = PointerButton::Left;
    c.click_count = 2;
    assert_eq!(ws.press_on_grid(&c), ClickAction::ContextMenu);
    let mut link = click(PointerButton::Left, 1, TokenAt::Missing);
    link.link_modifier = true;
    link.over_link = true;
    assert_eq!(ws.press_on_grid(&link), ClickAction::OpenLink);
    let mut below = click(PointerButton::Left, 1, TokenAt::Missing);
    below.below_pane = true;
    assert_eq!(ws.press_on_grid(&below), ClickAction::Nothing);
    assert_eq!(ws.press_on_grid(&click(PointerButton::Middle, 1, TokenAt::Missing)), ClickAction::Nothing);
}

#[test]
fn dragging_orders_the_selection_and_release_ends_it() {
    let mut ws = workspace_with_tabs(1);
    ws.press_on_grid(&click(PointerButton::Left, 1, TokenAt::Missing));
    // Not yet dragged: the endpoint does not move.
    assert!(!ws.drag_selection_to(GridPoint { line: 0, column: 0 }));
    assert_eq!(ws.pointer_moved(true), DragStep::Continues);
    assert!(ws.drag_selection_to(GridPoint { line: 0, column: 1 }));
    assert_eq!(ws.selection, Some(Selection { start: GridPoint { line: 0, column: 1 }, end: GridPoint { line: 2, column: 6 } }));
    assert!(ws.drag_selection_to(GridPoint { line: 2, column: 6 }));
    assert!(ws.selection.is_none());
    assert!(!ws.drag_selection_to(GridPoint { line: 2, column: 6 }));
    assert!(ws.drag_selection_to(GridPoint { line: 3, column: 0 }));
    assert!(ws.release_pointer());
    assert!(!ws.is_selecting);
    assert!(!ws.release_pointer());
    assert_eq!(ws.pointer_moved(true), DragStep::NotSelecting);
    ws.press_on_grid(&click(PointerButton::Left, 1, TokenAt::Missing));
    assert_eq!(ws.pointer_moved(false), DragStep::Ended);
    assert!(!ws.is_selecting);
}

#[test]
fn prompt_record_follows_edits() {
    let mut root = RootView::new(false, TabLayout::Horizontal, false, "default".to_string(), 13.0f32);
    root.apply_prompt_edit(&PromptEdit::Push("gi".to_string()));
    root.apply_prompt_edit(&PromptEdit::Push("tx".to_string()));
    root.apply_prompt_edit(&PromptEdit::Pop);
    assert_eq!(root.typed_prompt_buf, "git");
    root.apply_prompt_edit(&PromptEdit::PushNewline);
    assert_eq!(root.typed_prompt_buf, "git\n");
    root.apply_prompt_edit(&PromptEdit::Keep);
    assert_eq!(root.typed_prompt_buf, "git\n");
    root.apply_prompt_edit(&PromptEdit::Clear);
    assert_eq!(root.typed_prompt_buf, "");
}

#[test]
fn ime_commit_goes_to_the_terminal_unless_an_input_owns_the_keys() {
    let mut root = RootView::new(false, TabLayout::Horizontal, false, "default".to_string(), 13.0f32);
    root.ime_set_marked_text("にほ");
    assert!(root.ime_marked_text.is_some());
    root.workspace.selection = Some(Selection { start: GridPoint { line: 0, column: 0 }, end: GridPoint { line: 0, column: 1 } });
    assert_eq!(root.ime_commit_text("日本", true), Some("日本".as_bytes().to_vec()));
    assert!(root.ime_marked_text.is_none());
    assert!(root.workspace.selection.is_none());
    assert_eq!(root.typed_prompt_buf, "日本");
    assert_eq!(root.ime_commit_text("x", false), None);
    root.overlays.is_search_open = true;
    assert_eq!(root.ime_commit_text("x", true), None);
    assert_eq!(root.typed_prompt_buf, "日本");
    assert!(!root.ime_clear_marked_text());
    root.ime_set_marked_text("a");
    assert!(root.ime_clear_marked_text());
}

#[test]
fn pr_actions_and_snippets_close_their_pickers() {
    let mut root = RootView::new(false, TabLayout::Horizontal, false, "default".to_string(), 13.0f32);
    root.overlays.is_pr_picker_open = true;
    assert_eq!(root.run_pr_action_command("gh pr checkout 7"), b"gh pr checkout 7\r".to_vec());
    assert!(!root.overlays.is_pr_picker_open);
    root.overlays.is_snippet_picker_open = true;
    assert_eq!(root.insert_snippet_body("echo é"), "echo é".as_bytes().to_vec());
    assert!(!root.overlays.is_snippet_picker_open);
}

#[test]
fn escape_dismisses_menus_but_not_pickers() {
    let mut o = Overlays::new();
    o.is_about_open = true;
    o.is_git_menu_open = true;
    o.is_update_modal_open = true;
    o.is_search_open = true;
    o.dismiss_overlays();
    assert!(!o.is_about_open);
    assert!(!o.is_git_menu_open);
    assert!(!o.is_update_modal_open);
    assert!(o.is_search_open);
}

#[test]
fn hover_links_prefer_hyperlinks_and_mail_addresses_get_mailto() {
    let osc = Some(("https://a.example".to_string(), 2, 9));
    let word = Some((LinkToken::Url("https://b.example".to_string()), 0, 5));
    assert_eq!(hover_link(3, osc, word), Some(("https://a.example".to_string(), (3, 2, 9))));
    let word = Some((LinkToken::Url("https://b.example".to_string()), 0, 5));
    assert_eq!(hover_link(-2, None, word), Some(("https://b.example".to_string(), (-2, 0, 5))));
    let mail = Some((LinkToken::Email("me@x.org".to_string()), 4, 11));
    assert_eq!(hover_link(1, None, mail), Some(("mailto:me@x.org".to_string(), (1, 4, 11))));
    let path = Some((LinkToken::Path("/etc/hosts".to_string()), 0, 9));
    assert_eq!(hover_link(0, None, path), Some(("/etc/hosts".to_string(), (0, 0, 9))));
    assert_eq!(hover_link(0, None, Some((LinkToken::Other, 0, 3))), None);
    assert_eq!(hover_link(0, None, None), None);
}

#[test]
fn hovering_off_a_link_redraws_once() {
    let mut root = RootView::new(false, TabLayout::Horizontal, false, "default".to_string(), 13.0f32);
    assert!(!root.set_hovered_link(None));
    assert!(root.set_hovered_link(Some(("https://a.example".to_string(), (0, 1, 4)))));
    assert_eq!(root.hovered_url.as_deref(), Some("https://a.example"));
    assert_eq!(root.hovered_url_range, Some((0, 1, 4)));
    assert!(root.set_hovered_link(None));
    assert_eq!(root.hovered_url, None);
    assert_eq!(root.hovered_url_range, None);
    assert!(!root.set_hovered_link(None));
}
