use fastty::keys::ListKey;
use fastty::preview::{config_font_family, HostOs, PaletteKeyStep, PreviewStep};
use fastty::search::{global_search_query, global_search_results, PaneHits, SearchSnippet, TabHits};
use fastty::colors::{convert_color, indexed_color, CellColor, TermColor, ThemeColor};
use fastty::nav::{next_wrapping, overview_move, prev_wrapping, OverviewMove};
use fastty::overlays::Overlays;
use fastty::palette::{PaletteAction, TabLayout};
use fastty::pr::PrPickerMode;
use fastty::selection::{get_selected_text, GridPoint, GridSnapshot, Selection};
use fastty::spans::{trim_row_spans, StyledSpan};
use fastty::view::{
    CloseOutcome, CloseTarget, ConfirmOutcome, PaneCloseOutcome, RootView, RunningProcessInfo,
    Workspace,
};

fn span(text: &str, start_col: usize, end_col: usize, bg: Option<u32>) -> StyledSpan<u32, f32> {
    StyledSpan {
        text: text.to_string(),
        start_col,
        end_col,
        fg: 0xFFFFFF,
        bg,
        is_bold: false,
        is_underline: false,
        is_emoji: false,
        is_nerd: false,
        emoji_scale: None,
        char_cols: (start_col..end_col).collect(),
    }
}

#[test]
fn test_trim_row_spans_without_cursor_state() {
    let mut spans = vec![span("hello", 0, 5, None), span("    ", 5, 9, None)];
    trim_row_spans(&mut spans);
    assert_eq!(spans.len(), 1);
    assert_eq!(spans[0].text, "hello");
    assert_eq!(spans[0].end_col, 5);

    // Spans with background are preserved even with trailing spaces
    let mut spans_with_bg = vec![span("highlighted   ", 0, 14, Some(0x336699))];
    trim_row_spans(&mut spans_with_bg);
    assert_eq!(spans_with_bg.len(), 1);
    assert_eq!(spans_with_bg[0].text, "highlighted   ");
}

#[test]
fn trim_row_spans_trims_the_last_visible_span() {
    let mut spans = vec![span("ab", 0, 2, Some(1)), span("cd   ", 2, 7, None), span("  ", 7, 9, None)];
    trim_row_spans(&mut spans);
    assert_eq!(spans.len(), 2);
    assert_eq!(spans[1].text, "cd");
    assert_eq!(spans[1].end_col, 4);
    let mut all_blank = vec![span("  ", 0, 2, None), span(" ", 2, 3, None)];
    trim_row_spans(&mut all_blank);
    assert!(all_blank.is_empty());
}

fn grid() -> GridSnapshot {
    let rows: Vec<Vec<char>> = ["old line", "first", "sec\0ond", "third row"]
        .iter()
        .map(|r| r.chars().collect())
        .collect();
    GridSnapshot { history_size: 1, screen_lines: 3, rows }
}

#[test]
fn selected_text_spans_lines_in_reading_order() {
    let g = grid();
    let sel = Selection { start: GridPoint { line: 2, column: 2 }, end: GridPoint { line: 0, column: 2 } };
    assert_eq!(get_selected_text(&g, sel), Some("rst\nsecond\nthi".to_string()));
    let hist = Selection { start: GridPoint { line: -1, column: 4 }, end: GridPoint { line: -1, column: 99 } };
    assert_eq!(get_selected_text(&g, hist), Some("line".to_string()));
    let blank = Selection { start: GridPoint { line: -1, column: 3 }, end: GridPoint { line: -1, column: 3 } };
    assert_eq!(get_selected_text(&g, blank), None);
    let outside = Selection { start: GridPoint { line: 5, column: 0 }, end: GridPoint { line: 7, column: 3 } };
    assert_eq!(get_selected_text(&g, outside), None);
}

#[test]
fn indexed_colors_follow_the_xterm_palette() {
    assert_eq!(indexed_color(1), CellColor::Theme(ThemeColor::Red));
    assert_eq!(indexed_color(15), CellColor::Theme(ThemeColor::BrightWhite));
    assert_eq!(indexed_color(16), CellColor::Rgb(0, 0, 0));
    assert_eq!(indexed_color(196), CellColor::Rgb(255, 0, 0));
    assert_eq!(indexed_color(231), CellColor::Rgb(255, 255, 255));
    assert_eq!(indexed_color(232), CellColor::Rgb(8, 8, 8));
    assert_eq!(indexed_color(255), CellColor::Rgb(238, 238, 238));
}

#[test]
fn list_navigation_wraps_and_undoes() {
    assert_eq!(next_wrapping(4, 5), 0);
    assert_eq!(prev_wrapping(0, 5), 4);
    assert_eq!(prev_wrapping(next_wrapping(2, 5), 5), 2);
    assert_eq!(next_wrapping(3, 0), 3);
    assert_eq!(overview_move(1, 7, OverviewMove::Down), 4);
    assert_eq!(overview_move(5, 7, OverviewMove::Down), 6);
    assert_eq!(overview_move(1, 7, OverviewMove::Up), 0);
    assert_eq!(overview_move(6, 7, OverviewMove::Right), 0);
    assert_eq!(overview_move(0, 2, OverviewMove::Up), 0);
}

#[test]
fn overlays_close_each_other() {
    let mut o = Overlays::new();
    o.toggle_search();
    o.search_query.push_str("abc");
    o.toggle_command_palette();
    assert!(o.is_command_palette_open);
    assert!(!o.is_search_open);
    o.command_palette_query.push_str("x");
    o.toggle_command_palette();
    assert!(!o.is_command_palette_open);
    o.toggle_command_palette();
    assert_eq!(o.command_palette_query, "");
    o.toggle_pr_picker(None);
    assert_eq!(o.pr_picker_mode, PrPickerMode::Browse);
    assert!(o.is_pr_picker_open && o.is_command_palette_open == false);
    o.toggle_tab_overview(3);
    assert_eq!(o.tab_overview_selected, 3);
    assert!(!o.is_pr_picker_open);
}

fn running(pane_id: usize) -> RunningProcessInfo {
    RunningProcessInfo { pane_id, process_name: "vim".to_string(), pid: 42 }
}

#[test]
fn tabs_open_select_and_close() {
    let mut w = Workspace::new();
    let p1 = w.allocate_pane_id();
    let t1 = w.add_tab("one".to_string(), p1);
    let p2 = w.allocate_pane_id();
    let t2 = w.add_tab("two".to_string(), p2);
    let p3 = w.allocate_pane_id();
    let t3 = w.add_tab("three".to_string(), p3);
    assert_eq!((t1, t2, t3), (1, 2, 3));
    assert_eq!(w.active_tab_idx, 2);
    w.selection = Some(Selection { start: GridPoint { line: 0, column: 0 }, end: GridPoint { line: 0, column: 1 } });
    assert!(w.select_tab(t1));
    assert_eq!(w.active_tab_idx, 0);
    assert!(w.selection.is_none());
    assert!(!w.select_tab(99));

    // A running process asks first.
    let busy = vec![running(p2)];
    assert!(matches!(w.close_tab(t2, &busy), CloseOutcome::AwaitingConfirmation));
    assert_eq!(w.tabs.len(), 3);
    assert_eq!(w.pending_close.as_ref().map(|p| p.target), Some(CloseTarget::Tab { tab_id: t2 }));
    match w.confirm_pending_close() {
        ConfirmOutcome::Closed(panes) => assert_eq!(panes, vec![p2]),
        other => panic!("unexpected {:?}", other),
    }
    assert!(w.pending_close.is_none());
    assert_eq!(w.tabs.iter().map(|t| t.id).collect::<Vec<_>>(), vec![t1, t3]);

    // Closing the active last tab clamps the active index.
    assert!(w.select_tab(t3));
    match w.close_tab(t3, &Vec::new()) {
        CloseOutcome::Closed(panes) => assert_eq!(panes, vec![p3]),
        other => panic!("unexpected {:?}", other),
    }
    assert_eq!(w.active_tab_idx, 0);
    assert!(matches!(w.close_tab(t3, &Vec::new()), CloseOutcome::Nothing));
}

#[test]
fn close_others_panes_and_zoom() {
    let mut w = Workspace::new();
    let a = w.allocate_pane_id();
    let ta = w.add_tab("a".to_string(), a);
    let b = w.allocate_pane_id();
    let tb = w.add_tab("b".to_string(), b);
    let c = w.allocate_pane_id();
    w.set_active_panes(vec![b, c], c, true);
    w.toggle_pane_zoom();
    assert_eq!(w.tabs[1].zoomed_pane, Some(c));
    w.toggle_pane_zoom();
    assert_eq!(w.tabs[1].zoomed_pane, None);
    w.toggle_pane_zoom();

    // A running pane of a split waits for confirmation.
    assert!(matches!(w.close_pane_by_id(c, &vec![running(c)]), PaneCloseOutcome::AwaitingConfirmation));
    assert!(matches!(w.confirm_pending_close(), ConfirmOutcome::ClosePane { tab_id, pane_id } if tab_id == tb && pane_id == c));
    assert!(w.force_close_pane(tb, c, b));
    assert_eq!(w.tabs[1].pane_ids, vec![b]);
    assert_eq!(w.tabs[1].zoomed_pane, None);
    assert!(matches!(w.close_pane_by_id(77, &Vec::new()), PaneCloseOutcome::NotFound));

    // Closing the other tabs keeps only the chosen one.
    match w.close_other_tabs(tb, &Vec::new()) {
        CloseOutcome::Closed(panes) => assert_eq!(panes, vec![a]),
        other => panic!("unexpected {:?}", other),
    }
    assert_eq!(w.tabs.len(), 1);
    assert_eq!(w.tabs[0].id, tb);
    assert_eq!(w.active_tab_idx, 0);
    let _ = ta;

    // The last pane of a tab closes the tab; the last tab is replaced by a fresh one.
    assert!(matches!(w.close_pane_by_id(b, &Vec::new()), PaneCloseOutcome::Tab(CloseOutcome::Closed(_))));
    assert_eq!(w.tabs.len(), 1);
    assert_ne!(w.tabs[0].id, tb);
}

#[test]
fn rename_uses_trimmed_input() {
    let mut w = Workspace::new();
    let p = w.allocate_pane_id();
    w.add_tab("zsh".to_string(), p);
    w.open_rename_tab(0);
    assert!(w.is_rename_tab_open);
    assert_eq!(w.rename_tab_input, "zsh");
    w.rename_tab_input = "  build  ".to_string();
    w.save_rename_tab();
    assert_eq!(w.tabs[0].custom_title.as_deref(), Some("build"));
    assert!(!w.is_rename_tab_open);
    w.open_rename_tab(0);
    assert_eq!(w.rename_tab_input, "build");
    w.rename_tab_input = "   ".to_string();
    w.save_rename_tab();
    assert_eq!(w.tabs[0].custom_title, None);
}

#[test]
fn root_view_palette_and_layout() {
    let mut v = RootView::new(false, TabLayout::Horizontal, false, "default".to_string(), 13.0f32);
    assert!(!v.sidebar_open);
    assert!(!v.any_input_overlay_open());
    v.overlays.toggle_command_palette();
    assert!(v.any_input_overlay_open());
    let e = v.execute_palette_command("zoom_in", false);
    assert_eq!(e.action, Some(PaletteAction::ZoomIn));
    assert!(!e.revert.changed);
    assert!(!e.font_committed);
    assert!(!v.overlays.is_command_palette_open);
    let e = v.execute_palette_command("new_tab", false);
    assert_eq!(e.action, Some(PaletteAction::NewTab));
    assert!(!e.revert.changed);
    assert!(v.palette_preview_original.is_none());
    assert_eq!(v.palette_recent, vec!["new_tab", "zoom_in"]);
    let first = v.filtered_palette_commands();
    assert_eq!(first[0].id, "new_tab");
    assert_eq!(first[1].id, "zoom_in");
    assert!(v.toggle_tab_sidebar());
    assert_eq!(v.tab_layout, TabLayout::Vertical);
    assert!(v.sidebar_target_open());
    assert!(!v.toggle_tab_sidebar());
    assert!(!v.sidebar_open);
    assert!(v.set_tab_layout_mode(TabLayout::Horizontal));
    assert!(!v.set_tab_layout_mode(TabLayout::Horizontal));
}

#[test]
fn palette_preview_cancel_restores_the_look() {
    let mut v = RootView::new(true, TabLayout::Horizontal, false, "default".to_string(), 13.0f32);
    v.toggle_command_palette(false);
    assert!(v.preview_theme_transient("one-dark"));
    assert!(!v.preview_theme_transient("one-dark"));
    let base = v.preview_font_base();
    assert!(v.preview_font_size_transient(base + 1.0, true));
    // A second font step starts from the snapshot, not from the preview.
    assert_eq!(v.preview_font_base(), 13.0);
    assert!(v.preview_layout_transient(TabLayout::Vertical));
    assert!(v.sidebar_open);
    assert_eq!(v.current_theme_name, "one-dark");
    assert_eq!(v.font_size, 14.0);
    let revert = v.cancel_palette_preview(true);
    assert!(revert.changed);
    assert!(revert.theme_changed);
    assert!(revert.relayout);
    assert_eq!(v.current_theme_name, "default");
    assert_eq!(v.font_size, 13.0);
    assert_eq!(v.tab_layout, TabLayout::Horizontal);
    assert!(!v.sidebar_open);
    assert!(v.palette_preview_original.is_none());
    let again = v.cancel_palette_preview(true);
    assert!(!again.changed);
}

#[test]
fn committed_choices_end_the_preview() {
    let mut v = RootView::new(false, TabLayout::Vertical, false, "default".to_string(), 13.0f32);
    assert!(v.sidebar_open);
    assert!(v.preview_font_size_transient(15.0, true));
    v.commit_font_size(15.0);
    assert!(v.palette_preview_original.is_none());
    assert_eq!(v.cancel_palette_preview(true).changed, false);
    assert_eq!(v.font_size, 15.0);
    assert!(v.preview_theme_transient("solarized-dark"));
    v.set_theme("catppuccin");
    assert!(v.palette_preview_original.is_none());
    assert_eq!(v.current_theme_name, "catppuccin");
    assert!(v.preview_layout_transient(TabLayout::Horizontal));
    assert!(!v.set_tab_layout_mode(TabLayout::Horizontal));
    assert!(v.palette_preview_original.is_none());
    // No change asked: no snapshot taken.
    assert!(!v.preview_font_size_transient(15.0, false));
    assert!(v.palette_preview_original.is_none());
    v.toggle_command_palette(false);
    assert!(v.overlays.is_command_palette_open);
}

#[test]
fn update_global_search_lists_tab_then_pane_hits() {
    assert_eq!(global_search_query("  "), None);
    assert_eq!(global_search_query("  cargo build "), Some("cargo build".to_string()));
    let snip = |offset: usize, text: &str| SearchSnippet { offset, line_index: offset + 1, text: text.to_string() };
    let tabs = vec![
        TabHits {
            tab_id: 4,
            title: "api".to_string(),
            process_name: Some("zsh".to_string()),
            main: vec![snip(3, "cargo build")],
            panes: vec![
                PaneHits { pane_id: 9, title: "logs".to_string(), process_name: None, snippets: vec![snip(7, "cargo run"), snip(8, "cargo test")] },
                PaneHits { pane_id: 10, title: "empty".to_string(), process_name: None, snippets: vec![] },
            ],
        },
        TabHits { tab_id: 6, title: "web".to_string(), process_name: None, main: vec![snip(1, "cargo fmt")], panes: vec![] },
    ];
    let r = global_search_results(&tabs);
    assert_eq!(r.len(), 4);
    assert_eq!((r[0].tab_idx, r[0].tab_id, r[0].pane_id, r[0].offset), (0, 4, 0, 3));
    assert_eq!(r[0].tab_title, "api");
    assert_eq!(r[0].process_name.as_deref(), Some("zsh"));
    assert_eq!((r[1].pane_id, r[1].line_content.as_str()), (9, "cargo run"));
    assert_eq!(r[1].tab_title, "logs");
    assert_eq!(r[2].line_index, 9);
    assert_eq!((r[3].tab_idx, r[3].tab_id, r[3].pane_id), (1, 6, 0));
}

#[test]
fn update_global_search_stores_results_for_the_typed_query() {
    let mut v = RootView::new(false, TabLayout::Horizontal, false, "default".to_string(), 13.0f32);
    let hits = vec![TabHits {
        tab_id: 2,
        title: "shell".to_string(),
        process_name: None,
        main: vec![SearchSnippet { offset: 0, line_index: 5, text: "make all".to_string() }],
        panes: vec![],
    }];
    v.overlays.toggle_global_search();
    v.overlays.global_search_selected = 3;
    v.update_global_search(&hits);
    assert!(v.overlays.global_search_results.is_empty());
    assert_eq!(v.overlays.global_search_selected, 0);
    v.overlays.global_search_query = " make ".to_string();
    v.overlays.global_search_selected = 2;
    v.update_global_search(&hits);
    assert_eq!(v.overlays.global_search_results.len(), 1);
    assert_eq!(v.overlays.global_search_results[0].line_content, "make all");
    assert_eq!(v.overlays.global_search_results[0].tab_id, 2);
    assert_eq!(v.overlays.global_search_selected, 0);
    v.overlays.toggle_global_search();
    v.overlays.toggle_global_search();
    assert!(v.overlays.global_search_results.is_empty());
    assert!(v.overlays.global_search_query.is_empty());
}

#[test]
fn preview_palette_command_dispatches_by_kind() {
    let mut v = RootView::new(false, TabLayout::Horizontal, false, "default".to_string(), 13.0f32);
    assert_eq!(v.preview_palette_command("theme_one_dark"), PreviewStep::Theme(true));
    assert_eq!(v.current_theme_name, "one-dark");
    assert_eq!(v.preview_palette_command("theme_one_dark"), PreviewStep::Theme(false));
    assert_eq!(v.preview_palette_command("layout_vertical"), PreviewStep::Layout(true));
    assert_eq!(v.preview_palette_command("zoom_out"), PreviewStep::FontDelta(-1));
    assert_eq!(v.preview_palette_command("zoom_reset"), PreviewStep::FontReset);
    assert_eq!(v.preview_palette_command("new_tab"), PreviewStep::Cancel);
    v.cancel_palette_preview(false);
    assert_eq!(v.current_theme_name, "default");
    assert_eq!(v.tab_layout, TabLayout::Horizontal);
}

#[test]
fn active_pane_of_the_active_tab() {
    let mut w = Workspace::new();
    assert_eq!(w.active_pane_id(), None);
    let p = w.allocate_pane_id();
    w.add_tab("a".to_string(), p);
    assert_eq!(w.active_pane_id(), Some(p));
}

#[test]
fn convert_color_resolves_named_rgb_and_indexed_colors() {
    assert_eq!(convert_color(TermColor::Named(Some(ThemeColor::Cursor)), true), CellColor::Theme(ThemeColor::Cursor));
    assert_eq!(convert_color(TermColor::Named(None), true), CellColor::Theme(ThemeColor::Foreground));
    assert_eq!(convert_color(TermColor::Named(None), false), CellColor::Theme(ThemeColor::Background));
    assert_eq!(convert_color(TermColor::Spec(1, 2, 3), false), CellColor::Rgb(1, 2, 3));
    assert_eq!(convert_color(TermColor::Indexed(9), true), CellColor::Theme(ThemeColor::BrightRed));
    assert_eq!(convert_color(TermColor::Indexed(196), true), CellColor::Rgb(255, 0, 0));
    assert_eq!(convert_color(TermColor::Indexed(244), true), CellColor::Rgb(128, 128, 128));
}

#[test]
fn reload_config_wins_over_a_preview() {
    let mut v = RootView::new(false, TabLayout::Horizontal, false, "default".to_string(), 13.0f32);
    assert_eq!(v.preview_palette_command("theme_one_dark"), PreviewStep::Theme(true));
    assert!(v.palette_preview_original.is_some());
    assert!(v.reload_config(None, 16.0, TabLayout::Vertical, Some("bad key".to_string())));
    assert_eq!(v.config_error.as_deref(), Some("bad key"));
    assert!(v.palette_preview_original.is_none());
    assert_eq!(v.current_theme_name, "default");
    assert_eq!(v.font_size, 16.0);
    assert!(v.sidebar_open);
    assert!(!v.reload_config(Some("catppuccin".to_string()), 12.0, TabLayout::Vertical, None));
    assert!(v.config_error.is_none());
    assert_eq!(v.current_theme_name, "catppuccin");
    assert_eq!(v.tab_layout, TabLayout::Vertical);
}

#[test]
fn config_font_family_falls_back_per_platform() {
    assert_eq!(config_font_family("", HostOs::MacOs), "Menlo");
    assert_eq!(config_font_family("monospace", HostOs::Windows), "Cascadia Code");
    assert_eq!(config_font_family("monospace", HostOs::Other), "monospace");
    assert_eq!(config_font_family("Fira Code", HostOs::MacOs), "Fira Code");
}

#[test]
fn closing_the_last_tab_opens_a_fresh_one() {
    let mut w = Workspace::new();
    let t = w.add_tab("zsh".to_string(), 1);
    let next_tab = w.next_tab_id;
    let next_pane = w.next_pane_id;
    match w.close_tab(t, &Vec::new()) {
        CloseOutcome::Closed(panes) => assert_eq!(panes, vec![1]),
        _ => panic!("the tab closes"),
    }
    assert_eq!(w.tabs.len(), 1);
    assert_eq!(w.tabs[0].id, next_tab);
    assert_eq!(w.tabs[0].pane_ids, vec![next_pane]);
    assert_eq!(w.tabs[0].active_pane_id, next_pane);
    assert!(w.tabs[0].title.is_empty());
    assert_eq!(w.active_tab_idx, 0);
}

#[test]
fn trimmed_span_keeps_one_column_per_char() {
    let mut spans = vec![span("ab  ", 0, 4, None)];
    trim_row_spans(&mut spans);
    assert_eq!(spans.len(), 1);
    assert_eq!(spans[0].text, "ab");
    assert_eq!(spans[0].end_col, 2);
    assert_eq!(spans[0].char_cols, vec![0, 1]);
}

#[test]
fn closing_the_palette_reverts_its_preview() {
    let mut v = RootView::new(false, TabLayout::Horizontal, false, "default".to_string(), 13.0f32);
    v.toggle_command_palette(false);
    assert!(v.preview_theme_transient("one-dark"));
    let r = v.toggle_command_palette(false);
    assert!(!v.overlays.is_command_palette_open);
    assert!(r.theme_changed);
    assert_eq!(v.current_theme_name, "default");
    assert!(v.palette_preview_original.is_none());
    // Esc does the same.
    v.toggle_command_palette(false);
    assert!(v.preview_layout_transient(TabLayout::Vertical));
    match v.command_palette_key(&ListKey::Close, false) {
        PaletteKeyStep::Closed(r) => assert!(r.relayout),
        _ => panic!("Esc closes"),
    }
    assert_eq!(v.tab_layout, TabLayout::Horizontal);
    assert!(!v.overlays.is_command_palette_open);
}

#[test]
fn palette_keys_preview_the_selected_row() {
    let mut v = RootView::new(false, TabLayout::Horizontal, false, "default".to_string(), 13.0f32);
    v.toggle_command_palette(false);
    for c in "catppuccin".chars() {
        v.command_palette_key(&ListKey::Type(c.to_string()), false);
    }
    assert_eq!(v.current_theme_name, "catppuccin");
    assert!(v.palette_preview_original.is_some());
    match v.command_palette_key(&ListKey::Accept, false) {
        PaletteKeyStep::Execute(id) => assert_eq!(id, "theme_catppuccin"),
        _ => panic!("Enter executes"),
    }
    let e = v.execute_palette_command("theme_catppuccin", false);
    assert_eq!(e.action, Some(PaletteAction::Theme("catppuccin")));
    assert_eq!(v.current_theme_name, "catppuccin");
    assert!(v.palette_preview_original.is_none());
}

#[test]
fn executing_a_font_command_commits_the_preview_once() {
    let mut v = RootView::new(false, TabLayout::Horizontal, false, "default".to_string(), 13.0f32);
    v.toggle_command_palette(false);
    assert!(v.preview_font_size_transient(14.0, true));
    let e = v.execute_palette_command("zoom_in", false);
    assert!(e.font_committed);
    assert_eq!(v.font_size, 14.0);
    assert!(v.palette_preview_original.is_none());
    let e = v.execute_palette_command("zoom_in", false);
    assert!(!e.font_committed);
}

#[test]
fn trimming_twice_changes_nothing() {
    let mut spans = vec![span("ab", 0, 2, None), span("cd  ", 2, 6, None), span("   ", 6, 9, None)];
    trim_row_spans(&mut spans);
    let once: Vec<(String, usize, Vec<usize>)> =
        spans.iter().map(|s| (s.text.clone(), s.end_col, s.char_cols.clone())).collect();
    trim_row_spans(&mut spans);
    let twice: Vec<(String, usize, Vec<usize>)> =
        spans.iter().map(|s| (s.text.clone(), s.end_col, s.char_cols.clone())).collect();
    assert_eq!(once, twice);
    assert_eq!(once[1], ("cd".to_string(), 4, vec![2, 3]));
}

#[test]
fn executing_a_theme_reverts_a_font_preview() {
    let mut v = RootView::new(false, TabLayout::Horizontal, false, "default".to_string(), 13.0f32);
    v.toggle_command_palette(false);
    assert!(v.preview_font_size_transient(14.0, true));
    assert_eq!(v.preview_palette_command("theme_catppuccin"), PreviewStep::Theme(true));
    let e = v.execute_palette_command("theme_catppuccin", true);
    assert!(!e.font_committed);
    assert!(e.revert.changed);
    assert_eq!(v.current_theme_name, "catppuccin");
    assert_eq!(v.font_size, 13.0);
    assert!(v.palette_preview_original.is_none());
}
