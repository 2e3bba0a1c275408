use fastty::palette::{
    filter_palette_commands, get_all_palette_commands, palette_action, palette_preview_kind,
    record_recent, theme_name_for_palette_id, Direction, PaletteAction, PalettePreviewKind, TabLayout,
};
use fastty::text::fuzzy_match_str;

#[test]
fn test_theme_palette_ids_map_to_theme_names() {
    assert_eq!(theme_name_for_palette_id("theme_default"), Some("default"));
    assert_eq!(theme_name_for_palette_id("theme_catppuccin"), Some("catppuccin"));
    assert_eq!(theme_name_for_palette_id("theme_one_dark"), Some("one-dark"));
    assert_eq!(theme_name_for_palette_id("theme_solarized"), Some("solarized-dark"));
    assert_eq!(theme_name_for_palette_id("theme_high_contrast"), Some("high-contrast"));
    // Non-theme commands never trigger a preview.
    assert_eq!(theme_name_for_palette_id("new_tab"), None);
    assert_eq!(theme_name_for_palette_id("settings"), None);
    assert_eq!(theme_name_for_palette_id("quit"), None);
}

#[test]
fn test_palette_preview_kind_covers_theme_font_and_layout() {
    assert_eq!(
        palette_preview_kind("theme_catppuccin"),
        Some(PalettePreviewKind::Theme("catppuccin"))
    );
    assert_eq!(palette_preview_kind("zoom_in"), Some(PalettePreviewKind::FontDelta(1)));
    assert_eq!(palette_preview_kind("zoom_out"), Some(PalettePreviewKind::FontDelta(-1)));
    assert_eq!(palette_preview_kind("zoom_reset"), Some(PalettePreviewKind::FontReset));
    assert_eq!(
        palette_preview_kind("layout_horizontal"),
        Some(PalettePreviewKind::Layout(TabLayout::Horizontal))
    );
    assert_eq!(
        palette_preview_kind("layout_vertical"),
        Some(PalettePreviewKind::Layout(TabLayout::Vertical))
    );
    // Plain commands preview nothing (navigating to them reverts).
    assert_eq!(palette_preview_kind("new_tab"), None);
    assert_eq!(palette_preview_kind("ssh"), None);
    assert_eq!(palette_preview_kind("quit"), None);
}

#[test]
fn fuzzy_match_substring_subsequence_and_case() {
    assert!(fuzzy_match_str("", "anything"));
    assert!(fuzzy_match_str("tab", "New Tab"));
    assert!(fuzzy_match_str("NT", "new tab"));
    assert!(fuzzy_match_str("nwtb", "New Tab"));
    assert!(!fuzzy_match_str("tabx", "New Tab"));
    assert!(!fuzzy_match_str("bat", "New Tab"));
}

#[test]
fn palette_lists_every_command_with_platform_shortcuts() {
    let mac = get_all_palette_commands(true);
    let other = get_all_palette_commands(false);
    assert_eq!(mac.len(), 43);
    assert_eq!(other.len(), 43);
    assert_eq!(mac[4].id, "new_tab");
    assert_eq!(mac[4].shortcut, Some("⌘T"));
    assert_eq!(other[4].shortcut, Some("Ctrl+Shift+T"));
    assert_eq!(mac[42].id, "quit");
    assert_eq!(other[42].shortcut, Some("Alt+F4"));
    assert_eq!(mac[2].shortcut, None);
}

#[test]
fn palette_filter_keeps_matching_commands_in_order() {
    let all = get_all_palette_commands(false);
    let recent: Vec<String> = Vec::new();
    let hits = filter_palette_commands(&all, "theme:", &recent);
    let ids: Vec<&str> = hits.iter().map(|c| c.id).collect();
    assert_eq!(
        ids,
        vec!["theme_default", "theme_catppuccin", "theme_one_dark", "theme_solarized", "theme_high_contrast"]
    );
    let none = filter_palette_commands(&all, "zzzzqq", &recent);
    assert!(none.is_empty());
}

#[test]
fn palette_empty_query_puts_recent_commands_first() {
    let all = get_all_palette_commands(true);
    let recent = vec!["quit".to_string(), "ssh".to_string()];
    let hits = filter_palette_commands(&all, "", &recent);
    assert_eq!(hits.len(), 43);
    assert_eq!(hits[0].id, "quit");
    assert_eq!(hits[1].id, "ssh");
    assert_eq!(hits[2].id, "tab_overview");
    // A query disables the recent-first order.
    let q = filter_palette_commands(&all, "s", &recent);
    assert_ne!(q[0].id, "quit");
}

#[test]
fn recent_list_moves_to_front_caps_and_dedups() {
    let mut recent: Vec<String> = Vec::new();
    for id in ["a", "b", "c", "d", "e", "f"] {
        record_recent(&mut recent, id);
    }
    assert_eq!(recent, vec!["f", "e", "d", "c", "b"]);
    record_recent(&mut recent, "c");
    assert_eq!(recent, vec!["c", "f", "e", "d", "b"]);
    // Recording the same command again changes nothing.
    record_recent(&mut recent, "c");
    assert_eq!(recent, vec!["c", "f", "e", "d", "b"]);
}

#[test]
fn palette_ids_map_to_actions() {
    assert_eq!(palette_action("new_tab"), Some(PaletteAction::NewTab));
    assert_eq!(palette_action("theme_one_dark"), Some(PaletteAction::Theme("one-dark")));
    assert_eq!(palette_action("split_down"), Some(PaletteAction::Split(Direction::Down)));
    assert_eq!(palette_action("focus_up"), Some(PaletteAction::Focus(Direction::Top)));
    assert_eq!(palette_action("layout_vertical"), Some(PaletteAction::Layout(TabLayout::Vertical)));
    assert_eq!(palette_action("unknown"), None);
}

#[test]
fn palette_shortcuts_match_the_documented_keys() {
    for (id, mac, other) in [
        ("new_tab", "⌘T", "Ctrl+Shift+T"),
        ("close_tab", "⌘W", "Ctrl+Shift+W"),
        ("rename_tab", "⌘⇧R", "Ctrl+Shift+R"),
        ("search", "⌘F", "Ctrl+F"),
        ("clear", "⌘K", "Ctrl+Shift+K"),
        ("ssh", "⌘O", "Ctrl+Shift+O"),
        ("worktree", "⌘⌥W", "Ctrl+Alt+W"),
        ("project_jumper", "⌘J", "Ctrl+Shift+J"),
        ("settings", "⌘,", "Ctrl+,"),
        ("zoom_in", "⌘+", "Ctrl+Plus"),
        ("zoom_out", "⌘-", "Ctrl+Minus"),
        ("zoom_reset", "⌘0", "Ctrl+0"),
    ] {
        for (is_mac, want) in [(true, mac), (false, other)] {
            let cmds = get_all_palette_commands(is_mac);
            let c = cmds.iter().find(|c| c.id == id).expect("listed");
            assert_eq!(c.shortcut, Some(want), "{id}");
        }
    }
}
