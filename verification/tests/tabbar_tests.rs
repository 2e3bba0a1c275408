use fastty::startup::onboarding_hint_shown;
use fastty::tabbar::{config_error_banner, onboarding_hint_text};
use fastty::palette::TabLayout;
use fastty::view::{RootView, Workspace};

#[test]
fn tab_items_mark_zoom_and_active() {
    let mut ws = Workspace::new();
    let a = ws.add_tab("zsh".to_string(), 1);
    let b = ws.add_tab("vim".to_string(), 2);
    ws.tabs[1].custom_title = Some("editor".to_string());
    ws.tabs[1].zoomed_pane = Some(2);
    let items = ws.tab_items();
    assert_eq!(items.len(), 2);
    assert_eq!((items[0].id, items[0].title.as_str()), (a, "zsh"));
    assert_eq!((items[1].id, items[1].title.as_str()), (b, "[Z] editor"));
    assert_eq!(items.iter().filter(|i| i.active).count(), 1);
    assert!(items[ws.active_tab_idx].active);
}

#[test]
fn resolve_zoom_clears_a_stale_target() {
    let mut ws = Workspace::new();
    ws.add_tab("zsh".to_string(), 1);
    ws.active_tab_idx = 0;
    ws.tabs[0].pane_ids = vec![1, 3];
    ws.tabs[0].zoomed_pane = Some(3);
    assert_eq!(ws.resolve_zoom(), Some(3));
    assert_eq!(ws.tabs[0].zoomed_pane, Some(3));
    ws.tabs[0].pane_ids = vec![1];
    assert_eq!(ws.resolve_zoom(), None);
    assert_eq!(ws.tabs[0].zoomed_pane, None);
    assert_eq!(Workspace::new().resolve_zoom(), None);
}

#[test]
fn config_error_banner_cuts_long_errors() {
    assert_eq!(config_error_banner("bad key"), "Config error — bad key");
    let long = "é".repeat(200);
    let banner = config_error_banner(&long);
    assert_eq!(banner.chars().count(), "Config error — ".chars().count() + 160);
}

#[test]
fn detach_tab_keeps_the_last_tab() {
    let mut ws = Workspace::new();
    let a = ws.add_tab("one".to_string(), 1);
    assert!(ws.detach_tab(a).is_none());
    let b = ws.add_tab("two".to_string(), 2);
    let c = ws.add_tab("three".to_string(), 3);
    assert_eq!(ws.active_tab_idx, 2);
    let moved = ws.detach_tab(c).expect("tab moves out");
    assert_eq!(moved.title, "three");
    assert_eq!(ws.tabs.iter().map(|t| t.id).collect::<Vec<_>>(), vec![a, b]);
    assert_eq!(ws.active_tab_idx, 1);
    assert!(ws.detach_tab(99).is_none());
    assert_eq!(ws.tabs.len(), 2);
}

#[test]
fn zoom_lays_out_the_zoomed_pane_alone() {
    let mut ws = Workspace::new();
    ws.add_tab("zsh".to_string(), 1);
    ws.tabs[0].pane_ids = vec![1, 3];
    assert_eq!(ws.laid_out_panes(), vec![1, 3]);
    ws.tabs[0].zoomed_pane = Some(3);
    assert_eq!(ws.laid_out_panes(), vec![3]);
    ws.tabs[0].zoomed_pane = Some(9);
    assert_eq!(ws.laid_out_panes(), vec![1, 3]);
    assert_eq!(ws.tabs[0].zoomed_pane, None);
}

#[test]
fn working_directory_follows_the_active_pane() {
    let mut ws = Workspace::new();
    assert!(!ws.set_active_cwd("/tmp".to_string()));
    ws.add_tab("zsh".to_string(), 1);
    assert_eq!(ws.active_cwd(), None);
    assert!(ws.set_active_cwd("/src".to_string()));
    assert!(!ws.set_active_cwd("/src".to_string()));
    assert_eq!(ws.active_cwd().as_deref(), Some("/src"));
}

#[test]
fn pr_picker_closes_when_the_directory_changes() {
    let mut v = RootView::new(false, TabLayout::Horizontal, false, "default".to_string(), 13.0f32);
    v.workspace.add_tab("zsh".to_string(), 1);
    v.workspace.set_active_cwd("/a".to_string());
    v.toggle_pr_picker();
    assert!(v.overlays.is_pr_picker_open);
    assert_eq!(v.overlays.pr_picker_cwd.as_deref(), Some("/a"));
    assert!(!v.close_stale_pr_picker());
    v.workspace.set_active_cwd("/b".to_string());
    assert!(v.close_stale_pr_picker());
    assert!(!v.overlays.is_pr_picker_open);
}

#[test]
fn duplicate_tab_starts_in_the_same_directory() {
    let mut ws = Workspace::new();
    let a = ws.add_tab("zsh".to_string(), 1);
    ws.set_active_cwd("/proj".to_string());
    let b = ws.add_tab("zsh".to_string(), 2);
    assert_eq!(ws.tab_cwd(a).as_deref(), Some("/proj"));
    assert_eq!(ws.tab_cwd(b), None);
    assert_eq!(ws.tab_cwd(99), None);
}

#[test]
fn first_run_hint_and_notice_bars() {
    assert!(onboarding_hint_shown(false, false));
    assert!(!onboarding_hint_shown(true, false));
    assert!(!onboarding_hint_shown(false, true));
    assert_eq!(
        onboarding_hint_text(true),
        "Welcome to Fastty — ⌘P commands · ⌘O SSH hosts · ⌘, Settings"
    );
    assert!(onboarding_hint_text(false).contains("Ctrl+Shift+P commands"));
    let mut v = RootView::new(false, TabLayout::Horizontal, false, "default".to_string(), 13.0f32);
    assert_eq!(v.notice_bars(), 0);
    v.show_onboarding_hint = true;
    v.config_error = Some("bad toml".to_string());
    assert_eq!(v.notice_bars(), 2);
    v.dismiss_onboarding_hint();
    assert!(!v.show_onboarding_hint);
    assert_eq!(v.notice_bars(), 1);
    v.dismiss_config_error();
    assert_eq!(v.config_error, None);
    assert_eq!(v.notice_bars(), 0);
}
