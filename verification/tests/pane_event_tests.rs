use fastty::pane_events::{applescript_escape, notification_summary, pane_title, PaneExit};
use fastty::view::{TabData, Workspace};

fn two_tabs() -> (Workspace, usize, usize, usize) {
    let mut w = Workspace::new();
    let a = w.allocate_pane_id();
    w.add_tab("zsh".to_string(), a);
    let b = w.allocate_pane_id();
    w.add_tab("fish".to_string(), b);
    let c = w.allocate_pane_id();
    // The second tab is split: panes b and c, c active.
    w.set_active_panes(vec![b, c], c, true);
    (w, a, b, c)
}

#[test]
fn titles_follow_the_active_pane() {
    let (mut w, a, b, c) = two_tabs();
    w.pane_title_changed(c, "vim".to_string());
    assert_eq!(w.tabs[1].title, "vim");
    w.pane_title_changed(b, "htop".to_string());
    assert_eq!(w.tabs[1].title, "vim");
    w.pane_title_changed(a, "ssh".to_string());
    assert_eq!(w.tabs[0].title, "ssh");
    assert_eq!(w.tabs.len(), 2);
}

#[test]
fn finished_commands_show_on_the_active_pane_tab() {
    let (mut w, _a, b, c) = two_tabs();
    w.pane_command_finished(b, 1200, Some(1));
    assert_eq!(w.tabs[1].last_duration_ms, None);
    w.pane_command_finished(c, 350, Some(0));
    assert_eq!(w.tabs[1].last_duration_ms, Some(350));
    assert_eq!(w.tabs[1].last_exit_code, Some(0));
    assert_eq!(w.tabs[0].last_duration_ms, None);
}

#[test]
fn exits_close_panes_tabs_or_quit() {
    let (mut w, a, b, _c) = two_tabs();
    assert_eq!(w.pane_exited(a), PaneExit::CloseTab { tab_id: w.tabs[0].id });
    assert_eq!(w.pane_exited(b), PaneExit::ClosePane { tab_id: w.tabs[1].id });
    assert_eq!(w.pane_exited(99), PaneExit::Unknown);
    w.exec_pane_id = Some(a);
    assert_eq!(w.pane_exited(a), PaneExit::Quit);
}

#[test]
fn attached_tabs_get_fresh_ids() {
    let (mut w, _a, _b, _c) = two_tabs();
    let moved = TabData {
        id: 1,
        title: "moved".to_string(),
        custom_title: Some("build".to_string()),
        pane_ids: vec![40],
        active_pane_id: 40,
        zoomed_pane: None,
        last_duration_ms: None,
        last_exit_code: None,
        cwd: Some("/src".to_string()),
    };
    let id = w.attach_tab(moved);
    assert_eq!(id, 3);
    assert_eq!(w.tabs.len(), 3);
    assert_eq!(w.tabs[2].id, 3);
    assert_eq!(w.active_tab_idx, 2);
    assert_eq!(w.tabs[2].custom_title.as_deref(), Some("build"));
    assert!(w.tab_title_changed(3, "make".to_string()));
    assert_eq!(w.tabs[2].title, "make");
    assert!(!w.tab_title_changed(42, "x".to_string()));
}

#[test]
fn pane_titles_default_to_the_program_name() {
    assert_eq!(pane_title("/bin/zsh", None), "zsh");
    assert_eq!(pane_title("/usr/bin/pwsh.exe", None), "pwsh");
    assert_eq!(pane_title("tool.exe.exe", None), "tool");
    assert_eq!(pane_title(".exe", None), "fastty");
    assert_eq!(pane_title("/", None), "fastty");
    assert_eq!(pane_title("/bin/bash", Some("ssh: prod".to_string())), "ssh: prod");
}

#[test]
fn notifications_default_their_title_and_escape_for_applescript() {
    assert_eq!(notification_summary(""), "Fastty");
    assert_eq!(notification_summary("Build done"), "Build done");
    assert_eq!(applescript_escape(r#"say "hi" \ bye"#), r#"say \"hi\" \\ bye"#);
    assert_eq!(applescript_escape("plain"), "plain");
}
