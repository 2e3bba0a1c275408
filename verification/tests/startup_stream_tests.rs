use fastty::ai::AiState;
use fastty::startup::{restored_tab_title, should_restore_session, startup_plan, StartupPlan};
use fastty::streaming::reveal_step;
use fastty::view::Workspace;

#[test]
fn reveal_moves_whole_characters() {
    let mut shown = "> ".to_string();
    let mut pending = "abcdefghij".to_string();
    reveal_step(&mut shown, &mut pending, 6, 4);
    assert_eq!(shown, "> abcdef");
    assert_eq!(pending, "ghij");
    // Six bytes would split the fourth character: the whole one moves.
    let mut shown = String::new();
    let mut pending = "aéééé".to_string();
    reveal_step(&mut shown, &mut pending, 6, 4);
    assert_eq!(shown, "aééé");
    assert_eq!(pending, "é");
    // A large chunk drains a quarter at a time.
    let mut shown = String::new();
    let mut pending = "x".repeat(100);
    reveal_step(&mut shown, &mut pending, 6, 4);
    assert_eq!(shown.len(), 25);
    assert_eq!(pending.len(), 75);
}

#[test]
fn reveal_tick_drains_text_and_thinking() {
    let mut ai = AiState::new(true);
    assert!(!ai.reveal_tick());
    ai.ai_pending_text = "hello".to_string();
    ai.ai_pending_thinking = "considering the question".to_string();
    assert!(ai.reveal_tick());
    assert_eq!(ai.ai_streaming_text, "hello");
    assert_eq!(ai.ai_pending_text, "");
    assert_eq!(ai.ai_streaming_thinking, "considering ");
    assert_eq!(ai.ai_pending_thinking, "the question");
    assert!(ai.reveal_tick());
    assert_eq!(ai.ai_streaming_thinking, "considering the question");
    assert!(!ai.reveal_tick());
}

#[test]
fn startup_prefers_moved_tab_then_command_line_then_session() {
    assert_eq!(startup_plan(true, true, false, false, 3), StartupPlan::AttachInitialTab);
    assert_eq!(startup_plan(false, true, false, false, 3), StartupPlan::CommandLineTab { quits_on_exit: true });
    assert_eq!(startup_plan(false, false, true, false, 3), StartupPlan::CommandLineTab { quits_on_exit: false });
    assert_eq!(startup_plan(false, false, false, true, 0), StartupPlan::CommandLineTab { quits_on_exit: false });
    assert_eq!(startup_plan(false, false, false, false, 2), StartupPlan::RestoreTabs);
    assert_eq!(startup_plan(false, false, false, false, 0), StartupPlan::NewTab);
    assert!(should_restore_session(false, true));
    assert!(!should_restore_session(true, true));
    assert!(!should_restore_session(false, false));
    assert_eq!(restored_tab_title(Some("api".to_string()), Some("x".to_string())), Some("api".to_string()));
    assert_eq!(restored_tab_title(None, Some("x".to_string())), Some("x".to_string()));
    assert_eq!(restored_tab_title(None, None), None);
}

#[test]
fn exec_pane_is_the_last_tabs_active_pane() {
    let mut w = Workspace::new();
    assert!(!w.mark_exec_pane());
    assert_eq!(w.exec_pane_id, None);
    let p = w.allocate_pane_id();
    w.add_tab("a".to_string(), p);
    let q = w.allocate_pane_id();
    w.add_tab("b".to_string(), q);
    assert!(w.mark_exec_pane());
    assert_eq!(w.exec_pane_id, Some(q));
}
