use fastty::ai::{
    ai_error_message, ai_escape_action, at_matches, at_query, insert_at_path, reveal_drain_size,
    AiEscapeAction, AiState, AtInsertion,
};
use fastty::palette::TabLayout;
use fastty::sorting::sort_strings;
use fastty::view::RootView;
use fastty::text::{str_contains, str_ends_with, str_eq, trim_str, usize_to_decimal};

#[test]
fn text_helpers_give_std_results() {
    assert_eq!(trim_str("  hello world \t\n"), "hello world");
    assert_eq!(trim_str(" \u{3000} "), "");
    assert_eq!(trim_str("x"), "x");
    assert!(str_contains("hello world", "o w"));
    assert!(str_contains("abc", ""));
    assert!(!str_contains("abc", "abcd"));
    assert!(str_ends_with("Nerd Font Mono", "Mono"));
    assert!(!str_ends_with("ono", "mono"));
    assert!(str_eq("é", "é"));
    assert!(!str_eq("a", "b"));
    assert_eq!(usize_to_decimal(0), "0");
    assert_eq!(usize_to_decimal(907), "907");
    assert_eq!(usize_to_decimal(usize::MAX), usize::MAX.to_string());
}

#[test]
fn ai_error_message_picks_the_hint() {
    assert_eq!(
        ai_error_message("API key missing"),
        "Error: API key missing\n\nTip: set your API key under Settings (AI tab) or via environment variable."
    );
    assert_eq!(
        ai_error_message("request timed out"),
        "Error: request timed out\n\nTip: check your network connection and provider status, then retry."
    );
    assert_eq!(
        ai_error_message("model overloaded"),
        "Error: model overloaded\n\nTip: retry, or check provider settings under Settings (AI tab)."
    );
    // A key problem wins over a network one.
    assert!(ai_error_message("api_key: connect failed").contains("set your API key"));
}

#[test]
fn at_query_follows_the_last_at_before_the_cursor() {
    assert_eq!(at_query("see @src/ma", 11), Some("src/ma".to_string()));
    assert_eq!(at_query("see @src/ma", 100), Some("src/ma".to_string()));
    assert_eq!(at_query("see @", 5), Some(String::new()));
    assert_eq!(at_query("see @src now", 12), None);
    assert_eq!(at_query("see @src now", 8), Some("src".to_string()));
    assert_eq!(at_query("no at here", 4), None);
    assert_eq!(at_query("a@b\nc", 5), None);
}

#[test]
fn insert_at_path_replaces_the_query() {
    match insert_at_path("look @sr tail", 8, "src/main.rs") {
        AtInsertion::Replace { text, cursor } => {
            assert_eq!(text, "look @src/main.rs  tail");
            assert_eq!(cursor, 18);
        }
        AtInsertion::Insert(_) => panic!("expected a replacement"),
    }
    match insert_at_path("plain", 2, "a.txt") {
        AtInsertion::Insert(s) => assert_eq!(s, "@a.txt "),
        AtInsertion::Replace { .. } => panic!("expected an insertion"),
    }
}

#[test]
fn at_matches_sorts_filters_and_caps() {
    let files: Vec<String> = vec!["b.rs", "A.md", "src/lib.rs", "a.rs", "Cargo.toml"]
        .into_iter()
        .map(String::from)
        .collect();
    assert_eq!(at_matches(&files, ""), vec!["A.md", "Cargo.toml", "a.rs", "b.rs", "src/lib.rs"]);
    assert_eq!(at_matches(&files, "RS"), vec!["a.rs", "b.rs", "src/lib.rs"]);
    assert_eq!(at_matches(&files, "a"), vec!["A.md", "Cargo.toml", "a.rs"]);
    let many: Vec<String> = (0..30).map(|i| format!("f{:02}", i)).collect();
    let m = at_matches(&many, "f");
    assert_eq!(m.len(), 20);
    assert_eq!(m[0], "f00");
    assert_eq!(m[19], "f19");
}

#[test]
fn sorting_matches_std_sort() {
    let v: Vec<String> = vec!["zeta", "Alpha", "alpha", "é", "e", "", "alp"]
        .into_iter()
        .map(String::from)
        .collect();
    let mut expected = v.clone();
    expected.sort();
    assert_eq!(sort_strings(&v), expected);
}

#[test]
fn escape_closes_the_innermost_first() {
    assert_eq!(ai_escape_action(true, true, true), AiEscapeAction::CloseAtMenu);
    assert_eq!(ai_escape_action(false, true, true), AiEscapeAction::DenyConfirmation);
    assert_eq!(ai_escape_action(false, false, true), AiEscapeAction::CancelStream);
    assert_eq!(ai_escape_action(false, false, false), AiEscapeAction::CloseSidebar);
}

#[test]
fn stream_reveal_drain_sizes() {
    assert_eq!(reveal_drain_size(0, 6, 4), 0);
    assert_eq!(reveal_drain_size(3, 6, 4), 3);
    assert_eq!(reveal_drain_size(10, 6, 4), 6);
    assert_eq!(reveal_drain_size(400, 6, 4), 100);
    assert_eq!(reveal_drain_size(90, 12, 3), 30);
}

#[test]
fn cancel_stream_reveals_pending_text_and_adds_usage() {
    let mut ai = AiState::new(true);
    ai.ai_streaming_text = "Hello".to_string();
    ai.ai_pending_text = ", world".to_string();
    ai.ai_pending_thinking = "hmm".to_string();
    ai.ai_is_streaming = true;
    ai.ai_has_pending_confirmation = true;
    ai.ai_accumulated_usage = (10, 20);
    ai.ai_current_turn_usage = (1, 2);
    ai.cancel_ai_stream();
    assert_eq!(ai.ai_streaming_text, "Hello, world");
    assert_eq!(ai.ai_pending_text, "");
    assert_eq!(ai.ai_streaming_thinking, "hmm");
    assert!(!ai.ai_is_streaming);
    assert!(!ai.ai_has_pending_confirmation);
    assert_eq!(ai.ai_accumulated_usage, (11, 22));
    assert_eq!(ai.ai_current_turn_usage, (0, 0));
    assert_eq!(ai.ai_last_usage, Some((11, 22)));

    let mut idle = AiState::new(false);
    idle.cancel_ai_stream();
    assert_eq!(idle.ai_last_usage, None);
    idle.toggle_ai_sidebar();
    assert!(idle.ai_sidebar_open && idle.ai_input_focused);
}

#[test]
fn at_menu_opens_on_a_query_and_closes_on_pick() {
    let mut v = RootView::new(true, TabLayout::Horizontal, true, "default".to_string(), 14u32);
    assert_eq!(v.check_ai_at_trigger("open @sr", 8), Some("sr".to_string()));
    assert!(v.ai.ai_at_menu_open);
    match v.insert_ai_at_path("open @sr", 8, "src/lib.rs") {
        AtInsertion::Replace { text, cursor } => {
            assert_eq!(text, "open @src/lib.rs ");
            assert_eq!(cursor, 17);
            assert!(!v.ai.ai_at_menu_open);
            assert_eq!(v.check_ai_at_trigger(&text, cursor), None);
        }
        AtInsertion::Insert(_) => panic!("expected a replacement"),
    }
    assert!(!v.ai.ai_at_menu_open);
    assert_eq!(v.check_ai_at_trigger("open @src now", 13), None);
    assert!(!v.ai.ai_at_menu_open);
}
