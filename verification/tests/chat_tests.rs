use fastty::ai::AiState;
use fastty::chat::{attachment_prompt, can_submit};
use fastty::prompt::{
    at_references, augmented_prompt, binary_attachment_note, AttachedFile, AttachmentRead, file_snippet, is_ask_mode, quoted_file,
    system_prompt_for_mode,
};
use std::path::PathBuf;

fn sidebar() -> AiState {
    AiState::new(true)
}

#[test]
fn a_turn_collects_streamed_text_into_one_message() {
    let mut ai = sidebar();
    ai.begin_turn("list files".to_string(), "10:00", vec![], vec![]);
    assert!(ai.ai_is_streaming);
    assert_eq!(ai.ai_messages.len(), 1);
    assert!(ai.ai_messages[0].is_user);
    ai.text_delta("Here ");
    ai.text_delta("they are");
    ai.thinking_delta("user wants ls");
    ai.reveal_tick();
    ai.usage(120, 30);
    assert_eq!(ai.ai_current_turn_usage, (120, 30));
    assert_eq!(ai.ai_last_usage, Some((120, 30)));
    ai.turn_end("10:01");
    assert!(!ai.ai_is_streaming);
    assert_eq!(ai.ai_messages.len(), 2);
    let m = &ai.ai_messages[1];
    assert!(!m.is_user);
    assert_eq!(m.text, "Here they are");
    assert_eq!(m.thinking.as_deref(), Some("user wants ls"));
    assert_eq!(m.timestamp.as_deref(), Some("10:01"));
    assert_eq!(ai.ai_accumulated_usage, (120, 30));
    assert_eq!(ai.ai_current_turn_usage, (0, 0));
    assert_eq!(ai.ai_streaming_text, "");
}

#[test]
fn tool_calls_attach_to_the_assistant_message() {
    let mut ai = sidebar();
    ai.begin_turn("fix it".to_string(), "t0", vec![], vec![]);
    // Nothing streamed yet: a new assistant message holds the call.
    ai.tool_start("c1".to_string(), "read".to_string(), "a.rs".to_string(), "t1");
    assert_eq!(ai.ai_messages.len(), 2);
    assert_eq!(ai.ai_messages[1].text, "");
    assert_eq!(ai.ai_messages[1].tool_calls.len(), 1);
    assert!(ai.ai_messages[1].tool_calls[0].is_running);
    // A second call joins the same message.
    ai.tool_start("c2".to_string(), "edit".to_string(), "a.rs".to_string(), "t2");
    assert_eq!(ai.ai_messages.len(), 2);
    assert_eq!(ai.ai_messages[1].tool_calls.len(), 2);
    ai.tool_end("c1", "fn main".to_string(), false, None);
    let c1 = &ai.ai_messages[1].tool_calls[0];
    assert!(!c1.is_running);
    assert_eq!(c1.output.as_deref(), Some("fn main"));
    assert!(ai.ai_messages[1].tool_calls[1].is_running);
    ai.tool_end("zz", "x".to_string(), true, None);
    assert!(ai.ai_messages[1].tool_calls[1].is_running);
    // Text streamed before a tool becomes its own message first.
    ai.text_delta("Editing now");
    ai.tool_start("c3".to_string(), "run".to_string(), "cargo".to_string(), "t3");
    assert_eq!(ai.ai_messages.len(), 3);
    assert_eq!(ai.ai_messages[2].text, "Editing now");
    assert_eq!(ai.ai_messages[2].tool_calls.len(), 1);
    ai.tool_end("c3", "ok".to_string(), false, Some("+1 -1".to_string()));
    assert_eq!(ai.ai_messages[2].tool_calls[0].diff.as_deref(), Some("+1 -1"));
    // The turn ran tools and streamed nothing more: no placeholder.
    ai.turn_end("t4");
    assert_eq!(ai.ai_messages.len(), 3);
}

#[test]
fn an_empty_turn_gets_a_placeholder() {
    let mut ai = sidebar();
    ai.begin_turn("hi".to_string(), "t0", vec![PathBuf::from("a.png")], vec![]);
    assert_eq!(ai.ai_messages[0].images.len(), 1);
    ai.turn_end("t1");
    assert_eq!(ai.ai_messages[1].text, "(Assistant completed turn with no content)");
    assert_eq!(ai.ai_messages[1].thinking, None);
}

#[test]
fn usage_without_input_count_estimates_from_the_conversation() {
    let mut ai = sidebar();
    ai.begin_turn("x".repeat(400), "t", vec![], vec![]);
    ai.usage(0, 7);
    assert_eq!(ai.ai_current_turn_usage, (100, 7));
    let mut small = sidebar();
    small.begin_turn("hi".to_string(), "t", vec![], vec![]);
    small.usage(0, 1);
    assert_eq!(small.ai_current_turn_usage, (50, 1));
}

#[test]
fn a_stream_error_adds_an_error_bubble() {
    let mut ai = sidebar();
    ai.begin_turn("hi".to_string(), "t0", vec![], vec![]);
    ai.text_delta("partial");
    ai.stream_error("connect timed out", "t1");
    assert!(!ai.ai_is_streaming);
    assert_eq!(ai.ai_streaming_text, "partial");
    let m = ai.ai_messages.last().unwrap();
    assert!(m.is_error);
    assert!(m.text.starts_with("Error: connect timed out"));
    assert!(m.text.ends_with("Tip: check your network connection and provider status, then retry."));
    assert_eq!(ai.ai_last_usage, None);
}

#[test]
fn prompts_need_text_or_attachments_and_no_running_answer() {
    assert!(can_submit("hello", 0, false));
    assert!(can_submit("", 1, false));
    assert!(!can_submit("", 0, false));
    assert!(!can_submit("hello", 0, true));
    assert_eq!(attachment_prompt("look", "look ", false), "look ");
    assert_eq!(attachment_prompt("", "  ", true), "Analyze and summarize this document.");
    assert_eq!(attachment_prompt("", "", false), "Describe this image and analyze its contents.");
}

#[test]
fn at_references_strip_punctuation_and_skip_empty_paths() {
    assert_eq!(
        at_references("look at @src/main.rs, and @(docs/README.md) please (@skipped) @ @!! email@x.com"),
        vec!["src/main.rs", "docs/README.md"]
    );
    assert_eq!(at_references("@\"notes_v2.txt\"\n@./a-b"), vec!["notes_v2.txt", "./a-b"]);
    assert!(at_references("no refs here").is_empty());
}

#[test]
fn quoted_files_are_fenced_and_truncated() {
    assert_eq!(file_snippet("short"), "short");
    let long = "a".repeat(16005);
    let s = file_snippet(&long);
    assert_eq!(s.len(), 16000 + "... (truncated)".len());
    assert!(s.ends_with("a... (truncated)"));
    assert_eq!(
        quoted_file("Referenced file", "a.rs", "fn main() {}"),
        "\n\n[Referenced file: a.rs]\n```\nfn main() {}\n```"
    );
    assert_eq!(binary_attachment_note("x.bin"), "\n\n[Attached binary file: x.bin]");
}

#[test]
fn ask_mode_extends_the_system_prompt() {
    assert!(is_ask_mode("Ask"));
    assert!(!is_ask_mode("Agent"));
    assert_eq!(system_prompt_for_mode("base", "Agent"), "base");
    let p = system_prompt_for_mode("base", "Ask");
    assert!(p.starts_with("base\n\n[MODE: ASK ONLY]\nYou are in Ask mode."));
}

#[test]
fn submitting_takes_the_input_and_attachments() {
    let mut ai = sidebar();
    ai.ai_input_text = "   ".to_string();
    assert!(ai.take_prompt("09:00", &vec![]).is_none());
    assert_eq!(ai.ai_input_text, "   ");
    assert!(ai.ai_messages.is_empty());
    ai.ai_input_text = "  explain @src/lib.rs ".to_string();
    ai.ai_attached_files = vec![
        PathBuf::from("/tmp/a.png"),
        PathBuf::from("/tmp/notes.txt"),
        PathBuf::from("/tmp/spec.pdf"),
    ];
    ai.ai_at_menu_open = true;
    let reads = vec![
        AttachmentRead::Image,
        AttachmentRead::Text("notes".to_string()),
        AttachmentRead::Document,
    ];
    let p = ai.take_prompt("09:00", &reads).expect("something to send");
    assert_eq!(p.text, "explain @src/lib.rs");
    assert_eq!(
        p.attachments,
        vec![
            PathBuf::from("/tmp/a.png"),
            PathBuf::from("/tmp/notes.txt"),
            PathBuf::from("/tmp/spec.pdf"),
        ]
    );
    assert!(ai.ai_input_text.is_empty());
    assert!(ai.ai_attached_files.is_empty());
    assert!(!ai.ai_at_menu_open);
    assert!(ai.ai_is_streaming);
    assert_eq!(ai.ai_messages.len(), 1);
    let m = &ai.ai_messages[0];
    assert!(m.is_user);
    assert_eq!(m.text, "explain @src/lib.rs");
    assert_eq!(m.timestamp.as_deref(), Some("09:00"));
    assert_eq!(m.images, vec![PathBuf::from("/tmp/a.png")]);
    assert_eq!(m.documents, vec![PathBuf::from("/tmp/spec.pdf")]);
    ai.ai_input_text = "more".to_string();
    assert!(ai.take_prompt("09:01", &vec![]).is_none(), "no prompt while an answer streams");
    assert_eq!(ai.ai_input_text, "more");
    assert_eq!(ai.ai_messages.len(), 1);
}

#[test]
fn attachments_alone_can_be_sent() {
    let mut ai = sidebar();
    ai.ai_attached_files = vec![PathBuf::from("shot.png")];
    let p = ai.take_prompt("10:00", &vec![AttachmentRead::Image]).expect("an attachment is enough");
    assert_eq!(p.text, "");
    assert_eq!(ai.ai_messages[0].text, "");
    assert_eq!(ai.ai_messages[0].images, vec![PathBuf::from("shot.png")]);
}

#[test]
fn new_chat_clears_the_conversation() {
    let mut ai = sidebar();
    ai.begin_turn("hi".to_string(), "09:00", vec![], vec![]);
    ai.text_delta("hello");
    ai.usage(10, 5);
    ai.toggle_thinking(0);
    ai.ai_attached_files = vec![PathBuf::from("x.txt")];
    ai.select_message_char(0, 3);
    ai.new_chat();
    assert!(ai.ai_messages.is_empty());
    assert!(!ai.ai_is_streaming);
    assert!(ai.ai_pending_text.is_empty());
    assert!(ai.ai_expanded_thinkings.is_empty());
    assert!(ai.ai_attached_files.is_empty());
    assert_eq!(ai.ai_last_usage, None);
    assert_eq!(ai.ai_accumulated_usage, (0, 0));
    assert_eq!(ai.ai_message_selection, None);
}

#[test]
fn context_tokens_prefer_reported_usage() {
    let mut ai = sidebar();
    assert_eq!(ai.context_tokens(), (0, None));
    ai.begin_turn("x".repeat(40), "09:00", vec![], vec![]);
    assert_eq!(ai.context_tokens(), (10, None));
    ai.usage(100, 20);
    assert_eq!(ai.context_tokens(), (120, Some((100, 20))));
}

#[test]
fn message_selection_and_sidebar_toggles() {
    let mut ai = sidebar();
    ai.select_message_char(2, 10);
    ai.drag_message_char(2, 4);
    assert_eq!(ai.ai_message_selection, Some((2, 4, 10)));
    ai.drag_message_char(3, 1);
    assert_eq!(ai.ai_message_selection, Some((2, 4, 10)));
    ai.toggle_thinking(5);
    ai.toggle_thinking(7);
    assert_eq!(ai.ai_expanded_thinkings, vec![5, 7]);
    ai.toggle_thinking(5);
    assert_eq!(ai.ai_expanded_thinkings, vec![7]);
    ai.ai_attached_files = vec![PathBuf::from("a"), PathBuf::from("b")];
    ai.remove_attachment(0);
    ai.remove_attachment(9);
    assert_eq!(ai.ai_attached_files, vec![PathBuf::from("b")]);
}

#[test]
fn augmented_prompt_quotes_references_and_attachments() {
    let text = "see @notes.md and @gone.txt";
    assert_eq!(at_references(text), vec!["notes.md", "gone.txt"]);
    let files = vec![
        AttachedFile { name: "/tmp/a.rs".to_string(), read: AttachmentRead::Text("fn main() {}".to_string()) },
        AttachedFile { name: "/tmp/b.bin".to_string(), read: AttachmentRead::Binary },
        AttachedFile { name: "/tmp/c.png".to_string(), read: AttachmentRead::Image },
    ];
    let p = augmented_prompt(text, &vec![Some("# Notes".to_string()), None], &files);
    assert_eq!(
        p,
        "see @notes.md and @gone.txt\n\n[Referenced file: notes.md]\n```\n# Notes\n```\n\n[Attached file: /tmp/a.rs]\n```\nfn main() {}\n```\n\n[Attached binary file: /tmp/b.bin]"
    );
}
