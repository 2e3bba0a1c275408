use fastty::fonts::find_nerd_font_family;
use fastty::pr::{
    pr_action_command, pr_action_count, pr_action_for_index, pr_action_label, pr_picker_rows,
    GhPrAuthor, GhPrList, GhPrView, PrPickerAction, PrsSummary,
};

#[test]
fn test_find_nerd_font_prefers_mono_variant() {
    let names = vec![
        "Menlo".to_string(),
        "JetBrainsMono Nerd Font".to_string(),
        "JetBrainsMono Nerd Font Mono".to_string(),
    ];
    assert_eq!(
        find_nerd_font_family(&names),
        Some("JetBrainsMono Nerd Font Mono".to_string())
    );
}

#[test]
fn test_find_nerd_font_case_insensitive_and_optional() {
    let names = vec!["Menlo".to_string(), "FiraCode NERD FONT".to_string()];
    assert_eq!(
        find_nerd_font_family(&names),
        Some("FiraCode NERD FONT".to_string())
    );
    let plain = vec!["Menlo".to_string(), "Consolas".to_string()];
    assert_eq!(find_nerd_font_family(&plain), None);
    let empty: Vec<String> = Vec::new();
    assert_eq!(find_nerd_font_family(&empty), None);
}

#[test]
fn nerd_font_first_match_wins_among_equals() {
    let names = vec![
        "Hack Nerd Font".to_string(),
        "Iosevka Nerd Font".to_string(),
        "Hack Nerd Font Mono".to_string(),
        "Iosevka Nerd Font Mono".to_string(),
    ];
    assert_eq!(find_nerd_font_family(&names), Some("Hack Nerd Font Mono".to_string()));
    let names = vec!["Hack Nerd Font".to_string(), "Iosevka Nerd Font".to_string()];
    assert_eq!(find_nerd_font_family(&names), Some("Hack Nerd Font".to_string()));
}

#[test]
fn test_pr_action_mapping_and_commands() {
    assert_eq!(pr_action_count(), 4);
    assert_eq!(pr_action_for_index(0), PrPickerAction::Checkout);
    assert_eq!(pr_action_for_index(1), PrPickerAction::Approve);
    assert_eq!(pr_action_for_index(2), PrPickerAction::Merge);
    assert_eq!(pr_action_for_index(3), PrPickerAction::Back);
    assert_eq!(pr_action_for_index(99), PrPickerAction::Back);
    assert_eq!(
        pr_action_command(PrPickerAction::Checkout, 12),
        Some("gh pr checkout 12".to_string())
    );
    assert_eq!(
        pr_action_command(PrPickerAction::Approve, 12),
        Some("gh pr review 12 --approve".to_string())
    );
    assert_eq!(
        pr_action_command(PrPickerAction::Merge, 12),
        Some("gh pr merge 12 --merge".to_string())
    );
    assert_eq!(pr_action_command(PrPickerAction::Back, 12), None);
    assert_eq!(pr_action_label(PrPickerAction::Checkout, 12), "Checkout PR #12");
    assert_eq!(pr_action_label(PrPickerAction::Back, 12), "← Back to list");
}

#[test]
fn test_pr_picker_rows_pins_current_and_dedups() {
    let snapshot = PrsSummary {
        current_pr: Some(GhPrView {
            state: "OPEN".to_string(),
            number: 7,
            title: "Mine".to_string(),
            url: "https://github.com/o/r/pull/7".to_string(),
            review_decision: Some("APPROVED".to_string()),
        }),
        open_prs: vec![
            GhPrList {
                number: 7,
                title: "Mine".to_string(),
                url: "https://github.com/o/r/pull/7".to_string(),
                author: None,
            },
            GhPrList {
                number: 9,
                title: "Theirs".to_string(),
                url: "https://github.com/o/r/pull/9".to_string(),
                author: Some(GhPrAuthor { login: "sam".to_string() }),
            },
        ],
        review_requested_prs: Vec::new(),
        cwd: std::path::PathBuf::from("/tmp"),
    };
    let rows = pr_picker_rows(&snapshot);
    assert_eq!(rows.len(), 2);
    assert!(rows[0].is_current);
    assert_eq!(rows[0].number, 7);
    assert_eq!(rows[0].detail, "APPROVED");
    assert!(!rows[1].is_current);
    assert_eq!(rows[1].detail, "@sam");
}

#[test]
fn pr_rows_without_current_dedup_the_list_and_label_large_numbers() {
    let pr = |n: usize, author: Option<&str>| GhPrList {
        number: n,
        title: format!("PR {n}"),
        url: String::new(),
        author: author.map(|a| GhPrAuthor { login: a.to_string() }),
    };
    let snapshot = PrsSummary {
        current_pr: None,
        open_prs: vec![pr(3, None), pr(5, Some("kim")), pr(3, Some("lee"))],
        review_requested_prs: Vec::new(),
        cwd: std::path::PathBuf::from("/"),
    };
    let rows = pr_picker_rows(&snapshot);
    assert_eq!(rows.len(), 2);
    assert_eq!(rows[0].number, 3);
    assert_eq!(rows[0].detail, "");
    assert_eq!(rows[1].detail, "@kim");
    let current_by_state = PrsSummary {
        current_pr: Some(GhPrView {
            state: "OPEN".to_string(),
            number: 1,
            title: "t".to_string(),
            url: String::new(),
            review_decision: None,
        }),
        open_prs: Vec::new(),
        review_requested_prs: Vec::new(),
        cwd: std::path::PathBuf::from("/"),
    };
    assert_eq!(pr_picker_rows(&current_by_state)[0].detail, "OPEN");
    assert_eq!(pr_action_label(PrPickerAction::Merge, 1024), "Merge PR #1024");
    assert_eq!(pr_action_label(PrPickerAction::Approve, 0), "Approve PR #0");
}
