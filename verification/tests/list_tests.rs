use fastty::lists::{
    close_prompt, filter_jump_targets, filter_pr_rows, filter_snippets, filter_ssh_hosts,
    filter_worktrees, JumpTarget, SshHostText, WorktreeText,
};
use fastty::overlays::Overlays;
use fastty::pr::{pr_picker_header, PrPickerMode, PrPickerRow};
use fastty::view::{CloseTarget, PendingClose, RunningProcessInfo};

fn pair(a: &str, b: &str) -> (String, String) {
    (a.to_string(), b.to_string())
}

#[test]
fn snippet_picker_filters_by_trigger_or_body() {
    let all = vec![pair("gst", "git status"), pair("dps", "docker ps"), pair("ll", "ls -la")];
    assert_eq!(filter_snippets(&all, ""), all);
    assert_eq!(filter_snippets(&all, "GIT"), vec![pair("gst", "git status")]);
    // subsequence of the body
    assert_eq!(filter_snippets(&all, "dkr"), vec![pair("dps", "docker ps")]);
    assert!(filter_snippets(&all, "zzz").is_empty());
}

fn pr(number: usize, title: &str, detail: &str) -> PrPickerRow {
    PrPickerRow { number, title: title.to_string(), detail: detail.to_string(), is_current: false }
}

#[test]
fn pr_picker_filters_by_title_detail_or_number() {
    let rows = vec![pr(12, "Fix scroll", "@ana"), pr(345, "Add tabs", "@bo"), pr(7, "Docs", "approved")];
    let numbers = |rs: Vec<PrPickerRow>| rs.iter().map(|r| r.number).collect::<Vec<_>>();
    assert_eq!(numbers(filter_pr_rows(&rows, "")), vec![12, 345, 7]);
    assert_eq!(numbers(filter_pr_rows(&rows, "34")), vec![345]);
    assert_eq!(numbers(filter_pr_rows(&rows, "@BO")), vec![345]);
    assert_eq!(numbers(filter_pr_rows(&rows, "scroll")), vec![12]);
}

#[test]
fn ssh_manager_filters_hosts() {
    let host = |name: &str, hostname: &str, user: &str, tag: &str| SshHostText {
        name: name.to_string(),
        hostname: hostname.to_string(),
        user: user.to_string(),
        tag: tag.to_string(),
    };
    let hosts = vec![host("web", "10.0.0.1", "deploy", "prod"), host("db", "db.local", "root", "staging")];
    assert_eq!(filter_ssh_hosts(&hosts, ""), vec![0, 1]);
    assert_eq!(filter_ssh_hosts(&hosts, "Root"), vec![1]);
    assert_eq!(filter_ssh_hosts(&hosts, "prod"), vec![0]);
    assert!(filter_ssh_hosts(&hosts, "xyz").is_empty());
}

#[test]
fn worktree_and_jumper_filters_use_substrings() {
    let wts = vec![
        WorktreeText { branch: "main".to_string(), path: "/src/app".to_string() },
        WorktreeText { branch: "Feature/Login".to_string(), path: "/src/app-login".to_string() },
    ];
    assert_eq!(filter_worktrees(&wts, "LOGIN"), vec![1]);
    assert_eq!(filter_worktrees(&wts, "app"), vec![0, 1]);
    // substring only: no subsequence match
    assert!(filter_worktrees(&wts, "mn").is_empty());
    let tabs = vec![
        JumpTarget { title: "zsh".to_string(), cwd: Some("/home/me/Fastty".to_string()), branch: None },
        JumpTarget { title: "Server".to_string(), cwd: None, branch: Some("dev".to_string()) },
    ];
    assert_eq!(filter_jump_targets(&tabs, "fastty"), vec![0]);
    assert_eq!(filter_jump_targets(&tabs, "DEV"), vec![1]);
    assert_eq!(filter_jump_targets(&tabs, "s"), vec![0, 1]);
    assert_eq!(filter_jump_targets(&tabs, ""), vec![0, 1]);
}

#[test]
fn close_prompt_names_the_running_processes() {
    let proc_ = |name: &str| RunningProcessInfo { pane_id: 1, process_name: name.to_string(), pid: 9 };
    let pane = PendingClose { target: CloseTarget::Pane { tab_id: 1, pane_id: 2 }, running_processes: vec![proc_("vim")] };
    assert_eq!(
        close_prompt(&pane),
        ("Close Pane?".to_string(), "Process 'vim' is still running in this pane.".to_string())
    );
    let none = PendingClose { target: CloseTarget::Pane { tab_id: 1, pane_id: 2 }, running_processes: vec![] };
    assert_eq!(close_prompt(&none).1, "Process 'process' is still running in this pane.");
    let tab = PendingClose { target: CloseTarget::Tab { tab_id: 1 }, running_processes: vec![proc_("vim"), proc_("top")] };
    assert_eq!(close_prompt(&tab), ("Close Tab?".to_string(), "2 processes are still running in this tab.".to_string()));
    let one = PendingClose { target: CloseTarget::Tab { tab_id: 1 }, running_processes: vec![proc_("htop")] };
    assert_eq!(close_prompt(&one).1, "Process 'htop' is still running in this tab.");
    let others = PendingClose { target: CloseTarget::OtherTabs { keep_id: 1 }, running_processes: vec![proc_("a"), proc_("b"), proc_("c")] };
    assert_eq!(
        close_prompt(&others),
        ("Close Other Tabs?".to_string(), "3 processes are still running in other tabs.".to_string())
    );
}

#[test]
fn pr_picker_header_follows_the_mode() {
    assert_eq!(
        pr_picker_header(&PrPickerMode::Browse, ""),
        "Browse pull requests... (↑↓ to navigate, Enter for actions)"
    );
    assert_eq!(pr_picker_header(&PrPickerMode::Browse, "fix"), "fix|");
    let long = "x".repeat(50);
    let h = pr_picker_header(&PrPickerMode::Actions { number: 42, title: long }, "ignored");
    assert_eq!(h, format!("PR #42: {} (Enter runs, Esc backs out)", "x".repeat(40)));
}

#[test]
fn search_counter_shows_position_of_matches() {
    let mut o = Overlays::new();
    assert_eq!(o.search_match_counter(), "0/0");
    o.set_search_matches(vec![3, 9, 12]);
    assert_eq!(o.search_match_counter(), "1/3");
    o.search_match_idx = 2;
    assert_eq!(o.search_match_counter(), "3/3");
}
