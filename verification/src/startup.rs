use vstd::prelude::*;

use crate::view::Workspace;

verus! {

/// How a new window fills itself with tabs.
#[derive(Clone, Copy, Debug, PartialEq, Eq, Structural)]
pub enum StartupPlan {
    /// A tab dragged out of another window moves in.
    AttachInitialTab,
    /// One tab from the command line: its command (else the shell), in its
    /// directory, with its title; `quits_on_exit` when a command was given, so the
    /// app quits when it exits.
    CommandLineTab { quits_on_exit: bool },
    /// The tabs of the restored session, in order.
    RestoreTabs,
    /// One tab with the shell.
    NewTab,
}

/// The window's startup: a moved-in tab first, then command-line options
/// (a command, a directory or a title), then the restored session's tabs,
/// else one new tab.
pub open spec fn spec_startup_plan(
    has_initial_tab: bool,
    cli_command: bool,
    cli_working_dir: bool,
    cli_title: bool,
    restored_tabs: nat,
) -> StartupPlan {
    if has_initial_tab {
        StartupPlan::AttachInitialTab
    } else if cli_command || cli_working_dir || cli_title {
        StartupPlan::CommandLineTab { quits_on_exit: cli_command }
    } else if restored_tabs == 0 {
        StartupPlan::NewTab
    } else {
        StartupPlan::RestoreTabs
    }
}

/// Decides how a new window starts (see `spec_startup_plan`).
pub fn startup_plan(
    has_initial_tab: bool,
    cli_command: bool,
    cli_working_dir: bool,
    cli_title: bool,
    restored_tabs: usize,
) -> (r: StartupPlan)
    ensures
        r == spec_startup_plan(
            has_initial_tab,
            cli_command,
            cli_working_dir,
            cli_title,
            restored_tabs as nat,
        ),
{
    if has_initial_tab {
        StartupPlan::AttachInitialTab
    } else if cli_command || cli_working_dir || cli_title {
        StartupPlan::CommandLineTab { quits_on_exit: cli_command }
    } else if restored_tabs == 0 {
        StartupPlan::NewTab
    } else {
        StartupPlan::RestoreTabs
    }
}

/// The first-run hint shows only while neither a configuration file nor a
/// saved session exists.
pub fn onboarding_hint_shown(config_exists: bool, session_exists: bool) -> (r: bool)
    ensures
        r == (!config_exists && !session_exists),
{
    !config_exists && !session_exists
}

/// A session is restored only for a window without a moved-in tab, and
/// when the configuration asks for it.
pub fn should_restore_session(has_initial_tab: bool, session_restore: bool) -> (r: bool)
    ensures
        r == (!has_initial_tab && session_restore),
{
    !has_initial_tab && session_restore
}

/// The title of a restored tab: its saved title override, else its custom
/// name.
pub fn restored_tab_title(title_override: Option<String>, custom_name: Option<String>) -> (r:
    Option<String>)
    ensures
        r == (if title_override is Some {
            title_override
        } else {
            custom_name
        }),
{
    match title_override {
        Some(t) => Some(t),
        None => custom_name,
    }
}

impl Workspace {
    /// Marks the active pane of the last tab (the command-line tab) as the
    /// `-e` pane: when its process exits, the app quits. Returns whether
    /// there is a tab.
    pub fn mark_exec_pane(&mut self) -> (r: bool)
        requires
            old(self).wf(),
        ensures
            final(self).wf(),
            r == (old(self).tabs@.len() > 0),
            r ==> final(self).exec_pane_id == Some(old(self).tabs@.last().active_pane_id),
            !r ==> final(self).exec_pane_id == old(self).exec_pane_id,
            final(self).tabs@ == old(self).tabs@,
            final(self).active_tab_idx == old(self).active_tab_idx,
            final(self).next_tab_id == old(self).next_tab_id,
            final(self).selection == old(self).selection,
            final(self).pending_close == old(self).pending_close,
    {
        let n = self.tabs.len();
        if n == 0 {
            return false;
        }
        self.exec_pane_id = Some(self.tabs[n - 1].active_pane_id);
        true
    }
}

} // verus!
