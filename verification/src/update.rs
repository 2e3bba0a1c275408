use vstd::prelude::*;
use vstd::string::StringExecFns;

use crate::view::RootView;

verus! {

/// A published release of the app.
#[derive(Clone, Debug)]
pub struct ReleaseInfo {
    pub version: String,
    pub release_url: String,
    /// Why this installation cannot update itself, if it cannot.
    pub self_update_blocked_reason: Option<String>,
}

/// The state of the app's self-update.
#[derive(Debug)]
pub struct UpdateState {
    pub update_available: Option<ReleaseInfo>,
    pub is_updating: bool,
    pub update_status: Option<String>,
    pub is_update_ready: bool,
}

impl UpdateState {
    /// No update known.
    pub fn new() -> (r: Self)
        ensures
            r.update_available is None,
            !r.is_updating,
            r.update_status is None,
            !r.is_update_ready,
    {
        UpdateState {
            update_available: None,
            is_updating: false,
            update_status: None,
            is_update_ready: false,
        }
    }
}

/// What the background update check found.
#[derive(Debug)]
pub enum UpdateCheck {
    /// Downloaded and staged: a restart switches to it.
    Ready(ReleaseInfo),
    /// Available, but this installation cannot update itself (why).
    Blocked(ReleaseInfo, String),
    /// Available; staging it failed.
    Available(ReleaseInfo),
}

/// What the update button asks of the UI.
#[derive(Clone, Copy, Debug, PartialEq, Eq, Structural)]
pub enum UpdateAction {
    /// Nothing to update.
    Nothing,
    /// Save the session and restart into the staged version.
    Relaunch,
    /// Download and install the available release in the background, then
    /// report with `update_finished`.
    StartDownload,
    /// The update dialog was opened (progress or why it cannot update).
    ShowDialog,
}

/// The status line of a release this installation cannot install.
pub open spec fn blocked_status(version: Seq<char>, reason: Seq<char>, url: Seq<char>) -> Seq<char> {
    "A new version (v"@ + version + ") is available.\n\n"@ + reason + "\n\n"@ + url
}

/// The status line while downloading.
pub open spec fn downloading_status(version: Seq<char>) -> Seq<char> {
    "Downloading Fastty v"@ + version + "..."@
}

/// The status line of an installed update.
pub open spec fn installed_status(version: Seq<char>) -> Seq<char> {
    "Fastty v"@ + version + " installed successfully!\nRestart Fastty to use the new version."@
}

/// The status line of a failed update.
pub open spec fn failed_status(err: Seq<char>) -> Seq<char> {
    "Update failed:\n"@ + err
}

/// The status line of a staged update found at startup.
pub open spec fn ready_status(version: Seq<char>) -> Seq<char> {
    "Fastty v"@ + version + " is installed and ready to use.\nRestart Fastty to switch to the new version."@
}

fn concat3(a: &str, b: &str, c: &str) -> (r: String)
    ensures
        r@ == a@ + b@ + c@,
{
    let mut s = a.to_owned();
    s.append(b);
    s.append(c);
    s
}

impl<F> RootView<F> {
    /// The update button: while downloading it shows progress; a staged
    /// update restarts the app; a release this installation cannot install
    /// explains why; an installable one starts downloading (with its status
    /// shown). Without a release it does nothing.
    pub fn trigger_apply_update(&mut self) -> (r: UpdateAction)
        ensures
            old(self).update.is_updating ==> r == UpdateAction::ShowDialog
                && final(self).overlays.is_update_modal_open
                && final(self).update.update_status == old(self).update.update_status
                && final(self).update.is_updating,
            !old(self).update.is_updating && old(self).update.is_update_ready ==> r
                == UpdateAction::Relaunch && final(self).update.update_status == old(self).update.update_status,
            !old(self).update.is_updating && !old(self).update.is_update_ready ==> match old(self).update.update_available {
                None => r == UpdateAction::Nothing && final(self).update.update_status == old(self).update.update_status,
                Some(rel) => match rel.self_update_blocked_reason {
                    Some(reason) => {
                        &&& r == UpdateAction::ShowDialog
                        &&& final(self).overlays.is_update_modal_open
                        &&& !final(self).update.is_updating
                        &&& final(self).update.update_status matches Some(st) && st@ == blocked_status(
                            rel.version@,
                            reason@,
                            rel.release_url@,
                        )
                    },
                    None => {
                        &&& r == UpdateAction::StartDownload
                        &&& final(self).overlays.is_update_modal_open
                        &&& final(self).update.is_updating
                        &&& final(self).update.update_status matches Some(st) && st@
                            == downloading_status(rel.version@)
                    },
                },
            },
            final(self).update.update_available == old(self).update.update_available,
            final(self).update.is_update_ready == old(self).update.is_update_ready,
            final(self).workspace == old(self).workspace,
    {
        if self.update.is_updating {
            self.overlays.is_update_modal_open = true;
            return UpdateAction::ShowDialog;
        }
        if self.update.is_update_ready {
            return UpdateAction::Relaunch;
        }
        let status = match &self.update.update_available {
            None => {
                return UpdateAction::Nothing;
            },
            Some(rel) => match &rel.self_update_blocked_reason {
                Some(reason) => {
                    let mut s = concat3("A new version (v", rel.version.as_str(), ") is available.\n\n");
                    s.append(reason.as_str());
                    s.append("\n\n");
                    s.append(rel.release_url.as_str());
                    self.update.update_status = Some(s);
                    self.overlays.is_update_modal_open = true;
                    return UpdateAction::ShowDialog;
                },
                None => concat3("Downloading Fastty v", rel.version.as_str(), "..."),
            },
        };
        self.update.is_updating = true;
        self.update.update_status = Some(status);
        self.overlays.is_update_modal_open = true;
        UpdateAction::StartDownload
    }

    /// The background download finished: on success the update is staged
    /// (and no longer offered), else the error is shown; the dialog opens
    /// either way.
    pub fn update_finished(&mut self, result: Result<(), String>)
        ensures
            !final(self).update.is_updating,
            final(self).overlays.is_update_modal_open,
            match result {
                Ok(()) => {
                    &&& final(self).update.is_update_ready
                    &&& final(self).update.update_available is None
                    &&& match old(self).update.update_available {
                        Some(rel) => final(self).update.update_status matches Some(st) && st@
                            == installed_status(rel.version@),
                        None => final(self).update.update_status == old(self).update.update_status,
                    }
                },
                Err(e) => {
                    &&& !final(self).update.is_update_ready
                    &&& final(self).update.update_available == old(self).update.update_available
                    &&& final(self).update.update_status matches Some(st) && st@ == failed_status(e@)
                },
            },
            final(self).workspace == old(self).workspace,
    {
        self.update.is_updating = false;
        match result {
            Ok(()) => {
                self.update.is_update_ready = true;
                match &self.update.update_available {
                    Some(rel) => {
                        self.update.update_status = Some(
                            concat3(
                                "Fastty v",
                                rel.version.as_str(),
                                " installed successfully!\nRestart Fastty to use the new version.",
                            ),
                        );
                    },
                    None => {},
                }
                self.update.update_available = None;
            },
            Err(e) => {
                self.update.is_update_ready = false;
                let mut s = "Update failed:\n".to_owned();
                s.append(e.as_str());
                self.update.update_status = Some(s);
            },
        }
        self.overlays.is_update_modal_open = true;
    }

    /// The background check at startup found a release: a staged one is
    /// ready (say so), a blocked one shows why, an available one is
    /// offered.
    pub fn update_checked(&mut self, check: UpdateCheck)
        ensures
            match check {
                UpdateCheck::Ready(rel) => {
                    &&& final(self).update.is_update_ready
                    &&& final(self).update.update_available == Some(rel)
                    &&& final(self).update.update_status matches Some(st) && st@ == ready_status(rel.version@)
                },
                UpdateCheck::Blocked(rel, reason) => {
                    &&& !final(self).update.is_update_ready
                    &&& final(self).update.update_available == Some(rel)
                    &&& final(self).update.update_status matches Some(st) && st@ == reason@
                },
                UpdateCheck::Available(rel) => {
                    &&& !final(self).update.is_update_ready
                    &&& final(self).update.update_available == Some(rel)
                    &&& final(self).update.update_status is None
                },
            },
            final(self).update.is_updating == old(self).update.is_updating,
            final(self).overlays == old(self).overlays,
            final(self).workspace == old(self).workspace,
    {
        match check {
            UpdateCheck::Ready(rel) => {
                let status = concat3(
                    "Fastty v",
                    rel.version.as_str(),
                    " is installed and ready to use.\nRestart Fastty to switch to the new version.",
                );
                self.update.is_update_ready = true;
                self.update.update_available = Some(rel);
                self.update.update_status = Some(status);
            },
            UpdateCheck::Blocked(rel, reason) => {
                self.update.is_update_ready = false;
                self.update.update_available = Some(rel);
                self.update.update_status = Some(reason);
            },
            UpdateCheck::Available(rel) => {
                self.update.is_update_ready = false;
                self.update.update_available = Some(rel);
                self.update.update_status = None;
            },
        }
    }
}

} // verus!
