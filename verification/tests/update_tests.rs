use fastty::palette::TabLayout;
use fastty::update::{ReleaseInfo, UpdateAction, UpdateCheck};
use fastty::view::RootView;

fn view() -> RootView<f32> {
    RootView::new(false, TabLayout::Horizontal, false, "default".to_string(), 13.0)
}

fn release(blocked: Option<&str>) -> ReleaseInfo {
    ReleaseInfo {
        version: "1.4.0".to_string(),
        release_url: "https://example.invalid/releases/1.4.0".to_string(),
        self_update_blocked_reason: blocked.map(|s| s.to_string()),
    }
}

#[test]
fn update_button_downloads_then_relaunches() {
    let mut v = view();
    assert_eq!(v.trigger_apply_update(), UpdateAction::Nothing);
    v.update_checked(UpdateCheck::Available(release(None)));
    assert!(v.update.update_status.is_none());
    assert_eq!(v.trigger_apply_update(), UpdateAction::StartDownload);
    assert!(v.update.is_updating);
    assert!(v.overlays.is_update_modal_open);
    assert_eq!(v.update.update_status.as_deref(), Some("Downloading Fastty v1.4.0..."));
    v.overlays.is_update_modal_open = false;
    assert_eq!(v.trigger_apply_update(), UpdateAction::ShowDialog);
    assert!(v.overlays.is_update_modal_open);
    v.update_finished(Ok(()));
    assert!(!v.update.is_updating);
    assert!(v.update.is_update_ready);
    assert!(v.update.update_available.is_none());
    assert_eq!(
        v.update.update_status.as_deref(),
        Some("Fastty v1.4.0 installed successfully!\nRestart Fastty to use the new version.")
    );
    assert_eq!(v.trigger_apply_update(), UpdateAction::Relaunch);
}

#[test]
fn failed_and_blocked_updates_explain_themselves() {
    let mut v = view();
    v.update_checked(UpdateCheck::Available(release(None)));
    v.trigger_apply_update();
    v.update_finished(Err("disk full".to_string()));
    assert!(!v.update.is_update_ready);
    assert!(v.update.update_available.is_some());
    assert_eq!(v.update.update_status.as_deref(), Some("Update failed:\ndisk full"));

    let mut b = view();
    b.update_checked(UpdateCheck::Blocked(release(Some("Installed by a package manager.")), "Installed by a package manager.".to_string()));
    assert_eq!(b.update.update_status.as_deref(), Some("Installed by a package manager."));
    assert_eq!(b.trigger_apply_update(), UpdateAction::ShowDialog);
    assert!(!b.update.is_updating);
    assert_eq!(
        b.update.update_status.as_deref(),
        Some("A new version (v1.4.0) is available.\n\nInstalled by a package manager.\n\nhttps://example.invalid/releases/1.4.0")
    );
}

#[test]
fn a_staged_update_is_ready_at_startup() {
    let mut v = view();
    v.update_checked(UpdateCheck::Ready(release(None)));
    assert!(v.update.is_update_ready);
    assert_eq!(
        v.update.update_status.as_deref(),
        Some("Fastty v1.4.0 is installed and ready to use.\nRestart Fastty to switch to the new version.")
    );
    assert_eq!(v.trigger_apply_update(), UpdateAction::Relaunch);
}
