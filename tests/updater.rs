use auto_update::channel::ReleaseChannel;
use auto_update::notification::{notification_key, KeyValueOp, POLL_INTERVAL_SECS};
use auto_update::status::AutoUpdateStatus;
use auto_update::updater::{
    AutoUpdater, CycleEvent, CycleStep, ReleaseDescriptor, UpdateCommand, UpdateError,
};
use auto_update::version::SemanticVersion;

fn updater(version: (u64, u64, u64), channel: ReleaseChannel) -> AutoUpdater {
    AutoUpdater::new(
        SemanticVersion { major: version.0, minor: version.1, patch: version.2 },
        channel,
        None,
        "https://zed.dev".to_string(),
        "tok".to_string(),
    )
}

fn release(version: &str) -> CycleEvent {
    CycleEvent::ReleaseFetched(ReleaseDescriptor {
        version: version.to_string(),
        url: "https://x/artifact".to_string(),
    })
}

fn is_quiet(step: &CycleStep) -> bool {
    step.command.is_none() && !step.remove_scratch && !step.write_notification_flag
}

/// Drives a fresh updater on 1.0.0 through a fetch of 1.2.0 and a download; it is then mounting.
fn mounting_updater() -> AutoUpdater {
    let mut u = updater((1, 0, 0), ReleaseChannel::Stable);
    u.poll();
    u.handle_event(release("1.2.0"));
    u.handle_event(CycleEvent::Downloaded);
    u
}

#[test]
fn newer_stable_release_is_installed() {
    let mut u = updater((1, 0, 0), ReleaseChannel::Stable);
    assert_eq!(u.status(), AutoUpdateStatus::Idle);
    match u.poll() {
        Some(UpdateCommand::FetchRelease { url }) => assert_eq!(
            url,
            "https://zed.dev/api/releases/latest?token=tok&asset=Zed.dmg&stable=1"
        ),
        other => panic!("unexpected command {other:?}"),
    }
    assert_eq!(u.status(), AutoUpdateStatus::Checking);

    let step = u.handle_event(release("1.2.0"));
    assert!(matches!(&step.command, Some(UpdateCommand::Download { url }) if url == "https://x/artifact"));
    assert!(!step.remove_scratch && !step.write_notification_flag && step.error.is_none());
    assert_eq!(u.status(), AutoUpdateStatus::Downloading);

    let step = u.handle_event(CycleEvent::Downloaded);
    assert!(matches!(step.command, Some(UpdateCommand::Mount)));
    assert_eq!(u.status(), AutoUpdateStatus::Installing);

    let step = u.handle_event(CycleEvent::Mounted);
    assert!(matches!(step.command, Some(UpdateCommand::CopyApp)));
    assert_eq!(u.status(), AutoUpdateStatus::Installing);

    let step = u.handle_event(CycleEvent::AppCopied);
    assert!(matches!(step.command, Some(UpdateCommand::Unmount)));

    let step = u.handle_event(CycleEvent::Unmounted);
    assert!(step.command.is_none());
    assert!(step.remove_scratch);
    assert!(step.write_notification_flag);
    assert!(step.error.is_none());
    assert_eq!(u.status(), AutoUpdateStatus::Updated);
    assert!(!u.is_polling());

    match u.set_should_show_update_notification(true) {
        KeyValueOp::Write { key, value } => {
            assert_eq!(key, "auto-updater-should-show-updated-notification");
            assert_eq!(value, "");
        }
        other => panic!("unexpected op {other:?}"),
    }
    assert!(u.should_show_update_notification(&Some(String::new())));
}

#[test]
fn same_version_is_not_downloaded() {
    let mut u = updater((1, 2, 0), ReleaseChannel::Stable);
    assert!(u.poll().is_some());
    let step = u.handle_event(release("1.2.0"));
    assert!(is_quiet(&step));
    assert!(step.error.is_none());
    assert_eq!(u.status(), AutoUpdateStatus::Idle);
    assert!(!u.is_polling());
}

#[test]
fn failed_mount_ends_in_error_and_cleans_up() {
    let mut u = mounting_updater();
    let step = u.handle_event(CycleEvent::Failed(UpdateError::Mount("no such image".to_string())));
    assert!(step.command.is_none());
    assert!(step.remove_scratch);
    assert!(!step.write_notification_flag);
    assert!(matches!(&step.error, Some(UpdateError::Mount(text)) if text == "no such image"));
    assert_eq!(u.status(), AutoUpdateStatus::Errored);
}

#[test]
fn failed_copy_ends_in_error_and_cleans_up() {
    let mut u = mounting_updater();
    u.handle_event(CycleEvent::Mounted);
    let step = u.handle_event(CycleEvent::Failed(UpdateError::InstallCopy("denied".to_string())));
    assert!(step.command.is_none());
    assert!(step.remove_scratch);
    assert!(!step.write_notification_flag);
    assert_eq!(u.status(), AutoUpdateStatus::Errored);
}

#[test]
fn failed_unmount_ends_in_error() {
    let mut u = mounting_updater();
    u.handle_event(CycleEvent::Mounted);
    u.handle_event(CycleEvent::AppCopied);
    let step = u.handle_event(CycleEvent::Failed(UpdateError::Unmount("busy".to_string())));
    assert!(step.remove_scratch);
    assert!(!step.write_notification_flag);
    assert_eq!(u.status(), AutoUpdateStatus::Errored);
}

#[test]
fn failed_fetch_runs_no_install_step() {
    let mut u = updater((1, 0, 0), ReleaseChannel::Stable);
    u.poll();
    let step = u.handle_event(CycleEvent::Failed(UpdateError::Fetch("offline".to_string())));
    assert!(is_quiet(&step));
    assert!(step.error.is_some());
    assert_eq!(u.status(), AutoUpdateStatus::Errored);
    for event in [CycleEvent::Downloaded, CycleEvent::Mounted, CycleEvent::AppCopied, CycleEvent::Unmounted, release("9.0.0")] {
        assert!(is_quiet(&u.handle_event(event)));
        assert_eq!(u.status(), AutoUpdateStatus::Errored);
    }
}

#[test]
fn unreadable_release_version_is_an_error() {
    let mut u = updater((1, 0, 0), ReleaseChannel::Preview);
    u.poll();
    let step = u.handle_event(release("one.two"));
    assert!(is_quiet(&step));
    assert!(matches!(step.error, Some(UpdateError::VersionParse)));
    assert_eq!(u.status(), AutoUpdateStatus::Errored);
}

#[test]
fn nightly_installs_other_commit() {
    let mut u = AutoUpdater::new(
        SemanticVersion { major: 1, minor: 0, patch: 0 },
        ReleaseChannel::Nightly,
        Some("aaa111".to_string()),
        "https://zed.dev".to_string(),
        "tok".to_string(),
    );
    u.poll();
    let step = u.handle_event(release("bbb222"));
    assert!(matches!(step.command, Some(UpdateCommand::Download { .. })));
    let mut same = AutoUpdater::new(
        SemanticVersion { major: 1, minor: 0, patch: 0 },
        ReleaseChannel::Nightly,
        Some("aaa111".to_string()),
        "https://zed.dev".to_string(),
        "tok".to_string(),
    );
    same.poll();
    assert!(is_quiet(&same.handle_event(release("aaa111"))));
    assert_eq!(same.status(), AutoUpdateStatus::Idle);
}

#[test]
fn second_poll_in_flight_is_ignored() {
    let mut u = updater((1, 0, 0), ReleaseChannel::Stable);
    assert!(u.poll().is_some());
    assert!(u.poll().is_none());
    assert_eq!(u.status(), AutoUpdateStatus::Checking);
    u.handle_event(release("1.2.0"));
    assert!(u.poll().is_none());
    assert_eq!(u.status(), AutoUpdateStatus::Downloading);
}

#[test]
fn poll_after_update_does_nothing() {
    let mut u = mounting_updater();
    u.handle_event(CycleEvent::Mounted);
    u.handle_event(CycleEvent::AppCopied);
    u.handle_event(CycleEvent::Unmounted);
    assert_eq!(u.status(), AutoUpdateStatus::Updated);
    assert!(u.poll().is_none());
    assert_eq!(u.status(), AutoUpdateStatus::Updated);
    u.dismiss_error();
    assert_eq!(u.status(), AutoUpdateStatus::Updated);
}

#[test]
fn dismiss_clears_error_only() {
    let mut u = updater((1, 0, 0), ReleaseChannel::Stable);
    u.dismiss_error();
    assert_eq!(u.status(), AutoUpdateStatus::Idle);
    u.poll();
    u.dismiss_error();
    assert_eq!(u.status(), AutoUpdateStatus::Checking);
    u.handle_event(CycleEvent::Failed(UpdateError::Parse("bad json".to_string())));
    assert_eq!(u.status(), AutoUpdateStatus::Errored);
    u.dismiss_error();
    assert_eq!(u.status(), AutoUpdateStatus::Idle);
}

#[test]
fn errored_updater_polls_again() {
    let mut u = updater((1, 0, 0), ReleaseChannel::Stable);
    u.poll();
    u.handle_event(CycleEvent::Failed(UpdateError::Fetch("offline".to_string())));
    assert!(u.poll().is_some());
    assert_eq!(u.status(), AutoUpdateStatus::Checking);
}

#[test]
fn event_out_of_turn_is_ignored() {
    let mut u = updater((1, 0, 0), ReleaseChannel::Stable);
    assert!(is_quiet(&u.handle_event(CycleEvent::Downloaded)));
    assert_eq!(u.status(), AutoUpdateStatus::Idle);
    u.poll();
    assert!(is_quiet(&u.handle_event(CycleEvent::Mounted)));
    assert_eq!(u.status(), AutoUpdateStatus::Checking);
}

#[test]
fn notification_flag_ops() {
    let u = updater((1, 0, 0), ReleaseChannel::Stable);
    match u.set_should_show_update_notification(false) {
        KeyValueOp::Delete { key } => assert_eq!(key, notification_key()),
        other => panic!("unexpected op {other:?}"),
    }
    assert!(!u.should_show_update_notification(&None));
    assert_eq!(POLL_INTERVAL_SECS, 3600);
    assert_eq!(u.current_version(), SemanticVersion { major: 1, minor: 0, patch: 0 });
    assert_eq!(u.channel(), ReleaseChannel::Stable);
    assert_eq!(u.server_url(), "https://zed.dev");
}
