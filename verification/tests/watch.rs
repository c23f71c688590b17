use filewatcher::watch::exit_code_for;
use filewatcher::watch::lock_attempt_outcome;
use filewatcher::watch::poll_interval_secs;
use filewatcher::watch::should_release_lock;
use filewatcher::watch::update_begin;
use filewatcher::watch::update_poll;
use filewatcher::watch::AppearanceWait;
use filewatcher::watch::FileStat;
use filewatcher::watch::PollStep;
use filewatcher::watch::RunOutcome;
use filewatcher::watch::UpdateBegin;
use filewatcher::watch::UpdatePoll;
use filewatcher::watch::WatchError;

#[test]
fn appearance_wait_blocks_until_file_exists() {
    let w = AppearanceWait::new("/tmp/x/data.txt".to_string());
    assert!(!w.wants_listing());
    assert_eq!(w.candidate().as_str(), "/tmp/x/data.txt");
    assert_eq!(w.observe_exists(false), PollStep::Sleep);
    assert_eq!(w.observe_exists(true), PollStep::Finish);
    assert_eq!(exit_code_for(&RunOutcome::Completed), 0);
}

#[test]
fn wildcard_wait_adopts_resolved_name() {
    let mut w = AppearanceWait::new("/tmp/x/log-*.txt".to_string());
    assert!(w.wants_listing());
    let empty: Vec<String> = Vec::new();
    w.observe_listing(&empty);
    assert_eq!(w.candidate().as_str(), "/tmp/x/log-*.txt");
    let listing = vec!["log-2024.txt".to_string()];
    w.observe_listing(&listing);
    assert_eq!(w.candidate().as_str(), "/tmp/x/log-2024.txt");
    let gone: Vec<String> = Vec::new();
    w.observe_listing(&gone);
    assert_eq!(w.candidate().as_str(), "/tmp/x/log-2024.txt");
}

#[test]
fn update_wait_sees_newer_mtime() {
    let t0: u64 = 1_700_000_000;
    assert_eq!(update_begin(&FileStat::File { mtime: t0 }), UpdateBegin::Track { last_mod: t0 });
    assert_eq!(update_poll(t0, &FileStat::File { mtime: t0 }), UpdatePoll::KeepWaiting);
    assert_eq!(update_poll(t0, &FileStat::File { mtime: t0 - 1 }), UpdatePoll::KeepWaiting);
    assert_eq!(update_poll(t0, &FileStat::File { mtime: t0 + 1 }), UpdatePoll::Updated);
}

#[test]
fn update_wait_fails_when_file_vanishes() {
    let t0: u64 = 1_700_000_000;
    let r = update_poll(t0, &FileStat::Missing);
    assert_eq!(r, UpdatePoll::Fail { error: WatchError::FileMissing });
    assert_eq!(
        exit_code_for(&RunOutcome::Failed { error: WatchError::FileMissing }),
        3
    );
}

#[test]
fn update_wait_on_directory_fails_immediately() {
    assert_eq!(
        update_begin(&FileStat::Directory),
        UpdateBegin::Fail { error: WatchError::IsDirectory }
    );
    assert_eq!(
        exit_code_for(&RunOutcome::Failed { error: WatchError::IsDirectory }),
        2
    );
}

#[test]
fn update_wait_falls_back_to_appearance_when_missing() {
    assert_eq!(update_begin(&FileStat::Missing), UpdateBegin::AwaitAppearance);
}

#[test]
fn becoming_a_directory_mid_wait_fails() {
    let t0: u64 = 42;
    assert_eq!(
        update_poll(t0, &FileStat::Directory),
        UpdatePoll::Fail { error: WatchError::IsDirectory }
    );
}

#[test]
fn lock_attempt_maps_to_cannot_lock() {
    assert_eq!(lock_attempt_outcome(true), Ok(()));
    assert_eq!(lock_attempt_outcome(false), Err(WatchError::CannotLock));
    assert_eq!(
        exit_code_for(&RunOutcome::Failed { error: WatchError::CannotLock }),
        1
    );
}

#[test]
fn exit_codes_are_distinct() {
    let codes = [
        exit_code_for(&RunOutcome::Completed),
        exit_code_for(&RunOutcome::Failed { error: WatchError::CannotLock }),
        exit_code_for(&RunOutcome::Failed { error: WatchError::IsDirectory }),
        exit_code_for(&RunOutcome::Failed { error: WatchError::FileMissing }),
    ];
    assert_eq!(codes, [0, 1, 2, 3]);
}

#[test]
fn lock_released_only_after_completed_run() {
    assert!(should_release_lock(&RunOutcome::Completed));
    assert!(!should_release_lock(&RunOutcome::Failed { error: WatchError::CannotLock }));
    assert!(!should_release_lock(&RunOutcome::Failed { error: WatchError::IsDirectory }));
    assert!(!should_release_lock(&RunOutcome::Failed { error: WatchError::FileMissing }));
}

#[test]
fn poll_interval_is_ten_seconds() {
    assert_eq!(poll_interval_secs(), 10);
}
