//! The wait engine's decisions.
//!
//! The caller polls the filesystem and hands the observations in —
//! a directory listing, whether a path exists, a stat result — and the
//! functions here decide what happens next: keep sleeping, finish, or
//! fail with a typed error. Each error maps to its own stable exit code.

use vstd::prelude::*;

use crate::pattern::resolve_spec;

verus! {

/// What one stat of the target showed: nothing there, a directory, or a
/// regular file with its modification time in whole seconds since the
/// epoch.
#[derive(PartialEq, Eq, Structural, Clone, Copy, Debug)]
pub enum FileStat {
    Missing,
    Directory,
    File { mtime: u64 },
}

/// Why a run failed: the per-target lock was already held, the target
/// turned out to be a directory, or the target vanished while its
/// modification time was being watched.
#[derive(PartialEq, Eq, Structural, Clone, Copy, Debug)]
pub enum WatchError {
    CannotLock,
    IsDirectory,
    FileMissing,
}

/// How a whole run ended: the wait completed, or it failed with a typed
/// error.
#[derive(PartialEq, Eq, Structural, Clone, Copy, Debug)]
pub enum RunOutcome {
    Completed,
    Failed { error: WatchError },
}

/// What a single appearance-mode poll decided: the target is there, or
/// sleep and poll again.
#[derive(PartialEq, Eq, Structural, Clone, Copy, Debug)]
pub enum PollStep {
    Finish,
    Sleep,
}

/// What a single update-mode poll decided: the file's modification time
/// advanced, nothing changed yet, or the wait must fail.
#[derive(PartialEq, Eq, Structural, Clone, Copy, Debug)]
pub enum UpdatePoll {
    Updated,
    KeepWaiting,
    Fail { error: WatchError },
}

/// How an update-mode wait starts: track the file from a baseline
/// modification time, fall back to waiting for appearance, or fail
/// because the target is a directory.
#[derive(PartialEq, Eq, Structural, Clone, Copy, Debug)]
pub enum UpdateBegin {
    Track { last_mod: u64 },
    AwaitAppearance,
    Fail { error: WatchError },
}

impl WatchError {
    /// The process exit code for this error. The codes are stable and
    /// distinct: 1 for a held lock, 2 for a directory target, 3 for a
    /// vanished target; 0 is reserved for success.
    pub fn exit_code(&self) -> (c: i32)
        ensures
            c == self.exit_code_spec(),
    {
        match self {
            WatchError::CannotLock => 1,
            WatchError::IsDirectory => 2,
            WatchError::FileMissing => 3,
        }
    }

    /// The exit-code table for errors.
    pub open spec fn exit_code_spec(&self) -> i32 {
        match self {
            WatchError::CannotLock => 1,
            WatchError::IsDirectory => 2,
            WatchError::FileMissing => 3,
        }
    }
}

/// The process exit code for a whole run: 0 on success, the error's own
/// code otherwise.
pub fn exit_code_for(outcome: &RunOutcome) -> (c: i32)
    ensures
        c == exit_code_for_spec(outcome),
        c == 0 <==> *outcome is Completed,
{
    match outcome {
        RunOutcome::Completed => 0,
        RunOutcome::Failed { error } => error.exit_code(),
    }
}

/// The exit-code table for whole runs.
pub open spec fn exit_code_for_spec(outcome: &RunOutcome) -> i32 {
    match outcome {
        RunOutcome::Completed => 0,
        RunOutcome::Failed { error } => error.exit_code_spec(),
    }
}

/// Turns the caller's lock attempt into the run's first decision: a held
/// or failed lock is `CannotLock`, nothing else ever is.
pub fn lock_attempt_outcome(acquired: bool) -> (r: Result<(), WatchError>)
    ensures
        r is Ok <==> acquired,
        !acquired ==> r == Err::<(), WatchError>(WatchError::CannotLock),
{
    if acquired {
        Ok(())
    } else {
        Err(WatchError::CannotLock)
    }
}

/// Whether the lock file is deleted when the run ends. Only a completed
/// wait releases it: after `CannotLock` the file still belongs to the
/// holder, and an update-mode failure deliberately leaves the lock in
/// place.
pub fn should_release_lock(outcome: &RunOutcome) -> (b: bool)
    ensures
        b <==> *outcome is Completed,
{
    match outcome {
        RunOutcome::Completed => true,
        RunOutcome::Failed { .. } => false,
    }
}

/// One appearance-mode wait in progress: the pattern as given, and the
/// concrete path whose existence is checked — the pattern itself until a
/// wildcard resolution replaces it.
pub struct AppearanceWait {
    pattern: String,
    candidate: String,
}

impl AppearanceWait {
    /// The pattern this wait was started with.
    pub closed spec fn pattern_view(&self) -> Seq<char> {
        self.pattern@
    }

    /// The path whose existence the caller should check next.
    pub closed spec fn candidate_view(&self) -> Seq<char> {
        self.candidate@
    }

    /// Starts a wait: the first existence check is on the pattern
    /// itself.
    pub fn new(pattern: String) -> (s: Self)
        ensures
            s.pattern_view() == pattern@,
            s.candidate_view() == pattern@,
    {
        let candidate = pattern.clone();
        AppearanceWait { pattern, candidate }
    }

    /// Whether the caller must read the target directory's listing this
    /// iteration: only patterns holding a `*` are ever resolved.
    pub fn wants_listing(&self) -> (b: bool)
        ensures
            b == crate::text::has_char(self.pattern_view(), '*'),
    {
        crate::text::str_has_char(self.pattern.as_str(), '*')
    }

    /// Feeds one directory listing in. When the pattern resolves against
    /// it, the resolved path becomes the candidate; otherwise the
    /// candidate is kept, so an earlier resolution survives a later
    /// failed one.
    pub fn observe_listing(&mut self, entries: &Vec<String>)
        ensures
            final(self).pattern_view() == old(self).pattern_view(),
            match resolve_spec(old(self).pattern_view(), entries.deep_view()) {
                Some(p) => final(self).candidate_view() == p,
                None => final(self).candidate_view() == old(self).candidate_view(),
            },
    {
        match crate::pattern::resolve_pattern(self.pattern.as_str(), entries) {
            Some(resolved) => {
                self.candidate = resolved;
            },
            None => {},
        }
    }

    /// The pattern this wait was started with, for the caller to derive
    /// the directory to list.
    pub fn pattern(&self) -> (p: &String)
        ensures
            p@ == self.pattern_view(),
    {
        &self.pattern
    }

    /// The path to check for existence this iteration.
    pub fn candidate(&self) -> (p: &String)
        ensures
            p@ == self.candidate_view(),
    {
        &self.candidate
    }

    /// Decides from one existence check: present means the wait is over,
    /// absent means sleep one interval and poll again.
    pub fn observe_exists(&self, exists: bool) -> (d: PollStep)
        ensures
            d is Finish <==> exists,
    {
        if exists {
            PollStep::Finish
        } else {
            PollStep::Sleep
        }
    }
}

/// Starts an update-mode wait from the first stat of the target: a file
/// fixes the baseline modification time, a missing target demotes the
/// wait to appearance mode, and a directory fails with `IsDirectory`.
pub fn update_begin(stat: &FileStat) -> (r: UpdateBegin)
    ensures
        r == update_begin_spec(stat),
{
    match stat {
        FileStat::Missing => UpdateBegin::AwaitAppearance,
        FileStat::Directory => UpdateBegin::Fail { error: WatchError::IsDirectory },
        FileStat::File { mtime } => UpdateBegin::Track { last_mod: *mtime },
    }
}

/// The decision table for the first update-mode stat.
pub open spec fn update_begin_spec(stat: &FileStat) -> UpdateBegin {
    match stat {
        FileStat::Missing => UpdateBegin::AwaitAppearance,
        FileStat::Directory => UpdateBegin::Fail { error: WatchError::IsDirectory },
        FileStat::File { mtime } => UpdateBegin::Track { last_mod: *mtime },
    }
}

/// Decides one update-mode poll against the baseline: a strictly newer
/// modification time completes the wait, an unchanged or older one keeps
/// waiting, a vanished target fails with `FileMissing`, and a target
/// that became a directory fails with `IsDirectory`.
pub fn update_poll(last_mod: u64, stat: &FileStat) -> (r: UpdatePoll)
    ensures
        r == update_poll_spec(last_mod, stat),
        r is Updated <==> (stat matches FileStat::File { mtime } && mtime > last_mod),
{
    match stat {
        FileStat::Missing => UpdatePoll::Fail { error: WatchError::FileMissing },
        FileStat::Directory => UpdatePoll::Fail { error: WatchError::IsDirectory },
        FileStat::File { mtime } => {
            if *mtime > last_mod {
                UpdatePoll::Updated
            } else {
                UpdatePoll::KeepWaiting
            }
        },
    }
}

/// The decision table for one update-mode poll.
pub open spec fn update_poll_spec(last_mod: u64, stat: &FileStat) -> UpdatePoll {
    match stat {
        FileStat::Missing => UpdatePoll::Fail { error: WatchError::FileMissing },
        FileStat::Directory => UpdatePoll::Fail { error: WatchError::IsDirectory },
        FileStat::File { mtime } => {
            if mtime > last_mod {
                UpdatePoll::Updated
            } else {
                UpdatePoll::KeepWaiting
            }
        },
    }
}

/// The poll interval in seconds: how long the caller sleeps between
/// checks.
pub fn poll_interval_secs() -> (s: u64)
    ensures
        s == 10,
{
    10
}

} // verus!
