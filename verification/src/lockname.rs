//! Lock-file naming and the advisory-lock protocol.
//!
//! Each watched target gets one lock file, whose name is a sanitized copy
//! of the target path and which lives in a fixed directory under the
//! user's home. Holding an exclusive lock on that file is what keeps two
//! watchers off the same target; the lock itself is taken by the caller
//! through the operating system, while this module fixes the name and
//! states the protocol's guarantees over a model of the held locks.

use vstd::prelude::*;

use crate::text::is_alnum_char;

verus! {

/// How a single character of the target path appears in the lock-file
/// name: ASCII letters and digits are kept, everything else becomes `_`.
pub open spec fn sanitize_char(c: char) -> char {
    if is_alnum_char(c) {
        c
    } else {
        '_'
    }
}

/// The sanitized form of a whole path: every character outside
/// `[A-Za-z0-9]` replaced by `_`, length unchanged.
pub open spec fn sanitize_spec(s: Seq<char>) -> Seq<char> {
    Seq::new(s.len(), |i: int| sanitize_char(s[i]))
}

/// A character that may appear in a sanitized name: an ASCII letter,
/// a digit, or `_`.
pub open spec fn is_sanitized_char(c: char) -> bool {
    is_alnum_char(c) || c == '_'
}

/// Sanitization keeps the length and produces only characters in
/// `[A-Za-z0-9_]`.
pub proof fn lemma_sanitize_chars(s: Seq<char>)
    ensures
        sanitize_spec(s).len() == s.len(),
        forall|i: int| 0 <= i < s.len() ==> is_sanitized_char(#[trigger] sanitize_spec(s)[i]),
{
}

/// Builds the lock-file name for a target path.
pub fn sanitize(input: &str) -> (out: String)
    ensures
        out@ == sanitize_spec(input@),
{
    let n = input.unicode_len();
    let mut out = String::new();
    let mut i: usize = 0;
    while i < n
        invariant
            i <= n,
            n == input@.len(),
            out@ =~= Seq::new(i as nat, |k: int| sanitize_char(input@[k])),
        decreases n - i,
    {
        let c = input.get_char(i);
        if crate::text::char_is_alnum(c) {
            let piece = input.substring_char(i, i + 1);
            out.append(piece);
        } else {
            proof {
                reveal_strlit("_");
            }
            out.append("_");
        }
        proof {
            assert(out@ =~= Seq::new((i + 1) as nat, |k: int| sanitize_char(input@[k])));
        }
        i += 1;
    }
    proof {
        assert(out@ =~= sanitize_spec(input@));
    }
    out
}

/// The directory that holds every lock file: `<home>/filewatcher/`.
pub open spec fn lock_dir_spec(home: Seq<char>) -> Seq<char> {
    home + "/filewatcher/"@
}

/// The lock-file path for a target: the lock directory followed by the
/// sanitized target.
pub open spec fn lock_path_spec(home: Seq<char>, target: Seq<char>) -> Seq<char> {
    lock_dir_spec(home) + sanitize_spec(target)
}

/// Builds the lock directory path for a home directory.
pub fn lock_dir(home: &str) -> (r: String)
    ensures
        r@ == lock_dir_spec(home@),
{
    let s = String::from_str(home);
    s.concat("/filewatcher/")
}

/// Builds the full lock-file path for a target. The same target always
/// yields the same path, so two watchers of one target contend on one
/// file.
pub fn lock_path(home: &str, target: &str) -> (r: String)
    ensures
        r@ == lock_path_spec(home@, target@),
{
    let dir = lock_dir(home);
    let name = sanitize(target);
    dir.concat(name.as_str())
}

/// The set of lock-file paths currently locked, as the operating system
/// sees them: the model over which the locking protocol is stated.
/// A non-blocking exclusive lock attempt succeeds exactly when the path
/// is not already held.
pub open spec fn acquire_succeeds(held: Set<Seq<char>>, path: Seq<char>) -> bool {
    !held.contains(path)
}

/// The held set after a non-blocking exclusive lock attempt: the path is
/// added when the attempt succeeds, and nothing changes when it fails.
pub open spec fn after_acquire(held: Set<Seq<char>>, path: Seq<char>) -> Set<Seq<char>> {
    if acquire_succeeds(held, path) {
        held.insert(path)
    } else {
        held
    }
}

/// The held set after the lock file is released (deleted).
pub open spec fn after_release(held: Set<Seq<char>>, path: Seq<char>) -> Set<Seq<char>> {
    held.remove(path)
}

/// Mutual exclusion: two lock attempts on the same target never both
/// succeed, and when the target's lock file is free beforehand, exactly
/// one of them does — whichever runs first takes the lock and the other
/// fails. Both attempts map the target through the same deterministic
/// path, so the order of the two attempts does not matter.
pub proof fn lemma_lock_mutual_exclusion(held: Set<Seq<char>>, home: Seq<char>, target: Seq<char>)
    ensures
        ({
            let p = lock_path_spec(home, target);
            let first_ok = acquire_succeeds(held, p);
            let second_ok = acquire_succeeds(after_acquire(held, p), p);
            &&& !(first_ok && second_ok)
            &&& !held.contains(p) ==> first_ok && !second_ok
        }),
{
}

/// A failed lock attempt leaves the held locks untouched: the holder
/// keeps the lock file exactly as it was.
pub proof fn lemma_failed_acquire_leaves_lock(held: Set<Seq<char>>, path: Seq<char>)
    ensures
        !acquire_succeeds(held, path) ==> after_acquire(held, path) == held,
{
}

/// After a successful run the lock file for the target is gone: a run
/// that takes the target's lock and, having completed its wait, releases
/// it leaves the path unheld, so a fresh watcher of the same target
/// succeeds again.
pub proof fn lemma_completed_run_frees_target(
    held: Set<Seq<char>>,
    home: Seq<char>,
    target: Seq<char>,
)
    ensures
        ({
            let p = lock_path_spec(home, target);
            let after_run = after_release(after_acquire(held, p), p);
            &&& !after_run.contains(p)
            &&& acquire_succeeds(after_run, p)
        }),
{
}

} // verus!
