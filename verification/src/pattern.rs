//! Single-wildcard pattern resolution.
//!
//! A watch target may carry one `*` in its final path segment, as in
//! `/dir/prefix*suffix`. Resolution splits the pattern at its last `/`
//! into a directory and a filename pattern, splits the filename pattern
//! at its first `*` into a prefix and a suffix, and scans a directory
//! listing for the first entry that begins with the prefix and ends with
//! the suffix. The caller supplies the listing; nothing here touches the
//! filesystem.

use vstd::prelude::*;

use crate::text::first_index_of;
use crate::text::last_index_of;

verus! {

/// Whether the pattern splits at all: it has a `/`, and the part after
/// the last `/` has a `*`.
pub open spec fn pattern_splits(p: Seq<char>) -> bool {
    &&& last_index_of(p, '/') >= 0
    &&& first_index_of(pattern_fname(p), '*') >= 0
}

/// The part after the last `/`: the filename pattern.
pub open spec fn pattern_fname(p: Seq<char>) -> Seq<char> {
    p.subrange(last_index_of(p, '/') + 1, p.len() as int)
}

/// The part up to and including the last `/`: the directory the listing
/// is read from.
pub open spec fn pattern_dir(p: Seq<char>) -> Seq<char> {
    p.subrange(0, last_index_of(p, '/') + 1)
}

/// The filename pattern up to the first `*`.
pub open spec fn pattern_prefix(p: Seq<char>) -> Seq<char> {
    pattern_fname(p).subrange(0, first_index_of(pattern_fname(p), '*'))
}

/// The filename pattern after the first `*`.
pub open spec fn pattern_suffix(p: Seq<char>) -> Seq<char> {
    pattern_fname(p).subrange(
        first_index_of(pattern_fname(p), '*') + 1,
        pattern_fname(p).len() as int,
    )
}

/// Whether a directory entry matches a prefix/suffix pair: it is long
/// enough that the two do not overlap, starts with the prefix and ends
/// with the suffix.
pub open spec fn name_matches(name: Seq<char>, prefix: Seq<char>, suffix: Seq<char>) -> bool {
    &&& name.len() >= prefix.len() + suffix.len()
    &&& name.subrange(0, prefix.len() as int) == prefix
    &&& name.subrange(name.len() - suffix.len(), name.len() as int) == suffix
}

/// The position of the first matching entry in the listing, or `-1` if
/// none matches.
pub open spec fn first_match_index(
    entries: Seq<Seq<char>>,
    prefix: Seq<char>,
    suffix: Seq<char>,
) -> int
    decreases entries.len(),
{
    if entries.len() == 0 {
        -1
    } else if name_matches(entries[0], prefix, suffix) {
        0
    } else {
        let r = first_match_index(entries.drop_first(), prefix, suffix);
        if r < 0 {
            -1
        } else {
            r + 1
        }
    }
}

/// `first_match_index` points at the first matching entry, and is `-1`
/// exactly when no entry matches.
pub proof fn lemma_first_match_index(entries: Seq<Seq<char>>, prefix: Seq<char>, suffix: Seq<char>)
    ensures
        first_match_index(entries, prefix, suffix) >= 0 <==> exists|i: int|
            0 <= i < entries.len() && name_matches(#[trigger] entries[i], prefix, suffix),
        first_match_index(entries, prefix, suffix) >= 0 ==> {
            let r = first_match_index(entries, prefix, suffix);
            &&& r < entries.len()
            &&& name_matches(entries[r], prefix, suffix)
            &&& forall|j: int| 0 <= j < r ==> !name_matches(#[trigger] entries[j], prefix, suffix)
        },
    decreases entries.len(),
{
    if entries.len() > 0 && !name_matches(entries[0], prefix, suffix) {
        lemma_first_match_index(entries.drop_first(), prefix, suffix);
        let t = entries.drop_first();
        assert(forall|i: int| 0 <= i < t.len() ==> #[trigger] t[i] == entries[i + 1]);
        if exists|i: int| 0 <= i < entries.len() && name_matches(#[trigger] entries[i], prefix, suffix) {
            let w = choose|i: int|
                0 <= i < entries.len() && name_matches(#[trigger] entries[i], prefix, suffix);
            assert(t[w - 1] == entries[w]);
        }
        let rt = first_match_index(t, prefix, suffix);
        if rt >= 0 {
            assert forall|j: int| 0 <= j < rt + 1 implies !name_matches(
                #[trigger] entries[j],
                prefix,
                suffix,
            ) by {
                if j > 0 {
                    assert(entries[j] == t[j - 1]);
                }
            }
        }
    }
}

/// What resolution returns for a pattern and a directory listing: the
/// directory part concatenated with the first matching entry, or nothing
/// when the pattern does not split or no entry matches.
pub open spec fn resolve_spec(p: Seq<char>, entries: Seq<Seq<char>>) -> Option<Seq<char>> {
    if !pattern_splits(p) {
        None
    } else {
        let j = first_match_index(entries, pattern_prefix(p), pattern_suffix(p));
        if j < 0 {
            None
        } else {
            Some(pattern_dir(p) + entries[j])
        }
    }
}

/// The directory whose listing resolution needs: the pattern up to and
/// including its last `/`. Returns nothing when the pattern does not
/// split, in which case no listing is ever read for it.
pub fn listing_dir(pattern: &str) -> (r: Option<String>)
    ensures
        match r {
            Some(d) => pattern_splits(pattern@) && d@ == pattern_dir(pattern@),
            None => !pattern_splits(pattern@),
        },
{
    proof {
        crate::text::lemma_last_index_of(pattern@, '/');
    }
    let n = pattern.unicode_len();
    let si = match crate::text::find_last(pattern, '/') {
        Some(i) => i,
        None => {
            return None;
        },
    };
    let fname = pattern.substring_char(si + 1, n);
    proof {
        assert(fname@ == pattern_fname(pattern@));
        crate::text::lemma_first_index_of(fname@, '*');
    }
    match crate::text::find_first(fname, '*') {
        Some(_) => {
            let dir = pattern.substring_char(0, si + 1);
            Some(String::from_str(dir))
        },
        None => None,
    }
}

/// Runtime check for [`name_matches`].
pub fn name_match(name: &str, prefix: &str, suffix: &str) -> (b: bool)
    ensures
        b == name_matches(name@, prefix@, suffix@),
{
    let nl = name.unicode_len();
    let pl = prefix.unicode_len();
    let sl = suffix.unicode_len();
    if nl < pl || nl - pl < sl {
        return false;
    }
    let mut i: usize = 0;
    while i < pl
        invariant
            i <= pl,
            nl == name@.len(),
            pl == prefix@.len(),
            sl == suffix@.len(),
            nl >= pl + sl,
            forall|j: int| 0 <= j < i ==> name@[j] == prefix@[j],
        decreases pl - i,
    {
        if name.get_char(i) != prefix.get_char(i) {
            proof {
                assert(name@.subrange(0, pl as int)[i as int] != prefix@[i as int]);
            }
            return false;
        }
        i += 1;
    }
    let mut k: usize = 0;
    while k < sl
        invariant
            k <= sl,
            nl == name@.len(),
            pl == prefix@.len(),
            sl == suffix@.len(),
            nl >= pl + sl,
            forall|j: int| 0 <= j < k ==> name@[nl - sl + j] == suffix@[j],
        decreases sl - k,
    {
        if name.get_char(nl - sl + k) != suffix.get_char(k) {
            proof {
                assert(name@.subrange(nl - sl, nl as int)[k as int] != suffix@[k as int]);
            }
            return false;
        }
        k += 1;
    }
    proof {
        assert(name@.subrange(0, pl as int) =~= prefix@);
        assert(name@.subrange(nl - sl, nl as int) =~= suffix@);
    }
    true
}

/// Resolves a wildcard pattern against a directory listing: the first
/// entry that matches the pattern's prefix and suffix, returned as the
/// pattern's directory part followed by the entry's name. Returns
/// nothing when the pattern has no `/`, no `*` after its last `/`, or no
/// entry matches.
pub fn resolve_pattern(pattern: &str, entries: &Vec<String>) -> (r: Option<String>)
    ensures
        match r {
            Some(s) => resolve_spec(pattern@, entries.deep_view()) == Some(s@),
            None => resolve_spec(pattern@, entries.deep_view()) is None,
        },
{
    proof {
        crate::text::lemma_last_index_of(pattern@, '/');
    }
    let n = pattern.unicode_len();
    let si = match crate::text::find_last(pattern, '/') {
        Some(i) => i,
        None => {
            return None;
        },
    };
    let fname = pattern.substring_char(si + 1, n);
    proof {
        assert(fname@ == pattern_fname(pattern@));
        crate::text::lemma_first_index_of(fname@, '*');
    }
    let wi = match crate::text::find_first(fname, '*') {
        Some(i) => i,
        None => {
            return None;
        },
    };
    let fl = fname.unicode_len();
    let dir = pattern.substring_char(0, si + 1);
    let prefix = fname.substring_char(0, wi);
    let suffix = fname.substring_char(wi + 1, fl);
    proof {
        assert(dir@ == pattern_dir(pattern@));
        assert(prefix@ == pattern_prefix(pattern@));
        assert(suffix@ == pattern_suffix(pattern@));
        lemma_first_match_index(entries.deep_view(), prefix@, suffix@);
    }
    let m = entries.len();
    let mut idx: usize = 0;
    while idx < m
        invariant
            idx <= m,
            m == entries.deep_view().len(),
            entries.deep_view().len() == entries@.len(),
            forall|j: int| 0 <= j < m ==> #[trigger] entries.deep_view()[j] == entries@[j]@,
            pattern_splits(pattern@),
            prefix@ == pattern_prefix(pattern@),
            suffix@ == pattern_suffix(pattern@),
            dir@ == pattern_dir(pattern@),
            forall|j: int|
                0 <= j < idx ==> !name_matches(
                    #[trigger] entries.deep_view()[j],
                    prefix@,
                    suffix@,
                ),
            first_match_index(entries.deep_view(), prefix@, suffix@) >= 0 <==> exists|i: int|
                0 <= i < entries.deep_view().len() && name_matches(
                    #[trigger] entries.deep_view()[i],
                    prefix@,
                    suffix@,
                ),
            first_match_index(entries.deep_view(), prefix@, suffix@) >= 0 ==> {
                let r = first_match_index(entries.deep_view(), prefix@, suffix@);
                &&& r < entries.deep_view().len()
                &&& name_matches(entries.deep_view()[r], prefix@, suffix@)
                &&& forall|j: int|
                    0 <= j < r ==> !name_matches(#[trigger] entries.deep_view()[j], prefix@, suffix@)
            },
        decreases m - idx,
    {
        let name = &entries[idx];
        if name_match(name.as_str(), prefix, suffix) {
            let resolved = String::from_str(dir).concat(name.as_str());
            proof {
                let ev = entries.deep_view();
                let r = first_match_index(ev, prefix@, suffix@);
                assert(name_matches(ev[idx as int], prefix@, suffix@));
                assert(r >= 0);
                assert(r == idx as int);
            }
            return Some(resolved);
        }
        idx += 1;
    }
    None
}

} // verus!
