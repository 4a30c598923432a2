//! Path strings and the pure part of directory resolution.
//!
//! Paths are plain `String`s with `/` as the separator. The resolver's
//! decision logic is fully deterministic once the filesystem has been
//! probed, so it lives here as verified functions over the probe results:
//! which path is picked given the canonical guess, whether the canonical
//! path exists, and which case-insensitive matches the walk produced.

use vstd::prelude::*;
use vstd::string::StrSliceExecFns;
use vstd::string::StringExecFns;

verus! {

/// True when `s` contains a path separator.
pub open spec fn has_slash(s: Seq<char>) -> bool {
    exists|i: int| 0 <= i < s.len() && s[i] == '/'
}

/// A character with no special meaning in a search pattern or a path: not
/// a separator, not a pattern metacharacter, not a dot (which could form a
/// `.` or `..` path component).
pub open spec fn plain_path_char(c: char) -> bool {
    c != '/' && c != '?' && c != '*' && c != '[' && c != ']' && c != '.'
}

/// True when `s` contains at least one plain character, so that a walk
/// rooted at `s` names at least one real path component.
pub open spec fn has_plain_char(s: Seq<char>) -> bool {
    exists|i: int| 0 <= i < s.len() && plain_path_char(s[i])
}

/// A well-formed fallback-search tail: non-empty separator-split
/// components made only of single-character wildcards and plain
/// characters — no other metacharacters, no empty components, no leading
/// or trailing separator.
pub open spec fn wildcard_tail(t: Seq<char>) -> bool {
    &&& t.len() > 0
    &&& t[0] != '/'
    &&& t[t.len() - 1] != '/'
    &&& forall|i: int| 0 <= i < t.len() ==> (#[trigger] t[i]) == '?' || t[i] == '/'
        || plain_path_char(t[i])
    &&& forall|i: int| 0 < i < t.len() ==> !(t[i - 1] == '/' && (#[trigger] t[i]) == '/')
}

/// Character equality up to ASCII letter case: exactly what a
/// case-insensitive matcher accepts for a literal pattern character.
pub open spec fn char_eq_nocase(a: char, b: char) -> bool {
    ||| a == b
    ||| (65 <= a as int <= 90 && b as int == a as int + 32)
    ||| (65 <= b as int <= 90 && a as int == b as int + 32)
}

/// Position `i` of `tail`, laid over the end of `p`: a `?` matches any
/// non-separator character, anything else matches up to ASCII case.
pub open spec fn suffix_char_ok(tail: Seq<char>, p: Seq<char>, i: int) -> bool {
    if tail[i] == '?' {
        p[p.len() - tail.len() + i] != '/'
    } else {
        char_eq_nocase(tail[i], p[p.len() - tail.len() + i])
    }
}

/// `p` ends in a separator followed by characters that match `tail`
/// position by position; see `suffix_char_ok`.
pub open spec fn suffix_matches_nocase(tail: Seq<char>, p: Seq<char>) -> bool {
    &&& p.len() > tail.len()
    &&& p[p.len() - tail.len() - 1] == '/'
    &&& forall|i: int| 0 <= i < tail.len() ==> suffix_char_ok(tail, p, i)
}

/// Index of the last separator in `s`, or -1 when there is none.
pub open spec fn last_slash_index(s: Seq<char>) -> int
    decreases s.len(),
{
    if s.len() == 0 {
        -1
    } else if s[s.len() - 1] == '/' {
        s.len() - 1
    } else {
        last_slash_index(s.drop_last())
    }
}

/// The parent of a path: everything before the last separator, or nothing
/// when the path has no separator at all.
pub open spec fn spec_parent(s: Seq<char>) -> Option<Seq<char>> {
    if has_slash(s) {
        Some(s.take(last_slash_index(s)))
    } else {
        None
    }
}

/// `last_slash_index` names the last separator: it is a separator position,
/// nothing after it is one, and it is -1 exactly on separator-free strings.
pub proof fn lemma_last_slash_index(s: Seq<char>)
    ensures
        !has_slash(s) <==> last_slash_index(s) == -1,
        has_slash(s) ==> 0 <= last_slash_index(s) < s.len(),
        has_slash(s) ==> s[last_slash_index(s)] == '/',
        forall|k: int| last_slash_index(s) < k < s.len() ==> s[k] != '/',
    decreases s.len(),
{
    if s.len() == 0 {
    } else if s[s.len() - 1] == '/' {
        assert(has_slash(s));
    } else {
        lemma_last_slash_index(s.drop_last());
        assert forall|k: int| last_slash_index(s) < k < s.len() implies s[k] != '/' by {
            if k < s.len() - 1 {
                assert(s.drop_last()[k] == s[k]);
            }
        }
        if has_slash(s) {
            let i = choose|i: int| 0 <= i < s.len() && s[i] == '/';
            assert(s.drop_last()[i] == s[i]);
            assert(has_slash(s.drop_last()));
        }
        if has_slash(s.drop_last()) {
            let i = choose|i: int| 0 <= i < s.drop_last().len() && s.drop_last()[i] == '/';
            assert(s[i] == '/');
            assert(has_slash(s));
        }
    }
}

/// Joins one more segment onto a base path with a single separator.
pub fn join_segment(base: &str, segment: &str) -> (r: String)
    ensures
        r@ == base@ + "/"@ + segment@,
{
    let mut s = base.to_owned();
    s.append("/");
    s.append(segment);
    s
}

/// The parent directory of `path`, or `None` when `path` has no separator.
pub fn parent_path(path: &str) -> (r: Option<String>)
    ensures
        match r {
            Some(q) => spec_parent(path@) == Some(q@),
            None => spec_parent(path@) is None,
        },
{
    let n = path.unicode_len();
    let mut i: usize = n;
    while i > 0
        invariant
            i <= n,
            n == path@.len(),
            forall|k: int| i <= k < path@.len() ==> path@[k] != '/',
        decreases i,
    {
        let c = path.get_char(i - 1);
        if c == '/' {
            let prefix = path.substring_char(0, i - 1);
            proof {
                lemma_last_slash_index(path@);
                assert(has_slash(path@));
                assert(last_slash_index(path@) == i - 1);
                assert(prefix@ =~= path@.take(i - 1));
            }
            return Some(prefix.to_owned());
        }
        i = i - 1;
    }
    proof {
        lemma_last_slash_index(path@);
        if has_slash(path@) {
            let j = last_slash_index(path@);
            assert(path@[j] == '/');
        }
    }
    None
}

/// The views of a sequence of strings.
pub open spec fn views_of(v: Seq<String>) -> Seq<Seq<char>> {
    v.map_values(|s: String| s@)
}

/// The resolver's selection policy: the canonical path whenever it exists
/// on disk; otherwise the last case-insensitive match the walk produced;
/// otherwise the canonical path unchanged, as a best-effort guess.
pub open spec fn resolved_pick(
    canonical: Seq<char>,
    canonical_exists: bool,
    candidates: Seq<Seq<char>>,
) -> Seq<char> {
    if canonical_exists {
        canonical
    } else if candidates.len() > 0 {
        candidates.last()
    } else {
        canonical
    }
}

/// Law: when the canonical path exists on disk, resolution picks exactly
/// it, whatever the fallback walk would have produced.
pub proof fn lemma_canonical_short_circuit(canonical: Seq<char>, candidates: Seq<Seq<char>>)
    ensures
        resolved_pick(canonical, true, candidates) == canonical,
{
}

/// Law: when the canonical path is absent on disk, resolution returns the
/// last match of the fallback walk, as long as the walk found anything.
pub proof fn lemma_fallback_picks_last_match(canonical: Seq<char>, candidates: Seq<Seq<char>>)
    requires
        candidates.len() > 0,
    ensures
        resolved_pick(canonical, false, candidates) == candidates.last(),
{
}

/// Law: when the canonical path is absent and the fallback walk found
/// nothing, resolution returns the canonical path unchanged, as a
/// best-effort guess whose existence the caller must check.
pub proof fn lemma_no_match_keeps_canonical(canonical: Seq<char>)
    ensures
        resolved_pick(canonical, false, Seq::<Seq<char>>::empty()) == canonical,
{
}

/// Picks the resolved path from the probe results; see `resolved_pick`.
pub fn pick_resolved(canonical: String, canonical_exists: bool, candidates: &Vec<String>) -> (r:
    String)
    ensures
        r@ == resolved_pick(canonical@, canonical_exists, views_of(candidates@)),
{
    if canonical_exists {
        canonical
    } else if candidates.len() > 0 {
        let last = candidates[candidates.len() - 1].clone();
        proof {
            assert(views_of(candidates@).last() == candidates@.last()@);
        }
        last
    } else {
        canonical
    }
}

} // verus!
