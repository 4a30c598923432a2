//! Filesystem probes for the resolver.
//!
//! These are the only two places where the resolver touches the live
//! filesystem. Both results depend on what is on disk at the moment of the
//! call, so the existence probe promises nothing about its result, and the
//! walk promises only the shape that every match of its pattern must have;
//! which path the resolver then picks stays in the verified decision
//! logic, which takes the probe results as arguments and holds for every
//! possible outcome.

use vstd::prelude::*;

use crate::paths::has_plain_char;
use crate::paths::suffix_matches_nocase;
use crate::paths::wildcard_tail;

verus! {

/// Relies on std::path::Path::exists: queries the filesystem for whether
/// `path` points at an existing entity.
#[verifier::external_body]
pub(crate) fn path_exists(path: &str) -> bool {
    std::path::Path::new(path).exists()
}

/// Relies on glob::glob_with with case-insensitive matching: walks the
/// filesystem and yields, in order, the paths matching `directory/tail`.
/// An invalid pattern and entries the walk could not read are collapsed
/// into "no match", which is the resolver's documented error policy.
///
/// The contract states what glob's walk guarantees of every yielded path
/// on a `/`-separated filesystem. Each path is built by joining matched
/// components one per pattern component: a metacharacter-free component
/// is appended verbatim, one with a wildcard is matched against real
/// directory entry names character by character — `?` consumes one
/// non-separator character and a literal character matches up to ASCII
/// case, since the matcher is forced to treat separators literally. So
/// for a clean wildcard tail each result ends with a separator followed
/// by characters matching the tail, as long as the directory part names
/// at least one real component and the walk cannot sit at the bare
/// current directory.
#[verifier::external_body]
pub(crate) fn glob_matches_nocase(directory: &str, tail: &str) -> (r: Vec<String>)
    ensures
        wildcard_tail(tail@) && has_plain_char(directory@) ==> forall|i: int|
            0 <= i < r@.len() ==> suffix_matches_nocase(tail@, #[trigger] r@[i]@),
{
    let options = glob::MatchOptions {
        case_sensitive: false,
        ..Default::default()
    };
    let pattern = format!("{}/{}", directory, tail);
    match glob::glob_with(&pattern, options) {
        Ok(paths) => paths
            .filter_map(|entry| entry.ok())
            .map(|path| path.to_string_lossy().into_owned())
            .collect(),
        Err(_) => Vec::new(),
    }
}

} // verus!
