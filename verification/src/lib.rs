//! Persisted configuration and flavor-relative directory resolution for a
//! desktop add-on manager.
//!
//! The crate has two halves: a directory resolver that turns an installation
//! root and a flavor into the add-on, download-staging and settings ("WTF")
//! directories, tolerating case drift on disk, and a versioned configuration
//! record that holds user preferences and delegates durability to the
//! surrounding application.

use vstd::prelude::*;

pub mod column;
pub mod config;
pub mod flavor;
pub mod paths;
mod probe;

verus! {

/// Field default for the boolean preferences that are on unless the
/// stored data says otherwise, such as row striping.
pub fn default_true() -> (r: bool)
    ensures
        r,
{
    true
}

} // verus!
