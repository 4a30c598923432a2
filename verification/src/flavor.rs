//! Game flavors and the installation root they share.
//!
//! A flavor is one of the closed set of game variants that live side by side
//! under a single installation root, each in its own canonically named
//! folder. The resolver builds every path from a root and a flavor's folder
//! name, so the folder name is pinned down exactly here.

use vstd::prelude::*;

verus! {

/// A distinct supported game installation variant.
#[derive(Debug, Clone, Copy, PartialEq, Eq, Structural, Hash)]
pub enum Flavor {
    Retail,
    RetailPtr,
    RetailBeta,
    Classic,
}

/// The canonical root-relative folder name of a flavor.
pub open spec fn spec_folder_name(f: Flavor) -> Seq<char> {
    match f {
        Flavor::Retail => "_retail_"@,
        Flavor::RetailPtr => "_ptr_"@,
        Flavor::RetailBeta => "_beta_"@,
        Flavor::Classic => "_classic_"@,
    }
}

impl Flavor {
    /// The folder under the installation root that holds this flavor.
    pub fn folder_name(&self) -> (r: &'static str)
        ensures
            r@ == spec_folder_name(*self),
    {
        match self {
            Flavor::Retail => "_retail_",
            Flavor::RetailPtr => "_ptr_",
            Flavor::RetailBeta => "_beta_",
            Flavor::Classic => "_classic_",
        }
    }

    /// Every flavor, in a fixed order.
    pub fn all() -> (r: Vec<Flavor>)
        ensures
            r@ == seq![Flavor::Retail, Flavor::RetailPtr, Flavor::RetailBeta, Flavor::Classic],
    {
        let mut v: Vec<Flavor> = Vec::new();
        v.push(Flavor::Retail);
        v.push(Flavor::RetailPtr);
        v.push(Flavor::RetailBeta);
        v.push(Flavor::Classic);
        proof {
            assert(v@ =~= seq![
                Flavor::Retail,
                Flavor::RetailPtr,
                Flavor::RetailBeta,
                Flavor::Classic,
            ]);
        }
        v
    }
}

/// The part of the configuration that describes the game installation:
/// the root directory shared by all flavors, or nothing while the user has
/// not picked one yet.
#[derive(Debug, Clone, PartialEq)]
pub struct Wow {
    /// Absolute path of the installation root; `None` until the user sets it.
    pub directory: Option<String>,
}

impl Default for Wow {
    /// A fresh installation description: no root chosen yet.
    fn default() -> (r: Self)
        ensures
            r.directory is None,
    {
        Wow { directory: None }
    }
}

} // verus!
