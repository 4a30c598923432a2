//! The versioned column-layout schema.
//!
//! Three successive generations of the column layout live side by side as
//! variants of one tagged union, so that data written by any older release
//! still loads. No variant is ever migrated to another by this crate; a
//! caller inspecting the active variant owns any upgrade path.

use vstd::prelude::*;

verus! {

/// One column of the V2/V3 layout: a unique key, an optional width
/// override, and whether the column is hidden.
#[derive(Debug, Clone, PartialEq)]
pub struct ColumnConfigV2 {
    pub key: String,
    pub width: Option<u16>,
    pub hidden: bool,
}

/// The column layout, one variant per schema generation.
#[derive(Debug, Clone, PartialEq)]
pub enum ColumnConfig {
    /// Fixed column set with three named widths.
    V1 {
        local_version_width: u16,
        remote_version_width: u16,
        status_width: u16,
    },
    /// One ordered sequence of per-column descriptors.
    V2 { columns: Vec<ColumnConfigV2> },
    /// Three independent ordered sequences, one per UI surface.
    V3 {
        my_addons_columns: Vec<ColumnConfigV2>,
        catalog_columns: Vec<ColumnConfigV2>,
        aura_columns: Vec<ColumnConfigV2>,
    },
}

/// The documented default layout: the oldest generation with its fixed
/// widths.
pub open spec fn spec_default_column_config() -> ColumnConfig {
    ColumnConfig::V1 { local_version_width: 150, remote_version_width: 150, status_width: 85 }
}

impl Default for ColumnConfig {
    fn default() -> (r: Self)
        ensures
            r == spec_default_column_config(),
    {
        ColumnConfig::V1 { local_version_width: 150, remote_version_width: 150, status_width: 85 }
    }
}

impl ColumnConfig {
    /// Builds a V3 layout from stored parts. The account-feature sequence
    /// was introduced after V3 first shipped, so older stored data omits
    /// it; an absent sequence takes the documented default, empty.
    pub fn v3_from_parts(
        my_addons_columns: Vec<ColumnConfigV2>,
        catalog_columns: Vec<ColumnConfigV2>,
        aura_columns: Option<Vec<ColumnConfigV2>>,
    ) -> (r: ColumnConfig)
        ensures
            r matches ColumnConfig::V3 { my_addons_columns: m, catalog_columns: c, aura_columns: a }
                && m == my_addons_columns && c == catalog_columns && a@ == (match aura_columns {
                Some(v) => v@,
                None => Seq::<ColumnConfigV2>::empty(),
            }),
    {
        let aura = match aura_columns {
            Some(v) => v,
            None => Vec::new(),
        };
        ColumnConfig::V3 { my_addons_columns, catalog_columns, aura_columns: aura }
    }
}

} // verus!
