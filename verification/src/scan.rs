//! Name filters for the scan that looks for configuration files.
//!
//! The host walks the directory tree. For each entry it asks here, by the
//! entry's name alone, whether the walk leaves the entry out (and with it all
//! that lies below) and whether the entry is one to report.

use vstd::prelude::*;
use crate::text::{matches_ignoring_ascii_case, same_ignoring_ascii_case, same_text};

verus! {

/// Whether an entry of this name is a configuration file to report.
pub open spec fn config_name(name: Seq<char>) -> bool {
    name == ".env"@ || name == "config.local.yaml"@
}

/// Whether an entry of this name is left out of the scan.
pub open spec fn pruned_name(name: Seq<char>) -> bool {
    same_ignoring_ascii_case(name, "node_modules"@)
}

/// Tells whether an entry's name is one of the configuration files looked
/// for: `.env` or `config.local.yaml`, letter for letter.
pub fn is_config_entry_name(name: &str) -> (found: bool)
    ensures
        found == config_name(name@),
{
    same_text(name, ".env") || same_text(name, "config.local.yaml")
}

/// Tells whether the scan leaves out an entry of this name: `node_modules`,
/// in any mix of capitals and small letters.
pub fn is_pruned_entry_name(name: &str) -> (skip: bool)
    ensures
        skip == pruned_name(name@),
{
    matches_ignoring_ascii_case(name, "node_modules")
}

} // verus!
