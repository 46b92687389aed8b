//! File names of a user's vault inside the storage root.

use vstd::prelude::*;
use vstd::string::*;
use crate::text::same_text;

verus! {

/// How the files of a user id are resolved.
#[derive(Clone, Copy, Debug, PartialEq, Eq, Structural)]
pub enum Resolution {
    /// Only `vault_<user_id>.hold` belongs to the user.
    Keyed,
    /// The two files of the single-vault era belong to the user as well.
    Legacy,
}

/// One of the files that an operation may look at.
#[derive(Clone, Copy, Debug, PartialEq, Eq, Structural)]
pub enum Slot {
    /// `vault_<user_id>.hold`
    Primary,
    /// `vault.hold`
    LegacyVault,
    /// `snapshot.hold`
    LegacySnapshot,
}

/// The name `vault_<user>.hold`.
pub open spec fn primary_name(user: Seq<char>) -> Seq<char> {
    "vault_"@ + user + ".hold"@
}

/// The name of the single-vault era's vault file.
pub open spec fn legacy_vault_name() -> Seq<char> {
    "vault.hold"@
}

/// The name of the single-vault era's snapshot file.
pub open spec fn legacy_snapshot_name() -> Seq<char> {
    "snapshot.hold"@
}

/// A user id is resolved the legacy way when it is empty or the word `legacy`.
pub open spec fn is_legacy_user(user: Seq<char>) -> bool {
    user.len() == 0 || user == "legacy"@
}

/// The resolution that a user id selects.
pub open spec fn resolution_of(user: Seq<char>) -> Resolution {
    if is_legacy_user(user) {
        Resolution::Legacy
    } else {
        Resolution::Keyed
    }
}

/// The file name that a slot stands for, for a given user.
pub open spec fn slot_name(slot: Slot, user: Seq<char>) -> Seq<char> {
    match slot {
        Slot::Primary => primary_name(user),
        Slot::LegacyVault => legacy_vault_name(),
        Slot::LegacySnapshot => legacy_snapshot_name(),
    }
}

/// The files that belong to `user`: the only ones an operation for that user
/// may look at or remove.
pub open spec fn owned_names(user: Seq<char>) -> Set<Seq<char>> {
    if is_legacy_user(user) {
        set![primary_name(user), legacy_vault_name(), legacy_snapshot_name()]
    } else {
        set![primary_name(user)]
    }
}

/// Selects the resolution for a user id.
pub fn resolution_for(user_id: &str) -> (res: Resolution)
    ensures
        res == resolution_of(user_id@),
{
    if user_id.is_empty() || same_text(user_id, "legacy") {
        Resolution::Legacy
    } else {
        Resolution::Keyed
    }
}

/// Builds `vault_<user_id>.hold`.
pub fn vault_file_name(user_id: &str) -> (name: String)
    ensures
        name@ == primary_name(user_id@),
{
    String::from_str("vault_").concat(user_id).concat(".hold")
}

/// Builds the file name of a slot for a user.
pub fn slot_file_name(slot: Slot, user_id: &str) -> (name: String)
    ensures
        name@ == slot_name(slot, user_id@),
{
    match slot {
        Slot::Primary => vault_file_name(user_id),
        Slot::LegacyVault => String::from_str("vault.hold"),
        Slot::LegacySnapshot => String::from_str("snapshot.hold"),
    }
}

/// The three file names of a user never coincide.
pub proof fn names_differ(user: Seq<char>)
    ensures
        primary_name(user) != legacy_vault_name(),
        primary_name(user) != legacy_snapshot_name(),
        legacy_vault_name() != legacy_snapshot_name(),
{
    reveal_strlit("vault_");
    reveal_strlit(".hold");
    reveal_strlit("vault.hold");
    reveal_strlit("snapshot.hold");
    assert(primary_name(user)[5] == '_');
    assert(legacy_vault_name()[5] == '.');
    assert(primary_name(user)[0] == 'v');
    assert(legacy_snapshot_name()[0] == 's');
    assert(legacy_vault_name()[0] == 'v');
}

} // verus!
