//! Existence resolution: does a vault exist for this user?
//!
//! The host probes one file at a time. After each probe it reports whether
//! the file was there, and is told either which file to probe next or the
//! final answer. A probe that could not be carried out counts as "not there".

use vstd::prelude::*;
use crate::naming::{
    is_legacy_user, legacy_snapshot_name, legacy_vault_name, owned_names, primary_name,
    resolution_of, slot_name, Resolution, Slot,
};

verus! {

/// What the host is asked to do next while resolving existence.
#[derive(Clone, Copy, Debug, PartialEq, Eq, Structural)]
pub enum Lookup {
    /// Probe this file and report whether it is present.
    Probe(Slot),
    /// The resolution is over; this is its result.
    Answer(bool),
}

/// The slot that comes after `slot` under a resolution, if any: a keyed user
/// owns the primary file only, a legacy user the primary file, then the
/// legacy vault, then the legacy snapshot.
pub open spec fn follows(res: Resolution, slot: Slot) -> Option<Slot> {
    match (res, slot) {
        (Resolution::Legacy, Slot::Primary) => Some(Slot::LegacyVault),
        (Resolution::Legacy, Slot::LegacyVault) => Some(Slot::LegacySnapshot),
        _ => None,
    }
}

/// How many slots can still follow `slot`.
pub open spec fn slots_after(slot: Slot) -> nat {
    match slot {
        Slot::Primary => 2,
        Slot::LegacyVault => 1,
        Slot::LegacySnapshot => 0,
    }
}

/// Whether a vault exists for `user` in a storage root that holds exactly the
/// files named in `files`.
pub open spec fn vault_present(files: Set<Seq<char>>, user: Seq<char>) -> bool {
    files.contains(primary_name(user)) || (is_legacy_user(user) && (files.contains(
        legacy_vault_name(),
    ) || files.contains(legacy_snapshot_name())))
}

/// The step that follows a probe of `slot` that found the file `present`.
pub open spec fn lookup_next(res: Resolution, slot: Slot, present: bool) -> Lookup {
    if present {
        Lookup::Answer(true)
    } else {
        match follows(res, slot) {
            Some(next) => Lookup::Probe(next),
            None => Lookup::Answer(false),
        }
    }
}

/// The answer that a host reaches from step `at` when every probe reports
/// what `files` holds.
pub open spec fn lookup_run(user: Seq<char>, files: Set<Seq<char>>, at: Lookup) -> bool
    decreases
        (match at {
            Lookup::Probe(slot) => slots_after(slot) + 1,
            Lookup::Answer(_) => 0,
        }),
{
    match at {
        Lookup::Probe(slot) => lookup_run(
            user,
            files,
            lookup_next(resolution_of(user), slot, files.contains(slot_name(slot, user))),
        ),
        Lookup::Answer(found) => found,
    }
}

/// The slot to visit after `slot`, if the resolution has one.
pub fn next_slot(res: Resolution, slot: Slot) -> (next: Option<Slot>)
    ensures
        next == follows(res, slot),
        next matches Some(n) ==> slots_after(n) < slots_after(slot),
{
    match res {
        Resolution::Keyed => None,
        Resolution::Legacy => match slot {
            Slot::Primary => Some(Slot::LegacyVault),
            Slot::LegacyVault => Some(Slot::LegacySnapshot),
            Slot::LegacySnapshot => None,
        },
    }
}

/// The first step of every existence resolution: probe the primary file.
pub fn lookup_start() -> (first: Lookup)
    ensures
        first == Lookup::Probe(Slot::Primary),
{
    Lookup::Probe(Slot::Primary)
}

/// Decides what follows a probe of `slot`.
///
/// A file that is present settles the question at once. Otherwise the next
/// file of the resolution is probed, and the answer is "no" once none is left.
pub fn lookup_step(res: Resolution, slot: Slot, present: bool) -> (next: Lookup)
    ensures
        next == lookup_next(res, slot, present),
        present ==> next == Lookup::Answer(true),
        !present && res == Resolution::Keyed ==> next == Lookup::Answer(false),
        next matches Lookup::Probe(n) ==> follows(res, slot) == Some(n),
{
    if present {
        Lookup::Answer(true)
    } else {
        match next_slot(res, slot) {
            Some(next) => Lookup::Probe(next),
            None => Lookup::Answer(false),
        }
    }
}

/// A resolution that starts at the primary file and sees the files of
/// `files` answers exactly whether a vault is present for the user.
pub proof fn lookup_finds_vault(user: Seq<char>, files: Set<Seq<char>>)
    ensures
        lookup_run(user, files, Lookup::Probe(Slot::Primary)) == vault_present(files, user),
{
    reveal_with_fuel(lookup_run, 5);
}

/// For a user id that is neither empty nor `legacy`, a vault exists exactly
/// when `vault_<user>.hold` does, whatever else the storage root holds.
pub proof fn keyed_lookup_sees_primary_only(user: Seq<char>, files: Set<Seq<char>>)
    requires
        !is_legacy_user(user),
    ensures
        lookup_run(user, files, Lookup::Probe(Slot::Primary)) == files.contains(
            primary_name(user),
        ),
        vault_present(files, user) == files.contains(primary_name(user)),
{
    reveal_with_fuel(lookup_run, 5);
}

/// For the empty user id and for `legacy`, a vault exists exactly when
/// `vault_<user>.hold`, `vault.hold` or `snapshot.hold` does.
pub proof fn legacy_lookup_falls_back(user: Seq<char>, files: Set<Seq<char>>)
    requires
        is_legacy_user(user),
    ensures
        lookup_run(user, files, Lookup::Probe(Slot::Primary)) == (files.contains(
            primary_name(user),
        ) || files.contains(legacy_vault_name()) || files.contains(legacy_snapshot_name())),
{
    reveal_with_fuel(lookup_run, 5);
}

/// Every file that a resolution visits belongs to the user: the primary
/// file does, and so does whatever follows a file that does. For a user id
/// that is neither empty nor `legacy` nothing follows the primary file.
pub proof fn visits_stay_with_owned_files(user: Seq<char>, slot: Slot)
    ensures
        owned_names(user).contains(slot_name(Slot::Primary, user)),
        follows(resolution_of(user), slot) matches Some(next) ==> owned_names(user).contains(
            slot_name(next, user),
        ),
        !is_legacy_user(user) ==> follows(resolution_of(user), slot) is None,
{
}

} // verus!
