//! Destructive deletion of a user's vault files.
//!
//! The host probes and removes one file at a time and reports each outcome.
//! A file is removed only after a probe found it, so removing a vault that is
//! not there does nothing. The first removal that fails ends the operation:
//! its message is handed on unchanged, files already removed stay removed, and
//! the files that come later are left alone.

use vstd::prelude::*;
use crate::locate::{follows, next_slot, slots_after, vault_present};
use crate::naming::{
    names_differ, owned_names, resolution_of, slot_name, Resolution, Slot,
};

verus! {

/// A removal that the host could not carry out.
#[derive(Clone, Debug, PartialEq, Eq)]
pub struct DeleteError {
    /// The file whose removal failed.
    pub slot: Slot,
    /// The host's message for the failure, as the host gave it.
    pub message: String,
}

/// What the host is asked to do next while destroying a vault.
#[derive(Clone, Debug, PartialEq, Eq)]
pub enum Purge {
    /// Probe this file and report whether it is present.
    Probe(Slot),
    /// Remove this file and report how that went.
    Remove(Slot),
    /// Every file of the user is gone.
    Done,
    /// A removal failed; nothing more is to be done.
    Failed(DeleteError),
}

/// The step that follows once `slot` is dealt with.
pub open spec fn purge_onward(res: Resolution, slot: Slot) -> Purge {
    match follows(res, slot) {
        Some(next) => Purge::Probe(next),
        None => Purge::Done,
    }
}

/// The step that follows a probe of `slot` that found the file `present`.
pub open spec fn purge_after_probe(res: Resolution, slot: Slot, present: bool) -> Purge {
    if present {
        Purge::Remove(slot)
    } else {
        purge_onward(res, slot)
    }
}

/// The step that follows an attempt to remove `slot`.
pub open spec fn purge_after_remove(
    res: Resolution,
    slot: Slot,
    outcome: Result<(), String>,
) -> Purge {
    match outcome {
        Ok(_) => purge_onward(res, slot),
        Err(message) => Purge::Failed(DeleteError { slot, message }),
    }
}

/// A bound on the steps that can still follow `at`.
pub open spec fn purge_steps_left(at: Purge) -> nat {
    match at {
        Purge::Probe(slot) => 2 * slots_after(slot) + 2,
        Purge::Remove(slot) => 2 * slots_after(slot) + 1,
        Purge::Done => 0,
        Purge::Failed(_) => 0,
    }
}

/// Where a host ends up from step `at` in a storage root that holds exactly
/// the files named in `files`, when removing a file named in `stuck` fails
/// with the message given there and every other removal succeeds: the files
/// that are left, and the error if there was one.
pub open spec fn purge_run(
    user: Seq<char>,
    files: Set<Seq<char>>,
    stuck: Map<Seq<char>, String>,
    at: Purge,
) -> (Set<Seq<char>>, Option<DeleteError>)
    decreases purge_steps_left(at),
{
    let res = resolution_of(user);
    match at {
        Purge::Probe(slot) => purge_run(
            user,
            files,
            stuck,
            purge_after_probe(res, slot, files.contains(slot_name(slot, user))),
        ),
        Purge::Remove(slot) => {
            let name = slot_name(slot, user);
            if stuck.dom().contains(name) {
                purge_run(user, files, stuck, purge_after_remove(res, slot, Err(stuck[name])))
            } else {
                purge_run(user, files.remove(name), stuck, purge_after_remove(res, slot, Ok(())))
            }
        },
        Purge::Done => (files, None),
        Purge::Failed(error) => (files, Some(error)),
    }
}

/// A whole destruction for `user`, from the first probe on.
pub open spec fn destroy_run(
    user: Seq<char>,
    files: Set<Seq<char>>,
    stuck: Map<Seq<char>, String>,
) -> (Set<Seq<char>>, Option<DeleteError>) {
    purge_run(user, files, stuck, Purge::Probe(Slot::Primary))
}

impl DeleteError {
    /// The message to show for this failure: the host's own, unchanged.
    pub fn message(&self) -> (text: String)
        ensures
            text@ == self.message@,
    {
        self.message.clone()
    }

    /// The file whose removal failed.
    pub fn slot(&self) -> (slot: Slot)
        ensures
            slot == self.slot,
    {
        self.slot
    }
}

/// The first step of every destruction: probe the primary file.
pub fn purge_start() -> (first: Purge)
    ensures
        first == Purge::Probe(Slot::Primary),
{
    Purge::Probe(Slot::Primary)
}

/// Decides what follows a probe of `slot`.
///
/// A file that is present is removed next. One that is absent is passed over:
/// no removal is ever asked for a file that the probe did not find.
pub fn purge_probed(res: Resolution, slot: Slot, present: bool) -> (next: Purge)
    ensures
        next == purge_after_probe(res, slot, present),
        present <==> next == Purge::Remove(slot),
        !(next is Failed),
        purge_steps_left(next) < purge_steps_left(Purge::Probe(slot)),
{
    if present {
        Purge::Remove(slot)
    } else {
        onward(res, slot)
    }
}

/// Decides what follows an attempt to remove `slot`.
///
/// After a removal that went well the next file of the resolution is probed.
/// A removal that failed ends the destruction with the host's message.
pub fn purge_removed(res: Resolution, slot: Slot, outcome: Result<(), String>) -> (next: Purge)
    ensures
        next == purge_after_remove(res, slot, outcome),
        outcome is Ok <==> !(next is Failed),
        outcome matches Err(message) ==> next == Purge::Failed(DeleteError { slot, message }),
        !(next is Remove),
        purge_steps_left(next) < purge_steps_left(Purge::Remove(slot)),
{
    match outcome {
        Ok(_) => onward(res, slot),
        Err(message) => Purge::Failed(DeleteError { slot, message }),
    }
}

fn onward(res: Resolution, slot: Slot) -> (next: Purge)
    ensures
        next == purge_onward(res, slot),
{
    match next_slot(res, slot) {
        Some(following) => Purge::Probe(following),
        None => Purge::Done,
    }
}

/// The result of a destruction that has come to its end: success when every
/// file is gone, the error when a removal failed, nothing while the host
/// still has a probe or a removal to carry out.
pub fn purge_result(at: Purge) -> (result: Option<Result<(), DeleteError>>)
    ensures
        result == (match at {
            Purge::Done => Some(Ok::<(), DeleteError>(())),
            Purge::Failed(error) => Some(Err::<(), DeleteError>(error)),
            _ => None::<Result<(), DeleteError>>,
        }),
{
    match at {
        Purge::Done => Some(Ok(())),
        Purge::Failed(error) => Some(Err(error)),
        _ => None,
    }
}

/// A destruction creates no file and leaves every file alone that does not
/// belong to the user; when it succeeds, exactly the user's files are gone.
pub proof fn destroy_spares_other_files(
    user: Seq<char>,
    files: Set<Seq<char>>,
    stuck: Map<Seq<char>, String>,
)
    ensures
        destroy_run(user, files, stuck).0.subset_of(files),
        files.difference(owned_names(user)).subset_of(destroy_run(user, files, stuck).0),
        destroy_run(user, files, stuck).1 is None ==> destroy_run(user, files, stuck).0
            =~= files.difference(owned_names(user)),
{
    reveal_with_fuel(purge_run, 8);
}

/// A destruction fails exactly when one of the user's files is present and
/// its removal fails. The error then names such a file and carries the
/// message of that removal, and the file is still there.
pub proof fn destroy_fails_only_on_stuck_file(
    user: Seq<char>,
    files: Set<Seq<char>>,
    stuck: Map<Seq<char>, String>,
)
    ensures
        destroy_run(user, files, stuck).1 is None <==> files.intersect(owned_names(user)).disjoint(
            stuck.dom(),
        ),
        destroy_run(user, files, stuck).1 matches Some(error) ==> {
            let name = slot_name(error.slot, user);
            &&& owned_names(user).contains(name)
            &&& files.contains(name)
            &&& stuck.dom().contains(name)
            &&& error.message == stuck[name]
            &&& destroy_run(user, files, stuck).0.contains(name)
        },
{
    reveal_with_fuel(purge_run, 8);
    names_differ(user);
}

/// Destroying a vault of which no file is present changes nothing and
/// succeeds, whether or not a removal would have failed.
pub proof fn destroy_of_absent_vault_is_noop(
    user: Seq<char>,
    files: Set<Seq<char>>,
    stuck: Map<Seq<char>, String>,
)
    requires
        files.disjoint(owned_names(user)),
    ensures
        destroy_run(user, files, stuck) == (files, None::<DeleteError>),
{
    reveal_with_fuel(purge_run, 8);
}

/// After a destruction that succeeded, a second one for the same user
/// succeeds too and changes nothing, whatever removals would fail by then.
pub proof fn destroy_twice_succeeds(
    user: Seq<char>,
    files: Set<Seq<char>>,
    stuck: Map<Seq<char>, String>,
    stuck_later: Map<Seq<char>, String>,
)
    requires
        destroy_run(user, files, stuck).1 is None,
    ensures
        destroy_run(user, destroy_run(user, files, stuck).0, stuck_later) == (
            destroy_run(user, files, stuck).0,
            None::<DeleteError>,
        ),
{
    destroy_spares_other_files(user, files, stuck);
    destroy_of_absent_vault_is_noop(user, destroy_run(user, files, stuck).0, stuck_later);
}

/// After a destruction that succeeded, no vault exists for the user.
pub proof fn no_vault_after_destroy(
    user: Seq<char>,
    files: Set<Seq<char>>,
    stuck: Map<Seq<char>, String>,
)
    requires
        destroy_run(user, files, stuck).1 is None,
    ensures
        !vault_present(destroy_run(user, files, stuck).0, user),
{
    destroy_spares_other_files(user, files, stuck);
}

/// A file that is not there is never removed: whether its removal would have
/// failed makes no difference to how a destruction ends.
pub proof fn absent_file_cannot_fail(
    user: Seq<char>,
    files: Set<Seq<char>>,
    stuck: Map<Seq<char>, String>,
    name: Seq<char>,
)
    requires
        !files.contains(name),
    ensures
        destroy_run(user, files, stuck) == destroy_run(user, files, stuck.remove(name)),
{
    reveal_with_fuel(purge_run, 8);
    names_differ(user);
}

} // verus!
