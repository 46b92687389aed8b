//! Per-user vault file lifecycle: naming, existence resolution with the
//! legacy fallback, and destructive deletion with the legacy cleanup.
//!
//! The library never touches the disk. It names the files of a user inside
//! the storage root, decides which file to probe or remove next, and turns the
//! observed outcomes into the final answer. The host performs each probe and
//! each removal and reports back what happened.

pub mod text;
pub mod naming;
pub mod locate;
pub mod destroy;
pub mod scan;
