//! Merging two independently-encrypted credential databases into one.
//!
//! The library derives a composite decryption key per database from
//! configured factors, drives the open / merge / decide / persist sequence,
//! applies the safety policy (warnings, dry-run, force) before anything is
//! overwritten, and renders the merge report. The container format itself
//! is decrypted, merged and encrypted by the `keepass` crate; the library
//! works on plain byte images and never touches a file.

pub mod decision;
pub mod gateway;
pub mod keys;
pub mod orchestrator;
pub mod report;
pub mod resolver;

use vstd::prelude::*;

verus! {

/// Which of the two databases a key, a prompt or an error belongs to.
#[derive(Clone, Copy, PartialEq, Eq, Structural, Debug)]
pub enum DatabaseRole {
    Destination,
    Source,
}

} // verus!
