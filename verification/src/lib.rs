//! Verified merge orchestration and tree snapshot extraction for a
//! git repository, built on top of the `git2` object store.

use vstd::prelude::*;

pub mod analysis;
pub mod ids;
pub mod merge;
pub mod store;
pub mod text;
pub mod tree;

verus! {

/// Errors surfaced by the library, one variant per failure class.
#[derive(Debug, Clone, Copy, PartialEq, Eq, Structural)]
pub enum Error {
    /// A branch or its upstream could not be resolved.
    NotFound,
    /// The merge analysis disallows a normal merge.
    MergeNotPossible,
    /// Policy demands a fast-forward instead of a merge commit.
    WouldFastForward,
    /// HEAD has no commit history to merge onto.
    UnbornHead,
    /// An underlying object-store failure.
    Store,
    /// Bytes were not valid text where text was required.
    Decode,
}

} // verus!
