//! The ways in which a run can fail.

use vstd::prelude::*;

verus! {

/// Why a run was given up. None of these is retried.
#[derive(Debug, Clone, Copy, PartialEq, Eq)]
pub enum SyncError {
    /// A request could not be carried out: no connection, no answer.
    Transport,
    /// The body of an answer to a listing request was no repository listing.
    Malformed,
    /// A host answered with a status that the request does not provide for.
    UnexpectedStatus(u16),
    /// The run was told of something that it was not waiting for.
    OutOfTurn,
}

} // verus!
