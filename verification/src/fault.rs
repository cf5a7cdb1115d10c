//! Why a unit of work did not go through.

use vstd::prelude::*;

verus! {

/// What can go wrong in a request to the catalog or to the provider.
#[derive(Debug, Clone, Copy, PartialEq, Eq, Structural)]
pub enum Fault {
    /// The request did not go through, or was answered with an error.
    Transport,
    /// The answer did not have the expected shape.
    Decode,
}

/// Why a series was left as it is. None of these ends the run: the series is
/// eligible again in a later one.
#[derive(Debug, Clone, Copy, PartialEq, Eq, Structural)]
pub enum SyncError {
    /// A request did not go through.
    Transport,
    /// An answer did not have the expected shape.
    Decode,
    /// The provider knows no record for the series.
    NotFound,
    /// The series had been linked by someone else when the link was to be written.
    RaceLost,
}

impl SyncError {
    /// The error that a failed request stands for.
    pub open spec fn of_fault(fault: Fault) -> SyncError {
        match fault {
            Fault::Transport => SyncError::Transport,
            Fault::Decode => SyncError::Decode,
        }
    }

    /// The error that a failed request stands for.
    pub fn from_fault(fault: Fault) -> (error: SyncError)
        ensures
            error == SyncError::of_fault(fault),
    {
        match fault {
            Fault::Transport => SyncError::Transport,
            Fault::Decode => SyncError::Decode,
        }
    }
}

} // verus!
