//! The outcome of a run.
use vstd::prelude::*;

verus! {

/// The outcome of a finished run.
#[derive(Debug, Clone, Copy, PartialEq, Eq, Structural)]
pub enum RunStatus {
    Success,
    Failure,
}

impl Default for RunStatus {
    /// `Failure` is the natural sentinel outcome.
    fn default() -> (r: RunStatus)
        ensures
            r == RunStatus::Failure,
    {
        RunStatus::Failure
    }
}

impl RunStatus {
    /// The other outcome.
    pub open spec fn flipped(self) -> RunStatus {
        match self {
            RunStatus::Success => RunStatus::Failure,
            RunStatus::Failure => RunStatus::Success,
        }
    }

    /// Swaps `Success` and `Failure`.
    pub fn invert(self) -> (r: RunStatus)
        ensures
            r == self.flipped(),
            r != self,
    {
        match self {
            RunStatus::Success => RunStatus::Failure,
            RunStatus::Failure => RunStatus::Success,
        }
    }
}

} // verus!
