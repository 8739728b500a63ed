//! The stages a run passes through, in their one fixed order.

use vstd::prelude::*;

verus! {

/// Where a run stands. A run moves through the stages in the order in which
/// they are listed and visits each at most once; a fatal fault takes it
/// straight to `Terminated`.
#[derive(Clone, Copy, Debug, PartialEq, Eq, Structural)]
pub enum Stage {
    /// Nothing has happened yet.
    Idle,
    /// The expected bodies are being fetched directly.
    Baseline,
    /// The proxy's answers are being checked under modest concurrency.
    Correctness,
    /// The load streams are being started.
    Load,
    /// The load streams run; the run waits to be cancelled.
    AwaitingCancellation,
    /// The run was cancelled and the summary is being drawn up.
    Reporting,
    /// The run is over.
    Terminated,
}

impl Stage {
    /// The position of the stage in the fixed order, from 0.
    pub open spec fn rank(self) -> nat {
        match self {
            Stage::Idle => 0,
            Stage::Baseline => 1,
            Stage::Correctness => 2,
            Stage::Load => 3,
            Stage::AwaitingCancellation => 4,
            Stage::Reporting => 5,
            Stage::Terminated => 6,
        }
    }

    /// The stage's name as it appears in messages.
    pub open spec fn label(self) -> Seq<char> {
        match self {
            Stage::Idle => "idle"@,
            Stage::Baseline => "baseline"@,
            Stage::Correctness => "correctness"@,
            Stage::Load => "load"@,
            Stage::AwaitingCancellation => "awaiting cancellation"@,
            Stage::Reporting => "reporting"@,
            Stage::Terminated => "terminated"@,
        }
    }

    /// The stage's name as it appears in messages.
    pub fn name(&self) -> (text: &'static str)
        ensures
            text@ == self.label(),
    {
        match self {
            Stage::Idle => "idle",
            Stage::Baseline => "baseline",
            Stage::Correctness => "correctness",
            Stage::Load => "load",
            Stage::AwaitingCancellation => "awaiting cancellation",
            Stage::Reporting => "reporting",
            Stage::Terminated => "terminated",
        }
    }
}

} // verus!
