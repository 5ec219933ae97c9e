//! The failures that an integration can report.

use vstd::prelude::*;

verus! {

/// Why an integration did not give a trajectory.
#[derive(Clone, Copy, Debug, PartialEq, Eq, Structural)]
pub enum OdeError {
    /// The interval's start is not below its end.
    InvalidInterval,
    /// The initial state has no component.
    EmptyState,
    /// The tolerance is not above zero.
    InvalidTolerance,
    /// A fixed-step run was asked for zero steps.
    InvalidStepCount,
    /// One step used up its attempts without a trial being taken.
    Stall,
}

} // verus!
