//! The step-size controller: whether a trial step is taken, and how the step
//! size changes for the next trial.

use vstd::prelude::*;
use crate::scalar::Scalar;

verus! {

/// How many trials one step may use before the run is given up.
pub const MAX_ATTEMPTS: usize = 1000;

/// The pattern of `1.0`.
pub const ONE_BITS: u64 = 0x3FF0_0000_0000_0000;

/// The pattern of `2.0`.
pub const TWO_BITS: u64 = 0x4000_0000_0000_0000;

/// What becomes of the step size after a trial.
#[derive(Clone, Copy, Debug, PartialEq, Eq, Structural)]
pub enum Rescale {
    /// Divide the step size by two.
    Halve,
    /// Multiply the step size by two.
    Double,
    /// Multiply the step size by the scale factor itself.
    Scale,
}

/// The rule for the next step size, from the error magnitude of a trial and its
/// damped scale factor (nine tenths of the scale factor).
///
/// An error of exactly zero doubles the step whatever the factor came out as,
/// since the factor is then a quotient by zero. Otherwise a damped factor below
/// one halves the step, one of at least two doubles it, and any other (a NaN
/// too) scales the step by the factor.
pub open spec fn spec_rescale(error: Scalar, damped: Scalar) -> Rescale {
    if error.spec_is_zero() {
        Rescale::Double
    } else if damped.spec_lt(Scalar { bits: ONE_BITS }) {
        Rescale::Halve
    } else if (Scalar { bits: TWO_BITS }).spec_le(damped) {
        Rescale::Double
    } else {
        Rescale::Scale
    }
}

/// A trial is taken exactly when its error magnitude is at most the tolerance.
/// A NaN error is never taken.
pub open spec fn spec_accepts(error: Scalar, tolerance: Scalar) -> bool {
    error.spec_le(tolerance)
}

#[verifier::when_used_as_spec(spec_rescale)]
pub fn rescale(error: Scalar, damped: Scalar) -> (rule: Rescale)
    ensures
        rule == spec_rescale(error, damped),
{
    if error.is_zero() {
        Rescale::Double
    } else if damped.lt(Scalar::from_bits(ONE_BITS)) {
        Rescale::Halve
    } else if damped.ge(Scalar::from_bits(TWO_BITS)) {
        Rescale::Double
    } else {
        Rescale::Scale
    }
}

#[verifier::when_used_as_spec(spec_accepts)]
pub fn accepts(error: Scalar, tolerance: Scalar) -> (taken: bool)
    ensures
        taken == spec_accepts(error, tolerance),
{
    error.le(tolerance)
}

/// A trial whose error is a NaN is refused, whatever the tolerance.
pub proof fn lemma_nan_error_refused(error: Scalar, tolerance: Scalar)
    requires
        error.spec_is_nan(),
    ensures
        !spec_accepts(error, tolerance),
{
}

/// A trial without error is taken under every tolerance that is above zero, and
/// doubles the step.
pub proof fn lemma_zero_error_taken(error: Scalar, tolerance: Scalar, damped: Scalar)
    requires
        error.spec_is_zero(),
        (Scalar { bits: 0 }).spec_lt(tolerance),
    ensures
        spec_accepts(error, tolerance),
        spec_rescale(error, damped) == Rescale::Double,
{
}

} // verus!
