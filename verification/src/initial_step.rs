//! The choices of the initial step-size estimator.
//!
//! The estimator looks at the size of the initial state (`d0`), of its
//! derivative (`d1`) and of the state one explicit Euler step further, divided
//! by that step (`d2`). The caller measures these; the choices between the
//! formulas, and the greater and the lesser of two candidates, are made here.

use vstd::prelude::*;
use crate::scalar::Scalar;

verus! {

/// The pattern of `1e-5`: a norm below it counts as too small to divide by.
pub const THRESHOLD_BITS: u64 = 0x3EE4_F8B5_88E3_68F1;

/// The pattern of `1e-6`: the step size to fall back to.
pub const FALLBACK_BITS: u64 = 0x3EB0_C6F7_A0B5_ED8D;

/// The pattern of `1e-15`: a scale at or below it counts as no scale at all.
pub const NEGLIGIBLE_BITS: u64 = 0x3CD2_03AF_9EE7_5616;

/// How the first trial step `h0` is found.
#[derive(Clone, Copy, Debug, PartialEq, Eq, Structural)]
pub enum Guess {
    /// `h0` is `1e-6`.
    Fallback,
    /// `h0` is `0.01 * d0 / d1`.
    Proportional,
}

/// How the second candidate `h1` is found.
#[derive(Clone, Copy, Debug, PartialEq, Eq, Structural)]
pub enum Refinement {
    /// `h1` is the greater of `1e-6` and `h0 * 1e-3`.
    Floor,
    /// `h1` is the fifth root of `0.01 / d_max`.
    FifthRoot,
}

/// The first trial step falls back to `1e-6` as soon as one of the two norms
/// is below `1e-5`.
pub open spec fn spec_first_guess(d0: Scalar, d1: Scalar) -> Guess {
    if d0.spec_lt(Scalar { bits: THRESHOLD_BITS }) || d1.spec_lt(Scalar { bits: THRESHOLD_BITS }) {
        Guess::Fallback
    } else {
        Guess::Proportional
    }
}

/// The second candidate rests on the floor when the scale is at most `1e-15`.
pub open spec fn spec_refinement(d_max: Scalar) -> Refinement {
    if d_max.spec_le(Scalar { bits: NEGLIGIBLE_BITS }) {
        Refinement::Floor
    } else {
        Refinement::FifthRoot
    }
}

/// The step size that the estimator falls back to: `1e-6`.
pub fn fallback() -> (h: Scalar)
    ensures
        h == (Scalar { bits: FALLBACK_BITS }),
{
    Scalar::from_bits(FALLBACK_BITS)
}

#[verifier::when_used_as_spec(spec_first_guess)]
pub fn first_guess(d0: Scalar, d1: Scalar) -> (g: Guess)
    ensures
        g == spec_first_guess(d0, d1),
{
    let threshold = Scalar::from_bits(THRESHOLD_BITS);
    if d0.lt(threshold) || d1.lt(threshold) {
        Guess::Fallback
    } else {
        Guess::Proportional
    }
}

/// The scale `d_max` of the problem: the greater of `d2` and `d1`.
pub fn scale(d1: Scalar, d2: Scalar) -> (d_max: Scalar)
    ensures
        d_max == d2.spec_max(d1),
{
    d2.max(d1)
}

#[verifier::when_used_as_spec(spec_refinement)]
pub fn refinement(d_max: Scalar) -> (r: Refinement)
    ensures
        r == spec_refinement(d_max),
{
    if d_max.le(Scalar::from_bits(NEGLIGIBLE_BITS)) {
        Refinement::Floor
    } else {
        Refinement::FifthRoot
    }
}

/// The second candidate on the floor: the greater of `1e-6` and `scaled`, which
/// is `h0 * 1e-3`.
pub fn floor(scaled: Scalar) -> (h1: Scalar)
    ensures
        h1 == (Scalar { bits: FALLBACK_BITS }).spec_max(scaled),
{
    Scalar::from_bits(FALLBACK_BITS).max(scaled)
}

/// The initial step size: the lesser of the second candidate `h1` and `cap`,
/// which is `100 * h0`.
pub fn settle(h1: Scalar, cap: Scalar) -> (h: Scalar)
    ensures
        h == h1.spec_min(cap),
{
    h1.min(cap)
}

/// On the floor the second candidate is at least `1e-6`, whatever the scaled
/// first guess is, a NaN included.
pub proof fn lemma_floor_positive(scaled: Scalar)
    ensures
        (Scalar { bits: FALLBACK_BITS }).spec_le((Scalar { bits: FALLBACK_BITS }).spec_max(scaled)),
        (Scalar { bits: 0 }).spec_lt((Scalar { bits: FALLBACK_BITS }).spec_max(scaled)),
{
}

/// Two candidates above zero settle on a step size above zero.
pub proof fn lemma_settle_positive(h1: Scalar, cap: Scalar)
    requires
        (Scalar { bits: 0 }).spec_lt(h1),
        (Scalar { bits: 0 }).spec_lt(cap),
    ensures
        (Scalar { bits: 0 }).spec_lt(h1.spec_min(cap)),
        h1.spec_min(cap).spec_le(h1),
        h1.spec_min(cap).spec_le(cap),
{
}

/// With norms that are both below the threshold, and a scale of nothing, the
/// estimator settles on the fallback itself as long as the cap is above it.
pub proof fn lemma_degenerate_start(d0: Scalar, d1: Scalar, d2: Scalar, scaled: Scalar, cap: Scalar)
    requires
        d0.spec_lt(Scalar { bits: THRESHOLD_BITS }),
        d1.spec_lt(Scalar { bits: THRESHOLD_BITS }),
        d2.spec_max(d1).spec_le(Scalar { bits: NEGLIGIBLE_BITS }),
        scaled.spec_lt(Scalar { bits: FALLBACK_BITS }),
        (Scalar { bits: FALLBACK_BITS }).spec_lt(cap),
    ensures
        spec_first_guess(d0, d1) == Guess::Fallback,
        spec_refinement(d2.spec_max(d1)) == Refinement::Floor,
        (Scalar { bits: FALLBACK_BITS }).spec_max(scaled).spec_min(cap) == (Scalar {
            bits: FALLBACK_BITS,
        }),
{
}

} // verus!
