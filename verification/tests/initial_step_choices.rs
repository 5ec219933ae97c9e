use ode_solver::initial_step::{fallback, first_guess, floor, refinement, scale, settle};
use ode_solver::initial_step::{Guess, Refinement};
use ode_solver::scalar::Scalar;

fn scalar(x: f64) -> Scalar {
    Scalar::from_bits(x.to_bits())
}

fn number(s: Scalar) -> f64 {
    f64::from_bits(s.to_bits())
}

#[test]
fn the_fallback_is_a_millionth() {
    assert_eq!(number(fallback()), 1e-6);
}

#[test]
fn a_small_norm_falls_back() {
    assert_eq!(first_guess(scalar(0.0), scalar(0.0)), Guess::Fallback);
    assert_eq!(first_guess(scalar(9.9e-6), scalar(1.0)), Guess::Fallback);
    assert_eq!(first_guess(scalar(1.0), scalar(9.9e-6)), Guess::Fallback);
    assert_eq!(first_guess(scalar(f64::NAN), scalar(0.0)), Guess::Fallback);
}

#[test]
fn norms_at_the_threshold_are_divided() {
    assert_eq!(first_guess(scalar(1e-5), scalar(1e-5)), Guess::Proportional);
    assert_eq!(first_guess(scalar(1.0), scalar(2.0)), Guess::Proportional);
    assert_eq!(first_guess(scalar(f64::INFINITY), scalar(1.0)), Guess::Proportional);
}

#[test]
fn nan_norms_are_divided() {
    assert_eq!(first_guess(scalar(f64::NAN), scalar(1.0)), Guess::Proportional);
    assert_eq!(first_guess(scalar(1.0), scalar(f64::NAN)), Guess::Proportional);
}

#[test]
fn the_scale_is_the_greater_norm() {
    assert_eq!(number(scale(scalar(1.0), scalar(99.0))), 99.0);
    assert_eq!(number(scale(scalar(99.0), scalar(1.0))), 99.0);
    assert_eq!(number(scale(scalar(0.0), scalar(0.0))), 0.0);
    assert_eq!(number(scale(scalar(f64::NAN), scalar(2.0))), 2.0);
    assert_eq!(number(scale(scalar(2.0), scalar(f64::NAN))), 2.0);
    assert!(number(scale(scalar(f64::NAN), scalar(f64::NAN))).is_nan());
}

#[test]
fn a_negligible_scale_rests_on_the_floor() {
    assert_eq!(refinement(scalar(0.0)), Refinement::Floor);
    assert_eq!(refinement(scalar(1e-15)), Refinement::Floor);
    assert_eq!(refinement(scalar(1e-16)), Refinement::Floor);
}

#[test]
fn any_other_scale_takes_the_root() {
    assert_eq!(refinement(scalar(1.0000000000000003e-15)), Refinement::FifthRoot);
    assert_eq!(refinement(scalar(1.0)), Refinement::FifthRoot);
    assert_eq!(refinement(scalar(f64::INFINITY)), Refinement::FifthRoot);
    assert_eq!(refinement(scalar(f64::NAN)), Refinement::FifthRoot);
}

#[test]
fn the_floor_is_at_least_the_fallback() {
    assert_eq!(number(floor(scalar(1e-9))), 1e-6);
    assert_eq!(number(floor(scalar(1e-6))), 1e-6);
    assert_eq!(number(floor(scalar(3e-5))), 3e-5);
    assert_eq!(number(floor(scalar(-1.0))), 1e-6);
    assert_eq!(number(floor(scalar(f64::NAN))), 1e-6);
}

#[test]
fn the_step_settles_on_the_lesser_candidate() {
    assert_eq!(number(settle(scalar(1e-6), scalar(1e-4))), 1e-6);
    assert_eq!(number(settle(scalar(0.16), scalar(1.0))), 0.16);
    assert_eq!(number(settle(scalar(0.5), scalar(0.25))), 0.25);
    assert_eq!(number(settle(scalar(f64::NAN), scalar(0.25))), 0.25);
    assert_eq!(number(settle(scalar(0.5), scalar(f64::NAN))), 0.5);
}
