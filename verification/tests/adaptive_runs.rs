use ode_solver::controller::Rescale;
use ode_solver::error::OdeError;
use ode_solver::initial_step::{fallback, first_guess, floor, refinement, scale, settle};
use ode_solver::initial_step::{Guess, Refinement};
use ode_solver::ode45::{validate, Action, Integration};
use ode_solver::scalar::Scalar;
use ode_solver::tableau::{a, b, bhat, c, Fraction, STAGES};

fn scalar(x: f64) -> Scalar {
    Scalar::from_bits(x.to_bits())
}

fn number(s: Scalar) -> f64 {
    f64::from_bits(s.to_bits())
}

fn scalars(v: &[f64]) -> Vec<Scalar> {
    v.iter().map(|x| scalar(*x)).collect()
}

fn numbers(v: &[Scalar]) -> Vec<f64> {
    v.iter().map(|s| number(*s)).collect()
}

fn coefficient(f: Fraction) -> f64 {
    f.num as f64 / f.den as f64
}

fn norm(v: &[f64]) -> f64 {
    v.iter().fold(0.0f64, |acc, x| acc + x * x).sqrt()
}

/// `y + h * sum(weight(j) * ks[j])`, the sum taken from zero as the stages come.
fn advance(y: &[f64], h: f64, ks: &[Vec<f64>], weight: &dyn Fn(usize) -> f64) -> Vec<f64> {
    let sum = weighted_sum(y.len(), ks, weight);
    y.iter().zip(sum.iter()).map(|(yi, si)| yi + h * si).collect()
}

fn weighted_sum(dimension: usize, ks: &[Vec<f64>], weight: &dyn Fn(usize) -> f64) -> Vec<f64> {
    let mut sum = vec![0.0f64; dimension];
    for (j, kj) in ks.iter().enumerate() {
        for (s, k) in sum.iter_mut().zip(kj.iter()) {
            *s = *s + weight(j) * k;
        }
    }
    sum
}

fn stages(f: &dyn Fn(f64, &[f64]) -> Vec<f64>, t: f64, y: &[f64], h: f64) -> Vec<Vec<f64>> {
    let mut ks: Vec<Vec<f64>> = Vec::with_capacity(STAGES);
    for i in 0..STAGES {
        let ti = t + h * coefficient(c(i));
        let yi = advance(y, h, &ks, &|j| coefficient(a(i, j)));
        ks.push(f(ti, &yi));
    }
    ks
}

fn first_step(f: &dyn Fn(f64, &[f64]) -> Vec<f64>, t0: f64, y0: &[f64]) -> f64 {
    let dy = f(t0, y0);
    let d0 = norm(y0);
    let d1 = norm(&dy);
    let h0 = match first_guess(scalar(d0), scalar(d1)) {
        Guess::Fallback => number(fallback()),
        Guess::Proportional => 0.01 * (d0 / d1),
    };
    let y1: Vec<f64> = y0.iter().zip(dy.iter()).map(|(y, d)| y + h0 * d).collect();
    let d2 = norm(&y1) / h0;
    let d_max = scale(scalar(d1), scalar(d2));
    let h1 = match refinement(d_max) {
        Refinement::Floor => floor(scalar(h0 * 1e-3)),
        Refinement::FifthRoot => scalar((0.01 / number(d_max)).powf(1.0 / 5.0)),
    };
    number(settle(h1, scalar(100.0 * h0)))
}

fn rescaled(rule: Rescale, h: f64, factor: f64) -> f64 {
    match rule {
        Rescale::Halve => h / 2.0,
        Rescale::Double => h * 2.0,
        Rescale::Scale => h * factor,
    }
}

struct Outcome {
    times: Vec<f64>,
    states: Vec<Vec<f64>>,
    evaluations: usize,
}

fn integrate(
    f: &dyn Fn(f64, &[f64]) -> Vec<f64>,
    interval: [f64; 2],
    y0: &[f64],
    tol: f64,
) -> Result<Outcome, OdeError> {
    validate(scalar(interval[0]), scalar(interval[1]), y0.len(), scalar(tol))?;
    let h = first_step(f, interval[0], y0);
    let mut run = Integration::begin(
        scalar(interval[0]),
        scalar(interval[1]),
        scalars(y0),
        scalar(tol),
        scalar(h),
    )?;
    let span = interval[1] - interval[0];
    let mut factor = f64::NAN;
    let mut evaluations = 0usize;
    loop {
        match run.action() {
            Action::Estimate => {
                let (t, h) = (number(run.time()), number(run.step()));
                let y = numbers(run.state());
                let ks = stages(f, t, &y, h);
                evaluations += 1;
                let e = weighted_sum(y.len(), &ks, &|i| coefficient(b(i)) - coefficient(bhat(i)));
                let err = norm(&e);
                factor = ((0.5 * tol * h) / err / span).powf(1.0 / 5.0);
                run.estimated(scalar(err), scalar(0.9 * factor));
            }
            Action::Retry(rule) => {
                let h = rescaled(rule, number(run.step()), factor);
                run.rescaled(scalar(h));
            }
            Action::Propagate(rule) => {
                let h = rescaled(rule, number(run.step()), factor);
                let t = number(run.time());
                let y = numbers(run.state());
                let ks = stages(f, t, &y, h);
                let next = advance(&y, h, &ks, &|i| coefficient(bhat(i)));
                run.propagated(scalar(h), scalar(t + h), scalars(&next));
            }
            Action::Finish => break,
            Action::Abort => return Err(run.failure().unwrap()),
        }
    }
    let (times, states) = run.into_trajectory().into_parts();
    Ok(Outcome {
        times: numbers(&times),
        states: states.iter().map(|y| numbers(y)).collect(),
        evaluations,
    })
}

fn decay(_t: f64, y: &[f64]) -> Vec<f64> {
    vec![-y[0]]
}

fn oscillator(_t: f64, y: &[f64]) -> Vec<f64> {
    vec![y[1], -y[0]]
}

fn always_nan(_t: f64, y: &[f64]) -> Vec<f64> {
    vec![f64::NAN; y.len()]
}

fn at_rest(_t: f64, y: &[f64]) -> Vec<f64> {
    vec![0.0; y.len()]
}

fn assert_strictly_increasing(times: &[f64]) {
    for pair in times.windows(2) {
        assert!(pair[0] < pair[1], "{:?} is not below {:?}", pair[0], pair[1]);
    }
}

#[test]
fn exponential_decay_reaches_the_end() {
    let out = integrate(&decay, [0.0, 5.0], &[1.0], 1e-6).unwrap();
    let last = out.times.len() - 1;
    assert!(out.times[last] >= 5.0);
    let exact = (-out.times[last]).exp();
    assert!((out.states[last][0] - exact).abs() < 1e-4);
    assert!(out.times[last - 1] < 5.0);
}

#[test]
fn exponential_decay_is_close_to_the_exact_value() {
    let out = integrate(&decay, [0.0, 5.0], &[1.0], 1e-6).unwrap();
    for (t, y) in out.times.iter().zip(out.states.iter()) {
        assert!((y[0] - (-t).exp()).abs() < 1e-4, "at {:?}: {:?}", t, y[0]);
    }
    // the sample that passes the end lies within one step of it, and the
    // solution at the end itself is bracketed by the last two samples
    let last = out.times.len() - 1;
    let target = (-5.0f64).exp();
    assert!(out.states[last][0] <= target + 1e-4);
    assert!(out.states[last - 1][0] >= target - 1e-4);
}

#[test]
fn harmonic_oscillator_keeps_its_energy() {
    let end = 2.0 * std::f64::consts::PI;
    let out = integrate(&oscillator, [0.0, end], &[1.0, 0.0], 1e-8).unwrap();
    assert!(out.times[out.times.len() - 1] >= end);
    for y in out.states.iter() {
        let energy = y[0] * y[0] + y[1] * y[1];
        assert!((energy - 1.0).abs() < 1e-5, "energy {:?}", energy);
    }
}

#[test]
fn times_increase_and_match_the_states() {
    let end = 2.0 * std::f64::consts::PI;
    let runs = vec![
        integrate(&decay, [0.0, 5.0], &[1.0], 1e-6).unwrap(),
        integrate(&decay, [-3.0, 1.5], &[2.0], 1e-3).unwrap(),
        integrate(&oscillator, [0.0, end], &[1.0, 0.0], 1e-8).unwrap(),
        integrate(&at_rest, [0.0, 1.0], &[0.0], 1e-6).unwrap(),
    ];
    for out in runs.iter() {
        assert_eq!(out.times.len(), out.states.len());
        assert!(out.times.len() >= 2);
        assert_strictly_increasing(&out.times);
    }
}

#[test]
fn states_keep_the_dimension_of_the_initial_state() {
    let out = integrate(&oscillator, [0.0, 1.0], &[1.0, 0.0], 1e-6).unwrap();
    for y in out.states.iter() {
        assert_eq!(y.len(), 2);
    }
}

#[test]
fn first_sample_is_the_initial_condition() {
    let out = integrate(&oscillator, [0.25, 1.0], &[1.0, -0.5], 1e-6).unwrap();
    assert_eq!(out.times[0].to_bits(), 0.25f64.to_bits());
    assert_eq!(out.states[0][0].to_bits(), 1.0f64.to_bits());
    assert_eq!(out.states[0][1].to_bits(), (-0.5f64).to_bits());
}

#[test]
fn nan_derivative_stalls() {
    let r = integrate(&always_nan, [0.0, 1.0], &[1.0], 1e-6);
    assert!(matches!(r, Err(OdeError::Stall)));
}

#[test]
fn nan_derivative_uses_every_attempt_of_the_first_step() {
    let h = first_step(&always_nan, 0.0, &[1.0]);
    assert!(h.is_nan());
    let mut run =
        Integration::begin(scalar(0.0), scalar(1.0), scalars(&[1.0]), scalar(1e-6), scalar(h))
            .unwrap();
    let mut trials = 0usize;
    loop {
        match run.action() {
            Action::Estimate => {
                trials += 1;
                run.estimated(scalar(f64::NAN), scalar(f64::NAN));
            }
            Action::Retry(rule) => {
                assert_eq!(rule, Rescale::Scale);
                run.rescaled(scalar(f64::NAN));
            }
            Action::Abort => break,
            other => panic!("unexpected action {:?}", other),
        }
    }
    assert_eq!(trials, 1000);
    assert_eq!(run.attempts(), 1000);
    assert_eq!(run.failure(), Some(OdeError::Stall));
    let (times, states) = run.into_trajectory().into_parts();
    assert_eq!(times.len(), 1);
    assert_eq!(states.len(), 1);
}

#[test]
fn degenerate_start_gives_the_fallback_step() {
    let h = first_step(&at_rest, 0.0, &[0.0]);
    assert_eq!(h.to_bits(), 1e-6f64.to_bits());
}

#[test]
fn a_state_at_rest_is_integrated_without_error() {
    let out = integrate(&at_rest, [0.0, 1.0], &[0.0], 1e-6).unwrap();
    assert!(out.times[out.times.len() - 1] >= 1.0);
    for y in out.states.iter() {
        assert_eq!(y[0], 0.0);
    }
    // every trial is taken and doubles the step: 1e-6 * 2^k
    let mut h = 1e-6f64;
    for pair in out.times.windows(2) {
        h *= 2.0;
        assert_eq!(pair[1], pair[0] + h);
    }
    assert_eq!(out.evaluations, out.times.len() - 1);
}

#[test]
fn first_step_of_an_ordinary_problem() {
    // d0 = 1, d1 = 1, h0 = 0.01, d2 = 0.99 / 0.01, h1 = (0.01 / d2)^(1/5)
    let h = first_step(&decay, 0.0, &[1.0]);
    let h0 = 0.01 * (1.0f64 / 1.0f64);
    let d2 = (1.0f64 + h0 * -1.0f64).abs() / h0;
    let want = (0.01f64 / d2).powf(1.0 / 5.0).min(100.0 * h0);
    assert_eq!(h.to_bits(), want.to_bits());
    assert!(h > 0.0);
}

#[test]
fn first_step_is_capped_by_a_hundred_first_guesses() {
    // a small state with a large derivative: h0 = 1e-6, and the cap 1e-4 wins
    let f = |_t: f64, y: &[f64]| vec![1.0; y.len()];
    let h = first_step(&f, 0.0, &[1e-7]);
    let d2 = (1e-7f64 + 1e-6 * 1.0).abs() / 1e-6;
    let h1 = (0.01f64 / d2.max(1.0)).powf(1.0 / 5.0);
    assert!(h1 > 100.0 * 1e-6);
    assert_eq!(h.to_bits(), (100.0f64 * 1e-6).to_bits());
}

#[test]
fn invalid_interval_is_reported() {
    assert!(matches!(integrate(&decay, [1.0, 1.0], &[1.0], 1e-6), Err(OdeError::InvalidInterval)));
    assert!(matches!(integrate(&decay, [2.0, 1.0], &[1.0], 1e-6), Err(OdeError::InvalidInterval)));
    assert!(matches!(
        integrate(&decay, [f64::NAN, 1.0], &[1.0], 1e-6),
        Err(OdeError::InvalidInterval)
    ));
    assert!(matches!(
        integrate(&decay, [0.0, f64::NAN], &[1.0], 1e-6),
        Err(OdeError::InvalidInterval)
    ));
}

#[test]
fn empty_state_is_reported() {
    assert!(matches!(integrate(&decay, [0.0, 1.0], &[], 1e-6), Err(OdeError::EmptyState)));
}

#[test]
fn invalid_tolerance_is_reported() {
    assert!(matches!(integrate(&decay, [0.0, 1.0], &[1.0], 0.0), Err(OdeError::InvalidTolerance)));
    assert!(matches!(integrate(&decay, [0.0, 1.0], &[1.0], -0.0), Err(OdeError::InvalidTolerance)));
    assert!(matches!(integrate(&decay, [0.0, 1.0], &[1.0], -1e-6), Err(OdeError::InvalidTolerance)));
    assert!(matches!(
        integrate(&decay, [0.0, 1.0], &[1.0], f64::NAN),
        Err(OdeError::InvalidTolerance)
    ));
}

#[test]
fn the_first_fault_of_the_input_is_reported() {
    assert_eq!(
        validate(scalar(1.0), scalar(0.0), 0, scalar(0.0)),
        Err(OdeError::InvalidInterval)
    );
    assert_eq!(validate(scalar(0.0), scalar(1.0), 0, scalar(0.0)), Err(OdeError::EmptyState));
    assert_eq!(
        validate(scalar(0.0), scalar(1.0), 3, scalar(0.0)),
        Err(OdeError::InvalidTolerance)
    );
    assert_eq!(validate(scalar(0.0), scalar(1.0), 3, scalar(1e-9)), Ok(()));
    assert_eq!(validate(scalar(-0.0), scalar(0.0), 3, scalar(1e-9)), Err(OdeError::InvalidInterval));
}

#[test]
fn invalid_input_does_no_work() {
    let calls = std::cell::Cell::new(0usize);
    let f = |_t: f64, y: &[f64]| {
        calls.set(calls.get() + 1);
        vec![-y[0]]
    };
    assert!(integrate(&f, [1.0, 0.0], &[1.0], 1e-6).is_err());
    assert!(integrate(&f, [0.0, 1.0], &[1.0], 0.0).is_err());
    assert_eq!(calls.get(), 0);
}

#[test]
fn one_step_of_linear_growth_is_the_stability_polynomial() {
    // y' = y over one step h: y * (1 + h + h^2/2 + h^3/6 + h^4/24 + h^5/120 + h^6/600)
    let f = |_t: f64, y: &[f64]| vec![y[0]];
    let h = 0.5f64;
    let ks = stages(&f, 0.0, &[1.0], h);
    assert_eq!(ks.len(), 7);
    let next = advance(&[1.0], h, &ks, &|i| coefficient(bhat(i)));
    let want = 1.0
        + h
        + h.powi(2) / 2.0
        + h.powi(3) / 6.0
        + h.powi(4) / 24.0
        + h.powi(5) / 120.0
        + h.powi(6) / 600.0;
    assert!((next[0] - want).abs() < 1e-15, "{:?} against {:?}", next[0], want);
    // the seventh stage is evaluated at the propagated state
    assert!((ks[6][0] - next[0]).abs() < 1e-15);
}

#[test]
fn the_error_estimate_of_linear_growth_is_of_fifth_order() {
    // the two formulas agree up to h^4, so halving h divides their distance by about 2^5
    let f = |_t: f64, y: &[f64]| vec![y[0]];
    let distance = |h: f64| {
        let ks = stages(&f, 0.0, &[1.0], h);
        norm(&weighted_sum(1, &ks, &|i| coefficient(b(i)) - coefficient(bhat(i))))
    };
    let ratio = distance(0.1) / distance(0.05);
    assert!(ratio > 14.0 && ratio < 18.0, "ratio {:?}", ratio);
}

#[test]
fn a_constant_derivative_has_no_error() {
    let f = |_t: f64, _y: &[f64]| vec![3.0, -1.0];
    let ks = stages(&f, 0.0, &[1.0, 2.0], 0.25);
    let e = weighted_sum(2, &ks, &|i| coefficient(b(i)) - coefficient(bhat(i)));
    assert!(norm(&e) < 1e-15);
    let next = advance(&[1.0, 2.0], 0.25, &ks, &|i| coefficient(bhat(i)));
    assert!((next[0] - 1.75).abs() < 1e-15);
    assert!((next[1] - 1.75).abs() < 1e-15);
}
