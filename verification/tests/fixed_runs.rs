use ode_solver::error::OdeError;
use ode_solver::rk4::{validate, FixedRun};
use ode_solver::scalar::Scalar;

fn scalar(x: f64) -> Scalar {
    Scalar::from_bits(x.to_bits())
}

fn number(s: Scalar) -> f64 {
    f64::from_bits(s.to_bits())
}

fn scalars(v: &[f64]) -> Vec<Scalar> {
    v.iter().map(|x| scalar(*x)).collect()
}

fn numbers(v: &[Scalar]) -> Vec<f64> {
    v.iter().map(|s| number(*s)).collect()
}

fn axpy(y: &[f64], factor: f64, k: &[f64]) -> Vec<f64> {
    y.iter().zip(k.iter()).map(|(yi, ki)| yi + factor * ki).collect()
}

fn scaled(dt: f64, v: Vec<f64>) -> Vec<f64> {
    v.iter().map(|x| dt * x).collect()
}

fn fixed_steps(
    num_steps: usize,
    times: [f64; 2],
    initial: &[f64],
    f: &dyn Fn(&[f64]) -> Vec<f64>,
) -> Result<(Vec<Vec<f64>>, Vec<f64>), OdeError> {
    let mut run = FixedRun::begin(num_steps, scalars(initial))?;
    let dt = (times[1] - times[0]) / (num_steps as f64);
    let grid: Vec<f64> = (0..=num_steps).map(|i| i as f64 * dt + times[0]).collect();
    while !run.is_complete() {
        let y = numbers(run.state());
        let k1 = scaled(dt, f(&y));
        let k2 = scaled(dt, f(&axpy(&y, 0.5, &k1)));
        let k3 = scaled(dt, f(&axpy(&y, 0.5, &k2)));
        let k4 = scaled(dt, f(&axpy(&y, 1.0, &k3)));
        let next: Vec<f64> = (0..y.len())
            .map(|i| y[i] + (k1[i] + (2.0 * k2[i]) + (2.0 * k3[i]) + k4[i]) / 6.0)
            .collect();
        assert!(run.record(scalars(&next)));
    }
    let states = run.into_states().iter().map(|y| numbers(y)).collect();
    Ok((states, grid))
}

fn growth(y: &[f64]) -> Vec<f64> {
    vec![2.0 * y[0]]
}

#[test]
fn exponential_growth_on_sixty_four_steps() {
    let (states, times) = fixed_steps(64, [0.0, 2.0], &[0.25], &growth).unwrap();
    assert_eq!(states.len(), 65);
    assert_eq!(times.len(), 65);
    assert_eq!(times[0], 0.0);
    assert_eq!(times[64], 2.0);
    assert_eq!(states[0][0], 0.25);
    let exact = 0.25 * (4.0f64).exp();
    assert!((states[64][0] - exact).abs() < 1e-3, "{:?} against {:?}", states[64][0], exact);
}

#[test]
fn fixed_grid_is_uniform() {
    let (_, times) = fixed_steps(8, [1.0, 3.0], &[0.25], &growth).unwrap();
    for (i, t) in times.iter().enumerate() {
        assert_eq!(*t, 1.0 + 0.25 * i as f64);
    }
}

#[test]
fn one_step_of_growth_is_the_fourth_order_polynomial() {
    // y' = 2y over one step of size 1/2: y * (1 + z + z^2/2 + z^3/6 + z^4/24), z = 1
    let (states, _) = fixed_steps(1, [0.0, 0.5], &[1.0], &growth).unwrap();
    assert_eq!(states.len(), 2);
    assert!((states[1][0] - (1.0 + 1.0 + 0.5 + 1.0 / 6.0 + 1.0 / 24.0)).abs() < 1e-15);
}

#[test]
fn zero_steps_are_refused() {
    assert!(matches!(fixed_steps(0, [0.0, 2.0], &[0.25], &growth), Err(OdeError::InvalidStepCount)));
    assert_eq!(validate(0, 1), Err(OdeError::InvalidStepCount));
}

#[test]
fn an_empty_state_is_refused() {
    assert!(matches!(fixed_steps(4, [0.0, 2.0], &[], &growth), Err(OdeError::EmptyState)));
    assert_eq!(validate(4, 0), Err(OdeError::EmptyState));
}

#[test]
fn the_step_count_is_checked_first() {
    assert_eq!(validate(0, 0), Err(OdeError::InvalidStepCount));
    assert_eq!(validate(1, 1), Ok(()));
    assert_eq!(validate(usize::MAX, usize::MAX), Ok(()));
}

#[test]
fn a_run_counts_its_steps() {
    let mut run = FixedRun::begin(3, scalars(&[1.0, 2.0])).unwrap();
    assert_eq!(run.steps(), 3);
    assert_eq!(run.taken(), 0);
    assert!(!run.is_complete());
    assert_eq!(number(run.state()[1]), 2.0);
    assert!(run.record(scalars(&[3.0, 4.0])));
    assert_eq!(run.taken(), 1);
    assert_eq!(number(run.state()[0]), 3.0);
    assert!(run.record(scalars(&[5.0, 6.0])));
    assert!(!run.is_complete());
    assert!(run.record(scalars(&[7.0, 8.0])));
    assert!(run.is_complete());
    assert_eq!(run.taken(), 3);
    let states = run.into_states();
    assert_eq!(states.len(), 4);
    assert_eq!(number(states[0][0]), 1.0);
    assert_eq!(number(states[3][1]), 8.0);
}

#[test]
fn a_complete_run_records_no_more() {
    let mut run = FixedRun::begin(1, scalars(&[1.0])).unwrap();
    assert!(run.record(scalars(&[2.0])));
    assert!(run.is_complete());
    assert!(!run.record(scalars(&[3.0])));
    assert_eq!(run.taken(), 1);
    assert_eq!(number(run.state()[0]), 2.0);
}

#[test]
fn a_state_of_another_dimension_is_not_recorded() {
    let mut run = FixedRun::begin(2, scalars(&[1.0, 2.0])).unwrap();
    assert!(!run.record(scalars(&[1.0])));
    assert!(!run.record(scalars(&[1.0, 2.0, 3.0])));
    assert!(!run.record(scalars(&[])));
    assert_eq!(run.taken(), 0);
    assert!(run.record(scalars(&[f64::NAN, 0.0])));
    assert_eq!(run.taken(), 1);
}

#[test]
fn the_largest_step_count_is_accepted() {
    let run = FixedRun::begin(usize::MAX, scalars(&[1.0])).unwrap();
    assert_eq!(run.steps(), usize::MAX);
    assert!(!run.is_complete());
}
