//! The decisions of an adaptive Dormand-Prince 4(5) integrator for initial-value
//! problems of ordinary differential equations, with their proofs.
//!
//! An integration alternates arithmetic and decisions. The arithmetic (stage
//! evaluations, norms, a fifth root) is done by the caller on binary64
//! numbers. The decisions are made here, on the bit patterns of those numbers:
//! which formula gives the initial step size, whether a trial step is taken,
//! how the step size changes, what is recorded, when the run is finished and
//! when it is given up.
//!
//! * [`scalar`]: a number as its bit pattern, and the order of numbers.
//! * [`tableau`]: the coefficients of the pair as exact fractions.
//! * [`initial_step`]: the choices of the initial step-size estimator.
//! * [`controller`]: the rules for taking a trial and for the next step size.
//! * [`trajectory`]: the recorded samples, whose times strictly increase.
//! * [`ode45`]: the driver of an adaptive integration.
//! * [`rk4`]: the counting of a fixed-step run.
//! * [`error`]: the failures.

pub mod controller;
pub mod error;
pub mod initial_step;
pub mod ode45;
pub mod rk4;
pub mod scalar;
pub mod tableau;
pub mod trajectory;
