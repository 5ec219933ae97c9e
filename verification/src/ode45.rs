//! The adaptive driver: which work comes next, what becomes of its result, and
//! when the integration is over.
//!
//! The driver does no arithmetic. It names the next piece of work as an
//! [`Action`]; the caller does that work on the numbers and reports what came
//! out; the driver judges the report, records what is to be recorded and names
//! the next action. One step of the integration is a trial or a row of trials:
//!
//! * `Estimate`: evaluate the stages from the last sample with the current step
//!   size, and report the error magnitude and the damped scale factor.
//! * `Retry(rule)`: the trial was refused. Change the step size by `rule` and
//!   report it.
//! * `Propagate(rule)`: the trial was taken. Change the step size by `rule`,
//!   propagate the last sample by the new step size, and report the new step
//!   size, time and state.
//! * `Finish`: the end of the interval is reached.
//! * `Abort`: one step has used up its trials.

use vstd::prelude::*;
use crate::controller::{accepts, rescale, spec_accepts, spec_rescale, Rescale, MAX_ATTEMPTS};
use crate::error::OdeError;
use crate::scalar::Scalar;
use crate::trajectory::{extends, lemma_push_well_formed, lemma_times_increase, well_formed};
use crate::trajectory::{Sample, Trajectory};

verus! {

/// The work that an integration waits for.
#[derive(Clone, Copy, Debug, PartialEq, Eq, Structural)]
pub enum Action {
    Estimate,
    Retry(Rescale),
    Propagate(Rescale),
    Finish,
    Abort,
}

/// An integration as a value: what has been recorded, and what it waits for.
pub struct Run {
    pub samples: Seq<Sample>,
    pub end: Scalar,
    pub tolerance: Scalar,
    pub step: Scalar,
    /// The trials that the current step has lost so far.
    pub attempts: nat,
    pub pending: Action,
}

/// What is wrong with the input of an integration, if anything: the first of an
/// interval whose start is not below its end, a state without components, and
/// a tolerance that is not above zero.
pub open spec fn spec_validate(start: Scalar, end: Scalar, dimension: nat, tolerance: Scalar) -> Result<
    (),
    OdeError,
> {
    if !start.spec_lt(end) {
        Err(OdeError::InvalidInterval)
    } else if dimension == 0 {
        Err(OdeError::EmptyState)
    } else if !(Scalar { bits: 0 }).spec_lt(tolerance) {
        Err(OdeError::InvalidTolerance)
    } else {
        Ok(())
    }
}

impl Run {
    /// An integration before its first trial.
    pub open spec fn initial(
        start: Scalar,
        end: Scalar,
        state: Seq<Scalar>,
        tolerance: Scalar,
        step: Scalar,
    ) -> Run {
        Run {
            samples: seq![Sample { time: start, state }],
            end,
            tolerance,
            step,
            attempts: 0,
            pending: Action::Estimate,
        }
    }

    pub open spec fn wf(self) -> bool {
        &&& well_formed(self.samples)
        &&& self.samples[0].state.len() >= 1
        &&& self.samples[0].time.spec_lt(self.end)
        &&& (Scalar { bits: 0 }).spec_lt(self.tolerance)
        &&& self.attempts <= MAX_ATTEMPTS
        &&& (self.pending is Abort <==> self.attempts == MAX_ATTEMPTS)
        &&& (self.pending is Finish <==> self.end.spec_le(self.samples.last().time))
    }

    /// Nothing is left to do: the end is reached, or the run is given up.
    pub open spec fn is_over(self) -> bool {
        self.pending is Finish || self.pending is Abort
    }

    /// The current step has lost one more trial. With the last one lost the run
    /// is given up.
    pub open spec fn failed(self, step: Scalar) -> Run {
        Run {
            step,
            attempts: self.attempts + 1,
            pending: if self.attempts + 1 >= MAX_ATTEMPTS {
                Action::Abort
            } else {
                Action::Estimate
            },
            ..self
        }
    }

    /// The run after a trial's error magnitude and damped scale factor are
    /// known. Nothing changes unless the run waits for them.
    pub open spec fn estimated(self, error: Scalar, damped: Scalar) -> Run {
        if self.pending is Estimate {
            Run {
                pending: if spec_accepts(error, self.tolerance) {
                    Action::Propagate(spec_rescale(error, damped))
                } else {
                    Action::Retry(spec_rescale(error, damped))
                },
                ..self
            }
        } else {
            self
        }
    }

    /// The run after the step size of a refused trial is changed. Nothing
    /// changes unless the run waits for that.
    pub open spec fn rescaled(self, step: Scalar) -> Run {
        if self.pending is Retry {
            self.failed(step)
        } else {
            self
        }
    }

    /// The run after a taken trial is propagated. A sample that may follow the
    /// recorded ones is recorded and opens the next step, or ends the run once
    /// its time is not below the end. Any other sample costs the step a trial.
    /// Nothing changes unless the run waits for a sample.
    pub open spec fn propagated(self, step: Scalar, time: Scalar, state: Seq<Scalar>) -> Run {
        if !(self.pending is Propagate) {
            self
        } else if extends(self.samples, time, state) {
            Run {
                samples: self.samples.push(Sample { time, state }),
                step,
                attempts: 0,
                pending: if time.spec_lt(self.end) {
                    Action::Estimate
                } else {
                    Action::Finish
                },
                ..self
            }
        } else {
            self.failed(step)
        }
    }

    /// How many numbers lie between the last time and the end, the end counted.
    pub open spec fn gap(self) -> int {
        if self.samples.last().time.spec_lt(self.end) {
            self.end.rank() - self.samples.last().time.rank()
        } else {
            0
        }
    }

    /// A bound on the reports that the run can still take before it is over.
    pub open spec fn fuel(self) -> int {
        let trials = (self.gap() - 1) * MAX_ATTEMPTS + (MAX_ATTEMPTS - self.attempts);
        match self.pending {
            Action::Finish | Action::Abort => 0,
            Action::Estimate => 2 * trials,
            Action::Retry(_) | Action::Propagate(_) => 2 * trials - 1,
        }
    }
}

/// What a caller can tell an integration.
pub enum Report {
    /// The error magnitude of a trial and its damped scale factor.
    Estimated { error: Scalar, damped: Scalar },
    /// The step size after a refused trial.
    Rescaled { step: Scalar },
    /// The step size after a taken trial, and the sample it leads to.
    Propagated { step: Scalar, time: Scalar, state: Seq<Scalar> },
}

impl Run {
    /// The run waits for this kind of report.
    pub open spec fn awaits(self, report: Report) -> bool {
        match report {
            Report::Estimated { .. } => self.pending is Estimate,
            Report::Rescaled { .. } => self.pending is Retry,
            Report::Propagated { .. } => self.pending is Propagate,
        }
    }

    /// The run after a report.
    pub open spec fn after(self, report: Report) -> Run {
        match report {
            Report::Estimated { error, damped } => self.estimated(error, damped),
            Report::Rescaled { step } => self.rescaled(step),
            Report::Propagated { step, time, state } => self.propagated(step, time, state),
        }
    }

    /// The run after a row of reports, the first of them taken first.
    pub open spec fn after_all(self, reports: Seq<Report>) -> Run
        decreases reports.len(),
    {
        if reports.len() == 0 {
            self
        } else {
            self.after(reports[0]).after_all(reports.subrange(1, reports.len() as int))
        }
    }

    /// Each report of the row is one that the run waits for when it comes.
    pub open spec fn in_turn(self, reports: Seq<Report>) -> bool
        decreases reports.len(),
    {
        reports.len() == 0 || (self.awaits(reports[0]) && self.after(reports[0]).in_turn(
            reports.subrange(1, reports.len() as int),
        ))
    }
}

/// An integration in progress.
pub struct Integration {
    trajectory: Trajectory,
    end: Scalar,
    tolerance: Scalar,
    step: Scalar,
    attempts: usize,
    pending: Action,
}

impl View for Integration {
    type V = Run;

    closed spec fn view(&self) -> Run {
        Run {
            samples: self.trajectory@,
            end: self.end,
            tolerance: self.tolerance,
            step: self.step,
            attempts: self.attempts as nat,
            pending: self.pending,
        }
    }
}

/// Checks the input of an integration before any work is done.
pub fn validate(start: Scalar, end: Scalar, dimension: usize, tolerance: Scalar) -> (r: Result<
    (),
    OdeError,
>)
    ensures
        r == spec_validate(start, end, dimension as nat, tolerance),
{
    if !start.lt(end) {
        Err(OdeError::InvalidInterval)
    } else if dimension == 0 {
        Err(OdeError::EmptyState)
    } else if !Scalar::from_bits(0).lt(tolerance) {
        Err(OdeError::InvalidTolerance)
    } else {
        Ok(())
    }
}

impl Integration {
    /// The trajectory keeps as many states as times.
    pub closed spec fn parallel(&self) -> bool {
        self.trajectory.parallel()
    }

    pub open spec fn wf(&self) -> bool {
        &&& self.parallel()
        &&& self@.wf()
    }

    /// Starts an integration over `[start, end]` from `state`, with `step` as the
    /// first step size, or says what is wrong with the input.
    pub fn begin(
        start: Scalar,
        end: Scalar,
        state: Vec<Scalar>,
        tolerance: Scalar,
        step: Scalar,
    ) -> (r: Result<Integration, OdeError>)
        ensures
            match spec_validate(start, end, state@.len(), tolerance) {
                Ok(_) => r is Ok && r->Ok_0.wf() && r->Ok_0@ == Run::initial(
                    start,
                    end,
                    state@,
                    tolerance,
                    step,
                ),
                Err(e) => r is Err && r->Err_0 == e,
            },
    {
        match validate(start, end, state.len(), tolerance) {
            Err(e) => Err(e),
            Ok(_) => {
                let trajectory = Trajectory::new(start, state);
                Ok(
                    Integration {
                        trajectory,
                        end,
                        tolerance,
                        step,
                        attempts: 0,
                        pending: Action::Estimate,
                    },
                )
            },
        }
    }

    /// The work that the integration waits for.
    pub fn action(&self) -> (a: Action)
        ensures
            a == self@.pending,
    {
        self.pending
    }

    /// The time of the last sample: where the current step starts.
    pub fn time(&self) -> (t: Scalar)
        requires
            self.wf(),
        ensures
            t == self@.samples.last().time,
    {
        self.trajectory.last_time()
    }

    /// The state of the last sample: what the current step starts from.
    pub fn state(&self) -> (y: &Vec<Scalar>)
        requires
            self.wf(),
        ensures
            y@ == self@.samples.last().state,
    {
        self.trajectory.last_state()
    }

    /// The step size of the next trial.
    pub fn step(&self) -> (h: Scalar)
        ensures
            h == self@.step,
    {
        self.step
    }

    pub fn end(&self) -> (t: Scalar)
        ensures
            t == self@.end,
    {
        self.end
    }

    pub fn tolerance(&self) -> (tol: Scalar)
        ensures
            tol == self@.tolerance,
    {
        self.tolerance
    }

    /// The trials that the current step has lost so far.
    pub fn attempts(&self) -> (n: usize)
        ensures
            n == self@.attempts,
    {
        self.attempts
    }

    /// Records that the current step has lost a trial.
    fn fail(&mut self, step: Scalar)
        requires
            old(self).wf(),
            old(self)@.attempts < MAX_ATTEMPTS,
        ensures
            final(self).parallel(),
            final(self)@ == old(self)@.failed(step),
    {
        self.step = step;
        self.attempts = self.attempts + 1;
        self.pending = if self.attempts >= MAX_ATTEMPTS {
            Action::Abort
        } else {
            Action::Estimate
        };
    }

    /// Takes the error magnitude of a trial and its damped scale factor, and
    /// decides whether the trial is taken and how the step size changes.
    pub fn estimated(&mut self, error: Scalar, damped: Scalar) -> (next: Action)
        requires
            old(self).wf(),
        ensures
            final(self).wf(),
            final(self)@ == old(self)@.estimated(error, damped),
            next == final(self)@.pending,
    {
        match self.pending {
            Action::Estimate => {
                let rule = rescale(error, damped);
                self.pending = if accepts(error, self.tolerance) {
                    Action::Propagate(rule)
                } else {
                    Action::Retry(rule)
                };
            },
            _ => {},
        }
        self.pending
    }

    /// Takes the changed step size after a refused trial.
    pub fn rescaled(&mut self, step: Scalar) -> (next: Action)
        requires
            old(self).wf(),
        ensures
            final(self).wf(),
            final(self)@ == old(self)@.rescaled(step),
            next == final(self)@.pending,
    {
        match self.pending {
            Action::Retry(_) => {
                self.fail(step);
            },
            _ => {},
        }
        self.pending
    }

    /// Takes the changed step size after a taken trial, and the sample that the
    /// last one was propagated to with it.
    pub fn propagated(&mut self, step: Scalar, time: Scalar, state: Vec<Scalar>) -> (next: Action)
        requires
            old(self).wf(),
        ensures
            final(self).wf(),
            final(self)@ == old(self)@.propagated(step, time, state@),
            next == final(self)@.pending,
    {
        match self.pending {
            Action::Propagate(_) => {
                if self.trajectory.push(time, state) {
                    self.step = step;
                    self.attempts = 0;
                    self.pending = if time.lt(self.end) {
                        Action::Estimate
                    } else {
                        Action::Finish
                    };
                } else {
                    self.fail(step);
                }
            },
            _ => {},
        }
        self.pending
    }

    /// The failure that ended the run, if one did.
    pub fn failure(&self) -> (e: Option<OdeError>)
        ensures
            e == if self@.pending is Abort {
                Some(OdeError::Stall)
            } else {
                None
            },
    {
        match self.pending {
            Action::Abort => Some(OdeError::Stall),
            _ => None,
        }
    }

    /// What has been recorded so far.
    pub fn trajectory(&self) -> (t: &Trajectory)
        requires
            self.wf(),
        ensures
            t.wf(),
            t@ == self@.samples,
    {
        &self.trajectory
    }

    /// Gives up the run for what it has recorded.
    pub fn into_trajectory(self) -> (t: Trajectory)
        requires
            self.wf(),
        ensures
            t.wf(),
            t@ == self@.samples,
    {
        self.trajectory
    }
}

/// A well-formed run stays well formed under every report.
pub proof fn lemma_report_keeps_wf(run: Run, report: Report)
    requires
        run.wf(),
    ensures
        run.after(report).wf(),
{
    if let Report::Propagated { step, time, state } = report {
        if run.pending is Propagate && extends(run.samples, time, state) {
            lemma_push_well_formed(run.samples, time, state);
        }
    }
}

/// A report that the run does not wait for changes nothing. So nothing changes
/// a run that is over.
pub proof fn lemma_unawaited_report_ignored(run: Run, report: Report)
    ensures
        !run.awaits(report) ==> run.after(report) == run,
        run.is_over() ==> run.after(report) == run,
{
}

/// Samples are only ever appended, one at a time: after a report the samples
/// from before are still there, in their places, and at most one has come
/// after them. The interval and the tolerance never change.
pub proof fn lemma_samples_only_grow(run: Run, report: Report)
    requires
        run.wf(),
    ensures
        run.samples.len() <= run.after(report).samples.len() <= run.samples.len() + 1,
        run.after(report).samples.subrange(0, run.samples.len() as int) == run.samples,
        run.after(report).samples[0] == run.samples[0],
        run.after(report).end == run.end,
        run.after(report).tolerance == run.tolerance,
{
    let after = run.after(report);
    assert(after.samples.subrange(0, run.samples.len() as int) =~= run.samples);
}

/// A run has finished exactly when its last time is not below the end.
/// Neither the last time nor the end is ever a NaN.
pub proof fn lemma_running_below_end(run: Run)
    requires
        run.wf(),
    ensures
        run.pending is Finish <==> !run.samples.last().time.spec_lt(run.end),
        !run.samples.last().time.spec_is_nan(),
        !run.end.spec_is_nan(),
{
    if run.samples.len() > 1 {
        lemma_times_increase(run.samples, 0, run.samples.len() - 1);
    }
}

/// An integration cannot go on for ever: every report that the run waits for
/// brings it nearer to its end by a bound that never goes below zero.
pub proof fn lemma_report_uses_fuel(run: Run, report: Report)
    requires
        run.wf(),
        run.awaits(report),
    ensures
        0 <= run.after(report).fuel() < run.fuel(),
{
    lemma_report_keeps_wf(run, report);
    lemma_running_below_end(run);
    if let Report::Propagated { step, time, state } = report {
        if extends(run.samples, time, state) {
            assert(run.after(report).samples.last().time == time);
        }
    }
}

/// A run is over exactly when it has no fuel left.
pub proof fn lemma_fuel_of_finished(run: Run)
    requires
        run.wf(),
    ensures
        run.is_over() <==> run.fuel() == 0,
        run.fuel() >= 0,
{
    lemma_running_below_end(run);
}

/// A trial whose error is a NaN is never taken: it is refused, records
/// nothing and costs the step one of its trials.
pub proof fn lemma_nan_error_costs_a_trial(run: Run, error: Scalar, damped: Scalar, step: Scalar)
    requires
        run.wf(),
        run.pending is Estimate,
        error.spec_is_nan(),
    ensures
        run.estimated(error, damped).pending is Retry,
        run.estimated(error, damped).rescaled(step) == run.failed(step),
        run.failed(step).samples == run.samples,
        run.failed(step).attempts == run.attempts + 1,
{
}

/// A step is given up exactly when it loses the last of its trials, and not
/// before.
pub proof fn lemma_stall_after_last_trial(run: Run, step: Scalar)
    requires
        run.wf(),
        !run.is_over(),
    ensures
        run.failed(step).pending is Abort <==> run.attempts + 1 == MAX_ATTEMPTS,
        !(run.failed(step).pending is Abort) ==> run.failed(step).pending is Estimate,
{
}

/// An integration of valid input starts well formed, with the initial
/// condition as its only sample.
pub proof fn lemma_initial_wf(
    start: Scalar,
    end: Scalar,
    state: Seq<Scalar>,
    tolerance: Scalar,
    step: Scalar,
)
    requires
        spec_validate(start, end, state.len(), tolerance) is Ok,
    ensures
        Run::initial(start, end, state, tolerance, step).wf(),
        Run::initial(start, end, state, tolerance, step).samples == seq![
            Sample { time: start, state },
        ],
{
}

/// Whatever is reported to an integration, and in whatever order: it stays
/// well formed, so its times strictly increase and its states keep their
/// dimension; the samples that were recorded stay as they are, the initial
/// condition first; and no more samples are recorded than reports come in.
pub proof fn lemma_every_run_well_formed(run: Run, reports: Seq<Report>)
    requires
        run.wf(),
    ensures
        run.after_all(reports).wf(),
        run.samples.len() <= run.after_all(reports).samples.len() <= run.samples.len()
            + reports.len(),
        run.after_all(reports).samples.subrange(0, run.samples.len() as int) == run.samples,
        run.after_all(reports).samples[0] == run.samples[0],
        run.after_all(reports).end == run.end,
        run.after_all(reports).tolerance == run.tolerance,
    decreases reports.len(),
{
    if reports.len() > 0 {
        let next = run.after(reports[0]);
        let rest = reports.subrange(1, reports.len() as int);
        lemma_report_keeps_wf(run, reports[0]);
        lemma_samples_only_grow(run, reports[0]);
        lemma_every_run_well_formed(next, rest);
        let last = next.after_all(rest);
        assert(last.samples.subrange(0, run.samples.len() as int) =~= last.samples.subrange(
            0,
            next.samples.len() as int,
        ).subrange(0, run.samples.len() as int));
    } else {
        assert(run.samples.subrange(0, run.samples.len() as int) =~= run.samples);
    }
}

/// Every integration ends: a row of reports that come in turn is no longer
/// than the fuel that the run had and has not kept. So after as many reports
/// as it has fuel, a run is over.
pub proof fn lemma_every_run_ends(run: Run, reports: Seq<Report>)
    requires
        run.wf(),
        run.in_turn(reports),
    ensures
        reports.len() + run.after_all(reports).fuel() <= run.fuel(),
        reports.len() == run.fuel() ==> run.after_all(reports).is_over(),
    decreases reports.len(),
{
    lemma_fuel_of_finished(run);
    if reports.len() > 0 {
        let next = run.after(reports[0]);
        let rest = reports.subrange(1, reports.len() as int);
        lemma_report_keeps_wf(run, reports[0]);
        lemma_report_uses_fuel(run, reports[0]);
        lemma_every_run_ends(next, rest);
    }
    lemma_every_run_well_formed(run, reports);
    lemma_fuel_of_finished(run.after_all(reports));
}

} // verus!
