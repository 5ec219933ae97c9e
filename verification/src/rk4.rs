//! The fixed-step sibling: a run of a given number of equal steps, with no
//! error control. Here is what such a run checks and counts; the four stages of
//! each step are the caller's arithmetic.

use vstd::prelude::*;
use crate::error::OdeError;
use crate::scalar::Scalar;

verus! {

/// A fixed-step run as a value: the steps asked for and the states so far.
pub struct Grid {
    pub steps: nat,
    pub states: Seq<Seq<Scalar>>,
}

/// What is wrong with the input of a fixed-step run, if anything: first a step
/// count of zero, then a state without components.
pub open spec fn spec_validate(steps: nat, dimension: nat) -> Result<(), OdeError> {
    if steps == 0 {
        Err(OdeError::InvalidStepCount)
    } else if dimension == 0 {
        Err(OdeError::EmptyState)
    } else {
        Ok(())
    }
}

impl Grid {
    /// A run before its first step.
    pub open spec fn initial(steps: nat, state: Seq<Scalar>) -> Grid {
        Grid { steps, states: seq![state] }
    }

    pub open spec fn wf(self) -> bool {
        &&& self.steps >= 1
        &&& 1 <= self.states.len() <= self.steps + 1
        &&& self.states[0].len() >= 1
        &&& forall|i: int|
            0 <= i < self.states.len() ==> (#[trigger] self.states[i]).len()
                == self.states[0].len()
    }

    /// The steps taken so far.
    pub open spec fn taken(self) -> nat {
        (self.states.len() - 1) as nat
    }

    /// Every step is taken.
    pub open spec fn complete(self) -> bool {
        self.states.len() == self.steps + 1
    }

    /// A state can be recorded: a step is left, and the state has the
    /// dimension of the run.
    pub open spec fn admits(self, state: Seq<Scalar>) -> bool {
        !self.complete() && state.len() == self.states[0].len()
    }

    /// The run after a state is handed in: recorded if it can be, and without
    /// change if not.
    pub open spec fn recorded(self, state: Seq<Scalar>) -> Grid {
        if self.admits(state) {
            Grid { states: self.states.push(state), ..self }
        } else {
            self
        }
    }
}

/// A fixed-step run in progress.
pub struct FixedRun {
    steps: usize,
    states: Vec<Vec<Scalar>>,
}

impl View for FixedRun {
    type V = Grid;

    closed spec fn view(&self) -> Grid {
        Grid { steps: self.steps as nat, states: Seq::new(self.states@.len(), |i: int| self.states@[i]@) }
    }
}

/// Checks the input of a fixed-step run before any work is done.
pub fn validate(num_steps: usize, dimension: usize) -> (r: Result<(), OdeError>)
    ensures
        r == spec_validate(num_steps as nat, dimension as nat),
{
    if num_steps == 0 {
        Err(OdeError::InvalidStepCount)
    } else if dimension == 0 {
        Err(OdeError::EmptyState)
    } else {
        Ok(())
    }
}

impl FixedRun {
    pub open spec fn wf(&self) -> bool {
        self@.wf()
    }

    /// Starts a run of `num_steps` steps from `state`, or says what is wrong
    /// with the input.
    pub fn begin(num_steps: usize, state: Vec<Scalar>) -> (r: Result<FixedRun, OdeError>)
        ensures
            match spec_validate(num_steps as nat, state@.len()) {
                Ok(_) => r is Ok && r->Ok_0.wf() && r->Ok_0@ == Grid::initial(
                    num_steps as nat,
                    state@,
                ),
                Err(e) => r is Err && r->Err_0 == e,
            },
    {
        match validate(num_steps, state.len()) {
            Err(e) => Err(e),
            Ok(_) => {
                let ghost first = state@;
                let mut states: Vec<Vec<Scalar>> = Vec::new();
                states.push(state);
                let run = FixedRun { steps: num_steps, states };
                assert(run@.states =~= seq![first]);
                Ok(run)
            },
        }
    }

    /// The number of steps that the run was started for.
    pub fn steps(&self) -> (n: usize)
        ensures
            n == self@.steps,
    {
        self.steps
    }

    /// The number of steps taken so far.
    pub fn taken(&self) -> (n: usize)
        requires
            self.wf(),
        ensures
            n == self@.taken(),
    {
        self.states.len() - 1
    }

    /// Whether every step is taken.
    pub fn is_complete(&self) -> (done: bool)
        requires
            self.wf(),
        ensures
            done == self@.complete(),
    {
        self.states.len() - 1 == self.steps
    }

    /// The last state: what the next step starts from.
    pub fn state(&self) -> (y: &Vec<Scalar>)
        requires
            self.wf(),
        ensures
            y@ == self@.states.last(),
    {
        &self.states[self.states.len() - 1]
    }

    /// Records the state after one more step, and says whether it did: not
    /// when every step is taken already, nor when the state has another
    /// dimension than the run.
    pub fn record(&mut self, state: Vec<Scalar>) -> (appended: bool)
        requires
            old(self).wf(),
        ensures
            final(self).wf(),
            appended == old(self)@.admits(state@),
            final(self)@ == old(self)@.recorded(state@),
    {
        if self.is_complete() || state.len() != self.states[0].len() {
            return false;
        }
        let ghost next = state@;
        self.states.push(state);
        assert(self@.states =~= old(self)@.states.push(next));
        true
    }

    /// The states of the run, the initial state first.
    pub fn into_states(self) -> (states: Vec<Vec<Scalar>>)
        requires
            self.wf(),
        ensures
            states@.len() == self@.states.len(),
            forall|i: int| 0 <= i < states@.len() ==> (#[trigger] states@[i])@ == self@.states[i],
    {
        self.states
    }
}

/// A run is complete exactly when as many steps are taken as were asked for,
/// and each recorded state takes it one step further and changes none of the
/// states before it.
pub proof fn lemma_steps_counted(grid: Grid, state: Seq<Scalar>)
    requires
        grid.wf(),
    ensures
        grid.recorded(state).wf(),
        grid.taken() <= grid.steps,
        grid.complete() <==> grid.taken() == grid.steps,
        grid.admits(state) ==> grid.recorded(state).taken() == grid.taken() + 1,
        grid.recorded(state).states.subrange(0, grid.states.len() as int) == grid.states,
        grid.recorded(state).steps == grid.steps,
{
    assert(grid.recorded(state).states.subrange(0, grid.states.len() as int) =~= grid.states);
}

} // verus!
