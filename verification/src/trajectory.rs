//! The trajectory: the samples that an integration has recorded so far.

use vstd::prelude::*;
use crate::scalar::Scalar;

verus! {

/// One recorded point: a time and the state at that time.
pub struct Sample {
    pub time: Scalar,
    pub state: Seq<Scalar>,
}

/// Every time is below every later one.
pub open spec fn increasing(samples: Seq<Sample>) -> bool {
    forall|i: int, j: int|
        0 <= i < j < samples.len() ==> (#[trigger] samples[i]).time.spec_lt(
            (#[trigger] samples[j]).time,
        )
}

/// Every state has as many components as the first.
pub open spec fn uniform(samples: Seq<Sample>) -> bool {
    forall|i: int|
        0 <= i < samples.len() ==> (#[trigger] samples[i]).state.len() == samples[0].state.len()
}

/// What holds of the samples of every trajectory.
pub open spec fn well_formed(samples: Seq<Sample>) -> bool {
    &&& samples.len() >= 1
    &&& uniform(samples)
    &&& increasing(samples)
}

/// A sample may follow the given ones: its time is above the last, and its
/// state has their dimension.
pub open spec fn extends(samples: Seq<Sample>, time: Scalar, state: Seq<Scalar>) -> bool {
    &&& samples.last().time.spec_lt(time)
    &&& state.len() == samples[0].state.len()
}

/// Times and states of an integration, index by index. Samples are only ever
/// appended.
pub struct Trajectory {
    times: Vec<Scalar>,
    states: Vec<Vec<Scalar>>,
}

impl View for Trajectory {
    type V = Seq<Sample>;

    closed spec fn view(&self) -> Seq<Sample> {
        Seq::new(
            self.times@.len(),
            |i: int| Sample { time: self.times@[i], state: self.states@[i]@ },
        )
    }
}

impl Trajectory {
    /// There are as many states as times.
    pub closed spec fn parallel(&self) -> bool {
        self.times@.len() == self.states@.len()
    }

    pub open spec fn wf(&self) -> bool {
        &&& self.parallel()
        &&& well_formed(self@)
    }

    /// The trajectory that holds the initial condition alone.
    pub fn new(time: Scalar, state: Vec<Scalar>) -> (r: Trajectory)
        ensures
            r.wf(),
            r@ == seq![Sample { time, state: state@ }],
    {
        let ghost first = Sample { time, state: state@ };
        let mut times: Vec<Scalar> = Vec::new();
        times.push(time);
        let mut states: Vec<Vec<Scalar>> = Vec::new();
        states.push(state);
        let r = Trajectory { times, states };
        assert(r@ =~= seq![first]);
        r
    }

    /// The number of samples.
    pub fn len(&self) -> (n: usize)
        requires
            self.wf(),
        ensures
            n == self@.len(),
            n >= 1,
    {
        self.times.len()
    }

    /// The number of components of each state.
    pub fn dimension(&self) -> (n: usize)
        requires
            self.wf(),
        ensures
            n == self@[0].state.len(),
    {
        self.states[0].len()
    }

    pub fn time(&self, index: usize) -> (t: Scalar)
        requires
            self.wf(),
            index < self@.len(),
        ensures
            t == self@[index as int].time,
    {
        self.times[index]
    }

    pub fn state(&self, index: usize) -> (y: &Vec<Scalar>)
        requires
            self.wf(),
            index < self@.len(),
        ensures
            y@ == self@[index as int].state,
    {
        &self.states[index]
    }

    pub fn last_time(&self) -> (t: Scalar)
        requires
            self.wf(),
        ensures
            t == self@.last().time,
    {
        self.times[self.times.len() - 1]
    }

    pub fn last_state(&self) -> (y: &Vec<Scalar>)
        requires
            self.wf(),
        ensures
            y@ == self@.last().state,
    {
        &self.states[self.states.len() - 1]
    }

    /// Appends a sample if it may follow, and says whether it did.
    pub fn push(&mut self, time: Scalar, state: Vec<Scalar>) -> (appended: bool)
        requires
            old(self).wf(),
        ensures
            final(self).wf(),
            appended == extends(old(self)@, time, state@),
            appended ==> final(self)@ == old(self)@.push(Sample { time, state: state@ }),
            !appended ==> final(self)@ == old(self)@,
    {
        let last: Scalar = self.last_time();
        if !last.lt(time) || state.len() != self.dimension() {
            return false;
        }
        let ghost sample = Sample { time, state: state@ };
        self.times.push(time);
        self.states.push(state);
        assert(self@ =~= old(self)@.push(sample));
        true
    }

    /// The times and the states, index by index: as many states as times, the
    /// times strictly increasing, the states all of one dimension.
    pub fn into_parts(self) -> (parts: (Vec<Scalar>, Vec<Vec<Scalar>>))
        requires
            self.wf(),
        ensures
            parts.0@.len() == self@.len(),
            parts.1@.len() == self@.len(),
            forall|i: int| 0 <= i < self@.len() ==> parts.0@[i] == (#[trigger] self@[i]).time,
            forall|i: int| 0 <= i < self@.len() ==> parts.1@[i]@ == (#[trigger] self@[i]).state,
            forall|i: int, j: int|
                0 <= i < j < parts.0@.len() ==> (#[trigger] parts.0@[i]).spec_lt(
                    #[trigger] parts.0@[j],
                ),
            forall|i: int|
                0 <= i < parts.1@.len() ==> (#[trigger] parts.1@[i])@.len() == parts.1@[0]@.len(),
    {
        proof {
            let times = self.times@;
            let states = self.states@;
            assert forall|i: int, j: int| 0 <= i < j < times.len() implies (#[trigger] times[i])
                .spec_lt(#[trigger] times[j]) by {
                assert(self@[i].time.spec_lt(self@[j].time));
            }
            assert forall|i: int| 0 <= i < states.len() implies (#[trigger] states[i])@.len()
                == states[0]@.len() by {
                assert(self@[i].state.len() == self@[0].state.len());
            }
        }
        (self.times, self.states)
    }
}

/// Times strictly increase: each sample's time is below that of the next, and
/// so below that of every later one.
pub proof fn lemma_times_increase(samples: Seq<Sample>, i: int, j: int)
    requires
        well_formed(samples),
        0 <= i < j < samples.len(),
    ensures
        samples[i].time.spec_lt(samples[j].time),
        samples[i].time.rank() + (j - i) <= samples[j].time.rank(),
        !samples[i].time.spec_is_nan(),
        !samples[j].time.spec_is_nan(),
    decreases j - i,
{
    if i + 1 < j {
        lemma_times_increase(samples, i, j - 1);
        assert(samples[j - 1].time.spec_lt(samples[j].time));
    }
}

/// Appending a sample that may follow keeps a trajectory well formed and
/// changes none of the samples before it.
pub proof fn lemma_push_well_formed(samples: Seq<Sample>, time: Scalar, state: Seq<Scalar>)
    requires
        well_formed(samples),
        extends(samples, time, state),
    ensures
        well_formed(samples.push(Sample { time, state })),
        samples.push(Sample { time, state }).subrange(0, samples.len() as int) == samples,
{
    let extended = samples.push(Sample { time, state });
    assert forall|i: int, j: int| 0 <= i < j < extended.len() implies (#[trigger] extended[i])
        .time.spec_lt((#[trigger] extended[j]).time) by {
        if j == samples.len() && i < samples.len() - 1 {
            assert(samples[i].time.spec_lt(samples[samples.len() - 1].time));
        }
    }
    assert(extended.subrange(0, samples.len() as int) =~= samples);
}

} // verus!
