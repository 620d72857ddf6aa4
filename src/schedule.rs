use vstd::prelude::*;

verus! {

/// Length of one tick of the publication loop, in milliseconds.
pub const TICK_MILLIS: u64 = 50;

/// Whether a message that is to go out `frequency` times a second is due
/// after `count` ticks.
pub open spec fn publication_due(count: int, frequency: u64) -> bool {
    count * TICK_MILLIS > 1000int / (frequency as int)
}

/// Counts the ticks of the publication loop and tells when the state and
/// the visualization message are due.
#[derive(Clone, Copy, Debug, PartialEq, Eq, Structural)]
pub struct PublishSchedule {
    pub state_frequency: u64,
    pub visualization_frequency: u64,
    pub state_counter: u64,
    pub visualization_counter: u64,
}

/// Which messages a tick sends.
#[derive(Clone, Copy, Debug, PartialEq, Eq, Structural)]
pub struct PublishDue {
    pub state: bool,
    pub visualization: bool,
}

impl PublishSchedule {
    /// Both frequencies are positive, and neither counter has reached its due
    /// count.
    pub open spec fn wf(self) -> bool {
        &&& self.state_frequency > 0
        &&& self.visualization_frequency > 0
        &&& !publication_due(self.state_counter as int, self.state_frequency)
        &&& !publication_due(self.visualization_counter as int, self.visualization_frequency)
    }

    /// A schedule with no tick counted yet.
    pub fn new(state_frequency: u64, visualization_frequency: u64) -> (r: PublishSchedule)
        requires
            state_frequency > 0,
            visualization_frequency > 0,
        ensures
            r.wf(),
            r.state_frequency == state_frequency,
            r.visualization_frequency == visualization_frequency,
            r.state_counter == 0,
            r.visualization_counter == 0,
    {
        PublishSchedule { state_frequency, visualization_frequency, state_counter: 0, visualization_counter: 0 }
    }

    /// Counts one tick. A message is due once its count of ticks times the
    /// tick length exceeds its period (`1000 / frequency` ms, rounded down);
    /// its count then starts again from zero.
    pub fn tick(&mut self) -> (r: PublishDue)
        requires
            old(self).wf(),
        ensures
            final(self).wf(),
            final(self).state_frequency == old(self).state_frequency,
            final(self).visualization_frequency == old(self).visualization_frequency,
            r.state == publication_due(old(self).state_counter + 1, old(self).state_frequency),
            r.visualization == publication_due(
                old(self).visualization_counter + 1,
                old(self).visualization_frequency,
            ),
            final(self).state_counter == (if r.state {
                0
            } else {
                old(self).state_counter + 1
            }),
            final(self).visualization_counter == (if r.visualization {
                0
            } else {
                old(self).visualization_counter + 1
            }),
    {
        proof {
            lemma_counter_bounded(self.state_counter, self.state_frequency);
            lemma_counter_bounded(self.visualization_counter, self.visualization_frequency);
        }
        self.state_counter = self.state_counter + 1;
        self.visualization_counter = self.visualization_counter + 1;
        let state = self.state_counter * TICK_MILLIS > 1000 / self.state_frequency;
        let visualization = self.visualization_counter * TICK_MILLIS > 1000
            / self.visualization_frequency;
        if state {
            self.state_counter = 0;
        }
        if visualization {
            self.visualization_counter = 0;
        }
        PublishDue { state, visualization }
    }
}

/// A counter that is not yet due stays below twenty-one.
proof fn lemma_counter_bounded(count: u64, frequency: u64)
    requires
        frequency > 0,
        !publication_due(count as int, frequency),
    ensures
        count <= 20,
{
    assert(1000int / (frequency as int) <= 1000) by (nonlinear_arith)
        requires
            frequency > 0,
    ;
}

} // verus!
