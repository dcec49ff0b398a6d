//! The clock that decides when the next generation is due, independently of
//! how often the host draws a frame.

use vstd::prelude::*;

verus! {

/// A clock as a mathematical value. Times and the interval are counted in one
/// unit of the caller's choice, from an origin of the caller's choice.
pub struct Pace {
    /// The time that must pass between two generations.
    pub interval: nat,
    /// The time at which the last generation was accepted.
    pub last_step: nat,
}

impl Pace {
    /// A generation is due at `now`: at least `interval` has passed since the
    /// last one. A `now` that lies before the last step is never due.
    pub open spec fn due(self, now: nat) -> bool {
        now - self.last_step >= self.interval
    }

    /// The clock after a generation was accepted at `now`.
    pub open spec fn record(self, now: nat) -> Pace {
        Pace { last_step: now, ..self }
    }
}

/// Paces the simulation at a fixed interval.
pub struct SimulationClock {
    interval: u64,
    last_step: u64,
}

impl View for SimulationClock {
    type V = Pace;

    closed spec fn view(&self) -> Pace {
        Pace { interval: self.interval as nat, last_step: self.last_step as nat }
    }
}

impl SimulationClock {
    /// A clock with the given interval whose last step was at `now`.
    pub fn new(interval: u64, now: u64) -> (clock: SimulationClock)
        ensures
            clock@ == (Pace { interval: interval as nat, last_step: now as nat }),
    {
        SimulationClock { interval, last_step: now }
    }

    /// The time that must pass between two generations.
    pub fn interval(&self) -> (interval: u64)
        ensures
            interval == self@.interval,
    {
        self.interval
    }

    /// The time at which the last generation was accepted.
    pub fn last_step(&self) -> (last_step: u64)
        ensures
            last_step == self@.last_step,
    {
        self.last_step
    }

    /// Whether a generation is due at `now`. The caller that acts on `true`
    /// records the step with `record_step`.
    pub fn should_step(&self, now: u64) -> (due: bool)
        ensures
            due == self@.due(now as nat),
        no_unwind
    {
        now >= self.last_step && now - self.last_step >= self.interval
    }

    /// Makes `now` the time from which the next interval is measured.
    pub fn record_step(&mut self, now: u64)
        ensures
            final(self)@ == old(self)@.record(now as nat),
        no_unwind
    {
        self.last_step = now;
    }
}

/// Right after a step is recorded at `now`, no step is due at that same
/// `now`, provided the interval is not zero: with an interval of zero a step
/// is due at every moment from the last one on.
pub proof fn lemma_not_due_at_recorded_time(pace: Pace, now: nat)
    requires
        pace.interval > 0,
    ensures
        !pace.record(now).due(now),
{
}

/// After a step is recorded at `now`, the next one is due exactly from the
/// moment on at which the interval has passed.
pub proof fn lemma_due_once_interval_elapsed(pace: Pace, now: nat, later: nat)
    ensures
        pace.record(now).due(later) <==> later - now >= pace.interval,
        pace.record(now).interval == pace.interval,
{
}

} // verus!
