//! Countdown timers advanced once per tick by the elapsed time.
//!
//! Durations are whole microseconds. A repeating timer whose tick crosses
//! several completion boundaries counts every one of them in
//! `times_finished` and keeps the remainder as its new elapsed time; the
//! systems that react to a completion react once per tick.
use vstd::prelude::*;
use vstd::arithmetic::div_mod::{lemma_mod_add_multiples_vanish, lemma_div_plus_one, lemma_mod_pos_bound};

verus! {

/// Sum of a run of tick lengths.
pub open spec fn total_time(deltas: Seq<u64>) -> nat
    decreases deltas.len(),
{
    if deltas.len() == 0 {
        0
    } else {
        total_time(deltas.drop_last()) + deltas.last() as nat
    }
}

#[derive(Clone, Copy, Debug, PartialEq, Eq, Structural)]
pub struct Timer {
    /// Length of one run, in microseconds.
    pub duration: u64,
    /// Time accumulated in the current run, in microseconds.
    pub elapsed: u64,
    /// Whether the timer starts over after each completion.
    pub repeating: bool,
    /// Set by the tick that completes a run; a one-shot timer keeps it.
    pub finished: bool,
    /// Completions counted by the latest tick.
    pub times_finished: u64,
}

impl Timer {
    pub open spec fn wf(self) -> bool {
        &&& self.elapsed <= self.duration
        &&& (self.repeating && self.duration > 0 ==> self.elapsed < self.duration)
        &&& (!self.repeating && self.finished ==> self.elapsed == self.duration)
    }

    /// The timer after one tick of `delta` microseconds.
    pub open spec fn ticked(self, delta: nat) -> Timer {
        let total = self.elapsed + delta;
        if !self.repeating && self.finished {
            Timer { times_finished: 0, ..self }
        } else if total < self.duration {
            Timer { elapsed: total as u64, finished: false, times_finished: 0, ..self }
        } else if !self.repeating {
            Timer { elapsed: self.duration, finished: true, times_finished: 1, ..self }
        } else if self.duration == 0 {
            Timer { elapsed: 0, finished: true, times_finished: 1, ..self }
        } else {
            Timer {
                elapsed: (total % (self.duration as int)) as u64,
                finished: true,
                times_finished: (total / (self.duration as int)) as u64,
                ..self
            }
        }
    }

    /// A tick keeps a well-formed timer well-formed.
    pub proof fn lemma_ticked_wf(self, delta: nat)
        requires
            self.wf(),
        ensures
            self.ticked(delta).wf(),
    {
        if self.repeating && self.duration > 0 {
            lemma_mod_pos_bound(self.elapsed + delta, self.duration as int);
        }
    }

    pub open spec fn is_fresh(self) -> bool {
        self.elapsed == 0 && !self.finished && self.times_finished == 0
    }

    /// A timer that has not run yet.
    pub fn new(duration: u64, repeating: bool) -> (r: Timer)
        ensures
            r.wf(),
            r.is_fresh(),
            r.duration == duration,
            r.repeating == repeating,
    {
        Timer { duration, elapsed: 0, repeating, finished: false, times_finished: 0 }
    }

    /// Advances the timer by `delta` microseconds.
    pub fn tick(&mut self, delta: u64)
        requires
            old(self).wf(),
        ensures
            *final(self) == old(self).ticked(delta as nat),
            final(self).wf(),
    {
        if !self.repeating && self.finished {
            self.times_finished = 0;
            return;
        }
        let remaining = self.duration - self.elapsed;
        if delta < remaining {
            self.elapsed = self.elapsed + delta;
            self.finished = false;
            self.times_finished = 0;
        } else if !self.repeating {
            self.elapsed = self.duration;
            self.finished = true;
            self.times_finished = 1;
        } else if self.duration == 0 {
            self.elapsed = 0;
            self.finished = true;
            self.times_finished = 1;
        } else {
            let over = delta - remaining;
            proof {
                let d = self.duration as int;
                let total = self.elapsed + delta;
                assert(total == d + over);
                lemma_mod_add_multiples_vanish(over as int, d);
                lemma_div_plus_one(over as int, d);
            }
            self.elapsed = over % self.duration;
            self.finished = true;
            self.times_finished = 1 + over / self.duration;
        }
    }

    /// Whether the latest tick completed at least one run.
    pub fn just_finished(&self) -> (r: bool)
        ensures
            r == (self.times_finished > 0),
    {
        self.times_finished > 0
    }

    /// Whether the timer has completed (a repeating timer: in the latest tick).
    pub fn finished(&self) -> (r: bool)
        ensures
            r == self.finished,
    {
        self.finished
    }
}

} // verus!
