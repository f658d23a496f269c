use vstd::prelude::*;

use crate::min_int;

verus! {

/// Whether a timer stops at its duration or starts over.
#[derive(Clone, Copy, Debug, PartialEq, Eq, Structural)]
pub enum TimerMode {
    Once,
    Repeating,
}

/// A timer measured in nanoseconds.
///
/// A `Once` timer counts up to its duration and then stays finished; a
/// `Repeating` timer wraps around and reports each time it passes its duration.
#[derive(Clone, Copy, Debug)]
pub struct Timer {
    pub duration: u64,
    pub elapsed: u64,
    pub mode: TimerMode,
    pub finished: bool,
    pub just_finished: bool,
}

impl Timer {
    /// The duration is positive. A `Once` timer never runs past its
    /// duration and is finished exactly when it has reached it; a `Repeating`
    /// timer stays below its duration.
    pub open spec fn wf(self) -> bool {
        &&& self.duration > 0
        &&& self.mode == TimerMode::Once ==> self.elapsed <= self.duration && (self.finished
            <==> self.elapsed == self.duration)
        &&& self.mode == TimerMode::Repeating ==> self.elapsed < self.duration
    }

    /// The timer after `delta` nanoseconds have passed.
    pub open spec fn ticked(self, delta: int) -> Timer {
        let total = self.elapsed + delta;
        match self.mode {
            TimerMode::Once => {
                if self.finished {
                    Timer { just_finished: false, ..self }
                } else {
                    let done = total >= self.duration;
                    Timer {
                        elapsed: min_int(total, self.duration as int) as u64,
                        finished: done,
                        just_finished: done,
                        ..self
                    }
                }
            },
            TimerMode::Repeating => {
                if total >= self.duration {
                    Timer {
                        elapsed: (total % (self.duration as int)) as u64,
                        finished: true,
                        just_finished: true,
                        ..self
                    }
                } else {
                    Timer { elapsed: total as u64, finished: false, just_finished: false, ..self }
                }
            },
        }
    }

    /// The timer set back to its start.
    pub open spec fn restarted(self) -> Timer {
        Timer { elapsed: 0, finished: false, just_finished: false, ..self }
    }

    /// A fresh timer: nothing elapsed, not finished.
    pub open spec fn new_spec(duration: u64, mode: TimerMode) -> Timer {
        Timer { duration, elapsed: 0, mode, finished: false, just_finished: false }
    }

    pub fn new(duration: u64, mode: TimerMode) -> (r: Timer)
        requires
            duration > 0,
        ensures
            r == Timer::new_spec(duration, mode),
            r.wf(),
    {
        Timer { duration, elapsed: 0, mode, finished: false, just_finished: false }
    }

    /// Advances the timer by `delta` nanoseconds.
    pub fn tick(&mut self, delta: u64)
        requires
            old(self).wf(),
        ensures
            *final(self) == old(self).ticked(delta as int),
            final(self).wf(),
    {
        match self.mode {
            TimerMode::Once => {
                if self.finished {
                    self.just_finished = false;
                } else {
                    let total: u128 = self.elapsed as u128 + delta as u128;
                    let done = total >= self.duration as u128;
                    self.elapsed = if done { self.duration } else { total as u64 };
                    self.finished = done;
                    self.just_finished = done;
                }
            },
            TimerMode::Repeating => {
                let total: u128 = self.elapsed as u128 + delta as u128;
                if total >= self.duration as u128 {
                    self.elapsed = (total % (self.duration as u128)) as u64;
                    self.finished = true;
                    self.just_finished = true;
                } else {
                    self.elapsed = total as u64;
                    self.finished = false;
                    self.just_finished = false;
                }
            },
        }
    }

    /// Sets the elapsed time back to zero and clears both finished flags.
    pub fn reset(&mut self)
        ensures
            *final(self) == old(self).restarted(),
            old(self).wf() ==> final(self).wf(),
    {
        self.elapsed = 0;
        self.finished = false;
        self.just_finished = false;
    }

    pub fn finished(&self) -> (r: bool)
        ensures
            r == self.finished,
    {
        self.finished
    }

    pub fn just_finished(&self) -> (r: bool)
        ensures
            r == self.just_finished,
    {
        self.just_finished
    }
}

/// Time passing keeps a well-formed timer well-formed and never changes its
/// duration or mode.
pub proof fn lemma_ticked_wf(t: Timer, delta: int)
    requires
        t.wf(),
        delta >= 0,
    ensures
        t.ticked(delta).wf(),
        t.ticked(delta).duration == t.duration,
        t.ticked(delta).mode == t.mode,
{
}

} // verus!
