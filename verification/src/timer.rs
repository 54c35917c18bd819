//! Tick-driven timers.
//!
//! A timer counts elapsed nanoseconds towards a duration. It never reads a
//! clock: time only passes when `tick` is handed the length of the frame.

use vstd::prelude::*;

verus! {

/// Nanoseconds in one millisecond.
pub const NANOS_PER_MILLI: u128 = 1_000_000;

/// The largest number of nanoseconds a timer can hold: `u64::MAX` milliseconds.
pub const MAX_NANOS: u128 = 18_446_744_073_709_551_615_000_000;

/// What a timer does when it reaches its duration.
#[derive(Clone, Copy, Debug, PartialEq, Eq, Structural)]
pub enum TimerMode {
    /// Stops at the duration and stays finished until reset.
    Once,
    /// Wraps around, carrying the excess over into the next round.
    Repeating,
}

/// The mathematical state of a [`Timer`].
pub struct TimerView {
    pub duration: nat,
    pub elapsed: nat,
    pub finished: bool,
    pub just_finished: bool,
    pub mode: TimerMode,
}

impl TimerView {
    /// A fresh timer: nothing elapsed, not finished.
    pub open spec fn fresh(duration: nat, mode: TimerMode) -> TimerView {
        TimerView { duration, elapsed: 0, finished: false, just_finished: false, mode }
    }

    /// The state after `delta` nanoseconds have passed.
    ///
    /// A finished one-shot timer stays as it is, except that the
    /// "just finished" edge is cleared. A repeating timer keeps the remainder.
    pub open spec fn tick(self, delta: nat) -> TimerView {
        match self.mode {
            TimerMode::Once => {
                if self.finished {
                    TimerView { just_finished: false, ..self }
                } else if self.elapsed + delta >= self.duration {
                    TimerView {
                        elapsed: self.duration,
                        finished: true,
                        just_finished: true,
                        ..self
                    }
                } else {
                    TimerView {
                        elapsed: self.elapsed + delta,
                        finished: false,
                        just_finished: false,
                        ..self
                    }
                }
            },
            TimerMode::Repeating => {
                if self.elapsed + delta >= self.duration {
                    TimerView {
                        elapsed: (self.elapsed + delta) % self.duration,
                        finished: true,
                        just_finished: true,
                        ..self
                    }
                } else {
                    TimerView {
                        elapsed: self.elapsed + delta,
                        finished: false,
                        just_finished: false,
                        ..self
                    }
                }
            },
        }
    }

    /// The state after a reset: the duration and mode stay.
    pub open spec fn reset(self) -> TimerView {
        TimerView::fresh(self.duration, self.mode)
    }

    /// The state with another duration; nothing else changes.
    pub open spec fn with_duration(self, duration: nat) -> TimerView {
        TimerView { duration, ..self }
    }

    /// Nanoseconds still to go; zero once the duration is reached.
    pub open spec fn remaining(self) -> nat {
        if self.elapsed >= self.duration {
            0
        } else {
            (self.duration - self.elapsed) as nat
        }
    }
}

/// The sum of a run of tick lengths.
pub open spec fn total(deltas: Seq<nat>) -> nat
    decreases deltas.len(),
{
    if deltas.len() == 0 {
        0
    } else {
        total(deltas.drop_last()) + deltas.last()
    }
}

impl TimerView {
    /// The state after a run of ticks, one after the other.
    pub open spec fn ticked(self, deltas: Seq<nat>) -> TimerView
        decreases deltas.len(),
    {
        if deltas.len() == 0 {
            self
        } else {
            self.ticked(deltas.drop_last()).tick(deltas.last())
        }
    }
}

/// A one-shot timer is a countdown: started fresh and ticked at least once,
/// it is finished exactly when the ticks add up to its duration or more,
/// and what has elapsed is the sum of the ticks, capped at the duration.
/// How the time is cut into ticks makes no difference.
pub proof fn lemma_one_shot_timer_counts_down(duration: nat, deltas: Seq<nat>)
    requires
        deltas.len() > 0,
    ensures
        ({
            let timer = TimerView::fresh(duration, TimerMode::Once).ticked(deltas);
            &&& timer.finished <==> total(deltas) >= duration
            &&& timer.elapsed == if total(deltas) >= duration {
                duration
            } else {
                total(deltas)
            }
            &&& timer.duration == duration
            &&& timer.mode == TimerMode::Once
        }),
    decreases deltas.len(),
{
    let fresh = TimerView::fresh(duration, TimerMode::Once);
    let front = deltas.drop_last();
    if front.len() == 0 {
        assert(fresh.ticked(front) == fresh);
        assert(total(front) == 0);
    } else {
        lemma_one_shot_timer_counts_down(duration, front);
    }
}

/// A one-shot timer reports that it has just finished in one tick only:
/// the tick in which it finishes. In every later tick it is finished, and
/// has not just finished.
pub proof fn lemma_one_shot_timer_finishes_once(timer: TimerView, delta: nat)
    requires
        timer.mode == TimerMode::Once,
    ensures
        timer.tick(delta).just_finished <==> !timer.finished && timer.tick(delta).finished,
        timer.finished ==> timer.tick(delta).finished,
{
}

/// A timer that is advanced by explicit ticks.
#[derive(Clone, Copy, Debug)]
pub struct Timer {
    duration: u128,
    elapsed: u128,
    finished: bool,
    just_finished: bool,
    mode: TimerMode,
}

impl View for Timer {
    type V = TimerView;

    closed spec fn view(&self) -> TimerView {
        TimerView {
            duration: self.duration as nat,
            elapsed: self.elapsed as nat,
            finished: self.finished,
            just_finished: self.just_finished,
            mode: self.mode,
        }
    }
}

impl Timer {
    #[verifier::type_invariant]
    spec fn inv(self) -> bool {
        &&& self.duration <= MAX_NANOS
        &&& self.elapsed <= MAX_NANOS
        &&& self.mode == TimerMode::Repeating ==> self.duration > 0
    }

    /// A fresh timer of `millis` milliseconds.
    pub fn from_millis(millis: u64, mode: TimerMode) -> (timer: Timer)
        requires
            mode == TimerMode::Repeating ==> millis > 0,
        ensures
            timer@ == TimerView::fresh(millis as nat * NANOS_PER_MILLI as nat, mode),
    {
        let duration: u128 = millis as u128 * NANOS_PER_MILLI;
        Timer { duration, elapsed: 0, finished: false, just_finished: false, mode }
    }

    /// A fresh timer of `nanos` nanoseconds.
    pub fn from_nanos(nanos: u64, mode: TimerMode) -> (timer: Timer)
        requires
            mode == TimerMode::Repeating ==> nanos > 0,
        ensures
            timer@ == TimerView::fresh(nanos as nat, mode),
    {
        Timer { duration: nanos as u128, elapsed: 0, finished: false, just_finished: false, mode }
    }

    /// Lets `delta` nanoseconds pass.
    pub fn tick(&mut self, delta: u64)
        ensures
            final(self)@ == old(self)@.tick(delta as nat),
    {
        proof {
            use_type_invariant(&*self);
        }
        let total: u128 = self.elapsed + delta as u128;
        let reached: bool = total >= self.duration;
        let next = match self.mode {
            TimerMode::Once => {
                if self.finished {
                    Timer { just_finished: false, ..*self }
                } else if reached {
                    Timer { elapsed: self.duration, finished: true, just_finished: true, ..*self }
                } else {
                    Timer { elapsed: total, finished: false, just_finished: false, ..*self }
                }
            },
            TimerMode::Repeating => {
                if reached {
                    Timer {
                        elapsed: total % self.duration,
                        finished: true,
                        just_finished: true,
                        ..*self
                    }
                } else {
                    Timer { elapsed: total, finished: false, just_finished: false, ..*self }
                }
            },
        };
        *self = next;
    }

    /// Starts over: nothing elapsed, not finished.
    pub fn reset(&mut self)
        ensures
            final(self)@ == old(self)@.reset(),
    {
        proof {
            use_type_invariant(&*self);
        }
        *self = Timer { elapsed: 0, finished: false, just_finished: false, ..*self };
    }

    /// Replaces the duration by `millis` milliseconds. What has elapsed stays,
    /// so a running timer should be reset afterwards.
    pub fn set_duration_millis(&mut self, millis: u64)
        requires
            old(self)@.mode == TimerMode::Repeating ==> millis > 0,
        ensures
            final(self)@ == old(self)@.with_duration(millis as nat * NANOS_PER_MILLI as nat),
    {
        proof {
            use_type_invariant(&*self);
        }
        let duration: u128 = millis as u128 * NANOS_PER_MILLI;
        *self = Timer { duration, ..*self };
    }

    /// Whether the duration has been reached.
    pub fn finished(&self) -> (done: bool)
        ensures
            done == self@.finished,
    {
        self.finished
    }

    /// Whether the duration was reached by the latest tick.
    pub fn just_finished(&self) -> (edge: bool)
        ensures
            edge == self@.just_finished,
    {
        self.just_finished
    }

    /// The duration in nanoseconds.
    pub fn duration(&self) -> (nanos: u128)
        ensures
            nanos == self@.duration,
            nanos <= MAX_NANOS,
    {
        proof {
            use_type_invariant(self);
        }
        self.duration
    }

    /// The elapsed time in nanoseconds.
    pub fn elapsed(&self) -> (nanos: u128)
        ensures
            nanos == self@.elapsed,
            nanos <= MAX_NANOS,
    {
        proof {
            use_type_invariant(self);
        }
        self.elapsed
    }

    /// Nanoseconds still to go.
    pub fn remaining(&self) -> (nanos: u128)
        ensures
            nanos == self@.remaining(),
    {
        if self.elapsed >= self.duration {
            0
        } else {
            self.duration - self.elapsed
        }
    }

    /// The mode the timer was made with.
    pub fn mode(&self) -> (mode: TimerMode)
        ensures
            mode == self@.mode,
    {
        self.mode
    }
}

/// A stopwatch: it adds up the ticks it is given.
#[derive(Clone, Copy, Debug)]
pub struct Stopwatch {
    elapsed: u128,
}

/// What a stopwatch shows after `delta` more nanoseconds: the sum, as far
/// as the stopwatch can count.
pub open spec fn stopwatch_after(elapsed: nat, delta: nat) -> nat {
    if elapsed + delta > u128::MAX {
        u128::MAX as nat
    } else {
        elapsed + delta
    }
}

impl View for Stopwatch {
    type V = nat;

    closed spec fn view(&self) -> nat {
        self.elapsed as nat
    }
}

impl Stopwatch {
    /// A stopwatch at zero.
    pub fn new() -> (watch: Stopwatch)
        ensures
            watch@ == 0,
    {
        Stopwatch { elapsed: 0 }
    }

    /// Lets `delta` nanoseconds pass.
    pub fn tick(&mut self, delta: u64)
        ensures
            final(self)@ == stopwatch_after(old(self)@, delta as nat),
    {
        if self.elapsed > u128::MAX - delta as u128 {
            self.elapsed = u128::MAX;
        } else {
            self.elapsed = self.elapsed + delta as u128;
        }
    }

    /// Back to zero.
    pub fn reset(&mut self)
        ensures
            final(self)@ == 0,
    {
        self.elapsed = 0;
    }

    /// The nanoseconds counted so far.
    pub fn elapsed(&self) -> (nanos: u128)
        ensures
            nanos == self@,
    {
        self.elapsed
    }

    /// The whole milliseconds counted so far.
    pub fn elapsed_millis(&self) -> (millis: u128)
        ensures
            millis == self@ / (NANOS_PER_MILLI as nat),
    {
        self.elapsed / NANOS_PER_MILLI
    }
}

} // verus!
