//! Sprite animation: which frame of a sprite sheet is shown.

use vstd::prelude::*;
use crate::timer::{Timer, TimerMode, TimerView, NANOS_PER_MILLI};

verus! {

/// The mathematical state of a [`LoopingIncrementer`].
pub struct LoopView {
    pub start: nat,
    pub end: nat,
    pub current: nat,
}

impl LoopView {
    /// The state one step on: the next frame, or the first frame again
    /// after the last one.
    pub open spec fn next(self) -> LoopView {
        if self.current >= self.end {
            LoopView { current: self.start, ..self }
        } else {
            LoopView { current: self.current + 1, ..self }
        }
    }

    /// The current frame lies between the first and the last.
    pub open spec fn in_range(self) -> bool {
        self.start <= self.current <= self.end
    }
}

/// A counter that runs from a first frame to a last frame and starts over.
#[derive(Clone, Copy, Debug)]
pub struct LoopingIncrementer {
    start: usize,
    end: usize,
    current: usize,
}

impl View for LoopingIncrementer {
    type V = LoopView;

    closed spec fn view(&self) -> LoopView {
        LoopView { start: self.start as nat, end: self.end as nat, current: self.current as nat }
    }
}

impl LoopingIncrementer {
    /// Moves on to the next frame and hands it back.
    pub fn increment(&mut self) -> (frame: usize)
        ensures
            final(self)@ == old(self)@.next(),
            frame == final(self)@.current,
            old(self)@.in_range() ==> final(self)@.in_range(),
    {
        if self.current >= self.end {
            self.current = self.start;
        } else {
            self.current = self.current + 1;
        }
        self.current
    }

    /// The frame that is shown.
    pub fn current(&self) -> (frame: usize)
        ensures
            frame == self@.current,
    {
        self.current
    }
}

/// The timer that paces an animation: it comes round once per frame.
#[derive(Clone, Copy, Debug)]
pub struct AnimationTimer(pub Timer);

/// Makes the parts of an animation.
pub struct SpriteAnimationController;

impl SpriteAnimationController {
    /// An animation over the frames `start` to `end` that shows each frame
    /// for `ms_per_frame` milliseconds, standing at `start`.
    pub fn new(start: usize, end: usize, ms_per_frame: u64) -> (parts: (
        LoopingIncrementer,
        AnimationTimer,
    ))
        requires
            ms_per_frame > 0,
        ensures
            parts.0@ == (LoopView { start: start as nat, end: end as nat, current: start as nat }),
            parts.1.0@ == TimerView::fresh(
                ms_per_frame as nat * NANOS_PER_MILLI as nat,
                TimerMode::Repeating,
            ),
    {
        (
            LoopingIncrementer { start, end, current: start },
            AnimationTimer(Timer::from_millis(ms_per_frame, TimerMode::Repeating)),
        )
    }
}

/// Advances an animation by `delta` nanoseconds. Where the timer came round
/// in this tick, the animation moves on by one frame, and the new frame is
/// handed back.
pub fn update_animated_sprites(
    timer: &mut AnimationTimer,
    incrementer: &mut LoopingIncrementer,
    delta: u64,
) -> (frame: Option<usize>)
    ensures
        final(timer).0@ == old(timer).0@.tick(delta as nat),
        match frame {
            Some(frame) => {
                &&& final(timer).0@.finished
                &&& final(incrementer)@ == old(incrementer)@.next()
                &&& frame == final(incrementer)@.current
            },
            None => !final(timer).0@.finished && final(incrementer)@ == old(incrementer)@,
        },
{
    timer.0.tick(delta);
    if timer.0.finished() {
        Some(incrementer.increment())
    } else {
        None
    }
}

} // verus!
