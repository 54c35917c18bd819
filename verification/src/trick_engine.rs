//! Trick recognition: a timing-gated state machine over key presses.
//!
//! Keys are collected in a buffer. When the buffer is recognised as a trick,
//! the trick is held pending and a commit timer of the trick's duration
//! starts. The trick scores when the timer runs out with the player still in
//! the air; touching the ground before that drops it.

use vstd::prelude::*;
use crate::constants::Constants;
use crate::input::{Key, PressedKeys};
use crate::probes::{GroundedCheck, Player};
use crate::timer::{Timer, TimerMode, TimerView, NANOS_PER_MILLI};
use crate::tricks::{
    first_spelling, lemma_first_spelling_wins, lemma_longer_line_defers, recognised, still_open,
    TrickDefinition, TrickDefinitionView, TrickEntry, TrickList,
};

verus! {

/// The player's score.
#[derive(Clone, Copy, Debug, PartialEq, Eq, Structural)]
pub struct Score(pub usize);

/// The directional key pressed last, and when, in milliseconds of wall-clock time.
#[derive(Clone, Copy, Debug)]
pub struct LastKeyPressed(pub (Key, usize));

/// Milliseconds after spawning during which no key is taken into the buffer.
pub const FIRST_WINDOW_MS: u64 = 500;

/// What one tick of the trick engine did.
#[derive(Clone, Copy, Debug, PartialEq, Eq, Structural)]
pub enum TrickOutcome {
    /// No key went down and nothing became due.
    Waiting,
    /// The player touched the ground inside the commit window: the pending trick is gone.
    Canceled,
    /// The commit window ran out in the air: the pending trick scored.
    Scored { points: usize },
    /// A key went down while the commit timer was running and was left out.
    Blocked,
    /// The key was taken into the buffer, which is no trick yet.
    Recorded,
    /// The buffer was recognised as a trick, which is now pending.
    Recognised,
    /// The buffer held more than one key and was no trick: it was thrown away.
    Missed,
}

/// The mathematical state of a [`Trick`].
pub struct TrickView {
    /// The recognised trick that waits for its commit timer.
    pub pending: Option<TrickDefinitionView>,
    /// The commit timer.
    pub timer: TimerView,
    /// The keys pressed so far.
    pub keys: Seq<Key>,
}

impl TrickView {
    /// The commit timer is a one-shot timer.
    pub open spec fn wf(self) -> bool {
        self.timer.mode == TimerMode::Once
    }
}

/// Everything the trick engine keeps between ticks.
pub struct EngineView {
    pub trick: TrickView,
    pub score: nat,
    pub last_key: (Key, nat),
}

/// Everything the trick engine is told in one tick.
pub struct TickInput {
    /// The trick dictionary.
    pub dict: Seq<TrickEntry>,
    /// Milliseconds after which a half-typed sequence is dropped.
    pub trick_time: nat,
    /// Whether the player stands on the ground.
    pub grounded: bool,
    /// The directional keys that went down.
    pub pressed: PressedKeys,
    /// Nanoseconds since the previous tick.
    pub delta: nat,
    /// Wall-clock time in milliseconds.
    pub now_ms: nat,
}

/// Whether the last key press is too long ago for the buffer to be kept.
pub open spec fn stale(last_ms: nat, now_ms: nat, trick_time: nat) -> bool {
    now_ms - last_ms > trick_time
}

/// One tick of the trick engine: the state after it, and what happened.
///
/// In this order: the commit timer advances; a stale buffer is emptied; a
/// pending trick is dropped if the player is on the ground with the timer
/// still running; a pending trick scores if the timer ran out in this tick;
/// otherwise the key that went down, if any, is handled. While the timer
/// runs no key is taken in. Else the key joins the buffer and the buffer is
/// looked up: a recognised trick becomes pending and restarts the timer with
/// its own duration; an unrecognised buffer of more than one key is thrown
/// away and the timer restarted; a single unrecognised key is kept.
pub open spec fn step(s: EngineView, i: TickInput) -> (EngineView, TrickOutcome) {
    let timer = s.trick.timer.tick(i.delta);
    let keys = if stale(s.last_key.1, i.now_ms, i.trick_time) {
        Seq::<Key>::empty()
    } else {
        s.trick.keys
    };
    let pending = s.trick.pending;
    if i.grounded && !timer.finished && pending is Some {
        (
            EngineView {
                trick: TrickView { pending: None, timer, keys: Seq::<Key>::empty() },
                ..s
            },
            TrickOutcome::Canceled,
        )
    } else if timer.just_finished && pending is Some {
        (
            EngineView {
                trick: TrickView { pending: None, timer, keys: Seq::<Key>::empty() },
                score: s.score + pending->0.points,
                ..s
            },
            TrickOutcome::Scored { points: pending->0.points as usize },
        )
    } else {
        match i.pressed.chosen() {
            None => (
                EngineView { trick: TrickView { pending, timer, keys }, ..s },
                TrickOutcome::Waiting,
            ),
            Some(key) => {
                let last_key = (key, i.now_ms);
                if !timer.finished {
                    if keys.len() > 1 {
                        (
                            EngineView {
                                trick: TrickView {
                                    pending,
                                    timer: timer.reset(),
                                    keys: Seq::<Key>::empty(),
                                },
                                last_key,
                                ..s
                            },
                            TrickOutcome::Blocked,
                        )
                    } else {
                        (
                            EngineView { trick: TrickView { pending, timer, keys }, last_key, ..s },
                            TrickOutcome::Blocked,
                        )
                    }
                } else {
                    let typed = keys.push(key);
                    match recognised(i.dict, typed) {
                        Some(trick) => (
                            EngineView {
                                trick: TrickView {
                                    pending: Some(trick),
                                    timer: timer.with_duration(
                                        trick.takes_ms * (NANOS_PER_MILLI as nat),
                                    ).reset(),
                                    keys: Seq::<Key>::empty(),
                                },
                                last_key,
                                ..s
                            },
                            TrickOutcome::Recognised,
                        ),
                        None => {
                            if typed.len() > 1 {
                                (
                                    EngineView {
                                        trick: TrickView {
                                            pending,
                                            timer: timer.reset(),
                                            keys: Seq::<Key>::empty(),
                                        },
                                        last_key,
                                        ..s
                                    },
                                    TrickOutcome::Missed,
                                )
                            } else {
                                (
                                    EngineView {
                                        trick: TrickView { pending, timer, keys: typed },
                                        last_key,
                                        ..s
                                    },
                                    TrickOutcome::Recorded,
                                )
                            }
                        },
                    }
                }
            },
        }
    }
}

/// The states that play can reach: the buffer holds at most one key, it is
/// empty while the commit timer runs, and a trick is pending only while the
/// commit timer runs.
pub open spec fn settled(trick: TrickView) -> bool {
    &&& trick.wf()
    &&& trick.keys.len() <= 1
    &&& !trick.timer.finished ==> trick.keys.len() == 0
    &&& trick.pending is Some ==> !trick.timer.finished
}

/// Play starts in a settled state and never leaves the settled states. So
/// a pending trick can not linger: in the tick in which its commit timer
/// runs out it scores, unless it was dropped before.
pub proof fn lemma_step_keeps_settled(s: EngineView, i: TickInput)
    requires
        settled(s.trick),
    ensures
        settled(step(s, i).0.trick),
{
    let timer = s.trick.timer.tick(i.delta);
    if s.trick.pending is Some {
        assert(!s.trick.timer.finished);
        assert(timer.finished ==> timer.just_finished);
    }
}

/// A one-shot commit timer stays a one-shot timer.
pub proof fn lemma_step_keeps_wf(s: EngineView, i: TickInput)
    requires
        s.trick.wf(),
    ensures
        step(s, i).0.trick.wf(),
{
}

/// Landing cancels: when the player is on the ground while a trick is
/// pending and its commit timer has not run out, the trick is dropped and
/// the score stays as it is.
pub proof fn lemma_landing_cancels(s: EngineView, i: TickInput)
    requires
        i.grounded,
        s.trick.pending is Some,
        !s.trick.timer.tick(i.delta).finished,
    ensures
        step(s, i).1 == TrickOutcome::Canceled,
        step(s, i).0.score == s.score,
        step(s, i).0.trick.pending is None,
        step(s, i).0.trick.keys.len() == 0,
{
}

/// A commit scores exactly the trick's points: when the commit timer runs
/// out in this tick with a trick pending, the score grows by the points of
/// that trick and by nothing else, and the trick is no longer pending.
pub proof fn lemma_commit_scores(s: EngineView, i: TickInput)
    requires
        s.trick.pending is Some,
        s.trick.timer.tick(i.delta).just_finished,
    ensures
        step(s, i).0.score == s.score + s.trick.pending->0.points,
        step(s, i).1 == (TrickOutcome::Scored { points: s.trick.pending->0.points as usize }),
        step(s, i).0.trick.pending is None,
{
}

/// The score moves in no other way: it never shrinks, and where it grows a
/// trick was pending and its commit timer ran out in this very tick.
pub proof fn lemma_score_moves_only_on_commit(s: EngineView, i: TickInput)
    ensures
        step(s, i).0.score >= s.score,
        step(s, i).0.score != s.score ==> s.trick.pending is Some && s.trick.timer.tick(
            i.delta,
        ).just_finished && step(s, i).0.score == s.score + s.trick.pending->0.points,
{
}

/// A dropped trick never scores: once nothing is pending, the score stays
/// until a new buffer has been recognised.
pub proof fn lemma_nothing_pending_nothing_scored(s: EngineView, i: TickInput)
    requires
        s.trick.pending is None,
    ensures
        step(s, i).0.score == s.score,
        step(s, i).0.trick.pending is Some ==> step(s, i).1 == TrickOutcome::Recognised,
{
}

/// The longer trick wins. With an idle engine and an empty buffer, let the
/// player press `k1` and then, before the buffer goes stale, `k2`, where
/// line `long` of the dictionary is the first to spell `[k1, k2]` and no
/// line begins with `[k1, k2]` and goes on. Then the first press commits
/// nothing, whatever one-key lines there are, and the second press makes
/// the two-key trick pending.
pub proof fn lemma_two_key_trick_is_selected(
    s: EngineView,
    first: TickInput,
    second: TickInput,
    k1: Key,
    k2: Key,
    long: int,
)
    requires
        s.trick.wf(),
        s.trick.timer.finished,
        s.trick.keys.len() == 0,
        first.pressed.chosen() == Some(k1),
        second.pressed.chosen() == Some(k2),
        second.dict == first.dict,
        second.trick_time == first.trick_time,
        second.now_ms - first.now_ms <= first.trick_time,
        first_spelling(first.dict, seq![k1, k2], long),
        !still_open(first.dict, seq![k1, k2]),
    ensures
        step(s, first).1 == TrickOutcome::Recorded,
        step(s, first).0.trick.pending == s.trick.pending,
        step(s, first).0.score == s.score,
        step(s, first).0.trick.keys == seq![k1],
        step(step(s, first).0, second).1 == TrickOutcome::Recognised,
        step(step(s, first).0, second).0.trick.pending == Some(first.dict[long].trick),
        step(step(s, first).0, second).0.score == s.score,
{
    let dict = first.dict;
    let one = Seq::<Key>::empty().push(k1);
    let two = one.push(k2);
    assert(one =~= seq![k1]);
    assert(two =~= seq![k1, k2]);
    assert(dict[long].keys.take(1) =~= one);
    lemma_longer_line_defers(dict, one, long);
    lemma_first_spelling_wins(dict, two, long);
    let keys0 = if stale(s.last_key.1, first.now_ms, first.trick_time) {
        Seq::<Key>::empty()
    } else {
        s.trick.keys
    };
    assert(keys0 =~= Seq::<Key>::empty());
    let mid = step(s, first).0;
    assert(mid.trick.keys == one);
    assert(mid.last_key.1 == first.now_ms);
    assert(!stale(mid.last_key.1, second.now_ms, second.trick_time));
}

/// The trick state of one player: the key buffer, the pending trick and the
/// commit timer.
#[derive(Clone, Debug)]
pub struct Trick {
    last_trick_definition: Option<TrickDefinition>,
    last_trick_over: Timer,
    keys: Vec<Key>,
}

impl View for Trick {
    type V = TrickView;

    closed spec fn view(&self) -> TrickView {
        TrickView {
            pending: match self.last_trick_definition {
                Some(trick) => Some(trick@),
                None => None,
            },
            timer: self.last_trick_over@,
            keys: self.keys@,
        }
    }
}

impl Trick {
    /// The state at spawn: empty buffer, nothing pending, and a first
    /// window of [`FIRST_WINDOW_MS`] running.
    pub fn new() -> (trick: Trick)
        ensures
            trick@ == (TrickView {
                pending: None,
                timer: TimerView::fresh(
                    FIRST_WINDOW_MS as nat * NANOS_PER_MILLI as nat,
                    TimerMode::Once,
                ),
                keys: Seq::<Key>::empty(),
            }),
            trick@.wf(),
            settled(trick@),
    {
        Trick {
            keys: Vec::new(),
            last_trick_definition: None,
            last_trick_over: Timer::from_millis(FIRST_WINDOW_MS, TimerMode::Once),
        }
    }

    /// Puts `key` at the end of the buffer.
    pub fn add_key(&mut self, key: Key)
        ensures
            final(self)@ == (TrickView { keys: old(self)@.keys.push(key), ..old(self)@ }),
            old(self)@.wf() ==> final(self)@.wf(),
    {
        self.keys.push(key);
    }

    /// The trick that waits for its commit timer, if any.
    pub fn pending(&self) -> (pending: Option<&TrickDefinition>)
        ensures
            match pending {
                Some(trick) => self@.pending == Some(trick@),
                None => self@.pending is None,
            },
    {
        self.last_trick_definition.as_ref()
    }

    /// The keys pressed so far.
    pub fn keys(&self) -> (keys: &Vec<Key>)
        ensures
            keys@ == self@.keys,
    {
        &self.keys
    }

    /// The commit timer.
    pub fn timer(&self) -> (timer: &Timer)
        ensures
            timer@ == self@.timer,
    {
        &self.last_trick_over
    }
}

/// The state that [`trick_manager`] is about to work on.
pub open spec fn engine_view(trick: Trick, score: Score, last: LastKeyPressed) -> EngineView {
    EngineView { trick: trick@, score: score.0 as nat, last_key: (last.0.0, last.0.1 as nat) }
}

/// What [`trick_manager`] is told in one tick.
pub open spec fn tick_input(
    trick_list: TrickList,
    constants: Constants,
    ground: GroundedCheck,
    player: Player,
    pressed: PressedKeys,
    delta: u64,
    now_ms: usize,
) -> TickInput {
    TickInput {
        dict: trick_list@,
        trick_time: constants.trick_time as nat,
        grounded: player.is_grounded(ground.0@, constants.grounded_threshold as int),
        pressed,
        delta: delta as nat,
        now_ms: now_ms as nat,
    }
}

/// Runs the trick engine for one tick.
///
/// `delta` is the length of the tick in nanoseconds, `now_ms` the wall-clock
/// time in milliseconds. The trick state must be one that [`Trick::new`] and
/// this function produce, and the score must have room for the pending
/// trick's points.
pub fn trick_manager(
    trick: &mut Trick,
    score: &mut Score,
    last_key_pressed: &mut LastKeyPressed,
    trick_list: &TrickList,
    constants: &Constants,
    ground: &GroundedCheck,
    player: &Player,
    pressed: PressedKeys,
    delta: u64,
    now_ms: usize,
) -> (outcome: TrickOutcome)
    requires
        old(trick)@.wf(),
        old(trick)@.pending matches Some(pending) ==> old(score).0 + pending.points <= usize::MAX,
    ensures
        (engine_view(*final(trick), *final(score), *final(last_key_pressed)), outcome) == step(
            engine_view(*old(trick), *old(score), *old(last_key_pressed)),
            tick_input(*trick_list, *constants, *ground, *player, pressed, delta, now_ms),
        ),
        final(trick)@.wf(),
{
    trick.last_trick_over.tick(delta);
    let last_ms = last_key_pressed.0.1;
    if now_ms > last_ms && (now_ms - last_ms) as u64 > constants.trick_time {
        trick.keys.clear();
    }
    let grounded = player.grounded(ground, constants.grounded_threshold);
    if grounded && !trick.last_trick_over.finished() && trick.last_trick_definition.is_some() {
        trick.keys.clear();
        trick.last_trick_definition = None;
        return TrickOutcome::Canceled;
    }
    if trick.last_trick_over.just_finished() {
        let points = match &trick.last_trick_definition {
            Some(pending) => Some(pending.points),
            None => None,
        };
        if let Some(points) = points {
            score.0 = score.0 + points;
            trick.keys.clear();
            trick.last_trick_definition = None;
            return TrickOutcome::Scored { points };
        }
    }
    let key = match pressed.pick() {
        Some(key) => key,
        None => {
            return TrickOutcome::Waiting;
        },
    };
    last_key_pressed.0 = (key, now_ms);
    if !trick.last_trick_over.finished() {
        if trick.keys.len() > 1 {
            trick.keys.clear();
            trick.last_trick_over.reset();
        }
        return TrickOutcome::Blocked;
    }
    trick.keys.push(key);
    let found = match trick_list.find_trick(&trick.keys) {
        Some(definition) => Some(definition.duplicate()),
        None => None,
    };
    match found {
        Some(definition) => {
            trick.keys.clear();
            trick.last_trick_over.set_duration_millis(definition.takes_ms as u64);
            trick.last_trick_over.reset();
            trick.last_trick_definition = Some(definition);
            TrickOutcome::Recognised
        },
        None => {
            if trick.keys.len() > 1 {
                trick.keys.clear();
                trick.last_trick_over.reset();
                TrickOutcome::Missed
            } else {
                TrickOutcome::Recorded
            }
        },
    }
}

} // verus!
