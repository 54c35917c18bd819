//! The player's best results, level by level.
//!
//! Two lists are kept: results that set a new best time, and results that
//! set a new best score. A finished level joins a list only where it beats
//! what the list already holds for that level.

use vstd::prelude::*;
use crate::constants::Constants;
use crate::scenes::{result_screen_nanos, EndLevelTimer};
use crate::timer::{stopwatch_after, Stopwatch, TimerMode, TimerView, NANOS_PER_MILLI};
use crate::trick_engine::Score;

verus! {

/// How one run through a level ended.
#[derive(Clone, Debug)]
pub struct LevelResult {
    pub level_id: String,
    /// Milliseconds from start to checkpoint.
    pub time: usize,
    pub score: usize,
}

/// The mathematical value of a [`LevelResult`].
pub struct LevelResultView {
    pub level_id: Seq<char>,
    pub time: nat,
    pub score: nat,
}

impl View for LevelResult {
    type V = LevelResultView;

    open spec fn view(&self) -> LevelResultView {
        LevelResultView {
            level_id: self.level_id@,
            time: self.time as nat,
            score: self.score as nat,
        }
    }
}

impl LevelResult {
    /// A copy with the same level, time and score.
    pub fn duplicate(&self) -> (copy: LevelResult)
        ensures
            copy@ == self@,
    {
        LevelResult { level_id: self.level_id.clone(), time: self.time, score: self.score }
    }
}

/// The values of a list of results, in order.
pub open spec fn views(results: Seq<LevelResult>) -> Seq<LevelResultView> {
    Seq::new(results.len(), |i: int| results[i]@)
}

/// The shortest time among the results for `level`, if there is any.
pub open spec fn best_time(results: Seq<LevelResultView>, level: Seq<char>) -> Option<nat>
    decreases results.len(),
{
    if results.len() == 0 {
        None
    } else {
        let earlier = best_time(results.drop_last(), level);
        let last = results.last();
        if last.level_id == level {
            match earlier {
                Some(best) => Some(if last.time < best { last.time } else { best }),
                None => Some(last.time),
            }
        } else {
            earlier
        }
    }
}

/// The highest score among the results for `level`, if there is any.
pub open spec fn best_score(results: Seq<LevelResultView>, level: Seq<char>) -> Option<nat>
    decreases results.len(),
{
    if results.len() == 0 {
        None
    } else {
        let earlier = best_score(results.drop_last(), level);
        let last = results.last();
        if last.level_id == level {
            match earlier {
                Some(best) => Some(if last.score > best { last.score } else { best }),
                None => Some(last.score),
            }
        } else {
            earlier
        }
    }
}

/// Whether `new` is faster than everything the list holds for its level.
pub open spec fn beats_time(results: Seq<LevelResultView>, new: LevelResultView) -> bool {
    match best_time(results, new.level_id) {
        Some(best) => new.time < best,
        None => true,
    }
}

/// Whether `new` scores higher than everything the list holds for its level.
pub open spec fn beats_score(results: Seq<LevelResultView>, new: LevelResultView) -> bool {
    match best_score(results, new.level_id) {
        Some(best) => new.score > best,
        None => true,
    }
}

/// The list of best times after `new` has been recorded.
pub open spec fn recorded_times(
    results: Seq<LevelResultView>,
    new: LevelResultView,
) -> Seq<LevelResultView> {
    if beats_time(results, new) {
        results.push(new)
    } else {
        results
    }
}

/// The list of best scores after `new` has been recorded.
pub open spec fn recorded_scores(
    results: Seq<LevelResultView>,
    new: LevelResultView,
) -> Seq<LevelResultView> {
    if beats_score(results, new) {
        results.push(new)
    } else {
        results
    }
}

/// The best time is the minimum: it is the time of some result for the
/// level, no result for the level is faster, and there is none exactly when
/// the list holds no result for the level.
pub proof fn lemma_best_time_is_minimum(results: Seq<LevelResultView>, level: Seq<char>)
    ensures
        best_time(results, level) is None <==> forall|i: int|
            0 <= i < results.len() ==> (#[trigger] results[i]).level_id != level,
        best_time(results, level) matches Some(best) ==> {
            &&& exists|i: int|
                0 <= i < results.len() && (#[trigger] results[i]).level_id == level
                    && results[i].time == best
            &&& forall|i: int|
                0 <= i < results.len() && (#[trigger] results[i]).level_id == level
                    ==> results[i].time >= best
        },
    decreases results.len(),
{
    if results.len() > 0 {
        let front = results.drop_last();
        lemma_best_time_is_minimum(front, level);
        assert(forall|i: int| 0 <= i < front.len() ==> front[i] == results[i]);
        let last = results.last();
        assert(last == results[results.len() - 1]);
        match best_time(front, level) {
            Some(earlier) => {
                let w = choose|i: int|
                    0 <= i < front.len() && (#[trigger] front[i]).level_id == level
                        && front[i].time == earlier;
                assert(results[w].level_id == level && results[w].time == earlier);
                assert forall|i: int|
                    0 <= i < results.len() && (#[trigger] results[i]).level_id
                        == level implies results[i].time >= best_time(results, level)->0 by {
                    if i < front.len() {
                        assert(front[i].level_id == level);
                    }
                }
            },
            None => {
                assert forall|i: int|
                    0 <= i < results.len() && (#[trigger] results[i]).level_id
                        == level implies i == results.len() - 1 by {
                    if i < front.len() {
                        assert(front[i].level_id != level);
                    }
                }
            },
        }
    }
}

/// The best score is the maximum: it is the score of some result for the
/// level, no result for the level is higher, and there is none exactly when
/// the list holds no result for the level.
pub proof fn lemma_best_score_is_maximum(results: Seq<LevelResultView>, level: Seq<char>)
    ensures
        best_score(results, level) is None <==> forall|i: int|
            0 <= i < results.len() ==> (#[trigger] results[i]).level_id != level,
        best_score(results, level) matches Some(best) ==> {
            &&& exists|i: int|
                0 <= i < results.len() && (#[trigger] results[i]).level_id == level
                    && results[i].score == best
            &&& forall|i: int|
                0 <= i < results.len() && (#[trigger] results[i]).level_id == level
                    ==> results[i].score <= best
        },
    decreases results.len(),
{
    if results.len() > 0 {
        let front = results.drop_last();
        lemma_best_score_is_maximum(front, level);
        assert(forall|i: int| 0 <= i < front.len() ==> front[i] == results[i]);
        let last = results.last();
        assert(last == results[results.len() - 1]);
        match best_score(front, level) {
            Some(earlier) => {
                let w = choose|i: int|
                    0 <= i < front.len() && (#[trigger] front[i]).level_id == level
                        && front[i].score == earlier;
                assert(results[w].level_id == level && results[w].score == earlier);
                assert forall|i: int|
                    0 <= i < results.len() && (#[trigger] results[i]).level_id
                        == level implies results[i].score <= best_score(results, level)->0 by {
                    if i < front.len() {
                        assert(front[i].level_id == level);
                    }
                }
            },
            None => {
                assert forall|i: int|
                    0 <= i < results.len() && (#[trigger] results[i]).level_id
                        == level implies i == results.len() - 1 by {
                    if i < front.len() {
                        assert(front[i].level_id != level);
                    }
                }
            },
        }
    }
}

/// Recording keeps the best time right: afterwards the best time of the
/// result's level is the smaller of the old best and the new time (the new
/// time where there was none), and the best time of every other level is
/// what it was.
pub proof fn lemma_recorded_best_time(results: Seq<LevelResultView>, new: LevelResultView)
    ensures
        best_time(recorded_times(results, new), new.level_id) == Some(
            match best_time(results, new.level_id) {
                Some(best) => if new.time < best {
                    new.time
                } else {
                    best
                },
                None => new.time,
            },
        ),
        forall|other: Seq<char>|
            other != new.level_id ==> #[trigger] best_time(recorded_times(results, new), other)
                == best_time(results, other),
{
    if beats_time(results, new) {
        let after = results.push(new);
        assert(after.drop_last() =~= results);
        assert(after.last() == new);
        assert forall|other: Seq<char>| other != new.level_id implies #[trigger] best_time(
            after,
            other,
        ) == best_time(results, other) by {
            assert(after.drop_last() =~= results);
        }
    }
}

/// Recording keeps the best score right: afterwards the best score of the
/// result's level is the larger of the old best and the new score (the new
/// score where there was none), and the best score of every other level is
/// what it was.
pub proof fn lemma_recorded_best_score(results: Seq<LevelResultView>, new: LevelResultView)
    ensures
        best_score(recorded_scores(results, new), new.level_id) == Some(
            match best_score(results, new.level_id) {
                Some(best) => if new.score > best {
                    new.score
                } else {
                    best
                },
                None => new.score,
            },
        ),
        forall|other: Seq<char>|
            other != new.level_id ==> #[trigger] best_score(recorded_scores(results, new), other)
                == best_score(results, other),
{
    if beats_score(results, new) {
        let after = results.push(new);
        assert(after.drop_last() =~= results);
        assert(after.last() == new);
        assert forall|other: Seq<char>| other != new.level_id implies #[trigger] best_score(
            after,
            other,
        ) == best_score(results, other) by {
            assert(after.drop_last() =~= results);
        }
    }
}

/// The shortest time among `results` for `level_id`.
pub fn find_best_time(results: &Vec<LevelResult>, level_id: &String) -> (best: Option<usize>)
    ensures
        match best {
            Some(time) => best_time(views(results@), level_id@) == Some(time as nat),
            None => best_time(views(results@), level_id@) is None,
        },
{
    let ghost all = views(results@);
    let mut best: Option<usize> = None;
    let mut i: usize = 0;
    while i < results.len()
        invariant
            all == views(results@),
            i <= results.len(),
            match best {
                Some(time) => best_time(all.take(i as int), level_id@) == Some(time as nat),
                None => best_time(all.take(i as int), level_id@) is None,
            },
        decreases results.len() - i,
    {
        proof {
            assert(all.take(i + 1).drop_last() =~= all.take(i as int));
            assert(all.take(i + 1).last() == results@[i as int]@);
        }
        let entry = &results[i];
        if entry.level_id == *level_id {
            best = match best {
                Some(time) => Some(if entry.time < time { entry.time } else { time }),
                None => Some(entry.time),
            };
        }
        i += 1;
    }
    proof {
        assert(all.take(i as int) =~= all);
    }
    best
}

/// The highest score among `results` for `level_id`.
pub fn find_best_score(results: &Vec<LevelResult>, level_id: &String) -> (best: Option<usize>)
    ensures
        match best {
            Some(score) => best_score(views(results@), level_id@) == Some(score as nat),
            None => best_score(views(results@), level_id@) is None,
        },
{
    let ghost all = views(results@);
    let mut best: Option<usize> = None;
    let mut i: usize = 0;
    while i < results.len()
        invariant
            all == views(results@),
            i <= results.len(),
            match best {
                Some(score) => best_score(all.take(i as int), level_id@) == Some(score as nat),
                None => best_score(all.take(i as int), level_id@) is None,
            },
        decreases results.len() - i,
    {
        proof {
            assert(all.take(i + 1).drop_last() =~= all.take(i as int));
            assert(all.take(i + 1).last() == results@[i as int]@);
        }
        let entry = &results[i];
        if entry.level_id == *level_id {
            best = match best {
                Some(score) => Some(if entry.score > score { entry.score } else { score }),
                None => Some(entry.score),
            };
        }
        i += 1;
    }
    proof {
        assert(all.take(i as int) =~= all);
    }
    best
}

/// The player's best results.
#[derive(Clone, Debug)]
pub struct UserStats {
    /// Results that set a new best score for their level, oldest first.
    pub level_results_points: Vec<LevelResult>,
    /// Results that set a new best time for their level, oldest first.
    pub level_results_time: Vec<LevelResult>,
}

/// The mathematical value of [`UserStats`].
pub struct UserStatsView {
    pub points: Seq<LevelResultView>,
    pub time: Seq<LevelResultView>,
}

impl View for UserStats {
    type V = UserStatsView;

    open spec fn view(&self) -> UserStatsView {
        UserStatsView {
            points: views(self.level_results_points@),
            time: views(self.level_results_time@),
        }
    }
}

impl UserStatsView {
    /// The stats after `new` has been recorded: it joins the list of times
    /// if it beats the best time of its level, and the list of scores if it
    /// beats the best score of its level.
    pub open spec fn record(self, new: LevelResultView) -> UserStatsView {
        UserStatsView {
            points: recorded_scores(self.points, new),
            time: recorded_times(self.time, new),
        }
    }
}

/// The stats of a player who has not finished a level yet: what a new
/// stats file holds.
pub fn create_user_stats_file() -> (stats: UserStats)
    ensures
        stats@.points.len() == 0,
        stats@.time.len() == 0,
{
    UserStats { level_results_points: Vec::new(), level_results_time: Vec::new() }
}

/// Records a finished level in the player's stats.
pub fn record_level_result_to_user_stats(user_stats: &mut UserStats, level_result: LevelResult)
    ensures
        final(user_stats)@ == old(user_stats)@.record(level_result@),
{
    let faster = match find_best_time(&user_stats.level_results_time, &level_result.level_id) {
        Some(best) => level_result.time < best,
        None => true,
    };
    let higher = match find_best_score(&user_stats.level_results_points, &level_result.level_id) {
        Some(best) => level_result.score > best,
        None => true,
    };
    if faster {
        let ghost before = views(user_stats.level_results_time@);
        user_stats.level_results_time.push(level_result.duplicate());
        assert(views(user_stats.level_results_time@) =~= before.push(level_result@));
    }
    if higher {
        let ghost before = views(user_stats.level_results_points@);
        user_stats.level_results_points.push(level_result);
        assert(views(user_stats.level_results_points@) =~= before.push(level_result@));
    }
}

/// The stopwatch that times the level.
#[derive(Clone, Copy, Debug)]
pub struct LevelStopwatch(pub Stopwatch);

/// The time a level took as a result holds it: the whole milliseconds on
/// the stopwatch, or as many as a result can hold where that is fewer.
pub open spec fn result_time(elapsed_nanos: nat) -> nat {
    let millis = elapsed_nanos / (NANOS_PER_MILLI as nat);
    if millis > usize::MAX {
        usize::MAX as nat
    } else {
        millis
    }
}

/// Lets `delta` nanoseconds of the level pass.
pub fn update_level_stopwatch(stopwatch: &mut LevelStopwatch, delta: u64)
    ensures
        final(stopwatch).0@ == stopwatch_after(old(stopwatch).0@, delta as nat),
{
    stopwatch.0.tick(delta);
}

/// Closes the level: the result takes the time from the stopwatch and the
/// score from the player, zero where there is no player, and keeps its
/// level; the timer of the result screen is handed back.
pub fn handle_enter_post_game(
    level_result: &mut LevelResult,
    stopwatch: &LevelStopwatch,
    score: Option<Score>,
    constants: &Constants,
) -> (timer: EndLevelTimer)
    ensures
        final(level_result)@ == (LevelResultView {
            level_id: old(level_result)@.level_id,
            time: result_time(stopwatch.0@),
            score: match score {
                Some(score) => score.0 as nat,
                None => 0,
            },
        }),
        timer.0@ == TimerView::fresh(
            result_screen_nanos(constants.post_level_secs as nat),
            TimerMode::Once,
        ),
{
    let millis = stopwatch.0.elapsed_millis();
    level_result.time = if millis > usize::MAX as u128 {
        usize::MAX
    } else {
        millis as usize
    };
    level_result.score = match score {
        Some(score) => score.0,
        None => 0,
    };
    EndLevelTimer::new(constants)
}

} // verus!
