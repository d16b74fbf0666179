//! The score grows with time while a run is on, and the difficulty follows it.

use vstd::prelude::*;
use crate::constants::{DIFFICULTY_ONE, DIFFICULTY_PER_SCORE, MAX_SCORE, SCORE_RATE};
use crate::resources::{difficulty_at, GameState, Score};

verus! {

/// The score value after `dt` more of play: ten points per second, up to
/// the largest score.
pub open spec fn score_after(value: u64, dt: u32) -> u64 {
    if value + SCORE_RATE * dt > MAX_SCORE {
        MAX_SCORE
    } else {
        (value + SCORE_RATE * dt) as u64
    }
}

/// The score after a step of `dt` in the given state: it grows only while
/// the game is running, and the difficulty is derived anew from the value.
pub open spec fn updated_score(score: Score, state: GameState, dt: u32) -> Score {
    if state == GameState::Running {
        let value = score_after(score.value, dt);
        Score { value, difficulty: difficulty_at(value as int) as u64 }
    } else {
        score
    }
}

/// Advances the score by a step of `dt`. Outside a run the score is frozen.
pub fn update_score(score: &mut Score, state: GameState, dt: u32)
    requires
        old(score).wf(),
    ensures
        *final(score) == updated_score(*old(score), state, dt),
        final(score).wf(),
        final(score).value >= old(score).value,
        final(score).difficulty >= old(score).difficulty,
{
    if state == GameState::Running {
        let gain: u64 = SCORE_RATE * (dt as u64);
        let value: u64 = if gain > MAX_SCORE - score.value {
            MAX_SCORE
        } else {
            score.value + gain
        };
        score.value = value;
        score.difficulty = DIFFICULTY_ONE + DIFFICULTY_PER_SCORE * value;
    }
}

/// The score after a sequence of steps, each with the state it is made in.
pub open spec fn score_over(score: Score, steps: Seq<(GameState, u32)>) -> Score
    decreases steps.len(),
{
    if steps.len() == 0 {
        score
    } else {
        updated_score(score_over(score, steps.drop_last()), steps.last().0, steps.last().1)
    }
}

/// One step never lowers the score or the difficulty, and keeps the score valid.
pub proof fn lemma_step_never_lowers(score: Score, state: GameState, dt: u32)
    requires
        score.wf(),
    ensures
        updated_score(score, state, dt).wf(),
        updated_score(score, state, dt).value >= score.value,
        updated_score(score, state, dt).difficulty >= score.difficulty,
{
}

/// Difficulty is monotonic in time: over any steps of one run, the
/// difficulty after more of them is at least the difficulty after fewer.
pub proof fn lemma_difficulty_monotonic(
    score: Score,
    steps: Seq<(GameState, u32)>,
    earlier: int,
    later: int,
)
    requires
        score.wf(),
        0 <= earlier <= later <= steps.len(),
    ensures
        score_over(score, steps.take(later)).wf(),
        score_over(score, steps.take(earlier)).value <= score_over(score, steps.take(later)).value,
        score_over(score, steps.take(earlier)).difficulty <= score_over(
            score,
            steps.take(later),
        ).difficulty,
    decreases later - earlier,
{
    if earlier == later {
        lemma_score_over_wf(score, steps.take(later));
    } else {
        lemma_difficulty_monotonic(score, steps, earlier, later - 1);
        let longer = steps.take(later);
        assert(longer.drop_last() =~= steps.take(later - 1));
        lemma_step_never_lowers(
            score_over(score, steps.take(later - 1)),
            longer.last().0,
            longer.last().1,
        );
    }
}

/// A valid score stays valid over any steps.
pub proof fn lemma_score_over_wf(score: Score, steps: Seq<(GameState, u32)>)
    requires
        score.wf(),
    ensures
        score_over(score, steps).wf(),
    decreases steps.len(),
{
    if steps.len() > 0 {
        lemma_score_over_wf(score, steps.drop_last());
        lemma_step_never_lowers(
            score_over(score, steps.drop_last()),
            steps.last().0,
            steps.last().1,
        );
    }
}

} // verus!
