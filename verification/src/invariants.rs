//! What holds of every tick and of every sequence of ticks.

use vstd::prelude::*;
use crate::game::{Draws, TickInput, World};
use crate::resources::{GameState, Score};
use crate::systems::collision::crashed;
use crate::components::Player;
use crate::systems::movement::{
    all_below_flip, coasted, duration, flip_regime, lemma_moved_wf,
    lemma_settles_within_four_seconds, movement,
};
use crate::systems::score::lemma_step_never_lowers;

verus! {

/// The state after a sequence of ticks, each with its input and its draws.
pub open spec fn played(w: World, ticks: Seq<(TickInput, Draws)>) -> World
    decreases ticks.len(),
{
    if ticks.len() == 0 {
        w
    } else {
        played(w, ticks.drop_last()).stepped(ticks.last().0, ticks.last().1)
    }
}

/// Whether "restart" is chosen on none of the ticks.
pub open spec fn never_restarted(ticks: Seq<(TickInput, Draws)>) -> bool {
    forall|i: int| 0 <= i < ticks.len() ==> !(#[trigger] ticks[i]).0.restart_pressed
}

/// A tick keeps a valid state valid, and keeps a player in every state but
/// the menu.
pub proof fn lemma_tick_keeps_valid(w: World, input: TickInput, draws: Draws)
    requires
        w.wf(),
    ensures
        w.stepped(input, draws).wf(),
        w.populated() ==> w.stepped(input, draws).populated(),
{
    if w.state == GameState::Running {
        let jump = w.jump_edge(input);
        match w.player {
            Some(p) => {
                lemma_moved_wf(p, w.score, input.dt, jump);
            },
            None => {},
        }
        lemma_step_never_lowers(w.score, GameState::Running, input.dt);
    }
}

/// The state machine has exactly these transitions. The menu is left only
/// for a run, and only by "play". A run ends only in a collision. After a
/// collision only "restart" leads on, and it leads to a run. No tick leads
/// back to the menu.
pub proof fn lemma_transitions(w: World, input: TickInput, draws: Draws)
    ensures
        w.state == GameState::Menu ==> w.stepped(input, draws).state == if input.play_pressed {
            GameState::Running
        } else {
            GameState::Menu
        },
        w.state == GameState::Running ==> w.stepped(input, draws).state == if crashed(
            w.in_flight(input.dt, w.jump_edge(input), draws).player,
            w.in_flight(input.dt, w.jump_edge(input), draws).obstacles,
        ) {
            GameState::GameOver
        } else {
            GameState::Running
        },
        w.state == GameState::GameOver ==> w.stepped(input, draws).state == if input.restart_pressed {
            GameState::Running
        } else {
            GameState::GameOver
        },
        w.state != GameState::Menu ==> w.stepped(input, draws).state != GameState::Menu,
{
}

/// A tick that begins a run, from the menu or after a collision, sets the
/// score to zero and the difficulty to one, puts the player at rest on the
/// floor, and leaves no obstacle and no coin.
pub proof fn lemma_run_begins_fresh(w: World, input: TickInput, draws: Draws)
    requires
        w.state == GameState::Menu && input.play_pressed || w.state == GameState::GameOver
            && input.restart_pressed,
    ensures
        w.stepped(input, draws).state == GameState::Running,
        w.stepped(input, draws).score == Score::zero(),
        w.stepped(input, draws).player == Some(Player::spawned()),
        w.stepped(input, draws).obstacles.len() == 0,
        w.stepped(input, draws).coins.len() == 0,
{
}

/// Beginning a run never touches wallet or skin: on a tick on which nothing
/// is bought, a restart leaves both as they were.
pub proof fn lemma_restart_keeps_wallet_and_skin(w: World, input: TickInput, draws: Draws)
    requires
        w.state == GameState::GameOver,
        input.restart_pressed,
        !input.buy_pressed,
    ensures
        w.stepped(input, draws).wallet == w.wallet,
        w.stepped(input, draws).skin == w.skin,
{
}

/// The tick on which a run ends removes every obstacle and every coin and
/// leaves the score as it was; and while the game is over and is not
/// restarted the score does not move.
pub proof fn lemma_score_frozen_when_over(w: World, input: TickInput, draws: Draws)
    requires
        w.state != GameState::Menu,
        w.stepped(input, draws).state == GameState::GameOver,
    ensures
        w.stepped(input, draws).score == w.score,
        w.state == GameState::Running ==> w.stepped(input, draws).obstacles.len() == 0
            && w.stepped(input, draws).coins.len() == 0,
{
}

/// Holding the jump key gives one jump request, not one per tick. With no
/// controller involved, the first tick on which the key is down requests a
/// jump only if the key was up before, and a second tick on which it is
/// still down requests none: it ends exactly as it would with the key up,
/// apart from the snapshot of the key that it leaves behind.
pub proof fn lemma_held_jump_requests_once(
    w: World,
    first: TickInput,
    first_draws: Draws,
    second: TickInput,
    second_draws: Draws,
)
    requires
        first.jump_held,
        second.jump_held,
        !first.jump_signalled,
        !second.jump_signalled,
    ensures
        w.jump_edge(first) == !w.jump_was_held,
        !w.stepped(first, first_draws).jump_edge(second),
        w.stepped(first, first_draws).stepped(second, second_draws) == (World {
            jump_was_held: true,
            ..w.stepped(first, first_draws).stepped(
                TickInput { jump_held: false, ..second },
                second_draws,
            )
        }),
{
}

/// The player of a running game moves by the jump request of the tick:
/// the key going down, or a controller's signal.
pub proof fn lemma_player_moves_by_edge(w: World, input: TickInput, draws: Draws)
    requires
        w.state == GameState::Running,
    ensures
        w.stepped(input, draws).player == movement(
            w.player,
            w.score,
            input.dt,
            input.jump_held && !w.jump_was_held || input.jump_signalled,
        ),
{
}

/// Outside the menu, a tick without "restart" never lowers the score or the
/// difficulty.
pub proof fn lemma_tick_never_lowers_difficulty(w: World, input: TickInput, draws: Draws)
    requires
        w.wf(),
        w.state != GameState::Menu,
        !input.restart_pressed,
    ensures
        w.stepped(input, draws).score.value >= w.score.value,
        w.stepped(input, draws).score.difficulty >= w.score.difficulty,
{
    lemma_step_never_lowers(w.score, GameState::Running, input.dt);
}

/// Any number of ticks keeps a valid state valid, and never leads back to
/// the menu.
pub proof fn lemma_played_keeps_valid(w: World, ticks: Seq<(TickInput, Draws)>)
    requires
        w.wf(),
    ensures
        played(w, ticks).wf(),
        w.populated() ==> played(w, ticks).populated(),
        w.state != GameState::Menu ==> played(w, ticks).state != GameState::Menu,
    decreases ticks.len(),
{
    if ticks.len() > 0 {
        lemma_played_keeps_valid(w, ticks.drop_last());
        lemma_tick_keeps_valid(played(w, ticks.drop_last()), ticks.last().0, ticks.last().1);
    }
}

/// Difficulty is monotonic over a run: from any state outside the menu,
/// over ticks without "restart", the difficulty after more ticks is at
/// least the difficulty after fewer, and so is the score.
pub proof fn lemma_difficulty_monotonic_over_ticks(
    w: World,
    ticks: Seq<(TickInput, Draws)>,
    earlier: int,
    later: int,
)
    requires
        w.wf(),
        w.state != GameState::Menu,
        never_restarted(ticks),
        0 <= earlier <= later <= ticks.len(),
    ensures
        played(w, ticks.take(earlier)).score.value <= played(w, ticks.take(later)).score.value,
        played(w, ticks.take(earlier)).score.difficulty <= played(
            w,
            ticks.take(later),
        ).score.difficulty,
    decreases later - earlier,
{
    if earlier < later {
        lemma_difficulty_monotonic_over_ticks(w, ticks, earlier, later - 1);
        let longer = ticks.take(later);
        let shorter = ticks.take(later - 1);
        assert(longer.drop_last() =~= shorter);
        assert(longer.last() == ticks[later - 1]);
        lemma_played_keeps_valid(w, shorter);
        lemma_tick_never_lowers_difficulty(played(w, shorter), longer.last().0, longer.last().1);
    }
}

/// Whether no tick carries a jump request: the key is up and no controller
/// signals.
pub open spec fn never_jumped(ticks: Seq<(TickInput, Draws)>) -> bool {
    forall|i: int|
        0 <= i < ticks.len() ==> !(#[trigger] ticks[i]).0.jump_held && !ticks[i].0.jump_signalled
}

/// Whether every tick finds the game running, with a score below the flip
/// score.
pub open spec fn runs_below_flip(w: World, ticks: Seq<(TickInput, Draws)>) -> bool {
    forall|i: int|
        0 <= i < ticks.len() ==> (#[trigger] played(w, ticks.take(i))).state == GameState::Running
            && !flip_regime(played(w, ticks.take(i)).score)
}

/// The steps the player makes over the ticks: each with the score the tick
/// finds and the length of the tick.
pub open spec fn steps_of(w: World, ticks: Seq<(TickInput, Draws)>) -> Seq<(Score, u32)> {
    Seq::new(ticks.len(), |i: int| (played(w, ticks.take(i)).score, ticks[i].0.dt))
}

/// The time a sequence of ticks takes.
pub open spec fn time_of(ticks: Seq<(TickInput, Draws)>) -> int
    decreases ticks.len(),
{
    if ticks.len() == 0 {
        0
    } else {
        time_of(ticks.drop_last()) + ticks.last().0.dt
    }
}

/// While the game runs below the flip score and nobody asks for a jump,
/// the player of the game moves exactly as a coasting player does.
pub proof fn lemma_idle_run_coasts(w: World, p: Player, ticks: Seq<(TickInput, Draws)>)
    requires
        w.player == Some(p),
        never_jumped(ticks),
        runs_below_flip(w, ticks),
    ensures
        played(w, ticks).player == Some(coasted(p, steps_of(w, ticks))),
        all_below_flip(steps_of(w, ticks)),
        duration(steps_of(w, ticks)) == time_of(ticks),
    decreases ticks.len(),
{
    let steps = steps_of(w, ticks);
    assert forall|i: int| 0 <= i < steps.len() implies !flip_regime(#[trigger] steps[i].0) by {
        assert(played(w, ticks.take(i)).state == GameState::Running);
    }
    if ticks.len() > 0 {
        let shorter = ticks.drop_last();
        let n = shorter.len() as int;
        assert forall|i: int| 0 <= i < n implies (#[trigger] played(w, shorter.take(i))).state
            == GameState::Running && !flip_regime(played(w, shorter.take(i)).score) by {
            assert(shorter.take(i) =~= ticks.take(i));
            assert(played(w, ticks.take(i)).state == GameState::Running);
        }
        assert forall|i: int| 0 <= i < n implies !(#[trigger] shorter[i]).0.jump_held
            && !shorter[i].0.jump_signalled by {
            assert(shorter[i] == ticks[i]);
        }
        lemma_idle_run_coasts(w, p, shorter);
        assert(steps_of(w, shorter) =~= steps.drop_last()) by {
            assert forall|i: int| 0 <= i < n implies steps_of(w, shorter)[i] == steps[i] by {
                assert(shorter.take(i) =~= ticks.take(i));
            }
        }
        assert(ticks.take(n) =~= shorter);
        let before = played(w, shorter);
        assert(before == played(w, ticks.take(n)));
        assert(before.state == GameState::Running);
        assert(!ticks[n].0.jump_held && !ticks[n].0.jump_signalled);
        assert(steps.last() == (before.score, ticks.last().0.dt));
    }
}

/// Gravity brings the player of a game down and keeps it down: while the
/// game runs below the flip score and nobody asks for a jump, after four
/// seconds the player is at rest on the floor.
pub proof fn lemma_idle_run_lands(w: World, p: Player, ticks: Seq<(TickInput, Draws)>)
    requires
        w.player == Some(p),
        p.wf(),
        never_jumped(ticks),
        runs_below_flip(w, ticks),
        time_of(ticks) >= 4_000_000,
    ensures
        played(w, ticks).player matches Some(q) && q.grounded(),
{
    lemma_idle_run_coasts(w, p, ticks);
    lemma_settles_within_four_seconds(p, steps_of(w, ticks), Seq::empty());
}

} // verus!
