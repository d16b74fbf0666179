//! Starting over after a collision.

use vstd::prelude::*;
use crate::game::Game;
use crate::resources::GameState;
use crate::systems::setup::setup;

verus! {

/// Begins a new run when "restart" is chosen after a collision: the player,
/// the obstacles and the coins are replaced by those of a fresh run and the
/// score returns to zero, while wallet and skin are kept. In any other
/// state, or without the request, the game is left alone.
pub fn restart_game(restart_pressed: bool, game: &mut Game)
    ensures
        final(game)@ == if restart_pressed && old(game).state == GameState::GameOver {
            old(game)@.fresh_run()
        } else {
            old(game)@
        },
        old(game)@.wf() ==> final(game)@.wf(),
{
    if restart_pressed && game.state == GameState::GameOver {
        game.state = GameState::Running;
        setup(game);
    }
}

} // verus!
