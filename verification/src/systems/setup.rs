//! What a run starts from.

use vstd::prelude::*;
use crate::components::Player;
use crate::game::Game;
use crate::resources::{Score, SpawnTimer};
use crate::systems::coin::CoinSpawnTimer;

verus! {

/// Prepares a run: puts a player at rest on the floor, removes whatever
/// obstacles and coins are left, sets the score to zero and the difficulty
/// to one, and starts both spawn timers anew. The state, the wallet, the
/// skin and the shop are not touched.
pub fn setup(game: &mut Game)
    ensures
        final(game)@ == old(game)@.set_up(),
        final(game)@.wf(),
{
    game.player = Some(Player::new());
    game.obstacles.clear();
    game.coins.clear();
    game.score = Score::default();
    game.spawn_timer = SpawnTimer::default();
    game.coin_timer = CoinSpawnTimer::default();
}

} // verus!
