//! Collision between the player and the obstacles, and the end of a run.

use vstd::prelude::*;
use crate::components::{Coin, Obstacle, Player};
use crate::constants::{OBSTACLE_SIZE, PLAYER_SIZE};
use crate::resources::{GameState, Score};

verus! {

/// Whether the player's box and an obstacle's box overlap: neither lies
/// wholly left of, right of, below or above the other. Boxes that only
/// touch do not overlap.
pub open spec fn overlaps(p: Player, o: Obstacle) -> bool {
    &&& p.x < o.x + OBSTACLE_SIZE
    &&& p.x + PLAYER_SIZE > o.x
    &&& p.y < o.y + OBSTACLE_SIZE
    &&& p.y + PLAYER_SIZE > o.y
}

/// Decides whether the player's box and an obstacle's box overlap.
pub fn boxes_overlap(p: &Player, o: &Obstacle) -> (hit: bool)
    ensures
        hit == overlaps(*p, *o),
{
    let px: i128 = p.x as i128;
    let py: i128 = p.y as i128;
    let ox: i128 = o.x as i128;
    let oy: i128 = o.y as i128;
    px < ox + OBSTACLE_SIZE as i128 && px + PLAYER_SIZE as i128 > ox && py < oy
        + OBSTACLE_SIZE as i128 && py + PLAYER_SIZE as i128 > oy
}

/// Whether the player overlaps at least one of the obstacles.
pub open spec fn hits_any(p: Player, obstacles: Seq<Obstacle>) -> bool {
    exists|i: int| 0 <= i < obstacles.len() && overlaps(p, #[trigger] obstacles[i])
}

/// Whether a step ends the run: there is a player and it overlaps an obstacle.
pub open spec fn crashed(player: Option<Player>, obstacles: Seq<Obstacle>) -> bool {
    match player {
        Some(p) => hits_any(p, obstacles),
        None => false,
    }
}

/// Decides whether the player overlaps at least one of the obstacles. The
/// search stops at the first hit.
pub fn hits_obstacle(p: &Player, obstacles: &Vec<Obstacle>) -> (hit: bool)
    ensures
        hit == hits_any(*p, obstacles@),
{
    let n: usize = obstacles.len();
    let mut i: usize = 0;
    while i < n
        invariant
            i <= n,
            n == obstacles.len(),
            forall|j: int| 0 <= j < i ==> !overlaps(*p, #[trigger] obstacles@[j]),
        decreases n - i,
    {
        if boxes_overlap(p, &obstacles[i]) {
            return true;
        }
        i = i + 1;
    }
    false
}

/// Ends the run when the player overlaps an obstacle: the state becomes
/// `GameOver`, every obstacle and every coin is removed, and the final score
/// is returned for display. Otherwise, and without a player, nothing changes
/// and `None` is returned.
pub fn check_collisions(
    state: &mut GameState,
    score: &Score,
    player: &Option<Player>,
    obstacles: &mut Vec<Obstacle>,
    coins: &mut Vec<Coin>,
) -> (final_score: Option<u64>)
    ensures
        crashed(*player, old(obstacles)@) ==> {
            &&& *final(state) == GameState::GameOver
            &&& final(obstacles)@ == Seq::<Obstacle>::empty()
            &&& final(coins)@ == Seq::<Coin>::empty()
            &&& final_score == Some(score.value)
        },
        !crashed(*player, old(obstacles)@) ==> {
            &&& *final(state) == *old(state)
            &&& final(obstacles)@ == old(obstacles)@
            &&& final(coins)@ == old(coins)@
            &&& final_score is None
        },
{
    match player {
        Some(p) => {
            if hits_obstacle(p, obstacles) {
                *state = GameState::GameOver;
                obstacles.clear();
                coins.clear();
                Some(score.value)
            } else {
                None
            }
        },
        None => None,
    }
}

/// A box overlaps an obstacle box at the same position.
pub proof fn lemma_overlaps_at_same_position(p: Player, o: Obstacle)
    requires
        p.x == o.x,
        p.y == o.y,
    ensures
        overlaps(p, o),
{
}

/// Boxes that are a full box side or more apart on either axis do not overlap.
pub proof fn lemma_no_overlap_when_apart(p: Player, o: Obstacle)
    requires
        p.x - o.x >= OBSTACLE_SIZE || o.x - p.x >= PLAYER_SIZE || p.y - o.y >= OBSTACLE_SIZE || o.y
            - p.y >= PLAYER_SIZE,
    ensures
        !overlaps(p, o),
{
}

/// The overlap test gives the same answer whichever of the two equal-sized
/// boxes is taken for the player.
pub proof fn lemma_overlap_is_symmetric(p: Player, o: Obstacle)
    ensures
        overlaps(p, o) == overlaps(
            Player { x: o.x, y: o.y, ..p },
            Obstacle { x: p.x, y: p.y, ..o },
        ),
{
}

} // verus!
