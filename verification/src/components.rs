//! The entities of a run: the player, the obstacles and the coins.

use vstd::prelude::*;
use crate::constants::{GROUND_Y, PLAYER_X};

verus! {

/// The player: a box anchored at `(x, y)` with a vertical velocity.
#[derive(Clone, Copy, Debug, PartialEq, Eq, Structural)]
pub struct Player {
    pub x: i64,
    pub y: i64,
    pub velocity: i64,
    pub on_ground: bool,
    pub flipped: bool,
}

/// Whether an obstacle stands on the floor or hangs from the ceiling.
#[derive(Clone, Copy, Debug, PartialEq, Eq, Structural)]
pub enum ObstacleKind {
    Floor,
    Ceiling,
}

/// A spike: a box anchored at `(x, y)`.
#[derive(Clone, Copy, Debug, PartialEq, Eq, Structural)]
pub struct Obstacle {
    pub x: i64,
    pub y: i64,
    pub kind: ObstacleKind,
}

/// A coin at `(x, y)`.
#[derive(Clone, Copy, Debug, PartialEq, Eq, Structural)]
pub struct Coin {
    pub x: i64,
    pub y: i64,
}

/// Squared velocity a player would reach by falling from `y` to the floor
/// line with vertical velocity `velocity`: `velocity^2 + 2 * g * (y - GROUND_Y)`,
/// where `2 * g` is 1200 in these units. Free fall never increases it.
pub open spec fn energy(y: int, velocity: int) -> int {
    velocity * velocity + 1200 * (y - GROUND_Y)
}

/// Energy of a player at rest on the ceiling line.
pub open spec fn ceiling_energy() -> int {
    576_000_000_000_000_000
}

/// Energy of a player that has just jumped off the ceiling line; no valid
/// player has more.
pub open spec fn energy_cap() -> int {
    666_000_000_000_000_000
}

impl Player {
    /// A valid player is on or above the floor line and its energy is
    /// bounded: by that of a jump from the ceiling line in general, and by
    /// that of resting on the ceiling line while `on_ground` is set (so that
    /// a jump keeps it within the general bound).
    pub open spec fn wf(self) -> bool {
        &&& self.y >= GROUND_Y
        &&& energy(self.y as int, self.velocity as int) <= energy_cap()
        &&& self.on_ground ==> energy(self.y as int, self.velocity as int) <= ceiling_energy()
    }

    /// A player at rest on the floor.
    pub open spec fn grounded(self) -> bool {
        self.y == GROUND_Y && self.velocity == 0 && self.on_ground
    }

    /// The player as a run starts: at rest on the floor, not flipped.
    pub open spec fn spawned() -> Player {
        Player { x: PLAYER_X, y: GROUND_Y, velocity: 0, on_ground: true, flipped: false }
    }

    /// Creates the player as a run starts.
    pub fn new() -> (p: Player)
        ensures
            p == Player::spawned(),
            p.wf(),
            p.grounded(),
    {
        Player { x: PLAYER_X, y: GROUND_Y, velocity: 0, on_ground: true, flipped: false }
    }

    /// Checks validity at run time.
    pub fn is_valid(&self) -> (ok: bool)
        ensures
            ok == self.wf(),
    {
        if self.y < GROUND_Y {
            return false;
        }
        let v: i128 = self.velocity as i128;
        let h: i128 = self.y as i128 - GROUND_Y as i128;
        assert(v * v <= 0x4000_0000_0000_0000_0000_0000_0000_0000) by (nonlinear_arith)
            requires
                -0x8000_0000_0000_0000 <= v <= 0x8000_0000_0000_0000,
        ;
        assert(0 <= v * v) by (nonlinear_arith);
        let e: i128 = v * v + 1200 * h;
        if self.on_ground {
            e <= 576_000_000_000_000_000
        } else {
            e <= 666_000_000_000_000_000
        }
    }
}

} // verus!
