//! State that outlives single entities: the screen the game is on, the
//! score, the wallet and the equipped skin.

use vstd::prelude::*;
use crate::constants::{DIFFICULTY_ONE, DIFFICULTY_PER_SCORE, MAX_SCORE, START_INTERVAL};
use crate::timer::Timer;

verus! {

/// Which screen the game is on.
#[derive(Clone, Copy, Debug, PartialEq, Eq, Hash, Structural)]
pub enum GameState {
    Menu,
    Running,
    GameOver,
}

impl Default for GameState {
    fn default() -> (s: GameState)
        ensures
            s == GameState::Menu,
    {
        GameState::Menu
    }
}

/// The timer that paces the obstacles.
#[derive(Clone, Copy, Debug, PartialEq, Eq, Structural)]
pub struct SpawnTimer(pub Timer);

impl SpawnTimer {
    /// The obstacle timer as a run starts.
    pub open spec fn fresh() -> SpawnTimer {
        SpawnTimer(Timer { elapsed: 0, interval: START_INTERVAL })
    }
}

impl Default for SpawnTimer {
    fn default() -> (t: SpawnTimer)
        ensures
            t == SpawnTimer::fresh(),
    {
        SpawnTimer(Timer::new(START_INTERVAL))
    }
}

/// Difficulty that belongs to a score: one whole step more for every 500 points.
pub open spec fn difficulty_at(value: int) -> int {
    DIFFICULTY_ONE + DIFFICULTY_PER_SCORE * value
}

/// The score of the current run and the difficulty derived from it.
#[derive(Clone, Copy, Debug, PartialEq, Eq, Structural)]
pub struct Score {
    /// Score, in score units.
    pub value: u64,
    /// Difficulty multiplier, in billionths.
    pub difficulty: u64,
}

impl Score {
    /// The difficulty always is the one that belongs to the score.
    pub open spec fn wf(self) -> bool {
        self.value <= MAX_SCORE && self.difficulty == difficulty_at(self.value as int)
    }

    /// The score a run starts with.
    pub open spec fn zero() -> Score {
        Score { value: 0, difficulty: DIFFICULTY_ONE }
    }

    /// Checks validity at run time.
    pub fn is_valid(&self) -> (ok: bool)
        ensures
            ok == self.wf(),
    {
        self.value <= MAX_SCORE && self.difficulty == DIFFICULTY_ONE + DIFFICULTY_PER_SCORE
            * self.value
    }
}

impl Default for Score {
    fn default() -> (s: Score)
        ensures
            s == Score::zero(),
            s.wf(),
    {
        Score { value: 0, difficulty: DIFFICULTY_ONE }
    }
}

/// Coins the player owns. They survive a restart.
#[derive(Clone, Copy, Debug, PartialEq, Eq, Structural)]
pub struct CoinWallet {
    pub coins: u32,
}

impl Default for CoinWallet {
    fn default() -> (w: CoinWallet)
        ensures
            w.coins == 0,
    {
        CoinWallet { coins: 0 }
    }
}

/// A colour with eight bits per channel.
#[derive(Clone, Copy, Debug, PartialEq, Eq, Structural)]
pub struct Color {
    pub r: u8,
    pub g: u8,
    pub b: u8,
    pub a: u8,
}

impl Color {
    /// Opaque white, the skin every player starts with.
    pub open spec fn white() -> Color {
        Color { r: 255, g: 255, b: 255, a: 255 }
    }

    /// The green of the skin sold in the shop.
    pub open spec fn green() -> Color {
        Color { r: 51, g: 204, b: 51, a: 255 }
    }
}

/// The skin the player wears. It survives a restart.
#[derive(Clone, Copy, Debug, PartialEq, Eq, Structural)]
pub struct CurrentSkin {
    pub color: Color,
}

impl Default for CurrentSkin {
    fn default() -> (s: CurrentSkin)
        ensures
            s.color == Color::white(),
    {
        CurrentSkin { color: Color { r: 255, g: 255, b: 255, a: 255 } }
    }
}

} // verus!
