//! Player physics: jumping under gravity below the flip score, flipping
//! between floor and ceiling from it on.

use vstd::prelude::*;
use crate::components::{ceiling_energy, energy, energy_cap, Player};
use crate::constants::{CEILING_Y, FLIP_SCORE, FLIP_SPEED, GRAVITY, GROUND_Y, JUMP_VELOCITY};
use crate::resources::Score;

verus! {

/// Whether a score selects the flip rules rather than the gravity rules.
/// The choice depends on the score alone.
pub open spec fn flip_regime(score: Score) -> bool {
    score.value >= FLIP_SCORE
}

impl Player {
    /// Whether a jump request launches the player: only while `on_ground`
    /// is set.
    pub open spec fn launches(self, jump: bool) -> bool {
        jump && self.on_ground
    }

    /// Where a step under gravity takes the player before the floor is
    /// considered: the new velocity and the new height. A launch replaces
    /// the velocity by the jump velocity; gravity then changes the
    /// velocity, and the new velocity moves the player.
    pub open spec fn free_fall(self, dt: u32, jump: bool) -> (int, int) {
        let v0: int = if self.launches(jump) {
            JUMP_VELOCITY as int
        } else {
            self.velocity as int
        };
        let v1: int = v0 + GRAVITY * dt;
        (v1, self.y + v1 * dt)
    }

    /// One step under gravity: free fall, except that a player that would
    /// end on or below the floor line comes to rest on it. A launch clears
    /// `on_ground`, coming to rest sets it.
    pub open spec fn gravity_step(self, dt: u32, jump: bool) -> Player {
        let (v1, y1) = self.free_fall(dt, jump);
        if y1 <= GROUND_Y {
            Player { y: GROUND_Y, velocity: 0, on_ground: true, ..self }
        } else {
            Player {
                y: y1 as i64,
                velocity: v1 as i64,
                on_ground: self.on_ground && !self.launches(jump),
                ..self
            }
        }
    }

    /// The line a player heads for under the flip rules.
    pub open spec fn flip_target(flipped: bool) -> int {
        if flipped { CEILING_Y as int } else { GROUND_Y as int }
    }

    /// One step under the flip rules. A jump request toggles `flipped`, at
    /// any height. The velocity is zero, and the player travels towards its
    /// line at the flip speed, stopping exactly on the line once it is
    /// closer than one step.
    pub open spec fn flip_step(self, dt: u32, jump: bool) -> Player {
        let flipped = if jump { !self.flipped } else { self.flipped };
        let target = Player::flip_target(flipped);
        let reach: int = FLIP_SPEED * dt;
        let gap: int = self.y - target;
        let y1: int = if -reach < gap < reach {
            target
        } else if gap < 0 {
            self.y + reach
        } else {
            self.y - reach
        };
        Player { y: y1 as i64, velocity: 0, flipped, ..self }
    }

    /// One step of the player at a given score.
    pub open spec fn moved(self, score: Score, dt: u32, jump: bool) -> Player {
        if flip_regime(score) {
            self.flip_step(dt, jump)
        } else {
            self.gravity_step(dt, jump)
        }
    }
}

/// What `player_movement` makes of the player slot: an empty slot stays empty.
pub open spec fn movement(player: Option<Player>, score: Score, dt: u32, jump: bool) -> Option<
    Player,
> {
    match player {
        Some(p) => Some(p.moved(score, dt, jump)),
        None => None,
    }
}

/// Free fall for `dt` lowers the energy by `(GRAVITY * dt)^2`.
pub proof fn lemma_fall_loses_energy(y: int, v: int, dt: int)
    ensures
        energy(y + (v + GRAVITY * dt) * dt, v + GRAVITY * dt) == energy(y, v) - (GRAVITY * dt) * (
        GRAVITY * dt),
{
    let g = GRAVITY as int;
    let v1 = v + g * dt;
    assert(v1 * v1 + 1200 * (y + v1 * dt - GROUND_Y) == v * v + 1200 * (y - GROUND_Y) - (g * dt) * (
    g * dt)) by (nonlinear_arith)
        requires
            v1 == v + g * dt,
            g == -600,
    ;
}

/// A squared velocity within the energy cap fits comfortably in 64 bits.
proof fn lemma_velocity_bounded(v: int)
    requires
        v * v <= energy_cap(),
    ensures
        -1_000_000_000 <= v <= 1_000_000_000,
{
    assert(-1_000_000_000 <= v <= 1_000_000_000) by (nonlinear_arith)
        requires
            v * v <= 666_000_000_000_000_000,
    ;
}

/// A gravity step keeps a valid player valid, and what it stores fits.
pub proof fn lemma_gravity_step_wf(p: Player, dt: u32, jump: bool)
    requires
        p.wf(),
    ensures
        p.gravity_step(dt, jump).wf(),
        p.free_fall(dt, jump).1 > GROUND_Y ==> p.free_fall(dt, jump).1 <= 315_000_000_000_000
            && -1_000_000_000 <= p.free_fall(dt, jump).0 <= 1_000_000_000,
{
    let launched = jump && p.on_ground;
    let v0: int = if launched { JUMP_VELOCITY as int } else { p.velocity as int };
    let v1: int = v0 + GRAVITY * dt;
    let y1: int = p.y + v1 * dt;
    let pv = p.velocity as int;
    assert(pv * pv >= 0) by (nonlinear_arith);
    assert(launched ==> v0 * v0 == 90_000_000_000_000_000) by (nonlinear_arith)
        requires
            launched ==> v0 == 300_000_000,
    ;
    assert(energy(p.y as int, v0) <= energy_cap());
    assert(p.on_ground && !launched ==> energy(p.y as int, v0) <= ceiling_energy());
    lemma_fall_loses_energy(p.y as int, v0, dt as int);
    let lost = (GRAVITY * dt) * (GRAVITY * dt);
    assert(lost >= 0) by (nonlinear_arith)
        requires
            lost == (GRAVITY * dt) * (GRAVITY * dt),
    ;
    assert(energy(y1, v1) == energy(p.y as int, v0) - lost);
    if y1 > GROUND_Y {
        assert(v1 * v1 >= 0) by (nonlinear_arith);
        assert(v1 * v1 <= energy_cap());
        lemma_velocity_bounded(v1);
        let q = p.gravity_step(dt, jump);
        assert(q.y == y1);
        assert(q.velocity == v1);
        assert(energy(q.y as int, q.velocity as int) == energy(y1, v1));
    } else {
        let q = p.gravity_step(dt, jump);
        assert(q.velocity * q.velocity == 0) by (nonlinear_arith)
            requires
                q.velocity == 0,
        ;
    }
}

/// A flip step keeps a valid player valid and between its old height and
/// the line it heads for.
pub proof fn lemma_flip_step_wf(p: Player, dt: u32, jump: bool)
    requires
        p.wf(),
    ensures
        p.flip_step(dt, jump).wf(),
        GROUND_Y <= p.flip_step(dt, jump).y,
        p.flip_step(dt, jump).y <= p.y || p.flip_step(dt, jump).y <= CEILING_Y,
{
    let pv = p.velocity as int;
    assert(pv * pv >= 0) by (nonlinear_arith);
    assert(FLIP_SPEED * dt >= 0) by (nonlinear_arith);
    let q = p.flip_step(dt, jump);
    assert(q.velocity * q.velocity == 0) by (nonlinear_arith)
        requires
            q.velocity == 0,
    ;
}

impl Player {
    /// Advances the player by one step at the given score.
    pub fn advance(&mut self, score: &Score, dt: u32, should_jump: bool)
        requires
            old(self).wf(),
        ensures
            *final(self) == old(self).moved(*score, dt, should_jump),
            final(self).wf(),
    {
        if score.value < FLIP_SCORE {
            proof {
                lemma_gravity_step_wf(*self, dt, should_jump);
            }
            let launched: bool = should_jump && self.on_ground;
            let v0: i128 = if launched { JUMP_VELOCITY as i128 } else { self.velocity as i128 };
            let t: i128 = dt as i128;
            assert(-2_576_980_377_600 <= GRAVITY * t <= 0) by (nonlinear_arith)
                requires
                    0 <= t <= 0xffff_ffff,
                    GRAVITY == -600,
            ;
            let v1: i128 = v0 + (GRAVITY as i128) * t;
            assert(-0x1_0000_0000_0000_0000_0000_0000 <= v1 * t <= 0x1_0000_0000_0000_0000_0000_0000)
                by (nonlinear_arith)
                requires
                    0 <= t <= 0xffff_ffff,
                    -0x1_0000_0000_0000_0000 <= v1 <= 0x1_0000_0000_0000_0000,
            ;
            let y1: i128 = self.y as i128 + v1 * t;
            if y1 <= GROUND_Y as i128 {
                self.y = GROUND_Y;
                self.velocity = 0;
                self.on_ground = true;
            } else {
                self.y = y1 as i64;
                self.velocity = v1 as i64;
                if launched {
                    self.on_ground = false;
                }
            }
        } else {
            proof {
                lemma_flip_step_wf(*self, dt, should_jump);
            }
            if should_jump {
                self.flipped = !self.flipped;
            }
            let target: i128 = if self.flipped { CEILING_Y as i128 } else { GROUND_Y as i128 };
            let t: i128 = dt as i128;
            assert(0 <= FLIP_SPEED * t <= 2_147_483_647_500_000_000) by (nonlinear_arith)
                requires
                    0 <= t <= 0xffff_ffff,
                    FLIP_SPEED == 500_000_000,
            ;
            let reach: i128 = (FLIP_SPEED as i128) * t;
            let gap: i128 = self.y as i128 - target;
            let y1: i128 = if -reach < gap && gap < reach {
                target
            } else if gap < 0 {
                self.y as i128 + reach
            } else {
                self.y as i128 - reach
            };
            self.velocity = 0;
            self.y = y1 as i64;
        }
    }
}

/// Moves the player, if there is one, by one step. Below the flip score a
/// jump request launches a player whose `on_ground` is set, and gravity
/// pulls it back to the floor; from the flip score on a jump request toggles
/// between floor and ceiling. An empty slot is left alone.
pub fn player_movement(player: &mut Option<Player>, score: &Score, dt: u32, should_jump: bool)
    requires
        *old(player) matches Some(p) ==> p.wf(),
    ensures
        *final(player) == movement(*old(player), *score, dt, should_jump),
        *final(player) matches Some(p) ==> p.wf(),
{
    match *player {
        Some(p) => {
            let mut q: Player = p;
            q.advance(score, dt, should_jump);
            *player = Some(q);
        },
        None => {},
    }
}

/// The player after a sequence of steps without any jump request, each step
/// with the score it is made at and its length.
pub open spec fn coasted(p: Player, steps: Seq<(Score, u32)>) -> Player
    decreases steps.len(),
{
    if steps.len() == 0 {
        p
    } else {
        coasted(p, steps.drop_last()).moved(steps.last().0, steps.last().1, false)
    }
}

/// The time a sequence of steps takes.
pub open spec fn duration(steps: Seq<(Score, u32)>) -> int
    decreases steps.len(),
{
    if steps.len() == 0 {
        0
    } else {
        duration(steps.drop_last()) + steps.last().1
    }
}

/// Whether every step is made below the flip score.
pub open spec fn all_below_flip(steps: Seq<(Score, u32)>) -> bool {
    forall|i: int| 0 <= i < steps.len() ==> !flip_regime(#[trigger] steps[i].0)
}

/// Where free flight from height `y` with velocity `v` is after time `t`:
/// `y + v * t - g / 2 * t^2`, where `g / 2` is 300 in these units.
pub open spec fn flight_height(y: int, v: int, t: int) -> int {
    y + v * t - 300 * t * t
}

/// A step keeps a valid player valid, whatever the score and the request.
pub proof fn lemma_moved_wf(p: Player, score: Score, dt: u32, jump: bool)
    requires
        p.wf(),
    ensures
        p.moved(score, dt, jump).wf(),
{
    lemma_gravity_step_wf(p, dt, jump);
    lemma_flip_step_wf(p, dt, jump);
}

/// A player at rest on the floor stays exactly as it is under gravity while
/// no jump is requested.
pub proof fn lemma_grounded_stays(p: Player, dt: u32)
    requires
        p.grounded(),
    ensures
        p.gravity_step(dt, false) == p,
{
    let v1: int = 0 + GRAVITY * dt;
    assert(v1 * dt <= 0) by (nonlinear_arith)
        requires
            v1 == 0 + GRAVITY * dt,
            GRAVITY == -600,
            dt >= 0,
    ;
}

/// A player at rest on the floor stays there over any steps below the flip
/// score without a jump request.
pub proof fn lemma_coast_stays_grounded(p: Player, steps: Seq<(Score, u32)>)
    requires
        p.grounded(),
        all_below_flip(steps),
    ensures
        coasted(p, steps) == p,
    decreases steps.len(),
{
    if steps.len() > 0 {
        lemma_coast_stays_grounded(p, steps.drop_last());
        lemma_grounded_stays(p, steps.last().1);
    }
}

/// Over steps below the flip score without a jump request, a valid player
/// either has come to rest on the floor, or has the velocity of free flight
/// and is no higher than free flight would have taken it.
pub proof fn lemma_coast_follows_flight(p: Player, steps: Seq<(Score, u32)>)
    requires
        p.wf(),
        all_below_flip(steps),
        steps.len() > 0,
    ensures
        coasted(p, steps).wf(),
        duration(steps) >= 0,
        coasted(p, steps).grounded() || {
            &&& coasted(p, steps).y > GROUND_Y
            &&& coasted(p, steps).velocity == p.velocity + GRAVITY * duration(steps)
            &&& coasted(p, steps).y <= flight_height(
                p.y as int,
                p.velocity as int,
                duration(steps),
            )
        },
    decreases steps.len(),
{
    let earlier = steps.drop_last();
    let dt = steps.last().1;
    let prev = coasted(p, earlier);
    let tp = duration(earlier);
    let v = p.velocity as int;
    let y = p.y as int;
    if earlier.len() == 0 {
        assert(prev == p);
        assert(tp == 0);
    } else {
        lemma_coast_follows_flight(p, earlier);
    }
    assert(!flip_regime(steps[steps.len() - 1].0));
    let q = prev.gravity_step(dt, false);
    assert(coasted(p, steps) == q);
    lemma_gravity_step_wf(prev, dt, false);
    if prev.grounded() && earlier.len() > 0 {
        lemma_grounded_stays(prev, dt);
    } else {
        let v1: int = prev.velocity + GRAVITY * dt;
        let y1: int = prev.y + v1 * dt;
        let t = tp + dt;
        assert(prev.velocity == v + GRAVITY * tp) by (nonlinear_arith)
            requires
                earlier.len() == 0 ==> prev.velocity == v && tp == 0,
                earlier.len() != 0 ==> prev.velocity == v + GRAVITY * tp,
        ;
        assert(prev.y <= flight_height(y, v, tp)) by (nonlinear_arith)
            requires
                earlier.len() == 0 ==> prev.y == y && tp == 0,
                earlier.len() != 0 ==> prev.y <= flight_height(y, v, tp),
        ;
        if y1 > GROUND_Y {
            assert(q.y == y1 && q.velocity == v1);
            assert(v1 == v + GRAVITY * t) by (nonlinear_arith)
                requires
                    v1 == prev.velocity + GRAVITY * dt,
                    prev.velocity == v + GRAVITY * tp,
                    t == tp + dt,
            ;
            assert(y1 <= y + v * t - 300 * t * t) by (nonlinear_arith)
                requires
                    y1 == prev.y + v1 * dt,
                    v1 == v + GRAVITY * t,
                    GRAVITY == -600,
                    prev.y <= y + v * tp - 300 * tp * tp,
                    t == tp + dt,
                    dt >= 0,
                    tp >= 0,
            ;
        }
    }
}

/// Gravity brings the player down: over steps below the flip score without
/// a jump request, once free flight from where the player started would
/// have reached the floor line, the player is at rest on the floor.
pub proof fn lemma_fall_lands(p: Player, steps: Seq<(Score, u32)>)
    requires
        p.wf(),
        all_below_flip(steps),
        steps.len() > 0,
        flight_height(p.y as int, p.velocity as int, duration(steps)) <= GROUND_Y,
    ensures
        coasted(p, steps).grounded(),
{
    lemma_coast_follows_flight(p, steps);
}

/// Four seconds without a jump request below the flip score bring any valid
/// player to rest on the floor, and it stays there over whatever such steps
/// follow.
pub proof fn lemma_settles_within_four_seconds(
    p: Player,
    steps: Seq<(Score, u32)>,
    more: Seq<(Score, u32)>,
)
    requires
        p.wf(),
        all_below_flip(steps),
        all_below_flip(more),
        duration(steps) >= 4_000_000,
    ensures
        coasted(p, steps).grounded(),
        coasted(coasted(p, steps), more) == coasted(p, steps),
{
    let v = p.velocity as int;
    let h = p.y - GROUND_Y;
    let t = duration(steps);
    assert(v * v >= 0) by (nonlinear_arith);
    lemma_velocity_bounded(v);
    assert(h + v * t - 300 * t * t <= 0) by (nonlinear_arith)
        requires
            t >= 4_000_000,
            v <= 1_000_000_000,
            h <= 555_000_000_000_000,
    ;
    lemma_fall_lands(p, steps);
    lemma_coast_stays_grounded(coasted(p, steps), more);
}

} // verus!
