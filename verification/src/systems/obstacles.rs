//! Obstacles: a timer spawns them at difficulty-scaled intervals, and every
//! step scrolls them left until they leave the screen.

use vstd::prelude::*;
use vstd::seq_lib::*;
use rand::rngs::StdRng;
use crate::components::{Obstacle, ObstacleKind};
use crate::constants::{
    CEILING_Y, CULL_X, DIFFICULTY_ONE, FLIP_SCORE, GROUND_Y, MAX_SPAWN_TIME, MIN_SPAWN_INTERVAL,
    MIN_SPAWN_TIME, OBSTACLE_SPAWN_MAX_X, OBSTACLE_SPAWN_MIN_X, OBSTACLE_SPEED,
};
use crate::random::{uniform_below, uniform_through};
use crate::resources::{Score, SpawnTimer};
use crate::timer::Timer;

verus! {

/// The random choices behind one spawn: the base time until the next spawn
/// and where the floor spike and the ceiling spike appear.
#[derive(Clone, Copy, Debug, PartialEq, Eq, Structural)]
pub struct ObstacleDraws {
    pub base_time: u64,
    pub floor_x: i64,
    pub ceiling_x: i64,
}

impl ObstacleDraws {
    /// The base time lies between the shortest and the longest spawn time,
    /// both included; both positions lie in the spawn strip, its right edge
    /// excluded.
    pub open spec fn in_range(self) -> bool {
        &&& MIN_SPAWN_TIME <= self.base_time <= MAX_SPAWN_TIME
        &&& OBSTACLE_SPAWN_MIN_X <= self.floor_x < OBSTACLE_SPAWN_MAX_X
        &&& OBSTACLE_SPAWN_MIN_X <= self.ceiling_x < OBSTACLE_SPAWN_MAX_X
    }

    /// The draws at the lower end of every range.
    pub open spec fn lowest() -> ObstacleDraws {
        ObstacleDraws {
            base_time: MIN_SPAWN_TIME,
            floor_x: OBSTACLE_SPAWN_MIN_X,
            ceiling_x: OBSTACLE_SPAWN_MIN_X,
        }
    }

    /// Draws the three choices, each on its own.
    pub fn roll(rng: &mut StdRng) -> (draws: ObstacleDraws)
        ensures
            draws.in_range(),
    {
        let base_time: u64 = uniform_through(rng, MIN_SPAWN_TIME, MAX_SPAWN_TIME);
        let floor_x: i64 = uniform_below(rng, OBSTACLE_SPAWN_MIN_X, OBSTACLE_SPAWN_MAX_X);
        let ceiling_x: i64 = uniform_below(rng, OBSTACLE_SPAWN_MIN_X, OBSTACLE_SPAWN_MAX_X);
        ObstacleDraws { base_time, floor_x, ceiling_x }
    }
}

/// The interval until the next spawn: the base time divided by the
/// difficulty, which counts in billionths (rounded down to a microsecond),
/// but never under the floor of half a second.
pub open spec fn spawn_interval(base_time: u64, difficulty: u64) -> int {
    let scaled: int = (base_time * 1_000_000_000) / (difficulty as int);
    if scaled < MIN_SPAWN_INTERVAL {
        MIN_SPAWN_INTERVAL as int
    } else {
        scaled
    }
}

/// Computes the interval until the next spawn.
pub fn next_spawn_interval(base_time: u64, difficulty: u64) -> (interval: u64)
    requires
        difficulty >= DIFFICULTY_ONE,
    ensures
        interval == spawn_interval(base_time, difficulty),
{
    let numerator: u128 = (base_time as u128) * 1_000_000_000;
    let scaled: u128 = numerator / (difficulty as u128);
    assert(scaled <= base_time) by (nonlinear_arith)
        requires
            scaled == (base_time * 1_000_000_000) / (difficulty as int),
            difficulty >= 1_000_000_000,
    ;
    if scaled < MIN_SPAWN_INTERVAL as u128 {
        MIN_SPAWN_INTERVAL
    } else {
        scaled as u64
    }
}

/// The spikes of one spawn: always one on the floor, and from the flip score
/// on one on the ceiling as well.
pub open spec fn spawned_obstacles(score: Score, draws: ObstacleDraws) -> Seq<Obstacle> {
    let floor = Obstacle { x: draws.floor_x, y: GROUND_Y, kind: ObstacleKind::Floor };
    let ceiling = Obstacle { x: draws.ceiling_x, y: CEILING_Y, kind: ObstacleKind::Ceiling };
    if score.value >= FLIP_SCORE {
        seq![floor, ceiling]
    } else {
        seq![floor]
    }
}

/// The obstacle timer and the obstacles after a step of `dt` with the given
/// draws. While the timer does not fire only the timer changes. When it
/// fires its interval becomes the one computed from the drawn base time and
/// the current difficulty, and the new spikes join the others.
pub open spec fn obstacle_spawn(
    timer: SpawnTimer,
    obstacles: Seq<Obstacle>,
    score: Score,
    dt: u32,
    draws: ObstacleDraws,
) -> (SpawnTimer, Seq<Obstacle>) {
    let ticked = timer.0.ticked(dt);
    if timer.0.fires(dt) {
        (
            SpawnTimer(
                Timer {
                    elapsed: ticked.elapsed,
                    interval: spawn_interval(draws.base_time, score.difficulty) as u64,
                },
            ),
            obstacles + spawned_obstacles(score, draws),
        )
    } else {
        (SpawnTimer(ticked), obstacles)
    }
}

/// Sets the next interval and adds the spikes of one spawn.
fn emit_obstacles(
    timer: &mut SpawnTimer,
    obstacles: &mut Vec<Obstacle>,
    score: &Score,
    draws: &ObstacleDraws,
)
    requires
        score.wf(),
    ensures
        *final(timer) == SpawnTimer(
            Timer {
                elapsed: old(timer).0.elapsed,
                interval: spawn_interval(draws.base_time, score.difficulty) as u64,
            },
        ),
        final(obstacles)@ == old(obstacles)@ + spawned_obstacles(*score, *draws),
{
    let interval: u64 = next_spawn_interval(draws.base_time, score.difficulty);
    timer.0.set_interval(interval);
    obstacles.push(Obstacle { x: draws.floor_x, y: GROUND_Y, kind: ObstacleKind::Floor });
    if score.value >= FLIP_SCORE {
        obstacles.push(Obstacle { x: draws.ceiling_x, y: CEILING_Y, kind: ObstacleKind::Ceiling });
    }
}

/// Advances the obstacle timer by `dt` and, when it fires, spawns with the
/// given draws.
pub fn spawn_obstacles_with(
    timer: &mut SpawnTimer,
    obstacles: &mut Vec<Obstacle>,
    score: &Score,
    dt: u32,
    draws: &ObstacleDraws,
)
    requires
        score.wf(),
    ensures
        (*final(timer), final(obstacles)@) == obstacle_spawn(
            *old(timer),
            old(obstacles)@,
            *score,
            dt,
            *draws,
        ),
{
    let fired: bool = timer.0.tick(dt);
    if fired {
        emit_obstacles(timer, obstacles, score, draws);
    }
}

/// Advances the obstacle timer by `dt` and, when it fires, spawns with
/// fresh draws from `rng`. Nothing is drawn while the timer does not fire.
/// Whatever is drawn, the outcome is that of `spawn_obstacles_with` for
/// some draws in range.
pub fn spawn_obstacles(
    timer: &mut SpawnTimer,
    obstacles: &mut Vec<Obstacle>,
    score: &Score,
    dt: u32,
    rng: &mut StdRng,
)
    requires
        score.wf(),
    ensures
        exists|draws: ObstacleDraws|
            draws.in_range() && (*final(timer), final(obstacles)@) == #[trigger] obstacle_spawn(
                *old(timer),
                old(obstacles)@,
                *score,
                dt,
                draws,
            ),
{
    let fired: bool = timer.0.tick(dt);
    if fired {
        let draws: ObstacleDraws = ObstacleDraws::roll(rng);
        emit_obstacles(timer, obstacles, score, &draws);
        assert((*timer, obstacles@) == obstacle_spawn(
            *old(timer),
            old(obstacles)@,
            *score,
            dt,
            draws,
        ));
    } else {
        assert((*timer, obstacles@) == obstacle_spawn(
            *old(timer),
            old(obstacles)@,
            *score,
            dt,
            ObstacleDraws::lowest(),
        ));
    }
}

/// Where a step of `dt` scrolls something that is at `x`.
pub open spec fn scrolled_x(x: i64, dt: u32) -> int {
    x + OBSTACLE_SPEED * dt
}

/// Whether something at `x` is still on the screen after a step of `dt`.
pub open spec fn stays_on_screen(x: i64, dt: u32) -> bool {
    scrolled_x(x, dt) >= CULL_X
}

/// An obstacle after a step of `dt`.
pub open spec fn scrolled_obstacle(o: Obstacle, dt: u32) -> Obstacle {
    Obstacle { x: scrolled_x(o.x, dt) as i64, ..o }
}

/// The obstacles after a step of `dt`: those that stay on the screen, in
/// their old order, each scrolled left.
pub open spec fn moved_obstacles(obstacles: Seq<Obstacle>, dt: u32) -> Seq<Obstacle> {
    obstacles.filter(|o: Obstacle| stays_on_screen(o.x, dt)).map_values(
        |o: Obstacle| scrolled_obstacle(o, dt),
    )
}

/// Scrolling moves left, and strictly so whenever time passes.
pub proof fn lemma_scroll_moves_left(x: i64, dt: u32)
    ensures
        scrolled_x(x, dt) <= x,
        dt > 0 ==> scrolled_x(x, dt) < x,
        scrolled_x(x, dt) >= x - 858_993_459_000_000_000,
{
    assert(OBSTACLE_SPEED * dt == -200_000_000 * dt) by (nonlinear_arith)
        requires
            OBSTACLE_SPEED == -200_000_000,
    ;
}

/// Scrolls every obstacle left by `OBSTACLE_SPEED * dt` and removes those
/// that end left of the cull line.
pub fn move_obstacles(obstacles: &mut Vec<Obstacle>, dt: u32)
    ensures
        final(obstacles)@ == moved_obstacles(old(obstacles)@, dt),
{
    let ghost keep = |o: Obstacle| stays_on_screen(o.x, dt);
    let ghost shift = |o: Obstacle| scrolled_obstacle(o, dt);
    let mut kept: Vec<Obstacle> = Vec::new();
    let n: usize = obstacles.len();
    let mut i: usize = 0;
    proof {
        reveal(Seq::filter);
        assert(obstacles@.take(0).filter(keep).map_values(shift) =~= kept@);
    }
    while i < n
        invariant
            i <= n,
            n == obstacles.len(),
            keep == |o: Obstacle| stays_on_screen(o.x, dt),
            shift == |o: Obstacle| scrolled_obstacle(o, dt),
            kept@ == obstacles@.take(i as int).filter(keep).map_values(shift),
        decreases n - i,
    {
        let o: Obstacle = obstacles[i];
        proof {
            lemma_scroll_moves_left(o.x, dt);
            let before = obstacles@.take(i as int);
            assert(obstacles@.take(i + 1) =~= before.push(o));
            before.lemma_filter_push(o, keep);
            if keep(o) {
                assert(before.filter(keep).push(o).map_values(shift) =~= before.filter(
                    keep,
                ).map_values(shift).push(shift(o)));
            }
        }
        let nx: i128 = o.x as i128 + (OBSTACLE_SPEED as i128) * (dt as i128);
        if nx >= CULL_X as i128 {
            kept.push(Obstacle { x: nx as i64, y: o.y, kind: o.kind });
        }
        i = i + 1;
    }
    proof {
        assert(obstacles@.take(n as int) =~= obstacles@);
    }
    *obstacles = kept;
}

/// The spawn interval never goes under its floor, never exceeds the drawn
/// base time unless the floor lifts it, and is the base time itself (or the
/// floor) at difficulty one.
pub proof fn lemma_spawn_interval_bounds(base_time: u64, difficulty: u64)
    requires
        difficulty >= DIFFICULTY_ONE,
    ensures
        spawn_interval(base_time, difficulty) >= MIN_SPAWN_INTERVAL,
        spawn_interval(base_time, difficulty) <= base_time || spawn_interval(base_time, difficulty)
            == MIN_SPAWN_INTERVAL,
        difficulty == DIFFICULTY_ONE && base_time >= MIN_SPAWN_INTERVAL ==> spawn_interval(
            base_time,
            difficulty,
        ) == base_time,
{
    let scaled: int = (base_time * 1_000_000_000) / (difficulty as int);
    assert(scaled <= base_time) by (nonlinear_arith)
        requires
            scaled == (base_time * 1_000_000_000) / (difficulty as int),
            difficulty >= 1_000_000_000,
    ;
    if difficulty == DIFFICULTY_ONE {
        assert((base_time * 1_000_000_000) / 1_000_000_000 == base_time) by (nonlinear_arith);
    }
}

/// For one and the same drawn base time, a higher difficulty never gives a
/// longer spawn interval. As this holds for every draw, it holds on average.
pub proof fn lemma_spawn_interval_shrinks(base_time: u64, easier: u64, harder: u64)
    requires
        DIFFICULTY_ONE <= easier <= harder,
    ensures
        spawn_interval(base_time, harder) <= spawn_interval(base_time, easier),
{
    let n: int = base_time * 1_000_000_000;
    let e: int = easier as int;
    let h: int = harder as int;
    assert(n / h <= n / e) by {
        vstd::arithmetic::div_mod::lemma_div_is_ordered_by_denominator(n, e, h);
    }
}

} // verus!
