use flip_runner::components::{Coin, Obstacle, ObstacleKind};
use flip_runner::constants::{
    CEILING_Y, COIN_INTERVAL, CULL_X, DIFFICULTY_ONE, FLIP_SCORE, GROUND_Y, MAX_SPAWN_TIME,
    MIN_SPAWN_INTERVAL, MIN_SPAWN_TIME, POINT, SECOND, START_INTERVAL, UNIT,
};
use flip_runner::resources::{Score, SpawnTimer};
use flip_runner::systems::coin::{move_coins, spawn_coins, spawn_coins_with, CoinSpawnTimer};
use flip_runner::systems::obstacles::{
    move_obstacles, next_spawn_interval, spawn_obstacles, spawn_obstacles_with, ObstacleDraws,
};
use flip_runner::timer::Timer;
use rand::rngs::StdRng;
use rand::SeedableRng;

fn score_at(points: u64) -> Score {
    Score { value: points * POINT, difficulty: DIFFICULTY_ONE + 2 * points * POINT }
}

fn draws(base_time: u64, floor: i64, ceiling: i64) -> ObstacleDraws {
    ObstacleDraws { base_time, floor_x: floor * UNIT, ceiling_x: ceiling * UNIT }
}

#[test]
fn timer_counts_up_and_fires() {
    let mut timer = Timer::new(1_000_000);
    assert!(!timer.tick(400_000));
    assert_eq!(timer.elapsed, 400_000);
    assert!(!timer.tick(599_999));
    assert_eq!(timer.elapsed, 999_999);
    assert!(timer.tick(1));
    assert_eq!(timer.elapsed, 0);
}

#[test]
fn timer_keeps_the_overshoot() {
    let mut timer = Timer::new(1_000_000);
    assert!(timer.tick(1_100_000));
    assert_eq!(timer.elapsed, 100_000);
    assert!(!timer.tick(800_000));
    assert_eq!(timer.elapsed, 900_000);
    assert!(timer.tick(600_000));
    assert_eq!(timer.elapsed, 500_000);
    assert!(timer.tick(3_700_000));
    assert_eq!(timer.elapsed, 200_000);
}

#[test]
fn timer_with_zero_interval_always_fires() {
    let mut timer = Timer::new(0);
    assert!(timer.tick(0));
    assert!(timer.tick(5));
    assert_eq!(timer.elapsed, 0);
}

#[test]
fn timer_without_time_does_not_fire_early() {
    let mut timer = Timer::new(10);
    assert!(!timer.tick(0));
    assert_eq!(timer.elapsed, 0);
}

#[test]
fn timer_survives_extreme_values() {
    let mut timer = Timer { elapsed: u64::MAX - 1, interval: u64::MAX };
    assert!(timer.tick(u32::MAX));
    assert_eq!(timer.elapsed, u32::MAX as u64 - 1);
}

#[test]
fn shortened_round_ends_on_the_next_tick() {
    let mut timer = Timer::new(2_000_000);
    assert!(!timer.tick(1_500_000));
    timer.set_interval(1_000_000);
    assert_eq!(timer.elapsed, 1_500_000);
    assert!(timer.tick(0));
    assert_eq!(timer.elapsed, 500_000);
    timer.reset();
    assert_eq!(timer, Timer { elapsed: 0, interval: 1_000_000 });
}

#[test]
fn spawn_interval_examples() {
    assert_eq!(next_spawn_interval(3_000_000, DIFFICULTY_ONE), 3_000_000);
    assert_eq!(next_spawn_interval(1_000_000, DIFFICULTY_ONE), 1_000_000);
    assert_eq!(next_spawn_interval(3_000_000, 1_100_000_000), 2_727_272);
    assert_eq!(next_spawn_interval(2_000_000, 2 * DIFFICULTY_ONE), 1_000_000);
    assert_eq!(next_spawn_interval(1_000_000, 3 * DIFFICULTY_ONE), MIN_SPAWN_INTERVAL);
    assert_eq!(next_spawn_interval(3_000_000, 6 * DIFFICULTY_ONE), MIN_SPAWN_INTERVAL);
    assert_eq!(next_spawn_interval(3_000_000, 6 * DIFFICULTY_ONE - 1), 500_000);
    assert_eq!(next_spawn_interval(3_000_000, u64::MAX), MIN_SPAWN_INTERVAL);
    assert_eq!(next_spawn_interval(u64::MAX, DIFFICULTY_ONE), u64::MAX);
}

#[test]
fn spawn_interval_shrinks_with_difficulty() {
    let mut last = u64::MAX;
    for step in 0..60u64 {
        let difficulty = DIFFICULTY_ONE + step * 100_000_000;
        let interval = next_spawn_interval(MAX_SPAWN_TIME, difficulty);
        assert!(interval <= last);
        assert!(interval >= MIN_SPAWN_INTERVAL);
        last = interval;
    }
    assert_eq!(last, MIN_SPAWN_INTERVAL);
}

#[test]
fn no_spawn_before_the_timer_fires() {
    let mut timer = SpawnTimer::default();
    let mut obstacles = Vec::new();
    spawn_obstacles_with(&mut timer, &mut obstacles, &score_at(0), SECOND, &draws(1_500_000, 400, 410));
    assert!(obstacles.is_empty());
    assert_eq!(timer.0, Timer { elapsed: 1_000_000, interval: START_INTERVAL });
}

#[test]
fn floor_spike_only_below_the_flip_score() {
    let mut timer = SpawnTimer::default();
    let mut obstacles = Vec::new();
    spawn_obstacles_with(&mut timer, &mut obstacles, &score_at(99), 2 * SECOND + 5, &draws(1_500_000, 400, 410));
    assert_eq!(obstacles, vec![Obstacle { x: 400 * UNIT, y: GROUND_Y, kind: ObstacleKind::Floor }]);
    assert_eq!(timer.0.elapsed, 5);
    assert_eq!(timer.0.interval, 1_500_000 * 1_000_000_000 / (DIFFICULTY_ONE + 2 * 99 * POINT));
    assert_eq!(timer.0.interval, 1_252_086);
}

#[test]
fn both_spikes_from_the_flip_score_on() {
    let mut timer = SpawnTimer::default();
    let old = Obstacle { x: 0, y: GROUND_Y, kind: ObstacleKind::Floor };
    let mut obstacles = vec![old];
    let score = Score { value: FLIP_SCORE, difficulty: DIFFICULTY_ONE + 2 * FLIP_SCORE };
    spawn_obstacles_with(&mut timer, &mut obstacles, &score, 2 * SECOND, &draws(3_000_000, 360, 440));
    assert_eq!(
        obstacles,
        vec![
            old,
            Obstacle { x: 360 * UNIT, y: GROUND_Y, kind: ObstacleKind::Floor },
            Obstacle { x: 440 * UNIT, y: CEILING_Y, kind: ObstacleKind::Ceiling },
        ]
    );
    assert_eq!(timer.0.interval, 2_500_000);
}

#[test]
fn spawn_interval_is_floored_at_high_difficulty() {
    let mut timer = SpawnTimer::default();
    let mut obstacles = Vec::new();
    spawn_obstacles_with(&mut timer, &mut obstacles, &score_at(5_000), 2 * SECOND, &draws(1_000_000, 360, 440));
    assert_eq!(timer.0.interval, MIN_SPAWN_INTERVAL);
    assert_eq!(obstacles.len(), 2);
}

#[test]
fn rolled_draws_lie_in_range_and_vary() {
    let mut rng = StdRng::seed_from_u64(1);
    let mut base_times = Vec::new();
    let mut floors = Vec::new();
    let mut ceilings = Vec::new();
    for _ in 0..200 {
        let d = ObstacleDraws::roll(&mut rng);
        assert!(MIN_SPAWN_TIME <= d.base_time && d.base_time <= MAX_SPAWN_TIME);
        assert!(350 * UNIT <= d.floor_x && d.floor_x < 450 * UNIT);
        assert!(350 * UNIT <= d.ceiling_x && d.ceiling_x < 450 * UNIT);
        base_times.push(d.base_time);
        floors.push(d.floor_x);
        ceilings.push(d.ceiling_x);
    }
    base_times.sort();
    base_times.dedup();
    floors.sort();
    floors.dedup();
    ceilings.sort();
    ceilings.dedup();
    assert!(base_times.len() > 100);
    assert!(floors.len() > 100);
    assert!(ceilings.len() > 100);
    assert!(base_times.iter().any(|&b| b != MIN_SPAWN_TIME && b != MAX_SPAWN_TIME));
    assert!(floors.iter().any(|&x| x != 350 * UNIT && x != 450 * UNIT));
    assert!(floors != ceilings);
}

#[test]
fn random_spawn_matches_some_draws() {
    let mut rng = StdRng::seed_from_u64(9);
    let mut timer = SpawnTimer::default();
    let mut obstacles = Vec::new();
    let score = score_at(200);
    spawn_obstacles(&mut timer, &mut obstacles, &score, SECOND, &mut rng);
    assert!(obstacles.is_empty());
    spawn_obstacles(&mut timer, &mut obstacles, &score, SECOND, &mut rng);
    assert_eq!(obstacles.len(), 2);
    assert_eq!(obstacles[0].kind, ObstacleKind::Floor);
    assert_eq!(obstacles[0].y, GROUND_Y);
    assert_eq!(obstacles[1].kind, ObstacleKind::Ceiling);
    assert_eq!(obstacles[1].y, CEILING_Y);
    for o in &obstacles {
        assert!(350 * UNIT <= o.x && o.x < 450 * UNIT);
    }
    let lowest = next_spawn_interval(MIN_SPAWN_TIME, score.difficulty);
    let highest = next_spawn_interval(MAX_SPAWN_TIME, score.difficulty);
    assert!(lowest <= timer.0.interval && timer.0.interval <= highest);
}

#[test]
fn obstacles_scroll_left() {
    let mut obstacles = vec![
        Obstacle { x: 400 * UNIT, y: GROUND_Y, kind: ObstacleKind::Floor },
        Obstacle { x: 0, y: CEILING_Y, kind: ObstacleKind::Ceiling },
    ];
    move_obstacles(&mut obstacles, 500_000);
    assert_eq!(
        obstacles,
        vec![
            Obstacle { x: 300 * UNIT, y: GROUND_Y, kind: ObstacleKind::Floor },
            Obstacle { x: -100 * UNIT, y: CEILING_Y, kind: ObstacleKind::Ceiling },
        ]
    );
    move_obstacles(&mut obstacles, 1);
    assert_eq!(obstacles[0].x, 300 * UNIT - 200_000_000);
}

#[test]
fn obstacles_left_of_the_line_are_culled() {
    let mut obstacles = vec![
        Obstacle { x: CULL_X + 200 * UNIT, y: GROUND_Y, kind: ObstacleKind::Floor },
        Obstacle { x: CULL_X + 200 * UNIT - 1, y: GROUND_Y, kind: ObstacleKind::Floor },
        Obstacle { x: 100 * UNIT, y: CEILING_Y, kind: ObstacleKind::Ceiling },
        Obstacle { x: i64::MIN, y: 0, kind: ObstacleKind::Floor },
    ];
    move_obstacles(&mut obstacles, SECOND);
    assert_eq!(
        obstacles,
        vec![
            Obstacle { x: CULL_X, y: GROUND_Y, kind: ObstacleKind::Floor },
            Obstacle { x: -100 * UNIT, y: CEILING_Y, kind: ObstacleKind::Ceiling },
        ]
    );
}

#[test]
fn scrolling_without_time_changes_nothing_on_screen() {
    let mut obstacles = vec![
        Obstacle { x: CULL_X, y: GROUND_Y, kind: ObstacleKind::Floor },
        Obstacle { x: CULL_X - 1, y: GROUND_Y, kind: ObstacleKind::Floor },
    ];
    move_obstacles(&mut obstacles, 0);
    assert_eq!(obstacles, vec![Obstacle { x: CULL_X, y: GROUND_Y, kind: ObstacleKind::Floor }]);
    let mut coins = vec![Coin { x: i64::MAX, y: 0 }];
    move_coins(&mut coins, u32::MAX);
    assert_eq!(coins, vec![Coin { x: i64::MAX - 200_000_000 * (u32::MAX as i64), y: 0 }]);
}

#[test]
fn no_coins_below_the_flip_score() {
    let mut timer = CoinSpawnTimer::default();
    let mut coins = Vec::new();
    spawn_coins_with(&mut timer, &mut coins, &score_at(99), 10 * SECOND, 400 * UNIT);
    assert!(coins.is_empty());
    assert_eq!(timer.0, Timer { elapsed: 0, interval: COIN_INTERVAL });
}

#[test]
fn coins_every_two_seconds_from_the_flip_score_on() {
    let mut timer = CoinSpawnTimer::default();
    let mut coins = Vec::new();
    let score = score_at(100);
    spawn_coins_with(&mut timer, &mut coins, &score, SECOND, 400 * UNIT);
    assert!(coins.is_empty());
    spawn_coins_with(&mut timer, &mut coins, &score, SECOND, 410 * UNIT);
    assert_eq!(coins, vec![Coin { x: 410 * UNIT, y: 0 }]);
    assert_eq!(timer.0, Timer { elapsed: 0, interval: COIN_INTERVAL });
    spawn_coins_with(&mut timer, &mut coins, &score, 2 * SECOND, 300 * UNIT);
    assert_eq!(coins, vec![Coin { x: 410 * UNIT, y: 0 }, Coin { x: 300 * UNIT, y: 0 }]);
}

#[test]
fn random_coins_lie_in_the_strip_and_vary() {
    let mut rng = StdRng::seed_from_u64(3);
    let mut timer = CoinSpawnTimer::default();
    let mut coins = Vec::new();
    let score = score_at(300);
    for _ in 0..100 {
        spawn_coins(&mut timer, &mut coins, &score, 2 * SECOND, &mut rng);
    }
    assert_eq!(coins.len(), 100);
    let mut xs = Vec::new();
    for c in &coins {
        assert!(300 * UNIT <= c.x && c.x < 500 * UNIT);
        assert_eq!(c.y, 0);
        xs.push(c.x);
    }
    xs.sort();
    xs.dedup();
    assert!(xs.len() > 50);
    assert!(xs.iter().any(|&x| x != 300 * UNIT && x != 500 * UNIT));
    let mut idle_timer = CoinSpawnTimer::default();
    let mut none = Vec::new();
    spawn_coins(&mut idle_timer, &mut none, &score_at(10), 2 * SECOND, &mut rng);
    assert!(none.is_empty());
}

#[test]
fn coins_scroll_and_are_culled() {
    let mut coins = vec![Coin { x: 0, y: 0 }, Coin { x: CULL_X + 1, y: 0 }, Coin { x: 200 * UNIT, y: 5 }];
    move_coins(&mut coins, 250_000);
    assert_eq!(coins, vec![Coin { x: -50 * UNIT, y: 0 }, Coin { x: 150 * UNIT, y: 5 }]);
}
