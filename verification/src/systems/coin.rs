//! Coins: they spawn from the flip score on, scroll with the obstacles, and
//! are credited to the wallet when the player comes close.

use vstd::prelude::*;
use vstd::seq_lib::*;
use rand::rngs::StdRng;
use crate::components::{Coin, Player};
use crate::constants::{
    COIN_INTERVAL, COIN_SPAWN_MAX_X, COIN_SPAWN_MIN_X, COIN_Y, COLLECT_RADIUS, CULL_X, FLIP_SCORE,
    OBSTACLE_SPEED,
};
use crate::random::uniform_below;
use crate::resources::{CoinWallet, Score};
use crate::systems::obstacles::{lemma_scroll_moves_left, scrolled_x, stays_on_screen};
use crate::timer::Timer;

verus! {

/// The timer that paces the coins.
#[derive(Clone, Copy, Debug, PartialEq, Eq, Structural)]
pub struct CoinSpawnTimer(pub Timer);

impl CoinSpawnTimer {
    /// The coin timer as a run starts.
    pub open spec fn fresh() -> CoinSpawnTimer {
        CoinSpawnTimer(Timer { elapsed: 0, interval: COIN_INTERVAL })
    }
}

impl Default for CoinSpawnTimer {
    fn default() -> (t: CoinSpawnTimer)
        ensures
            t == CoinSpawnTimer::fresh(),
    {
        CoinSpawnTimer(Timer::new(COIN_INTERVAL))
    }
}

/// Whether `x` is a position at which a coin may appear.
pub open spec fn coin_x_in_range(x: i64) -> bool {
    COIN_SPAWN_MIN_X <= x < COIN_SPAWN_MAX_X
}

/// The coin timer and the coins after a step of `dt` with the drawn
/// position `x`. Below the flip score nothing happens, and the timer does
/// not even run. From it on the timer runs, and each time it fires one coin
/// appears at `(x, COIN_Y)`.
pub open spec fn coin_spawn(
    timer: CoinSpawnTimer,
    coins: Seq<Coin>,
    score: Score,
    dt: u32,
    x: i64,
) -> (CoinSpawnTimer, Seq<Coin>) {
    if score.value < FLIP_SCORE {
        (timer, coins)
    } else if timer.0.fires(dt) {
        (CoinSpawnTimer(timer.0.ticked(dt)), coins.push(Coin { x, y: COIN_Y }))
    } else {
        (CoinSpawnTimer(timer.0.ticked(dt)), coins)
    }
}

/// Advances the coin timer by `dt` and, when it fires, spawns a coin at the
/// given position.
pub fn spawn_coins_with(
    timer: &mut CoinSpawnTimer,
    coins: &mut Vec<Coin>,
    score: &Score,
    dt: u32,
    x: i64,
)
    ensures
        (*final(timer), final(coins)@) == coin_spawn(*old(timer), old(coins)@, *score, dt, x),
{
    if score.value < FLIP_SCORE {
        return ;
    }
    let fired: bool = timer.0.tick(dt);
    if fired {
        coins.push(Coin { x, y: COIN_Y });
    }
}

/// Advances the coin timer by `dt` and, when it fires, spawns a coin at a
/// position drawn from `rng`. Nothing is drawn while it does not fire.
/// Whatever is drawn, the outcome is that of `spawn_coins_with` for some
/// position in range.
pub fn spawn_coins(
    timer: &mut CoinSpawnTimer,
    coins: &mut Vec<Coin>,
    score: &Score,
    dt: u32,
    rng: &mut StdRng,
)
    ensures
        exists|x: i64|
            coin_x_in_range(x) && (*final(timer), final(coins)@) == #[trigger] coin_spawn(
                *old(timer),
                old(coins)@,
                *score,
                dt,
                x,
            ),
{
    if score.value < FLIP_SCORE {
        assert((*timer, coins@) == coin_spawn(
            *old(timer),
            old(coins)@,
            *score,
            dt,
            COIN_SPAWN_MIN_X,
        ));
        return ;
    }
    let fired: bool = timer.0.tick(dt);
    if fired {
        let x: i64 = uniform_below(rng, COIN_SPAWN_MIN_X, COIN_SPAWN_MAX_X);
        coins.push(Coin { x, y: COIN_Y });
        assert((*timer, coins@) == coin_spawn(*old(timer), old(coins)@, *score, dt, x));
    } else {
        assert((*timer, coins@) == coin_spawn(
            *old(timer),
            old(coins)@,
            *score,
            dt,
            COIN_SPAWN_MIN_X,
        ));
    }
}

/// A coin after a step of `dt`.
pub open spec fn scrolled_coin(c: Coin, dt: u32) -> Coin {
    Coin { x: scrolled_x(c.x, dt) as i64, ..c }
}

/// The coins after a step of `dt`: those that stay on the screen, in their
/// old order, each scrolled left.
pub open spec fn moved_coins(coins: Seq<Coin>, dt: u32) -> Seq<Coin> {
    coins.filter(|c: Coin| stays_on_screen(c.x, dt)).map_values(|c: Coin| scrolled_coin(c, dt))
}

/// Scrolls every coin left by `OBSTACLE_SPEED * dt` and removes those that
/// end left of the cull line.
pub fn move_coins(coins: &mut Vec<Coin>, dt: u32)
    ensures
        final(coins)@ == moved_coins(old(coins)@, dt),
{
    let ghost keep = |c: Coin| stays_on_screen(c.x, dt);
    let ghost shift = |c: Coin| scrolled_coin(c, dt);
    let mut kept: Vec<Coin> = Vec::new();
    let n: usize = coins.len();
    let mut i: usize = 0;
    proof {
        reveal(Seq::filter);
        assert(coins@.take(0).filter(keep).map_values(shift) =~= kept@);
    }
    while i < n
        invariant
            i <= n,
            n == coins.len(),
            keep == |c: Coin| stays_on_screen(c.x, dt),
            shift == |c: Coin| scrolled_coin(c, dt),
            kept@ == coins@.take(i as int).filter(keep).map_values(shift),
        decreases n - i,
    {
        let c: Coin = coins[i];
        proof {
            lemma_scroll_moves_left(c.x, dt);
            let before = coins@.take(i as int);
            assert(coins@.take(i + 1) =~= before.push(c));
            before.lemma_filter_push(c, keep);
            if keep(c) {
                assert(before.filter(keep).push(c).map_values(shift) =~= before.filter(
                    keep,
                ).map_values(shift).push(shift(c)));
            }
        }
        let nx: i128 = c.x as i128 + (OBSTACLE_SPEED as i128) * (dt as i128);
        if nx >= CULL_X as i128 {
            kept.push(Coin { x: nx as i64, y: c.y });
        }
        i = i + 1;
    }
    proof {
        assert(coins@.take(n as int) =~= coins@);
    }
    *coins = kept;
}

/// Squared distance between the player and a coin.
pub open spec fn distance_squared(p: Player, c: Coin) -> int {
    (p.x - c.x) * (p.x - c.x) + (p.y - c.y) * (p.y - c.y)
}

/// Whether a coin is close enough to the player to be collected: their
/// distance is less than the collection radius.
pub open spec fn within_reach(p: Player, c: Coin) -> bool {
    distance_squared(p, c) < COLLECT_RADIUS * COLLECT_RADIUS
}

/// Decides whether a coin is within reach of the player.
pub fn is_within_reach(p: &Player, c: &Coin) -> (near: bool)
    ensures
        near == within_reach(*p, *c),
{
    let dx: i128 = p.x as i128 - c.x as i128;
    let dy: i128 = p.y as i128 - c.y as i128;
    let r: i128 = COLLECT_RADIUS as i128;
    assert(r * r == 900_000_000_000_000_000_000_000_000) by (nonlinear_arith)
        requires
            r == 30_000_000_000_000,
    ;
    assert(COLLECT_RADIUS * COLLECT_RADIUS == r * r);
    assert(dy * dy >= 0) by (nonlinear_arith);
    assert(dx * dx >= 0) by (nonlinear_arith);
    if dx >= r || dx <= -r {
        assert(dx * dx >= r * r) by (nonlinear_arith)
            requires
                dx >= r || dx <= -r,
                r >= 0,
        ;
        return false;
    }
    if dy >= r || dy <= -r {
        assert(dy * dy >= r * r) by (nonlinear_arith)
            requires
                dy >= r || dy <= -r,
                r >= 0,
        ;
        return false;
    }
    assert(dx * dx < r * r) by (nonlinear_arith)
        requires
            -r < dx < r,
    ;
    assert(dy * dy < r * r) by (nonlinear_arith)
        requires
            -r < dy < r,
    ;
    dx * dx + dy * dy < r * r
}

/// The coins within reach of the player, in their old order.
pub open spec fn coins_in_reach(p: Player, coins: Seq<Coin>) -> Seq<Coin> {
    coins.filter(|c: Coin| within_reach(p, c))
}

/// The coins out of reach of the player, in their old order.
pub open spec fn coins_out_of_reach(p: Player, coins: Seq<Coin>) -> Seq<Coin> {
    coins.filter(|c: Coin| !within_reach(p, c))
}

/// A wallet balance after `n` more coins. The balance stops at the largest
/// number the wallet can hold.
pub open spec fn credited(balance: u32, n: nat) -> u32 {
    if balance + n > u32::MAX {
        u32::MAX
    } else {
        (balance + n) as u32
    }
}

/// Collects every coin within reach of the player: each adds one to the
/// wallet and is removed in the same step, so no coin is credited twice.
/// Without a player nothing changes. Returns the number of coins collected.
pub fn collect_coins(wallet: &mut CoinWallet, player: &Option<Player>, coins: &mut Vec<Coin>) -> (collected: usize)
    ensures
        *player matches Some(p) ==> {
            &&& final(coins)@ == coins_out_of_reach(p, old(coins)@)
            &&& collected == coins_in_reach(p, old(coins)@).len()
            &&& final(wallet).coins == credited(old(wallet).coins, collected as nat)
        },
        *player is None ==> {
            &&& final(coins)@ == old(coins)@
            &&& collected == 0
            &&& *final(wallet) == *old(wallet)
        },
{
    let p: Player = match player {
        Some(p) => *p,
        None => {
            return 0;
        },
    };
    let ghost near = |c: Coin| within_reach(p, c);
    let ghost far = |c: Coin| !within_reach(p, c);
    let mut left: Vec<Coin> = Vec::new();
    let mut collected: usize = 0;
    let n: usize = coins.len();
    let mut i: usize = 0;
    proof {
        reveal(Seq::filter);
        assert(coins@.take(0).filter(far) =~= left@);
        assert(coins@.take(0).filter(near).len() == 0);
    }
    while i < n
        invariant
            i <= n,
            n == coins.len(),
            near == |c: Coin| within_reach(p, c),
            far == |c: Coin| !within_reach(p, c),
            left@ == coins@.take(i as int).filter(far),
            collected == coins@.take(i as int).filter(near).len(),
            collected <= i,
            wallet.coins == credited(old(wallet).coins, collected as nat),
        decreases n - i,
    {
        let c: Coin = coins[i];
        proof {
            let before = coins@.take(i as int);
            assert(coins@.take(i + 1) =~= before.push(c));
            before.lemma_filter_push(c, near);
            before.lemma_filter_push(c, far);
        }
        if is_within_reach(&p, &c) {
            if wallet.coins < u32::MAX {
                wallet.coins = wallet.coins + 1;
            }
            collected = collected + 1;
        } else {
            left.push(c);
        }
        i = i + 1;
    }
    proof {
        assert(coins@.take(n as int) =~= coins@);
    }
    *coins = left;
    collected
}

/// Collecting twice in a row collects nothing the second time: once the
/// coins within reach have been taken, none of those left is within reach,
/// a second collection removes nothing, and it credits nothing.
pub proof fn lemma_collected_once(p: Player, coins: Seq<Coin>, balance: u32)
    ensures
        coins_in_reach(p, coins_out_of_reach(p, coins)).len() == 0,
        coins_out_of_reach(p, coins_out_of_reach(p, coins)) == coins_out_of_reach(p, coins),
        credited(balance, coins_in_reach(p, coins_out_of_reach(p, coins)).len()) == balance,
    decreases coins.len(),
{
    let near = |c: Coin| within_reach(p, c);
    let far = |c: Coin| !within_reach(p, c);
    reveal(Seq::filter);
    if coins.len() > 0 {
        let before = coins.drop_last();
        let c = coins.last();
        lemma_collected_once(p, before, balance);
        if far(c) {
            before.filter(far).lemma_filter_push(c, near);
            before.filter(far).lemma_filter_push(c, far);
        }
    }
}

/// Every coin is either collected or left: the two groups add up to the
/// coins there were.
pub proof fn lemma_collect_partitions(p: Player, coins: Seq<Coin>)
    ensures
        coins_in_reach(p, coins).len() + coins_out_of_reach(p, coins).len() == coins.len(),
    decreases coins.len(),
{
    reveal(Seq::filter);
    if coins.len() > 0 {
        lemma_collect_partitions(p, coins.drop_last());
    }
}

} // verus!
