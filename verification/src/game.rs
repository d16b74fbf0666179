//! The whole simulation state and its tick: which rules run in which state,
//! and in which order.

use vstd::prelude::*;
use rand::rngs::StdRng;
use crate::components::{Coin, Obstacle, Player};
use crate::input::Interaction;
use crate::resources::{CoinWallet, Color, CurrentSkin, GameState, Score, SpawnTimer};
use crate::constants::COIN_SPAWN_MIN_X;
use crate::systems::coin::{
    coin_spawn, coin_x_in_range, coins_in_reach, coins_out_of_reach, collect_coins, credited,
    move_coins, moved_coins, spawn_coins, spawn_coins_with, CoinSpawnTimer,
};
use crate::systems::collision::{check_collisions, crashed};
use crate::systems::menu::handle_play_button;
use crate::systems::movement::{movement, player_movement};
use crate::systems::obstacles::{
    move_obstacles, moved_obstacles, obstacle_spawn, spawn_obstacles, spawn_obstacles_with,
    ObstacleDraws,
};
use crate::systems::restart::restart_game;
use crate::systems::score::{update_score, updated_score};
use crate::systems::shop::{
    after_purchase, buy_skin, purchase_outcome, shop_ui, Purchase, ShopUI,
};

verus! {

/// What the outside world reports for one tick.
#[derive(Clone, Copy, Debug, PartialEq, Eq, Structural)]
pub struct TickInput {
    /// Time since the previous tick, in microseconds.
    pub dt: u32,
    /// Whether the jump key is down right now.
    pub jump_held: bool,
    /// Whether a controller has asked for a jump since the previous tick.
    pub jump_signalled: bool,
    /// Whether "play" was chosen in the menu.
    pub play_pressed: bool,
    /// Whether "restart" was chosen.
    pub restart_pressed: bool,
    /// Whether the shop was asked for.
    pub shop_toggle_pressed: bool,
    /// Whether "buy" was chosen in the shop.
    pub buy_pressed: bool,
}

/// The length of a step for a measured time in microseconds: a negative
/// time counts as none, and a time too long to express counts as the
/// longest step.
pub open spec fn clamped_step(micros: int) -> u32 {
    if micros < 0 {
        0
    } else if micros > u32::MAX {
        u32::MAX
    } else {
        micros as u32
    }
}

/// Turns a measured time in microseconds into the length of a step.
pub fn step_from_micros(micros: i128) -> (dt: u32)
    ensures
        dt == clamped_step(micros as int),
{
    if micros < 0 {
        0
    } else if micros > u32::MAX as i128 {
        u32::MAX
    } else {
        micros as u32
    }
}

/// The random choices one tick may need.
#[derive(Clone, Copy, Debug, PartialEq, Eq, Structural)]
pub struct Draws {
    pub obstacles: ObstacleDraws,
    pub coin_x: i64,
}

impl Draws {
    /// Every choice lies in the range it is drawn from.
    pub open spec fn in_range(self) -> bool {
        self.obstacles.in_range() && coin_x_in_range(self.coin_x)
    }

    /// The draws at the lower end of every range.
    pub open spec fn lowest() -> Draws {
        Draws { obstacles: ObstacleDraws::lowest(), coin_x: COIN_SPAWN_MIN_X }
    }
}

/// What a tick reports back.
#[derive(Clone, Copy, Debug, PartialEq, Eq, Structural)]
pub struct TickReport {
    /// The final score, on the tick that ends a run.
    pub final_score: Option<u64>,
    /// Coins collected on this tick.
    pub coins_collected: usize,
    /// How a purchase ended, if one was tried on this tick.
    pub purchase: Option<Purchase>,
}

/// The simulation state, owned by whoever drives the ticks.
pub struct Game {
    pub state: GameState,
    pub player: Option<Player>,
    pub obstacles: Vec<Obstacle>,
    pub coins: Vec<Coin>,
    pub score: Score,
    pub wallet: CoinWallet,
    pub skin: CurrentSkin,
    pub spawn_timer: SpawnTimer,
    pub coin_timer: CoinSpawnTimer,
    pub shop: Option<ShopUI>,
    /// Whether the jump key was down at the end of the previous tick.
    pub jump_was_held: bool,
}

/// The simulation state as a mathematical value.
pub struct World {
    pub state: GameState,
    pub player: Option<Player>,
    pub obstacles: Seq<Obstacle>,
    pub coins: Seq<Coin>,
    pub score: Score,
    pub wallet: CoinWallet,
    pub skin: CurrentSkin,
    pub spawn_timer: SpawnTimer,
    pub coin_timer: CoinSpawnTimer,
    pub shop: Option<ShopUI>,
    pub jump_was_held: bool,
}

impl View for Game {
    type V = World;

    open spec fn view(&self) -> World {
        World {
            state: self.state,
            player: self.player,
            obstacles: self.obstacles@,
            coins: self.coins@,
            score: self.score,
            wallet: self.wallet,
            skin: self.skin,
            spawn_timer: self.spawn_timer,
            coin_timer: self.coin_timer,
            shop: self.shop,
            jump_was_held: self.jump_was_held,
        }
    }
}

impl World {
    /// The player, if any, and the score are valid.
    pub open spec fn wf(self) -> bool {
        &&& self.player matches Some(p) ==> p.wf()
        &&& self.score.wf()
    }

    /// Outside the menu there is a player.
    pub open spec fn populated(self) -> bool {
        self.state != GameState::Menu ==> self.player is Some
    }

    /// The state before the first tick: the menu, with nothing in play, an
    /// empty wallet and the white skin.
    pub open spec fn initial() -> World {
        World {
            state: GameState::Menu,
            player: None,
            obstacles: Seq::empty(),
            coins: Seq::empty(),
            score: Score::zero(),
            wallet: CoinWallet { coins: 0 },
            skin: CurrentSkin { color: Color::white() },
            spawn_timer: SpawnTimer::fresh(),
            coin_timer: CoinSpawnTimer::fresh(),
            shop: None,
            jump_was_held: false,
        }
    }

    /// Everything a run starts from: a player at rest on the floor, no
    /// obstacles, no coins, score zero, both timers at the start of their
    /// first round. The state, the wallet, the skin, the shop and the jump
    /// key's snapshot are kept.
    pub open spec fn set_up(self) -> World {
        World {
            player: Some(Player::spawned()),
            obstacles: Seq::empty(),
            coins: Seq::empty(),
            score: Score::zero(),
            spawn_timer: SpawnTimer::fresh(),
            coin_timer: CoinSpawnTimer::fresh(),
            ..self
        }
    }

    /// The state in which a run begins.
    pub open spec fn fresh_run(self) -> World {
        World { state: GameState::Running, ..self.set_up() }
    }

    /// Whether a jump is requested on this tick: the key is down now and was
    /// not down at the end of the previous tick, or a controller has asked
    /// for a jump.
    pub open spec fn jump_edge(self, input: TickInput) -> bool {
        input.jump_held && !self.jump_was_held || input.jump_signalled
    }

    /// First part of a running step: the player moves, obstacles and coins
    /// scroll.
    pub open spec fn scrolled(self, dt: u32, jump: bool) -> World {
        World {
            player: movement(self.player, self.score, dt, jump),
            obstacles: moved_obstacles(self.obstacles, dt),
            coins: moved_coins(self.coins, dt),
            ..self
        }
    }

    /// Second part of a running step: both spawners run.
    pub open spec fn spawned(self, dt: u32, draws: Draws) -> World {
        let (spawn_timer, obstacles) = obstacle_spawn(
            self.spawn_timer,
            self.obstacles,
            self.score,
            dt,
            draws.obstacles,
        );
        let (coin_timer, coins) = coin_spawn(
            self.coin_timer,
            self.coins,
            self.score,
            dt,
            draws.coin_x,
        );
        World { spawn_timer, obstacles, coin_timer, coins, ..self }
    }

    /// The number of coins within reach of the player, if there is one.
    pub open spec fn coins_at_hand(self) -> nat {
        match self.player {
            Some(p) => coins_in_reach(p, self.coins).len(),
            None => 0,
        }
    }

    /// Last part of a running step. A collision ends the run, clears
    /// obstacles and coins and leaves the score as it is. Otherwise the
    /// coins within reach are collected and the score grows.
    pub open spec fn settled(self, dt: u32) -> World {
        if crashed(self.player, self.obstacles) {
            World {
                state: GameState::GameOver,
                obstacles: Seq::empty(),
                coins: Seq::empty(),
                ..self
            }
        } else {
            World {
                coins: match self.player {
                    Some(p) => coins_out_of_reach(p, self.coins),
                    None => self.coins,
                },
                wallet: CoinWallet { coins: credited(self.wallet.coins, self.coins_at_hand()) },
                score: updated_score(self.score, GameState::Running, dt),
                ..self
            }
        }
    }

    /// A running game just before collisions are looked for.
    pub open spec fn in_flight(self, dt: u32, jump: bool, draws: Draws) -> World {
        self.scrolled(dt, jump).spawned(dt, draws)
    }

    /// One step of a running game.
    pub open spec fn simulated(self, dt: u32, jump: bool, draws: Draws) -> World {
        self.in_flight(dt, jump, draws).settled(dt)
    }

    /// What the state machine makes of a tick. In the menu only "play" does
    /// anything: it begins a run. A running game is simulated. After a
    /// collision only "restart" does anything: it begins a new run.
    pub open spec fn advanced(self, input: TickInput, draws: Draws) -> World {
        match self.state {
            GameState::Menu => if input.play_pressed {
                self.fresh_run()
            } else {
                self
            },
            GameState::Running => self.simulated(input.dt, self.jump_edge(input), draws),
            GameState::GameOver => if input.restart_pressed {
                self.fresh_run()
            } else {
                self
            },
        }
    }

    /// What the shop makes of a tick: asked for, it opens unless it is open;
    /// then a purchase is tried if "buy" was chosen.
    pub open spec fn shopped(self, input: TickInput) -> World {
        let shop = if input.shop_toggle_pressed && self.shop is None {
            Some(ShopUI { coins_shown: self.wallet.coins })
        } else {
            self.shop
        };
        if input.buy_pressed {
            let (skin, wallet) = after_purchase(self.skin, self.wallet);
            World { shop, skin, wallet, ..self }
        } else {
            World { shop, ..self }
        }
    }

    /// The state after one tick: the state machine runs; the shop is served
    /// unless the tick began in the menu; the snapshot of the jump key is
    /// taken at the end.
    pub open spec fn stepped(self, input: TickInput, draws: Draws) -> World {
        let advanced = self.advanced(input, draws);
        let served = if self.state == GameState::Menu {
            advanced
        } else {
            advanced.shopped(input)
        };
        World { jump_was_held: input.jump_held, ..served }
    }

    /// What a tick on this state reports.
    pub open spec fn report(self, input: TickInput, draws: Draws) -> TickReport {
        let flying = self.in_flight(input.dt, self.jump_edge(input), draws);
        let running = self.state == GameState::Running;
        let crash = running && crashed(flying.player, flying.obstacles);
        TickReport {
            final_score: if crash { Some(self.score.value) } else { None },
            coins_collected: if running && !crash { flying.coins_at_hand() as usize } else { 0 },
            purchase: if self.state != GameState::Menu && input.buy_pressed {
                Some(purchase_outcome(self.advanced(input, draws).wallet))
            } else {
                None
            },
        }
    }
}

impl Game {
    /// The game before the first tick.
    pub fn new() -> (game: Game)
        ensures
            game@ == World::initial(),
            game@.wf(),
            game@.populated(),
    {
        Game {
            state: GameState::Menu,
            player: None,
            obstacles: Vec::new(),
            coins: Vec::new(),
            score: Score::default(),
            wallet: CoinWallet::default(),
            skin: CurrentSkin::default(),
            spawn_timer: SpawnTimer::default(),
            coin_timer: CoinSpawnTimer::default(),
            shop: None,
            jump_was_held: false,
        }
    }

    /// Checks validity at run time.
    pub fn is_valid(&self) -> (ok: bool)
        ensures
            ok == self@.wf(),
    {
        let player_ok: bool = match &self.player {
            Some(p) => p.is_valid(),
            None => true,
        };
        player_ok && self.score.is_valid()
    }

    /// First part of a running step.
    fn scroll(&mut self, dt: u32, jump: bool)
        requires
            old(self)@.wf(),
        ensures
            final(self)@ == old(self)@.scrolled(dt, jump),
            final(self)@.wf(),
    {
        player_movement(&mut self.player, &self.score, dt, jump);
        move_obstacles(&mut self.obstacles, dt);
        move_coins(&mut self.coins, dt);
    }

    /// Last part of a running step.
    fn settle(&mut self, dt: u32) -> (report: TickReport)
        requires
            old(self)@.wf(),
        ensures
            final(self)@ == old(self)@.settled(dt),
            final(self)@.wf(),
            report.purchase is None,
            report.final_score == if crashed(old(self).player, old(self).obstacles@) {
                Some(old(self).score.value)
            } else {
                None
            },
            report.coins_collected == if crashed(old(self).player, old(self).obstacles@) {
                0
            } else {
                old(self)@.coins_at_hand() as usize
            },
    {
        let final_score: Option<u64> = check_collisions(
            &mut self.state,
            &self.score,
            &self.player,
            &mut self.obstacles,
            &mut self.coins,
        );
        if final_score.is_some() {
            return TickReport { final_score, coins_collected: 0, purchase: None };
        }
        let coins_collected: usize = collect_coins(&mut self.wallet, &self.player, &mut self.coins);
        update_score(&mut self.score, GameState::Running, dt);
        TickReport { final_score: None, coins_collected, purchase: None }
    }

    /// What every tick ends with: the shop is served unless the tick began
    /// in the menu, and the snapshot of the jump key is taken.
    fn wrap_up(&mut self, began_in_menu: bool, input: &TickInput) -> (purchase: Option<Purchase>)
        ensures
            final(self)@ == (World {
                jump_was_held: input.jump_held,
                ..if began_in_menu {
                    old(self)@
                } else {
                    old(self)@.shopped(*input)
                }
            }),
            purchase == if !began_in_menu && input.buy_pressed {
                Some(purchase_outcome(old(self).wallet))
            } else {
                None
            },
    {
        let mut purchase: Option<Purchase> = None;
        if !began_in_menu {
            if input.shop_toggle_pressed {
                shop_ui(&mut self.shop, &self.wallet);
            }
            if input.buy_pressed {
                purchase = Some(buy_skin(&mut self.skin, &mut self.wallet));
            }
        }
        self.jump_was_held = input.jump_held;
        purchase
    }

    /// One tick with the given draws.
    pub fn tick_with(&mut self, input: &TickInput, draws: &Draws) -> (report: TickReport)
        requires
            old(self)@.wf(),
        ensures
            final(self)@ == old(self)@.stepped(*input, *draws),
            report == old(self)@.report(*input, *draws),
            final(self)@.wf(),
            old(self)@.populated() ==> final(self)@.populated(),
    {
        let began: GameState = self.state;
        let mut report = TickReport { final_score: None, coins_collected: 0, purchase: None };
        match began {
            GameState::Menu => {
                if input.play_pressed {
                    handle_play_button(Interaction::Pressed, self);
                }
            },
            GameState::Running => {
                let jump: bool = input.jump_held && !self.jump_was_held || input.jump_signalled;
                self.scroll(input.dt, jump);
                spawn_obstacles_with(
                    &mut self.spawn_timer,
                    &mut self.obstacles,
                    &self.score,
                    input.dt,
                    &draws.obstacles,
                );
                spawn_coins_with(
                    &mut self.coin_timer,
                    &mut self.coins,
                    &self.score,
                    input.dt,
                    draws.coin_x,
                );
                report = self.settle(input.dt);
            },
            GameState::GameOver => {
                restart_game(input.restart_pressed, self);
            },
        }
        report.purchase = self.wrap_up(began == GameState::Menu, input);
        report
    }

    /// One tick with draws from `rng`. A draw is made only when a spawn
    /// timer fires. Whatever is drawn, the outcome is that of `tick_with`
    /// for some draws in range.
    pub fn tick(&mut self, input: &TickInput, rng: &mut StdRng) -> (report: TickReport)
        requires
            old(self)@.wf(),
        ensures
            exists|draws: Draws|
                draws.in_range() && final(self)@ == #[trigger] old(self)@.stepped(*input, draws)
                    && report == old(self)@.report(*input, draws),
            final(self)@.wf(),
            old(self)@.populated() ==> final(self)@.populated(),
    {
        let began: GameState = self.state;
        let mut report = TickReport { final_score: None, coins_collected: 0, purchase: None };
        let ghost mut used = Draws::lowest();
        match began {
            GameState::Menu => {
                if input.play_pressed {
                    handle_play_button(Interaction::Pressed, self);
                }
            },
            GameState::Running => {
                let jump: bool = input.jump_held && !self.jump_was_held || input.jump_signalled;
                self.scroll(input.dt, jump);
                let ghost mid = self@;
                spawn_obstacles(
                    &mut self.spawn_timer,
                    &mut self.obstacles,
                    &self.score,
                    input.dt,
                    rng,
                );
                spawn_coins(&mut self.coin_timer, &mut self.coins, &self.score, input.dt, rng);
                proof {
                    let od = choose|d: ObstacleDraws|
                        d.in_range() && (self.spawn_timer, self.obstacles@) == #[trigger] obstacle_spawn(
                            mid.spawn_timer,
                            mid.obstacles,
                            mid.score,
                            input.dt,
                            d,
                        );
                    let cx = choose|x: i64|
                        coin_x_in_range(x) && (self.coin_timer, self.coins@) == #[trigger] coin_spawn(
                            mid.coin_timer,
                            mid.coins,
                            mid.score,
                            input.dt,
                            x,
                        );
                    used = Draws { obstacles: od, coin_x: cx };
                    assert(self@ == mid.spawned(input.dt, used));
                }
                report = self.settle(input.dt);
            },
            GameState::GameOver => {
                restart_game(input.restart_pressed, self);
            },
        }
        report.purchase = self.wrap_up(began == GameState::Menu, input);
        assert(self@ == old(self)@.stepped(*input, used));
        report
    }
}

} // verus!
