use flip_runner::components::{Coin, Player};
use flip_runner::constants::{GROUND_Y, PLAYER_X, UNIT};
use flip_runner::game::Game;
use flip_runner::input::{ButtonShade, Interaction};
use flip_runner::resources::{CoinWallet, Color, CurrentSkin, GameState};
use flip_runner::systems::coin::{collect_coins, is_within_reach};
use flip_runner::systems::menu::handle_play_button;
use flip_runner::systems::restart::restart_game;
use flip_runner::systems::setup::setup;
use flip_runner::systems::shop::{
    buy_skin, handle_buy_button, shop_ui, BuyResponse, Purchase, ShopUI,
};

fn coin_at(dx: i64, dy: i64) -> Coin {
    Coin { x: PLAYER_X + dx, y: GROUND_Y + dy }
}

#[test]
fn reach_is_a_circle_of_thirty_units() {
    let p = Player::new();
    assert!(is_within_reach(&p, &coin_at(0, 0)));
    assert!(is_within_reach(&p, &coin_at(30 * UNIT - 1, 0)));
    assert!(!is_within_reach(&p, &coin_at(30 * UNIT, 0)));
    assert!(!is_within_reach(&p, &coin_at(0, -30 * UNIT)));
    assert!(is_within_reach(&p, &coin_at(18 * UNIT, 24 * UNIT - 1)));
    assert!(!is_within_reach(&p, &coin_at(18 * UNIT, 24 * UNIT)));
    assert!(!is_within_reach(&p, &coin_at(22 * UNIT, 22 * UNIT)));
    assert!(is_within_reach(&p, &coin_at(-21 * UNIT, 21 * UNIT)));
}

#[test]
fn reach_survives_extreme_positions() {
    let p = Player { x: i64::MIN, y: i64::MIN, ..Player::new() };
    assert!(!is_within_reach(&p, &Coin { x: i64::MAX, y: i64::MAX }));
    assert!(is_within_reach(&p, &Coin { x: i64::MIN + 5, y: i64::MIN }));
}

#[test]
fn coin_in_reach_is_collected_once() {
    let player = Some(Player::new());
    let mut wallet = CoinWallet::default();
    let mut coins = vec![coin_at(100 * UNIT, 0), coin_at(10 * UNIT, 10 * UNIT), coin_at(0, 40 * UNIT)];
    let collected = collect_coins(&mut wallet, &player, &mut coins);
    assert_eq!(collected, 1);
    assert_eq!(wallet.coins, 1);
    assert_eq!(coins, vec![coin_at(100 * UNIT, 0), coin_at(0, 40 * UNIT)]);
    let again = collect_coins(&mut wallet, &player, &mut coins);
    assert_eq!(again, 0);
    assert_eq!(wallet.coins, 1);
    assert_eq!(coins, vec![coin_at(100 * UNIT, 0), coin_at(0, 40 * UNIT)]);
}

#[test]
fn several_coins_in_one_step() {
    let player = Some(Player::new());
    let mut wallet = CoinWallet { coins: 4 };
    let mut coins = vec![coin_at(1, 1), coin_at(-5 * UNIT, 0), coin_at(60 * UNIT, 0), coin_at(0, 29 * UNIT)];
    assert_eq!(collect_coins(&mut wallet, &player, &mut coins), 3);
    assert_eq!(wallet.coins, 7);
    assert_eq!(coins, vec![coin_at(60 * UNIT, 0)]);
}

#[test]
fn nothing_is_collected_without_a_player() {
    let mut wallet = CoinWallet { coins: 2 };
    let mut coins = vec![coin_at(0, 0)];
    assert_eq!(collect_coins(&mut wallet, &None, &mut coins), 0);
    assert_eq!(wallet.coins, 2);
    assert_eq!(coins.len(), 1);
}

#[test]
fn full_wallet_stays_full() {
    let player = Some(Player::new());
    let mut wallet = CoinWallet { coins: u32::MAX - 1 };
    let mut coins = vec![coin_at(0, 0), coin_at(1, 0), coin_at(2, 0)];
    assert_eq!(collect_coins(&mut wallet, &player, &mut coins), 3);
    assert_eq!(wallet.coins, u32::MAX);
    assert!(coins.is_empty());
}

#[test]
fn buying_takes_one_coin_and_turns_the_skin_green() {
    let mut skin = CurrentSkin::default();
    let mut wallet = CoinWallet { coins: 2 };
    assert_eq!(buy_skin(&mut skin, &mut wallet), Purchase::Bought);
    assert_eq!(wallet.coins, 1);
    assert_eq!(skin.color, Color { r: 51, g: 204, b: 51, a: 255 });
    assert_eq!(buy_skin(&mut skin, &mut wallet), Purchase::Bought);
    assert_eq!(wallet.coins, 0);
    assert_eq!(buy_skin(&mut skin, &mut wallet), Purchase::Rejected);
    assert_eq!(wallet.coins, 0);
    assert_eq!(skin.color, Color { r: 51, g: 204, b: 51, a: 255 });
}

#[test]
fn rejected_purchase_changes_nothing() {
    let mut skin = CurrentSkin::default();
    let mut wallet = CoinWallet::default();
    let response = handle_buy_button(Interaction::Pressed, &mut skin, &mut wallet);
    assert_eq!(response, BuyResponse { shade: ButtonShade::DarkGray, purchase: Some(Purchase::Rejected) });
    assert_eq!(skin, CurrentSkin::default());
    assert_eq!(wallet, CoinWallet::default());
}

#[test]
fn buy_button_only_buys_when_pressed() {
    let mut skin = CurrentSkin::default();
    let mut wallet = CoinWallet { coins: 9 };
    let hovered = handle_buy_button(Interaction::Hovered, &mut skin, &mut wallet);
    assert_eq!(hovered, BuyResponse { shade: ButtonShade::White, purchase: None });
    let idle = handle_buy_button(Interaction::Idle, &mut skin, &mut wallet);
    assert_eq!(idle, BuyResponse { shade: ButtonShade::Gray, purchase: None });
    assert_eq!(wallet.coins, 9);
    assert_eq!(skin, CurrentSkin::default());
    let pressed = handle_buy_button(Interaction::Pressed, &mut skin, &mut wallet);
    assert_eq!(pressed, BuyResponse { shade: ButtonShade::DarkGray, purchase: Some(Purchase::Bought) });
    assert_eq!(wallet.coins, 8);
}

#[test]
fn shop_panel_shows_the_balance_it_opened_with() {
    let mut shop = None;
    assert!(shop_ui(&mut shop, &CoinWallet { coins: 4 }));
    assert_eq!(shop, Some(ShopUI { coins_shown: 4 }));
    assert!(!shop_ui(&mut shop, &CoinWallet { coins: 6 }));
    assert_eq!(shop, Some(ShopUI { coins_shown: 4 }));
}

#[test]
fn play_button_begins_a_run_only_in_the_menu() {
    let mut game = Game::new();
    assert_eq!(handle_play_button(Interaction::Hovered, &mut game), Some(ButtonShade::DarkGray));
    assert_eq!(handle_play_button(Interaction::Idle, &mut game), Some(ButtonShade::Gray));
    assert_eq!(game.state, GameState::Menu);
    assert_eq!(handle_play_button(Interaction::Pressed, &mut game), None);
    assert_eq!(game.state, GameState::Running);
    assert_eq!(game.player, Some(Player::new()));
    game.state = GameState::GameOver;
    game.score.value = 5;
    handle_play_button(Interaction::Pressed, &mut game);
    assert_eq!(game.state, GameState::GameOver);
    assert_eq!(game.score.value, 5);
}

#[test]
fn restart_needs_game_over_and_the_request() {
    let mut game = Game::new();
    restart_game(true, &mut game);
    assert_eq!(game.state, GameState::Menu);
    game.state = GameState::GameOver;
    game.wallet.coins = 3;
    game.coins.push(coin_at(0, 0));
    restart_game(false, &mut game);
    assert_eq!(game.state, GameState::GameOver);
    assert_eq!(game.coins.len(), 1);
    restart_game(true, &mut game);
    assert_eq!(game.state, GameState::Running);
    assert!(game.coins.is_empty());
    assert_eq!(game.wallet.coins, 3);
    assert_eq!(game.player, Some(Player::new()));
}

#[test]
fn setup_prepares_a_run_and_keeps_the_state() {
    let mut game = Game::new();
    game.state = GameState::GameOver;
    game.score.value = 77;
    game.coins.push(coin_at(0, 0));
    game.spawn_timer.0.elapsed = 12;
    game.wallet.coins = 2;
    setup(&mut game);
    assert_eq!(game.state, GameState::GameOver);
    assert_eq!(game.score.value, 0);
    assert_eq!(game.score.difficulty, 1_000_000_000);
    assert!(game.coins.is_empty());
    assert_eq!(game.spawn_timer.0.elapsed, 0);
    assert_eq!(game.wallet.coins, 2);
    assert_eq!(game.player, Some(Player::new()));
}
