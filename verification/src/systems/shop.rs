//! The shop: one skin for sale, paid in coins.

use vstd::prelude::*;
use crate::constants::SKIN_COST;
use crate::input::{ButtonShade, Interaction};
use crate::resources::{CoinWallet, Color, CurrentSkin};

verus! {

/// The shop panel while it is open. It shows the balance it was opened with.
#[derive(Clone, Copy, Debug, PartialEq, Eq, Structural)]
pub struct ShopUI {
    pub coins_shown: u32,
}

/// How an attempt to buy ended.
#[derive(Clone, Copy, Debug, PartialEq, Eq, Structural)]
pub enum Purchase {
    /// The price was paid and the skin is equipped.
    Bought,
    /// The wallet holds less than the price; nothing changed.
    Rejected,
}

/// How the buy button answers an interaction.
#[derive(Clone, Copy, Debug, PartialEq, Eq, Structural)]
pub struct BuyResponse {
    /// The button's new background.
    pub shade: ButtonShade,
    /// How the purchase ended, if the button was pressed.
    pub purchase: Option<Purchase>,
}

/// Whether the wallet covers the price of the skin.
pub open spec fn can_afford(wallet: CoinWallet) -> bool {
    wallet.coins >= SKIN_COST
}

/// Skin and wallet after an attempt to buy: with enough coins the price is
/// taken from the wallet and the green skin is equipped; otherwise both stay
/// as they are.
pub open spec fn after_purchase(skin: CurrentSkin, wallet: CoinWallet) -> (CurrentSkin, CoinWallet) {
    if can_afford(wallet) {
        (
            CurrentSkin { color: Color::green() },
            CoinWallet { coins: (wallet.coins - SKIN_COST) as u32 },
        )
    } else {
        (skin, wallet)
    }
}

/// How an attempt to buy with this wallet ends.
pub open spec fn purchase_outcome(wallet: CoinWallet) -> Purchase {
    if can_afford(wallet) {
        Purchase::Bought
    } else {
        Purchase::Rejected
    }
}

/// Tries to buy the green skin.
pub fn buy_skin(skin: &mut CurrentSkin, wallet: &mut CoinWallet) -> (outcome: Purchase)
    ensures
        (*final(skin), *final(wallet)) == after_purchase(*old(skin), *old(wallet)),
        outcome == purchase_outcome(*old(wallet)),
{
    if wallet.coins >= SKIN_COST {
        wallet.coins = wallet.coins - SKIN_COST;
        skin.color = Color { r: 51, g: 204, b: 51, a: 255 };
        Purchase::Bought
    } else {
        Purchase::Rejected
    }
}

/// The background the buy button takes on an interaction.
pub open spec fn buy_button_shade(interaction: Interaction) -> ButtonShade {
    match interaction {
        Interaction::Pressed => ButtonShade::DarkGray,
        Interaction::Hovered => ButtonShade::White,
        Interaction::Idle => ButtonShade::Gray,
    }
}

/// Answers an interaction with the buy button. A press is an attempt to
/// buy; anything else only changes the button's background.
pub fn handle_buy_button(
    interaction: Interaction,
    skin: &mut CurrentSkin,
    wallet: &mut CoinWallet,
) -> (response: BuyResponse)
    ensures
        response.shade == buy_button_shade(interaction),
        interaction == Interaction::Pressed ==> {
            &&& (*final(skin), *final(wallet)) == after_purchase(*old(skin), *old(wallet))
            &&& response.purchase == Some(purchase_outcome(*old(wallet)))
        },
        interaction != Interaction::Pressed ==> {
            &&& *final(skin) == *old(skin)
            &&& *final(wallet) == *old(wallet)
            &&& response.purchase is None
        },
{
    match interaction {
        Interaction::Pressed => {
            let outcome: Purchase = buy_skin(skin, wallet);
            BuyResponse { shade: ButtonShade::DarkGray, purchase: Some(outcome) }
        },
        Interaction::Hovered => BuyResponse { shade: ButtonShade::White, purchase: None },
        Interaction::Idle => BuyResponse { shade: ButtonShade::Gray, purchase: None },
    }
}

/// Opens the shop panel unless it is open already. A new panel shows the
/// current balance. Returns whether a panel was opened.
pub fn shop_ui(shop: &mut Option<ShopUI>, wallet: &CoinWallet) -> (opened: bool)
    ensures
        opened == (*old(shop) is None),
        *final(shop) == if opened {
            Some(ShopUI { coins_shown: wallet.coins })
        } else {
            *old(shop)
        },
{
    if shop.is_some() {
        return false;
    }
    *shop = Some(ShopUI { coins_shown: wallet.coins });
    true
}

} // verus!
