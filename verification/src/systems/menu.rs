//! The main menu: its one button begins a run.

use vstd::prelude::*;
use crate::game::Game;
use crate::input::{ButtonShade, Interaction};
use crate::resources::GameState;
use crate::systems::setup::setup;

verus! {

/// The background the play button takes on an interaction. A press leaves
/// it as it is.
pub open spec fn play_button_shade(interaction: Interaction) -> Option<ButtonShade> {
    match interaction {
        Interaction::Pressed => None,
        Interaction::Hovered => Some(ButtonShade::DarkGray),
        Interaction::Idle => Some(ButtonShade::Gray),
    }
}

/// Answers an interaction with the play button. A press in the menu begins
/// a run; in any other state, and for any other interaction, the game is
/// left alone. Returns the button's new background, if it changes.
pub fn handle_play_button(interaction: Interaction, game: &mut Game) -> (shade: Option<ButtonShade>)
    ensures
        shade == play_button_shade(interaction),
        final(game)@ == if interaction == Interaction::Pressed && old(game).state
            == GameState::Menu {
            old(game)@.fresh_run()
        } else {
            old(game)@
        },
        old(game)@.wf() ==> final(game)@.wf(),
{
    match interaction {
        Interaction::Pressed => {
            if game.state == GameState::Menu {
                game.state = GameState::Running;
                setup(game);
            }
            None
        },
        Interaction::Hovered => Some(ButtonShade::DarkGray),
        Interaction::Idle => Some(ButtonShade::Gray),
    }
}

} // verus!
