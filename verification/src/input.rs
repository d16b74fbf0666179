//! What the user interface reports about a button, and how a button answers.

use vstd::prelude::*;

verus! {

/// What the pointer is doing to a button.
#[derive(Clone, Copy, Debug, PartialEq, Eq, Structural)]
pub enum Interaction {
    Pressed,
    Hovered,
    Idle,
}

/// The background a button takes.
#[derive(Clone, Copy, Debug, PartialEq, Eq, Structural)]
pub enum ButtonShade {
    White,
    Gray,
    DarkGray,
}

} // verus!
