//! The dashboard's eight touch buttons.

use vstd::prelude::*;

verus! {

#[derive(Clone, Copy, Debug, PartialEq, Eq, Structural)]
pub enum Button {
    B0,
    B1,
    B2,
    B3,
    B4,
    B5,
    B6,
    B7,
}

#[derive(Clone, Copy, Debug, PartialEq, Eq, Structural)]
pub enum Action {
    Pressed(Button),
    Released(Button),
}

/// Sets up the button input; the buttons need no setup.
pub fn init() {
}

/// The display action for a press or release of touch input `index`.
///
/// Only presses of inputs 0 to 6 act: 0 and 3 press B4, 1 and 4 press B5,
/// 2 presses B3, 5 presses B1 and 6 presses B2.
pub open spec fn action_for_input(index: u8, pressed: bool) -> Option<Action> {
    if !pressed {
        None
    } else if index == 0 || index == 3 {
        Some(Action::Pressed(Button::B4))
    } else if index == 1 || index == 4 {
        Some(Action::Pressed(Button::B5))
    } else if index == 2 {
        Some(Action::Pressed(Button::B3))
    } else if index == 5 {
        Some(Action::Pressed(Button::B1))
    } else if index == 6 {
        Some(Action::Pressed(Button::B2))
    } else {
        None
    }
}

/// The display action for a press or release of touch input `index`.
pub fn input_action(index: u8, pressed: bool) -> (r: Option<Action>)
    ensures
        r == action_for_input(index, pressed),
{
    if !pressed {
        return None;
    }
    match index {
        0 => Some(Action::Pressed(Button::B4)),
        1 => Some(Action::Pressed(Button::B5)),
        2 => Some(Action::Pressed(Button::B3)),
        3 => Some(Action::Pressed(Button::B4)),
        4 => Some(Action::Pressed(Button::B5)),
        5 => Some(Action::Pressed(Button::B1)),
        6 => Some(Action::Pressed(Button::B2)),
        _ => None,
    }
}

} // verus!
