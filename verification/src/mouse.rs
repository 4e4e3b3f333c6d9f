//! Interface to the mouse.

pub mod state;

use self::state::State;
use vstd::prelude::*;

verus! {

/// Represents a button on a mouse.
#[derive(Clone, Copy, Debug, PartialEq, Eq, Structural)]
pub enum Button {
    Left,
    Right,
    Middle,
}

impl Button {
    /// The position of the button among the buttons, in the order of their
    /// declaration.
    pub open spec fn position(self) -> usize {
        match self {
            Button::Left => 0,
            Button::Right => 1,
            Button::Middle => 2,
        }
    }

    /// The position of the button among the buttons, in the order of their
    /// declaration.
    pub fn index(self) -> (r: usize)
        ensures
            r == self.position(),
    {
        match self {
            Button::Left => 0,
            Button::Right => 1,
            Button::Middle => 2,
        }
    }
}

/// Check if a button is pressed.
pub fn is_pressed(state: &State, button: Button) -> (r: bool)
    ensures
        r == state.buttons[button.position() as int],
{
    state.get_button(button)
}

/// Get the x and y coordinates of the mouse, each as the bits of a
/// single-precision number.
pub fn get_position(state: &State) -> (r: (u32, u32))
    ensures
        r == (state.x, state.y),
{
    state.get_position()
}

} // verus!
