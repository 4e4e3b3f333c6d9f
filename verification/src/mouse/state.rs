//! Which mouse buttons are down, and where the mouse is.

use super::Button;
use vstd::prelude::*;

verus! {

/// The bits of the single-precision number that is no number: where the
/// mouse is before it has moved.
pub const NO_POSITION: u32 = 0x7fc0_0000;

/// Whether each button is down, and the mouse's coordinates, each kept as
/// the bits of a single-precision number.
pub struct State {
    pub buttons: [bool; 3],
    pub x: u32,
    pub y: u32,
}

impl State {
    /// Whether `button` is down.
    pub fn get_button(&self, button: Button) -> (r: bool)
        ensures
            r == self.buttons[button.position() as int],
    {
        self.buttons[button.index()]
    }

    /// Records whether `button` is down.
    pub fn set_button(&mut self, button: Button, pressed: bool)
        ensures
            final(self).buttons@ == old(self).buttons@.update(button.position() as int, pressed),
            final(self).x == old(self).x,
            final(self).y == old(self).y,
    {
        self.buttons[button.index()] = pressed;
    }

    /// The mouse's coordinates.
    pub fn get_position(&self) -> (r: (u32, u32))
        ensures
            r == (self.x, self.y),
    {
        (self.x, self.y)
    }

    /// Records the mouse's coordinates.
    pub fn set_position(&mut self, x: u32, y: u32)
        ensures
            final(self).buttons == old(self).buttons,
            final(self).x == x,
            final(self).y == y,
    {
        self.x = x;
        self.y = y;
    }
}

/// The state in which no button is down and the mouse has no position.
pub fn init() -> (r: State)
    ensures
        r.buttons@ == seq![false, false, false],
        r.x == NO_POSITION,
        r.y == NO_POSITION,
{
    let r = State { buttons: [false, false, false], x: NO_POSITION, y: NO_POSITION };
    assert(r.buttons@ =~= seq![false, false, false]);
    r
}

} // verus!
