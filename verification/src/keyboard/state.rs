//! Which keys are down.

use super::Scancode;
use vstd::prelude::*;

verus! {

/// For every key but `Unidentified`, whether it is down.
pub struct State {
    keys: [bool; 111],
}

impl View for State {
    type V = Seq<bool>;

    closed spec fn view(&self) -> Seq<bool> {
        self.keys@
    }
}

impl State {
    /// Whether `key` is down.
    pub fn get_key(&self, key: Scancode) -> (r: bool)
        requires
            key != Scancode::Unidentified,
        ensures
            r == self@[key.position() as int],
    {
        self.keys[key.index()]
    }

    /// Records whether `key` is down.
    pub fn set_key(&mut self, key: Scancode, pressed: bool)
        requires
            key != Scancode::Unidentified,
        ensures
            final(self)@ == old(self)@.update(key.position() as int, pressed),
    {
        self.keys[key.index()] = pressed;
    }
}

/// The state in which no key is down.
pub fn init() -> (r: State)
    ensures
        r@ == Seq::new(111, |i: int| false),
{
    let r = State { keys: [false; 111] };
    assert(r@ =~= Seq::new(111, |i: int| false));
    r
}

} // verus!
