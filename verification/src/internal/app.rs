//! The window's configuration and what the event handler decides.

use crate::keyboard;
use crate::keyboard::Scancode;
use crate::mouse;
use crate::mouse::Button;
use vstd::prelude::*;
use vstd::string::StringExecFns;

verus! {

/// How the window is opened.
pub struct Config {
    pub title: Option<String>,
}

impl Config {
    /// A window without a title of its own.
    pub fn default() -> (r: Config)
        ensures
            r.title is None,
    {
        Config { title: None }
    }

    /// The title that the window gets: the configured one, or `heart`.
    /// The configuration has none afterwards.
    pub fn take_title(&mut self) -> (r: String)
        ensures
            final(self).title is None,
            r@ == match old(self).title {
                Some(title) => title@,
                None => "heart"@,
            },
    {
        let mut title: Option<String> = None;
        core::mem::swap(&mut title, &mut self.title);
        match title {
            Some(title) => title,
            None => String::from_str("heart"),
        }
    }
}

/// What the window reports.
#[derive(Clone, Copy, Debug, PartialEq, Eq, Structural)]
pub enum Event {
    /// The window wants to be drawn.
    RedrawRequested,
    /// The window has a new size in pixels.
    Resized { width: u32, height: u32 },
    /// The user asked to close the window.
    CloseRequested,
    /// A key went down or up; `Unidentified` for a key outside the table.
    /// `repeat` says that the key was held down and the keyboard repeats
    /// it.
    KeyboardInput { repeat: bool, scancode: Scancode, pressed: bool },
    /// The mouse moved to `(x, y)`, each the bits of a single-precision
    /// number.
    CursorMoved { x: u32, y: u32 },
    /// A mouse button went down or up; `None` for a button that is not the
    /// left, the right or the middle one.
    MouseInput { button: Option<Button>, pressed: bool },
    /// Anything else.
    Other,
}

/// What the event loop does next.
#[derive(Clone, Copy, Debug, PartialEq, Eq, Structural)]
pub enum Action {
    /// Nothing.
    Ignore,
    /// Start a frame, run the draw callbacks, render and present.
    Redraw,
    /// Configure the surface for the new size and tell the shaders.
    Resize { width: u32, height: u32 },
    /// Leave the event loop.
    Exit,
    /// Run the callbacks for a key that went down.
    KeyPressed { scancode: Scancode },
    /// Run the callbacks for a key that went up.
    KeyReleased { scancode: Scancode },
    /// Run the callbacks for the mouse that moved from `(from_x, from_y)`
    /// to `(x, y)`.
    MouseMoved { x: u32, y: u32, from_x: u32, from_y: u32 },
    /// Run the callbacks for a button that went down with the mouse at
    /// `(x, y)`.
    MousePressed { x: u32, y: u32, button: Button },
    /// Run the callbacks for a button that went up with the mouse at
    /// `(x, y)`.
    MouseReleased { x: u32, y: u32, button: Button },
}

impl Event {
    /// What the event loop does on this event, with the mouse as it was
    /// before the event.
    pub open spec fn action(self, mouse: mouse::state::State) -> Action {
        match self {
            Event::RedrawRequested => Action::Redraw,
            Event::Resized { width, height } => if width > 0 && height > 0 {
                Action::Resize { width, height }
            } else {
                Action::Ignore
            },
            Event::CloseRequested => Action::Exit,
            Event::KeyboardInput { repeat, scancode, pressed } => if repeat {
                Action::Ignore
            } else if pressed {
                Action::KeyPressed { scancode }
            } else {
                Action::KeyReleased { scancode }
            },
            Event::CursorMoved { x, y } => Action::MouseMoved {
                x,
                y,
                from_x: mouse.x,
                from_y: mouse.y,
            },
            Event::MouseInput { button, pressed } => match button {
                Some(button) => if pressed {
                    Action::MousePressed { x: mouse.x, y: mouse.y, button }
                } else {
                    Action::MouseReleased { x: mouse.x, y: mouse.y, button }
                },
                None => Action::Ignore,
            },
            Event::Other => Action::Ignore,
        }
    }

    /// The keys after this event: a key that went down or up, and is not
    /// repeated, is recorded. A key without a state of its own,
    /// `Unidentified`, leaves the keys as they are.
    pub open spec fn keys(self, keyboard: Seq<bool>) -> Seq<bool> {
        match self {
            Event::KeyboardInput { repeat, scancode, pressed } => if repeat || scancode
                == Scancode::Unidentified {
                keyboard
            } else {
                keyboard.update(scancode.position() as int, pressed)
            },
            _ => keyboard,
        }
    }

    /// The mouse buttons after this event: a button that went down or up
    /// is recorded.
    pub open spec fn buttons(self, buttons: Seq<bool>) -> Seq<bool> {
        match self {
            Event::MouseInput { button: Some(button), pressed } => buttons.update(
                button.position() as int,
                pressed,
            ),
            _ => buttons,
        }
    }

    /// The mouse's coordinates after this event: where it moved to is
    /// recorded.
    pub open spec fn position(self, position: (u32, u32)) -> (u32, u32) {
        match self {
            Event::CursorMoved { x, y } => (x, y),
            _ => position,
        }
    }
}

/// Records what the event says of the keys and of the mouse, and decides
/// what the event loop does next.
pub fn window_event(
    keyboard: &mut keyboard::state::State,
    mouse: &mut mouse::state::State,
    event: Event,
) -> (action: Action)
    ensures
        action == event.action(*old(mouse)),
        final(keyboard)@ == event.keys(old(keyboard)@),
        final(mouse).buttons@ == event.buttons(old(mouse).buttons@),
        (final(mouse).x, final(mouse).y) == event.position((old(mouse).x, old(mouse).y)),
{
    match event {
        Event::RedrawRequested => Action::Redraw,
        Event::Resized { width, height } => {
            if width > 0 && height > 0 {
                Action::Resize { width, height }
            } else {
                Action::Ignore
            }
        },
        Event::CloseRequested => Action::Exit,
        Event::KeyboardInput { repeat, scancode, pressed } => {
            if repeat {
                Action::Ignore
            } else {
                if scancode != Scancode::Unidentified {
                    keyboard.set_key(scancode, pressed);
                }
                if pressed {
                    Action::KeyPressed { scancode }
                } else {
                    Action::KeyReleased { scancode }
                }
            }
        },
        Event::CursorMoved { x, y } => {
            let (from_x, from_y) = mouse.get_position();
            mouse.set_position(x, y);
            Action::MouseMoved { x, y, from_x, from_y }
        },
        Event::MouseInput { button, pressed } => {
            match button {
                Some(button) => {
                    let (x, y) = mouse.get_position();
                    mouse.set_button(button, pressed);
                    if pressed {
                        Action::MousePressed { x, y, button }
                    } else {
                        Action::MouseReleased { x, y, button }
                    }
                },
                None => Action::Ignore,
            }
        },
        Event::Other => Action::Ignore,
    }
}

} // verus!
