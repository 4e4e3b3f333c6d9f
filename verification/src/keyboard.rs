//! Interface to the keyboard.

pub mod state;

use self::state::State;
use vstd::prelude::*;

verus! {

/// Represents the physical location of a key on a keyboard.
#[derive(Clone, Copy, Debug, PartialEq, Eq, Structural)]
#[non_exhaustive]
pub enum Scancode {
    /// The `` `~ `` key on a US keyboard.
    Backquote,

    /// The `` \| `` key on a US keyboard.
    Backslash,

    /// The `` [{ `` key on a US keyboard.
    BracketLeft,

    /// The `` ]} `` key on a US keyboard.
    BracketRight,

    /// The `` ,< `` key on a US keyboard.
    Comma,

    /// The `` 0) `` key on a US keyboard.
    Digit0,

    /// The `` 1! `` key on a US keyboard.
    Digit1,

    /// The `` 2@ `` key on a US keyboard.
    Digit2,

    /// The `` 3# `` key on a US keyboard.
    Digit3,

    /// The `` 4$ `` key on a US keyboard.
    Digit4,

    /// The `` 5% `` key on a US keyboard.
    Digit5,

    /// The `` 6^ `` key on a US keyboard.
    Digit6,

    /// The `` 7& `` key on a US keyboard.
    Digit7,

    /// The `` 8* `` key on a US keyboard.
    Digit8,

    /// The `` 9( `` key on a US keyboard.
    Digit9,

    /// The `` =+ `` key on a US keyboard.
    Equal,

    /// The `` \| `` key on a UK keyboard.
    IntlBackslash,

    /// The `` \ろ `` key on a Japanese keyboard.
    IntlRo,

    /// The `` ¥ `` key on a Japanese keyboard.
    IntlYen,

    /// The `` a `` key on a US keyboard.
    KeyA,

    /// The `` b `` key on a US keyboard.
    KeyB,

    /// The `` c `` key on a US keyboard.
    KeyC,

    /// The `` d `` key on a US keyboard.
    KeyD,

    /// The `` e `` key on a US keyboard.
    KeyE,

    /// The `` f `` key on a US keyboard.
    KeyF,

    /// The `` g `` key on a US keyboard.
    KeyG,

    /// The `` h `` key on a US keyboard.
    KeyH,

    /// The `` i `` key on a US keyboard.
    KeyI,

    /// The `` j `` key on a US keyboard.
    KeyJ,

    /// The `` k `` key on a US keyboard.
    KeyK,

    /// The `` l `` key on a US keyboard.
    KeyL,

    /// The `` m `` key on a US keyboard.
    KeyM,

    /// The `` n `` key on a US keyboard.
    KeyN,

    /// The `` o `` key on a US keyboard.
    KeyO,

    /// The `` p `` key on a US keyboard.
    KeyP,

    /// The `` q `` key on a US keyboard.
    KeyQ,

    /// The `` r `` key on a US keyboard.
    KeyR,

    /// The `` s `` key on a US keyboard.
    KeyS,

    /// The `` t `` key on a US keyboard.
    KeyT,

    /// The `` u `` key on a US keyboard.
    KeyU,

    /// The `` v `` key on a US keyboard.
    KeyV,

    /// The `` w `` key on a US keyboard.
    KeyW,

    /// The `` x `` key on a US keyboard.
    KeyX,

    /// The `` y `` key on a US keyboard.
    KeyY,

    /// The `` z `` key on a US keyboard.
    KeyZ,

    /// The `` -_ `` key on a US keyboard.
    Minus,

    /// The `` .> `` key on a US keyboard.
    Period,

    /// The `` '" `` key on a US keyboard.
    Quote,

    /// The `` ;: `` key on a US keyboard.
    Semicolon,

    /// The `` /? `` key on a US keyboard.
    Slash,

    /// The left `` alt `` key.
    AltLeft,

    /// The right `` alt `` key.
    AltRight,

    /// The `` backspace `` key.
    Backspace,

    /// The `` capslock `` key.
    CapsLock,

    /// The application context menu key.
    ContextMenu,

    /// The left `` control `` key.
    ControlLeft,

    /// The right `` control `` key.
    ControlRight,

    /// The `` enter `` key.
    Enter,

    /// The left meta key.
    MetaLeft,

    /// The right meta key.
    MetaRight,

    /// The left `` shift `` key.
    ShiftLeft,

    /// The right `` shift `` key.
    ShiftRight,

    /// The space key.
    Space,

    /// The `` tab `` key.
    Tab,

    /// The `` 変換 `` key on a Japanese keyboard.
    Convert,

    /// The `` カタカナ/ひらがな/ローマ字 `` key on a Japanese keyboard.
    KanaMode,

    /// The `` 無変換 `` key on a Japenase keyboard.
    NonConvert,

    /// The `` delete `` key.
    Delete,

    /// The `` end `` key.
    End,

    /// The `` help `` key.
    Help,

    /// The `` home `` key.
    Home,

    /// The `` insert `` key.
    Insert,

    /// The `` page down `` key.
    PageDown,

    /// The `` page up `` key.
    PageUp,

    /// The `` ↓ `` key.
    ArrowDown,

    /// The `` ← `` key.
    ArrowLeft,

    /// The `` → `` key.
    ArrowRight,

    /// The `` ↑ `` key.
    ArrowUp,

    /// The `` numlock `` key.
    NumLock,

    /// The `` 0 `` numpad key.
    Numpad0,

    /// The `` 1 `` numpad key.
    Numpad1,

    /// The `` 2 `` numpad key.
    Numpad2,

    /// The `` 3 `` numpad key.
    Numpad3,

    /// The `` 4 `` numpad key.
    Numpad4,

    /// The `` 5 `` numpad key.
    Numpad5,

    /// The `` 6 `` numpad key.
    Numpad6,

    /// The `` 7 `` numpad key.
    Numpad7,

    /// The `` 8 `` numpad key.
    Numpad8,

    /// The `` 9 `` numpad key.
    Numpad9,

    /// The `` + `` numpad key.
    NumpadAdd,

    /// The `` . `` numpad key.
    NumpadDecimal,

    /// The `` / `` numpad key.
    NumpadDivide,

    /// The `` enter `` numpad key.
    NumpadEnter,

    ///  The `` * `` numpad key.
    NumpadMultiply,

    /// The `` - `` numpad key.
    NumpadSubtract,

    /// The `` esc `` key.
    Escape,

    /// The `` F1 `` key.
    F1,

    /// The `` F2 `` key.
    F2,

    /// The `` F3 `` key.
    F3,

    /// The `` F4 `` key.
    F4,

    /// The `` F5 `` key.
    F5,

    /// The `` F6 `` key.
    F6,

    /// The `` F7 `` key.
    F7,

    /// The `` F8 `` key.
    F8,

    /// The `` F9 `` key.
    F9,

    /// The `` F10 `` key.
    F10,

    /// The `` F11 `` key.
    F11,

    /// The `` F12 `` key.
    F12,

    /// The `` print screen `` key.
    PrintScreen,

    /// The `` scroll lock `` key.
    ScrollLock,

    /// The `` pause `` key.
    Pause,

    /// Any other key.
    Unidentified,
}

/// The number of keys whose state is kept: every key but `Unidentified`.
pub const KEY_COUNT: usize = 111;

impl Scancode {
    /// The position of the key among the scancodes, in the order of their
    /// declaration.
    pub open spec fn position(self) -> usize {
        match self {
            Scancode::Backquote => 0,
            Scancode::Backslash => 1,
            Scancode::BracketLeft => 2,
            Scancode::BracketRight => 3,
            Scancode::Comma => 4,
            Scancode::Digit0 => 5,
            Scancode::Digit1 => 6,
            Scancode::Digit2 => 7,
            Scancode::Digit3 => 8,
            Scancode::Digit4 => 9,
            Scancode::Digit5 => 10,
            Scancode::Digit6 => 11,
            Scancode::Digit7 => 12,
            Scancode::Digit8 => 13,
            Scancode::Digit9 => 14,
            Scancode::Equal => 15,
            Scancode::IntlBackslash => 16,
            Scancode::IntlRo => 17,
            Scancode::IntlYen => 18,
            Scancode::KeyA => 19,
            Scancode::KeyB => 20,
            Scancode::KeyC => 21,
            Scancode::KeyD => 22,
            Scancode::KeyE => 23,
            Scancode::KeyF => 24,
            Scancode::KeyG => 25,
            Scancode::KeyH => 26,
            Scancode::KeyI => 27,
            Scancode::KeyJ => 28,
            Scancode::KeyK => 29,
            Scancode::KeyL => 30,
            Scancode::KeyM => 31,
            Scancode::KeyN => 32,
            Scancode::KeyO => 33,
            Scancode::KeyP => 34,
            Scancode::KeyQ => 35,
            Scancode::KeyR => 36,
            Scancode::KeyS => 37,
            Scancode::KeyT => 38,
            Scancode::KeyU => 39,
            Scancode::KeyV => 40,
            Scancode::KeyW => 41,
            Scancode::KeyX => 42,
            Scancode::KeyY => 43,
            Scancode::KeyZ => 44,
            Scancode::Minus => 45,
            Scancode::Period => 46,
            Scancode::Quote => 47,
            Scancode::Semicolon => 48,
            Scancode::Slash => 49,
            Scancode::AltLeft => 50,
            Scancode::AltRight => 51,
            Scancode::Backspace => 52,
            Scancode::CapsLock => 53,
            Scancode::ContextMenu => 54,
            Scancode::ControlLeft => 55,
            Scancode::ControlRight => 56,
            Scancode::Enter => 57,
            Scancode::MetaLeft => 58,
            Scancode::MetaRight => 59,
            Scancode::ShiftLeft => 60,
            Scancode::ShiftRight => 61,
            Scancode::Space => 62,
            Scancode::Tab => 63,
            Scancode::Convert => 64,
            Scancode::KanaMode => 65,
            Scancode::NonConvert => 66,
            Scancode::Delete => 67,
            Scancode::End => 68,
            Scancode::Help => 69,
            Scancode::Home => 70,
            Scancode::Insert => 71,
            Scancode::PageDown => 72,
            Scancode::PageUp => 73,
            Scancode::ArrowDown => 74,
            Scancode::ArrowLeft => 75,
            Scancode::ArrowRight => 76,
            Scancode::ArrowUp => 77,
            Scancode::NumLock => 78,
            Scancode::Numpad0 => 79,
            Scancode::Numpad1 => 80,
            Scancode::Numpad2 => 81,
            Scancode::Numpad3 => 82,
            Scancode::Numpad4 => 83,
            Scancode::Numpad5 => 84,
            Scancode::Numpad6 => 85,
            Scancode::Numpad7 => 86,
            Scancode::Numpad8 => 87,
            Scancode::Numpad9 => 88,
            Scancode::NumpadAdd => 89,
            Scancode::NumpadDecimal => 90,
            Scancode::NumpadDivide => 91,
            Scancode::NumpadEnter => 92,
            Scancode::NumpadMultiply => 93,
            Scancode::NumpadSubtract => 94,
            Scancode::Escape => 95,
            Scancode::F1 => 96,
            Scancode::F2 => 97,
            Scancode::F3 => 98,
            Scancode::F4 => 99,
            Scancode::F5 => 100,
            Scancode::F6 => 101,
            Scancode::F7 => 102,
            Scancode::F8 => 103,
            Scancode::F9 => 104,
            Scancode::F10 => 105,
            Scancode::F11 => 106,
            Scancode::F12 => 107,
            Scancode::PrintScreen => 108,
            Scancode::ScrollLock => 109,
            Scancode::Pause => 110,
            Scancode::Unidentified => 111,
        }
    }

    /// The position of the key among the scancodes, in the order of their
    /// declaration.
    pub fn index(self) -> (r: usize)
        ensures
            r == self.position(),
            r <= KEY_COUNT,
            r == KEY_COUNT <==> self == Scancode::Unidentified,
    {
        match self {
            Scancode::Backquote => 0,
            Scancode::Backslash => 1,
            Scancode::BracketLeft => 2,
            Scancode::BracketRight => 3,
            Scancode::Comma => 4,
            Scancode::Digit0 => 5,
            Scancode::Digit1 => 6,
            Scancode::Digit2 => 7,
            Scancode::Digit3 => 8,
            Scancode::Digit4 => 9,
            Scancode::Digit5 => 10,
            Scancode::Digit6 => 11,
            Scancode::Digit7 => 12,
            Scancode::Digit8 => 13,
            Scancode::Digit9 => 14,
            Scancode::Equal => 15,
            Scancode::IntlBackslash => 16,
            Scancode::IntlRo => 17,
            Scancode::IntlYen => 18,
            Scancode::KeyA => 19,
            Scancode::KeyB => 20,
            Scancode::KeyC => 21,
            Scancode::KeyD => 22,
            Scancode::KeyE => 23,
            Scancode::KeyF => 24,
            Scancode::KeyG => 25,
            Scancode::KeyH => 26,
            Scancode::KeyI => 27,
            Scancode::KeyJ => 28,
            Scancode::KeyK => 29,
            Scancode::KeyL => 30,
            Scancode::KeyM => 31,
            Scancode::KeyN => 32,
            Scancode::KeyO => 33,
            Scancode::KeyP => 34,
            Scancode::KeyQ => 35,
            Scancode::KeyR => 36,
            Scancode::KeyS => 37,
            Scancode::KeyT => 38,
            Scancode::KeyU => 39,
            Scancode::KeyV => 40,
            Scancode::KeyW => 41,
            Scancode::KeyX => 42,
            Scancode::KeyY => 43,
            Scancode::KeyZ => 44,
            Scancode::Minus => 45,
            Scancode::Period => 46,
            Scancode::Quote => 47,
            Scancode::Semicolon => 48,
            Scancode::Slash => 49,
            Scancode::AltLeft => 50,
            Scancode::AltRight => 51,
            Scancode::Backspace => 52,
            Scancode::CapsLock => 53,
            Scancode::ContextMenu => 54,
            Scancode::ControlLeft => 55,
            Scancode::ControlRight => 56,
            Scancode::Enter => 57,
            Scancode::MetaLeft => 58,
            Scancode::MetaRight => 59,
            Scancode::ShiftLeft => 60,
            Scancode::ShiftRight => 61,
            Scancode::Space => 62,
            Scancode::Tab => 63,
            Scancode::Convert => 64,
            Scancode::KanaMode => 65,
            Scancode::NonConvert => 66,
            Scancode::Delete => 67,
            Scancode::End => 68,
            Scancode::Help => 69,
            Scancode::Home => 70,
            Scancode::Insert => 71,
            Scancode::PageDown => 72,
            Scancode::PageUp => 73,
            Scancode::ArrowDown => 74,
            Scancode::ArrowLeft => 75,
            Scancode::ArrowRight => 76,
            Scancode::ArrowUp => 77,
            Scancode::NumLock => 78,
            Scancode::Numpad0 => 79,
            Scancode::Numpad1 => 80,
            Scancode::Numpad2 => 81,
            Scancode::Numpad3 => 82,
            Scancode::Numpad4 => 83,
            Scancode::Numpad5 => 84,
            Scancode::Numpad6 => 85,
            Scancode::Numpad7 => 86,
            Scancode::Numpad8 => 87,
            Scancode::Numpad9 => 88,
            Scancode::NumpadAdd => 89,
            Scancode::NumpadDecimal => 90,
            Scancode::NumpadDivide => 91,
            Scancode::NumpadEnter => 92,
            Scancode::NumpadMultiply => 93,
            Scancode::NumpadSubtract => 94,
            Scancode::Escape => 95,
            Scancode::F1 => 96,
            Scancode::F2 => 97,
            Scancode::F3 => 98,
            Scancode::F4 => 99,
            Scancode::F5 => 100,
            Scancode::F6 => 101,
            Scancode::F7 => 102,
            Scancode::F8 => 103,
            Scancode::F9 => 104,
            Scancode::F10 => 105,
            Scancode::F11 => 106,
            Scancode::F12 => 107,
            Scancode::PrintScreen => 108,
            Scancode::ScrollLock => 109,
            Scancode::Pause => 110,
            Scancode::Unidentified => 111,
        }
    }
}

/// Check if a key is pressed. A key without a state of its own,
/// `Unidentified`, is never pressed.
pub fn is_pressed(state: &State, scancode: Scancode) -> (r: bool)
    ensures
        r == (scancode != Scancode::Unidentified && state@[scancode.position() as int]),
{
    scancode != Scancode::Unidentified && state.get_key(scancode)
}

} // verus!
