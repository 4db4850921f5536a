//! Input events, as the host reports them, and the key binding that ends
//! the session.

use vstd::prelude::*;

verus! {

/// The shift key, as a bit of [`KeyModifiers`].
pub const SHIFT: u8 = 0x01;

/// The control key, as a bit of [`KeyModifiers`].
pub const CONTROL: u8 = 0x02;

/// The alt key, as a bit of [`KeyModifiers`].
pub const ALT: u8 = 0x04;

/// The super key, as a bit of [`KeyModifiers`].
pub const SUPER: u8 = 0x08;

/// The hyper key, as a bit of [`KeyModifiers`].
pub const HYPER: u8 = 0x10;

/// The meta key, as a bit of [`KeyModifiers`].
pub const META: u8 = 0x20;

/// The character of the key that ends the session.
pub const QUIT_KEY: char = 'q';

/// The set of modifiers that must be held, and no others, for [`QUIT_KEY`]
/// to end the session.
pub const QUIT_MODIFIERS: u8 = CONTROL;

/// The set of modifier keys held during a key event, one bit for each.
#[derive(Copy, Clone, Debug, PartialEq, Eq)]
pub struct KeyModifiers {
    pub bits: u8,
}

/// Which key a key event is about.
#[derive(Copy, Clone, Debug, PartialEq, Eq)]
pub enum KeyCode {
    /// A key that produces a character.
    Char(char),
    /// Any other key.
    Other,
}

/// Whether the key went down, is being held, or came up.
#[derive(Copy, Clone, Debug, PartialEq, Eq)]
pub enum KeyEventKind {
    Press,
    Repeat,
    Release,
}

/// One event of the keyboard.
#[derive(Copy, Clone, Debug, PartialEq, Eq)]
pub struct KeyEvent {
    pub code: KeyCode,
    pub modifiers: KeyModifiers,
    pub kind: KeyEventKind,
    /// The keyboard state flags as the device reported them. Nothing here
    /// looks at them.
    pub state: u8,
}

/// One event of the input stream.
#[derive(Copy, Clone, Debug, PartialEq, Eq)]
pub enum InputEvent {
    /// A key event.
    Key(KeyEvent),
    /// An event of any other kind: a resize, the mouse, the focus.
    Other,
}

/// Whether `event` is the command to quit: a key event for [`QUIT_KEY`] with
/// a modifier set equal to [`QUIT_MODIFIERS`]. Whether the key went down or
/// came up makes no difference.
pub open spec fn is_quit_event(event: InputEvent) -> bool {
    event matches InputEvent::Key(key)
        && key.code == KeyCode::Char(QUIT_KEY)
        && key.modifiers.bits == QUIT_MODIFIERS
}

impl InputEvent {
    /// Tells whether this event is the command to quit.
    pub fn is_quit(&self) -> (quit: bool)
        ensures
            quit == is_quit_event(*self),
    {
        match self {
            InputEvent::Key(key) => match key.code {
                KeyCode::Char(character) => character == QUIT_KEY && key.modifiers.bits
                    == QUIT_MODIFIERS,
                KeyCode::Other => false,
            },
            InputEvent::Other => false,
        }
    }
}

} // verus!
