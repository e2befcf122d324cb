//! Terminal events as plain values: key presses and resizes.
use vstd::prelude::*;

verus! {

/// The bit of the control key in `KeyEvent::modifiers`.
pub const CONTROL: u8 = 0b0000_0010;

/// A key.
#[derive(Clone, Copy, PartialEq, Eq, Debug, Structural)]
pub enum KeyCode {
    Char(char),
    Enter,
    Esc,
    Left,
    Right,
    Up,
    Down,
    Delete,
    Backspace,
    Other,
}

/// Whether a key went down, repeated, or came up.
#[derive(Clone, Copy, PartialEq, Eq, Debug, Structural)]
pub enum KeyEventKind {
    Press,
    Repeat,
    Release,
}

/// A key event: the key, the modifier keys held (as bits), and its kind.
#[derive(Clone, Copy, PartialEq, Eq, Debug, Structural)]
pub struct KeyEvent {
    pub code: KeyCode,
    pub modifiers: u8,
    pub kind: KeyEventKind,
}

/// A terminal event.
#[derive(Clone, Copy, PartialEq, Eq, Debug, Structural)]
pub enum Event {
    Key(KeyEvent),
    Resize(u16, u16),
    Other,
}

/// A press of `c` with the control key alone.
pub open spec fn is_control_press(k: KeyEvent, c: char) -> bool {
    k.code == KeyCode::Char(c) && k.kind == KeyEventKind::Press && k.modifiers == CONTROL
}

} // verus!
