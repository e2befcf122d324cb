//! Messages: the events that the application acts on.
use vstd::prelude::*;
use crate::event::{Event, KeyEvent, KeyCode, KeyEventKind, CONTROL, is_control_press};

verus! {

/// What a terminal event asks of the application.
#[derive(Clone, Copy, PartialEq, Eq, Debug, Structural)]
pub enum Message {
    Code(char),
    Resize(u16, u16),
    Enter,
    Escape,
    Stop,
}

/// The message of a key event: control-c stops; enter and escape; any
/// other character pressed is its code; anything else is no message.
pub open spec fn key_message(k: KeyEvent) -> Option<Message> {
    if is_control_press(k, 'c') {
        Some(Message::Stop)
    } else if k.kind != KeyEventKind::Press {
        None
    } else {
        match k.code {
            KeyCode::Enter => Some(Message::Enter),
            KeyCode::Esc => Some(Message::Escape),
            KeyCode::Char(c) => Some(Message::Code(c)),
            _ => None,
        }
    }
}

/// The message of an event: a key's, or a resize.
pub open spec fn event_message(e: Event) -> Option<Message> {
    match e {
        Event::Key(k) => key_message(k),
        Event::Resize(a, b) => Some(Message::Resize(a, b)),
        Event::Other => None,
    }
}

impl Message {
    /// The message of an event, if it asks for anything.
    pub fn from_event(event: Event) -> (r: Option<Message>)
        ensures
            r == event_message(event),
    {
        match event {
            Event::Key(keyevent) => Self::from_key_event(keyevent),
            Event::Resize(y, x) => Some(Message::Resize(y, x)),
            _ => None,
        }
    }

    fn from_key_event(keyevent: KeyEvent) -> (r: Option<Message>)
        ensures
            r == key_message(keyevent),
    {
        if keyevent.code == KeyCode::Char('c') && keyevent.kind == KeyEventKind::Press
            && keyevent.modifiers == CONTROL {
            return Some(Message::Stop);
        }
        if keyevent.kind != KeyEventKind::Press {
            return None;
        }
        match keyevent.code {
            KeyCode::Enter => Some(Message::Enter),
            KeyCode::Esc => Some(Message::Escape),
            KeyCode::Char(c) => Some(Message::Code(c)),
            _ => None,
        }
    }
}

} // verus!
