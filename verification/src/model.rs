//! The model's line colors, dialogs and messages.
use vstd::prelude::*;
use crate::event::{Event, KeyEvent, KeyCode, KeyEventKind};

pub use crate::view::styles::LineStyles;
pub use crate::view::dialog::{Action, Dialog};
pub use crate::view::model::Address;

verus! {

/// What a terminal event asks of the model.
#[derive(Clone, Copy, PartialEq, Eq, Debug, Structural)]
pub enum Message {
    Code(char),
    Resize(u16, u16),
    Enter,
    Escape,
    Stop,
}

/// The message of an event: a pressed character is its code, a resize is
/// a resize; nothing else is a message.
pub open spec fn model_message(e: Event) -> Option<Message> {
    match e {
        Event::Key(k) => if k.kind == KeyEventKind::Press && k.code is Char {
            Some(Message::Code(k.code->0))
        } else {
            None
        },
        Event::Resize(a, b) => Some(Message::Resize(a, b)),
        Event::Other => None,
    }
}

impl Message {
    pub fn from_event(event: Event) -> (r: Option<Message>)
        ensures
            r == model_message(event),
    {
        match event {
            Event::Key(keyevent) => Self::from_key_event(keyevent),
            Event::Resize(y, x) => Some(Message::Resize(y, x)),
            _ => None,
        }
    }

    fn from_key_event(keyevent: KeyEvent) -> (r: Option<Message>)
        ensures
            r == model_message(Event::Key(keyevent)),
    {
        if keyevent.kind == KeyEventKind::Press {
            match keyevent.code {
                KeyCode::Char(c) => Some(Message::Code(c)),
                _ => None,
            }
        } else {
            None
        }
    }
}

} // verus!
