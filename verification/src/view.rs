//! The viewer: its model, dialogs, colors, text and how messages change
//! them.
use vstd::prelude::*;
use crate::event::{Event, KeyEvent};
use crate::msg::{Message, event_message, key_message};

pub mod model;
pub mod dialog;
pub mod styles;
pub mod text;
pub mod update;

verus! {

/// The message of an event.
pub fn handle_event(event: Event) -> (r: Option<Message>)
    ensures
        r == event_message(event),
{
    match event {
        Event::Key(keyevent) => handle_key_event(keyevent),
        Event::Resize(y, x) => Some(Message::Resize(y, x)),
        _ => None,
    }
}

/// The message of a key event.
pub fn handle_key_event(keyevent: KeyEvent) -> (r: Option<Message>)
    ensures
        r == key_message(keyevent),
{
    Message::from_event(Event::Key(keyevent))
}

} // verus!
