//! What a dialog's input answers, and how a dialog that offers a choice of
//! keys answers a key.
use vstd::prelude::*;
use crate::event::KeyCode;

verus! {

/// The answer of a dialog's input: nothing yet, cancel, a choice, or a
/// text.
#[derive(Clone, Debug)]
pub enum InputMsg {
    Nothing,
    Cancel,
    Choose(char),
    Text(String),
}

/// The keys offered, each with its label, include `c`.
pub open spec fn offers(src: Seq<(char, String)>, c: char) -> bool {
    exists|i: int| 0 <= i < src.len() && (#[trigger] src[i]).0 == c
}

/// How a dialog offering a choice of keys answers a key: escape cancels;
/// an offered key is chosen; any other key is not taken.
pub fn choose_update(src: &Vec<(char, String)>, keycode: &KeyCode) -> (r: Option<InputMsg>)
    ensures
        match *keycode {
            KeyCode::Esc => r matches Some(InputMsg::Cancel),
            KeyCode::Char(c) => if offers(src@, c) { r matches Some(InputMsg::Choose(d)) && d == c } else { r is None },
            _ => r is None,
        },
{
    match keycode {
        KeyCode::Esc => Some(InputMsg::Cancel),
        KeyCode::Char(c) => {
            let mut k: usize = 0;
            while k < src.len()
                invariant
                    k <= src@.len(),
                    *keycode == KeyCode::Char(*c),
                    forall|i: int| 0 <= i < k ==> (#[trigger] src@[i]).0 != *c,
                decreases src@.len() - k,
            {
                if src[k].0 == *c {
                    return Some(InputMsg::Choose(*c));
                }
                k = k + 1;
            }
            None
        },
        _ => None,
    }
}

} // verus!
