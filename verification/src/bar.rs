//! A one-line text bar with a cursor position.
use vstd::prelude::*;
use crate::event::KeyCode;
use crate::strings::string_from;

verus! {

/// A text bar: its content, the cursor position and the widest position.
#[derive(Clone)]
pub struct TextBar {
    pub content: String,
    pub pos: i8,
    pub width: i8,
}

impl TextBar {
    /// Moves the cursor by `n` where it stays within `0..=width`; tells
    /// whether it moved.
    pub fn move_horizontal(&mut self, n: i8) -> (r: bool)
        requires
            i8::MIN <= old(self).pos + n <= i8::MAX,
        ensures
            r == (0 <= old(self).pos + n <= old(self).width),
            final(self).pos == (if r { (old(self).pos + n) as i8 } else { old(self).pos }),
            final(self).width == old(self).width,
            final(self).content == old(self).content,
    {
        let p: i8 = self.pos + n;
        if p < 0 || p > self.width {
            false
        } else {
            self.pos = p;
            true
        }
    }

    /// Takes a key; the bar does not change.
    pub fn edit(&mut self, keycode: KeyCode)
        ensures
            *final(self) == *old(self),
    {
    }

    /// Gives nothing back.
    pub fn get_url(self) {
    }
}

impl Default for TextBar {
    fn default() -> (r: TextBar)
        ensures
            r.pos == 0,
            r.width == 20,
            r.content@ == "textbar"@,
    {
        TextBar { pos: 0, width: 20, content: string_from("textbar") }
    }
}

} // verus!
