//! A box of lines with a two-dimensional cursor.
use vstd::prelude::*;
use crate::strings::string_from;

verus! {

/// A view box: its lines, the cursor and the widest column.
#[derive(Clone)]
pub struct ViewBox {
    pub content: Vec<String>,
    pub x: i8,
    pub y: i8,
    pub width: i8,
}

impl ViewBox {
    /// Moves the cursor by `n` columns where it stays within `0..=width`;
    /// tells whether it moved.
    pub fn move_horizontal(&mut self, n: i8) -> (r: bool)
        requires
            i8::MIN <= old(self).x + n <= i8::MAX,
        ensures
            r == (0 <= old(self).x + n <= old(self).width),
            final(self).x == (if r { (old(self).x + n) as i8 } else { old(self).x }),
            final(self).y == old(self).y,
            final(self).width == old(self).width,
            final(self).content@ == old(self).content@,
    {
        let p: i8 = self.x + n;
        if p < 0 || p > self.width {
            false
        } else {
            self.x = p;
            true
        }
    }

    /// Moves the cursor by `n` rows where it stays within
    /// `0..=content.len()`; tells whether it moved.  The number of lines
    /// must fit in an `i8`.
    pub fn move_vertical(&mut self, n: i8) -> (r: bool)
        requires
            i8::MIN <= old(self).y + n <= i8::MAX,
            old(self).content@.len() <= i8::MAX,
        ensures
            r == (0 <= old(self).y + n <= old(self).content@.len()),
            final(self).y == (if r { (old(self).y + n) as i8 } else { old(self).y }),
            final(self).x == old(self).x,
            final(self).width == old(self).width,
            final(self).content@ == old(self).content@,
    {
        let p: i8 = self.y + n;
        let len = self.content.len() as i8;
        if p < 0 || p > len {
            false
        } else {
            self.y = p;
            true
        }
    }

    /// Gives nothing back.
    pub fn get_url(self) {
    }
}

impl Default for ViewBox {
    fn default() -> (r: ViewBox)
        ensures
            r.content@.len() == 1,
            r.content@[0]@ == "viewbox"@,
            r.x == 0,
            r.y == 0,
            r.width == 0,
    {
        let mut content: Vec<String> = Vec::new();
        content.push(string_from("viewbox"));
        ViewBox { content, x: 0, y: 0, width: 0 }
    }
}

} // verus!
