//! A list of lines with a selected row.
use vstd::prelude::*;
use crate::strings::string_from;

verus! {

/// A list box: its lines and the selected row.
#[derive(Clone)]
pub struct ListBox {
    pub content: Vec<String>,
    pub pos: i8,
}

impl ListBox {
    /// Moves the selection by `n` rows where it stays within
    /// `0..=content.len()`; tells whether it moved.  The number of lines
    /// must fit in an `i8`.
    pub fn move_vertical(&mut self, n: i8) -> (r: bool)
        requires
            i8::MIN <= old(self).pos + n <= i8::MAX,
            old(self).content@.len() <= i8::MAX,
        ensures
            r == (0 <= old(self).pos + n <= old(self).content@.len()),
            final(self).pos == (if r { (old(self).pos + n) as i8 } else { old(self).pos }),
            final(self).content@ == old(self).content@,
    {
        let p: i8 = self.pos + n;
        let len = self.content.len() as i8;
        if p < 0 || p > len {
            false
        } else {
            self.pos = p;
            true
        }
    }

    /// Gives nothing back.
    pub fn get_url(self) {
    }
}

impl Default for ListBox {
    fn default() -> (r: ListBox)
        ensures
            r.content@.len() == 1,
            r.content@[0]@ == "listbox"@,
            r.pos == 0,
    {
        let mut content: Vec<String> = Vec::new();
        content.push(string_from("listbox"));
        ListBox { content, pos: 0 }
    }
}

} // verus!
