//! A text editor over a `common::Page`, and colored text.
use vstd::prelude::*;
use crate::common::{Page, Screen, Pos};
use crate::config::Color;
use crate::strings::string_from;

verus! {

/// A text and the color to draw it in.
#[derive(Clone, Debug)]
pub struct ColoredText {
    pub text: String,
    pub color: Color,
}

impl ColoredText {
    pub fn new(text: &str, color: Color) -> (r: ColoredText)
        ensures
            r.text@ == text@,
            r.color == color,
    {
        ColoredText { text: string_from(text), color }
    }
}

/// The view in use (`View` in the application).
#[derive(Debug, Clone, Copy, PartialEq, Eq, Structural)]
pub enum ActiveView {
    Text,
    Quit,
}

/// The user interface: the view in use, the editor and its cursor.
pub struct UI {
    pub view: ActiveView,
    pub editor: TextEditor,
    pub pos: Pos,
}

impl UI {
    /// Whether the user asked to quit.
    pub fn is_quit(&self) -> (r: bool)
        ensures
            r == (self.view == ActiveView::Quit),
    {
        match self.view {
            ActiveView::Quit => true,
            _ => false,
        }
    }
}

/// Lines of text on a page, and the screen they are drawn on.
pub struct TextEditor {
    pub page: Page,
    pub text: Vec<String>,
    pub scr: Screen,
}

impl TextEditor {
    /// A key can be handled without overflow: the move it asks for is
    /// defined at `pos`.
    pub open spec fn update_ok(&self, c: char, pos: Pos) -> bool {
        let p = self.page;
        if c == 'e' {
            p.row_ok(pos) && p.scr.xfits() && p.row_bound(pos).back_outcome(p.scr.xs(), pos.xc(), 1) is Some
        } else if c == 'n' {
            p.row_ok(pos) && p.scr.xfits() && p.row_bound(pos).fwd_outcome(p.scr.xs(), pos.xc(), 1) is Some
        } else if c == 'i' {
            &&& p.scr.fits()
            &&& p.y.fwd_outcome(p.scr.ys(), pos.yc(), 1) is Some
            &&& p.y.fwd_outcome(p.scr.ys(), pos.yc(), 1) matches Some(Some(y)) ==> p.row_ok(y.with_x(pos.xc()))
        } else if c == 'o' {
            &&& p.scr.fits()
            &&& p.y.back_outcome(p.scr.ys(), pos.yc(), 1) is Some
            &&& p.y.back_outcome(p.scr.ys(), pos.yc(), 1) matches Some(Some(y)) ==> p.row_ok(y.with_x(pos.xc()))
        } else {
            true
        }
    }

    /// Where a key moves the cursor: `e` left, `n` right, `i` down, `o` up,
    /// by one; `None` where it cannot move or the key means nothing.
    pub open spec fn update_result(&self, c: char, pos: Pos) -> Option<Pos> {
        let p = self.page;
        if c == 'e' {
            match p.row_bound(pos).back_outcome(p.scr.xs(), pos.xc(), 1).unwrap() {
                Some(x) => Some(x.with_y(pos.yc())),
                None => None,
            }
        } else if c == 'n' {
            match p.row_bound(pos).fwd_outcome(p.scr.xs(), pos.xc(), 1).unwrap() {
                Some(x) => Some(x.with_y(pos.yc())),
                None => None,
            }
        } else if c == 'i' {
            match p.y.fwd_outcome(p.scr.ys(), pos.yc(), 1).unwrap() {
                Some(y) => Some(p.into_x_result(y.with_x(pos.xc()))),
                None => None,
            }
        } else if c == 'o' {
            match p.y.back_outcome(p.scr.ys(), pos.yc(), 1).unwrap() {
                Some(y) => Some(p.into_x_result(y.with_x(pos.xc()))),
                None => None,
            }
        } else {
            None
        }
    }

    /// Moves the cursor by a key; the editor itself does not change.
    pub fn update(&mut self, c: char, pos: &Pos) -> (r: Option<Pos>)
        requires
            old(self).update_ok(c, *pos),
        ensures
            r == old(self).update_result(c, *pos),
            final(self).page == old(self).page,
            final(self).scr == old(self).scr,
            final(self).text@ == old(self).text@,
    {
        match c {
            'e' => self.page.move_left(pos, 1),
            'n' => self.page.move_right(pos, 1),
            'i' => self.page.move_down(pos, 1),
            'o' => self.page.move_up(pos, 1),
            _ => None,
        }
    }
}

} // verus!
