//! A text viewer with a cursor over `screen` coordinates: the user
//! interface's state and how it answers events.
use vstd::prelude::*;
use crate::screen::{
    self, Screen, DataScreen, Pos, back_outcome, fwd_outcome, row_len, into_x_ok, into_x_result,
    into_y_result, back_defined, fwd_defined, into_x_defined, data_end, max_scroll,
};
use crate::event::{Event, KeyCode, KeyEvent, KeyEventKind, is_control_press};
use crate::strings::{lines_vec, byte_lens, lines_of};
use crate::bnd::byte_len;

verus! {

/// The view in use (`View` in the application).
#[derive(Debug, Clone, Copy, PartialEq, Eq, Structural)]
pub enum ActiveView {
    Text,
    Quit,
}

/// The user interface: the view in use and the editor.
pub struct UI {
    pub view: ActiveView,
    pub editor: TextEditor,
}

/// The screen that the text is drawn in: the whole screen without a
/// margin of 8 columns and 2 rows on each side.
pub open spec fn text_area(scr: Screen) -> Screen {
    scr.east(8).west(8).north(2).south(2)
}

/// The text area of a screen can be computed without overflow.
pub open spec fn area_ok(scr: Screen) -> bool {
    scr.xfits() && scr.east(8).west(8).yfits()
}

/// Lines of text, their lengths in bytes, the screens they are drawn on,
/// the cursor, and the column the cursor goes back to when it moves up or
/// down.
pub struct TextEditor {
    pub txt: Vec<String>,
    pub txtlen: Vec<usize>,
    pub txtscr: DataScreen,
    pub scr: Screen,
    pub pos: Pos,
    pub pref_x: u16,
}

impl TextEditor {
    /// The lines that `txtlen` measures.
    pub open spec fn lens_match(&self) -> bool {
        &&& self.txtlen@.len() == self.txt@.len()
        &&& forall|k: int| 0 <= k < self.txt@.len() ==> self.txtlen@[k] == byte_len((#[trigger] self.txt@[k])@) as usize
    }

    /// The editor for a text on a screen, with the cursor at the top left
    /// of the text area.
    pub fn new(scr: &Screen, spc: u16, txt: &str) -> (r: TextEditor)
        requires
            area_ok(*scr),
            text_area(*scr).xfits(),
            text_area(*scr).yfits(),
        ensures
            r.txt@.len() == lines_of(txt@).len(),
            forall|k: int| 0 <= k < r.txt@.len() ==> (#[trigger] r.txt@[k])@ == lines_of(txt@)[k],
            r.lens_match(),
            r.scr == *scr,
            r.txtscr.outer == text_area(*scr),
            r.txtscr.inner == text_area(*scr).east(spc).west(spc).north(spc).south(spc),
            r.pos == (Pos { x: text_area(*scr).x, y: text_area(*scr).y, i: 0, j: 0 }),
            r.pref_x == text_area(*scr).x,
    {
        let txt = lines_vec(txt);
        let txtlen = byte_lens(&txt);
        let outer = scr.crop_x(8).crop_y(2);
        let txtscr = DataScreen::new(outer, spc, spc);
        let pos = Pos::origin(&txtscr.outer);
        TextEditor { scr: *scr, txtscr, pref_x: pos.x, pos, txtlen, txt }
    }

    /// The editor can be fitted to a new screen: the cursor can be kept
    /// inside the text there.
    pub open spec fn resize_ok(&self, scr: Screen, spc: u16) -> bool {
        let outer = text_area(scr);
        let d = DataScreen { outer, inner: outer.east(spc).west(spc).north(spc).south(spc) };
        &&& area_ok(scr)
        &&& outer.xfits()
        &&& outer.yfits()
        &&& into_x_ok(d, self.pos, self.txtlen@)
        &&& d.inner.yfits()
    }

    /// Fits the editor to a new screen, keeping the cursor inside the text.
    pub fn resize(&mut self, scr: &Screen, spc: u16)
        requires
            old(self).resize_ok(*scr, spc),
        ensures
            final(self).scr == *scr,
            final(self).txtscr.outer == text_area(*scr),
            final(self).txtscr.inner == text_area(*scr).east(spc).west(spc).north(spc).south(spc),
            final(self).pos == into_y_result(
                final(self).txtscr,
                into_x_result(final(self).txtscr, old(self).pos, old(self).txtlen@),
                old(self).txtlen@,
            ),
            final(self).pref_x == final(self).pos.x,
            final(self).txt@ == old(self).txt@,
            final(self).txtlen@ == old(self).txtlen@,
    {
        self.scr = *scr;
        let outer = self.scr.crop_x(8).crop_y(2);
        self.txtscr = DataScreen::new(outer, spc, spc);
        self.pos = screen::resize(&self.txtscr, &self.pos, &self.txtlen);
        self.pref_x = self.pos.x;
    }

    /// The cursor from which a key moves: up and down start from the
    /// remembered column.
    pub open spec fn start(&self, c: char) -> Pos {
        if c == 'i' || c == 'o' {
            Pos { x: self.pref_x, ..self.pos }
        } else {
            self.pos
        }
    }

    /// A key can be handled: the move it asks for is defined.
    pub open spec fn update_ok(&self, c: char) -> bool {
        let d = self.txtscr;
        let p = self.start(c);
        let data = self.txtlen@;
        if c == 'e' {
            &&& d.inner.xfits()
            &&& d.outer.xfits()
            &&& back_outcome(d.inner.xs(), d.outer.xs(), p.xc(), 1) is Some
        } else if c == 'n' {
            &&& d.inner.xfits()
            &&& d.outer.xfits()
            &&& d.outer.yfits()
            &&& d.outer.ys().index_of(p.yc()) <= usize::MAX
            &&& fwd_outcome(d.inner.xs(), d.outer.xs(), p.xc(), row_len(d, p, data), 1) is Some
        } else if c == 'i' {
            &&& d.inner.yfits()
            &&& d.outer.yfits()
            &&& fwd_outcome(d.inner.ys(), d.outer.ys(), p.yc(), data.len() as usize, 1) is Some
            &&& fwd_outcome(d.inner.ys(), d.outer.ys(), p.yc(), data.len() as usize, 1) matches Some(Some(y))
                ==> into_x_ok(d, Pos::joined(p.xc(), y), data)
        } else if c == 'o' {
            &&& d.inner.yfits()
            &&& d.outer.yfits()
            &&& back_outcome(d.inner.ys(), d.outer.ys(), p.yc(), 1) is Some
            &&& back_outcome(d.inner.ys(), d.outer.ys(), p.yc(), 1) matches Some(Some(y))
                ==> into_x_ok(d, Pos::joined(p.xc(), y), data)
        } else {
            true
        }
    }

    /// Where a key moves the cursor: `e` left, `n` right, `i` down, `o` up,
    /// by one; `None` where it cannot move or the key means nothing.
    pub open spec fn moved(&self, c: char) -> Option<Pos> {
        let d = self.txtscr;
        let p = self.start(c);
        let data = self.txtlen@;
        if c == 'e' {
            match back_outcome(d.inner.xs(), d.outer.xs(), p.xc(), 1).unwrap() {
                Some(x) => Some(Pos::joined(x, p.yc())),
                None => None,
            }
        } else if c == 'n' {
            match fwd_outcome(d.inner.xs(), d.outer.xs(), p.xc(), row_len(d, p, data), 1).unwrap() {
                Some(x) => Some(Pos::joined(x, p.yc())),
                None => None,
            }
        } else if c == 'i' {
            match fwd_outcome(d.inner.ys(), d.outer.ys(), p.yc(), data.len() as usize, 1).unwrap() {
                Some(y) => Some(into_x_result(d, Pos::joined(p.xc(), y), data)),
                None => None,
            }
        } else if c == 'o' {
            match back_outcome(d.inner.ys(), d.outer.ys(), p.yc(), 1).unwrap() {
                Some(y) => Some(into_x_result(d, Pos::joined(p.xc(), y), data)),
                None => None,
            }
        } else {
            None
        }
    }

    fn move_left(&mut self, step: u16) -> (r: Option<Pos>)
        requires
            old(self).txtscr.inner.xfits(),
            old(self).txtscr.outer.xfits(),
            back_outcome(old(self).txtscr.inner.xs(), old(self).txtscr.outer.xs(), old(self).pos.xc(), step) is Some,
        ensures
            r == match back_outcome(old(self).txtscr.inner.xs(), old(self).txtscr.outer.xs(), old(self).pos.xc(), step).unwrap() {
                Some(c) => Some(Pos::joined(c, old(self).pos.yc())),
                None => None,
            },
            final(self).pref_x == (match r { Some(p) => p.x, None => old(self).pref_x }),
            final(self).pos == old(self).pos,
            final(self).txtscr == old(self).txtscr,
            final(self).scr == old(self).scr,
            final(self).txt@ == old(self).txt@,
            final(self).txtlen@ == old(self).txtlen@,
    {
        let pos = screen::move_left(&self.txtscr, &self.pos, step);
        match &pos {
            Some(p) => self.pref_x = p.x,
            None => {},
        }
        pos
    }

    fn move_right(&mut self, step: u16) -> (r: Option<Pos>)
        requires
            old(self).txtscr.inner.xfits(),
            old(self).txtscr.outer.xfits(),
            old(self).txtscr.outer.yfits(),
            old(self).txtscr.outer.ys().index_of(old(self).pos.yc()) <= usize::MAX,
            fwd_outcome(old(self).txtscr.inner.xs(), old(self).txtscr.outer.xs(), old(self).pos.xc(),
                row_len(old(self).txtscr, old(self).pos, old(self).txtlen@), step) is Some,
        ensures
            r == match fwd_outcome(old(self).txtscr.inner.xs(), old(self).txtscr.outer.xs(), old(self).pos.xc(),
                row_len(old(self).txtscr, old(self).pos, old(self).txtlen@), step).unwrap() {
                Some(c) => Some(Pos::joined(c, old(self).pos.yc())),
                None => None,
            },
            final(self).pref_x == (match r { Some(p) => p.x, None => old(self).pref_x }),
            final(self).pos == old(self).pos,
            final(self).txtscr == old(self).txtscr,
            final(self).scr == old(self).scr,
            final(self).txt@ == old(self).txt@,
            final(self).txtlen@ == old(self).txtlen@,
    {
        let pos = screen::move_right(&self.txtscr, &self.pos, &self.txtlen, step);
        match &pos {
            Some(p) => self.pref_x = p.x,
            None => {},
        }
        pos
    }

    /// Handles a key: moves the cursor and tells whether it moved.  Up and
    /// down start from the remembered column, which left and right set.
    pub fn update(&mut self, c: char) -> (r: bool)
        requires
            old(self).update_ok(c),
        ensures
            r == old(self).moved(c) is Some,
            final(self).pos == (match old(self).moved(c) {
                Some(p) => p,
                None => old(self).start(c),
            }),
            final(self).pref_x == (if (c == 'e' || c == 'n') && old(self).moved(c) is Some {
                old(self).moved(c).unwrap().x
            } else {
                old(self).pref_x
            }),
            final(self).txtscr == old(self).txtscr,
            final(self).scr == old(self).scr,
            final(self).txt@ == old(self).txt@,
            final(self).txtlen@ == old(self).txtlen@,
            (c == 'i' || c == 'o') && r && old(self).txtscr.outer.x <= old(self).txtscr.inner.x
                ==> into_x_result(final(self).txtscr, final(self).pos, final(self).txtlen@) == final(self).pos,
    {
        proof {
            if (c == 'i' || c == 'o') && old(self).moved(c) is Some && old(self).txtscr.outer.x <= old(self).txtscr.inner.x {
                lemma_vertical_move_inside_line(*old(self), c);
            }
        }
        let o = match c {
            'e' => self.move_left(1),
            'n' => self.move_right(1),
            'i' => {
                self.pos.x = self.pref_x;
                screen::move_down(&self.txtscr, &self.pos, &self.txtlen, 1)
            },
            'o' => {
                self.pos.x = self.pref_x;
                screen::move_up(&self.txtscr, &self.pos, &self.txtlen, 1)
            },
            _ => None,
        };
        match o {
            None => false,
            Some(p) => {
                self.pos = p;
                true
            },
        }
    }
}

/// An event can be handled: a resize can fit the editor, a key can move
/// the cursor.
pub open spec fn event_ok(ui: &UI, event: Event) -> bool {
    match event {
        Event::Resize(w, h) => ui.editor.resize_ok(Screen { x: 0, y: 0, w, h }, 3),
        Event::Key(k) => !is_control_press(k, 'c') && k.kind == KeyEventKind::Press ==> match k.code {
            KeyCode::Char(c) => ui.editor.update_ok(c),
            _ => true,
        },
        Event::Other => true,
    }
}

/// The view after an event: control-c quits; nothing else changes the
/// view.
pub open spec fn view_after(v: ActiveView, e: Event) -> ActiveView {
    match e {
        Event::Key(k) => if is_control_press(k, 'c') { ActiveView::Quit } else { v },
        _ => v,
    }
}

/// The view after a sequence of events.
pub open spec fn view_after_all(v: ActiveView, events: Seq<Event>) -> ActiveView
    decreases events.len(),
{
    if events.len() == 0 {
        v
    } else {
        view_after_all(view_after(v, events[0]), events.drop_first())
    }
}

/// Quitting is permanent: once the view is the quit view, no sequence of
/// events brings the text view back.
pub proof fn lemma_quit_permanent(events: Seq<Event>)
    ensures
        view_after_all(ActiveView::Quit, events) == ActiveView::Quit,
    decreases events.len(),
{
    if events.len() > 0 {
        lemma_quit_permanent(events.drop_first());
    }
}

/// After control-c, whatever events follow, the view is the quit view.
pub proof fn lemma_control_c_quits(v: ActiveView, k: KeyEvent, events: Seq<Event>)
    requires
        is_control_press(k, 'c'),
    ensures
        view_after_all(v, seq![Event::Key(k)] + events) == ActiveView::Quit,
{
    let all = seq![Event::Key(k)] + events;
    assert(all.drop_first() =~= events);
    assert(all[0] == Event::Key(k));
    lemma_quit_permanent(events);
}

impl UI {
    /// The interface for a text on a screen of `w` by `h`, in the text view.
    pub fn new(txt: &str, w: u16, h: u16) -> (r: UI)
        ensures
            r.view == ActiveView::Text,
            r.editor.scr == (Screen { x: 0, y: 0, w, h }),
            r.editor.txt@.len() == lines_of(txt@).len(),
            forall|k: int| 0 <= k < r.editor.txt@.len() ==> (#[trigger] r.editor.txt@[k])@ == lines_of(txt@)[k],
            r.editor.lens_match(),
            r.editor.txtscr.outer == text_area(Screen { x: 0, y: 0, w, h }),
            r.editor.pos == (Pos {
                x: text_area(Screen { x: 0, y: 0, w, h }).x,
                y: text_area(Screen { x: 0, y: 0, w, h }).y,
                i: 0,
                j: 0,
            }),
    {
        let scr = Screen::origin(w, h);
        let editor = TextEditor::new(&scr, 3, txt);
        UI { view: ActiveView::Text, editor }
    }

    fn resize(&mut self, w: u16, h: u16)
        requires
            old(self).editor.resize_ok(Screen { x: 0, y: 0, w, h }, 3),
        ensures
            final(self).view == old(self).view,
            final(self).editor.scr == (Screen { x: 0, y: 0, w, h }),
            final(self).editor.txtscr.outer == text_area(Screen { x: 0, y: 0, w, h }),
            final(self).editor.pos == into_y_result(
                final(self).editor.txtscr,
                into_x_result(final(self).editor.txtscr, old(self).editor.pos, old(self).editor.txtlen@),
                old(self).editor.txtlen@,
            ),
            final(self).editor.txt@ == old(self).editor.txt@,
            final(self).editor.txtlen@ == old(self).editor.txtlen@,
    {
        let scr = Screen::origin(w, h);
        self.editor.resize(&scr, 3);
    }

    /// Handles an event and tells whether the screen must be drawn again:
    /// a resize fits the editor; control-c quits; a pressed character
    /// moves the cursor; anything else is ignored.
    pub fn update(&mut self, event: Event) -> (r: bool)
        requires
            event_ok(old(self), event),
        ensures
            final(self).view == view_after(old(self).view, event),
            old(self).view == ActiveView::Quit ==> final(self).view == ActiveView::Quit,
            match event {
                Event::Resize(w, h) => r && final(self).view == old(self).view
                    && final(self).editor.scr == (Screen { x: 0, y: 0, w, h })
                    && final(self).editor.pos == into_y_result(
                        final(self).editor.txtscr,
                        into_x_result(final(self).editor.txtscr, old(self).editor.pos, old(self).editor.txtlen@),
                        old(self).editor.txtlen@,
                    ),
                Event::Key(k) => if is_control_press(k, 'c') {
                    r && final(self).view == ActiveView::Quit && final(self).editor == old(self).editor
                } else if k.kind == KeyEventKind::Press && k.code is Char {
                    r == old(self).editor.moved(k.code->0) is Some && final(self).view == old(self).view
                        && final(self).editor.pos == (match old(self).editor.moved(k.code->0) {
                            Some(p) => p,
                            None => old(self).editor.start(k.code->0),
                        })
                } else {
                    !r && *final(self) == *old(self)
                },
                Event::Other => !r && *final(self) == *old(self),
            },
    {
        match event {
            Event::Resize(w, h) => {
                self.resize(w, h);
                true
            },
            Event::Key(k) => {
                if k.code == KeyCode::Char('c') && k.kind == KeyEventKind::Press && k.modifiers == crate::event::CONTROL {
                    self.view = ActiveView::Quit;
                    true
                } else if k.kind == KeyEventKind::Press {
                    match k.code {
                        KeyCode::Char(c) => self.editor.update(c),
                        _ => false,
                    }
                } else {
                    false
                }
            },
            _ => false,
        }
    }

    /// Whether the user asked to quit.
    pub fn is_quit(&self) -> (r: bool)
        ensures
            r == (self.view == ActiveView::Quit),
    {
        match self.view {
            ActiveView::Quit => true,
            _ => false,
        }
    }
}

fn fits(a: u16, b: u16) -> (r: bool)
    ensures
        r == (a + b <= u16::MAX),
{
    (a as u32) + (b as u32) <= 65535
}

impl TextEditor {
    /// Whether a key can be handled (`update_ok`).
    pub fn update_defined(&self, c: char) -> (r: bool)
        ensures
            r == self.update_ok(c),
    {
        let d = &self.txtscr;
        let data = &self.txtlen;
        if c == 'e' {
            if !fits(d.inner.x, d.inner.w) || !fits(d.outer.x, d.outer.w) {
                return false;
            }
            back_defined(&d.inner.x_rng(), &d.outer.x_rng(), &self.pos.x_col(), 1)
        } else if c == 'n' {
            if !fits(d.inner.x, d.inner.w) || !fits(d.outer.x, d.outer.w) || !fits(d.outer.y, d.outer.h) {
                return false;
            }
            let p = self.pos;
            if p.y > d.outer.y && (p.j as u128) + ((p.y - d.outer.y) as u128) > (usize::MAX as u128) {
                return false;
            }
            let idx = d.outer.y_rng().idx(&p.y_col());
            let len = if idx >= data.len() { 0 } else { data[idx] };
            fwd_defined(&d.inner.x_rng(), &d.outer.x_rng(), &p.x_col(), len, 1)
        } else if c == 'i' || c == 'o' {
            if !fits(d.inner.y, d.inner.h) || !fits(d.outer.y, d.outer.h) {
                return false;
            }
            let p = Pos { x: self.pref_x, ..self.pos };
            let yin = d.inner.y_rng();
            let yout = d.outer.y_rng();
            let yc = p.y_col();
            let moved = if c == 'i' {
                if !fwd_defined(&yin, &yout, &yc, data.len(), 1) {
                    return false;
                }
                screen::move_forward(&yin, &yout, &yc, data.len(), 1)
            } else {
                if !back_defined(&yin, &yout, &yc, 1) {
                    return false;
                }
                screen::move_backward(&yin, &yout, &yc, 1)
            };
            match moved {
                Some(y) => into_x_defined(d, &Pos::join(&p.x_col(), &y), data),
                None => true,
            }
        } else {
            true
        }
    }

    /// Whether the editor can be fitted to a new screen (`resize_ok`).
    pub fn resize_defined(&self, scr: &Screen, spc: u16) -> (r: bool)
        ensures
            r == self.resize_ok(*scr, spc),
    {
        if !fits(scr.x, scr.w) {
            return false;
        }
        let cx = scr.crop_x(8);
        if !fits(cx.y, cx.h) {
            return false;
        }
        let outer = cx.crop_y(2);
        if !fits(outer.x, outer.w) || !fits(outer.y, outer.h) {
            return false;
        }
        let d = DataScreen::new(outer, spc, spc);
        into_x_defined(&d, &self.pos, &self.txtlen) && fits(d.inner.y, d.inner.h)
    }
}

impl UI {
    /// Whether an event can be handled (`event_ok`).
    pub fn event_defined(&self, event: Event) -> (r: bool)
        ensures
            r == event_ok(self, event),
    {
        match event {
            Event::Resize(w, h) => self.editor.resize_defined(&Screen { x: 0, y: 0, w, h }, 3),
            Event::Key(k) => {
                if k.code == KeyCode::Char('c') && k.kind == KeyEventKind::Press && k.modifiers == crate::event::CONTROL {
                    true
                } else if k.kind == KeyEventKind::Press {
                    match k.code {
                        KeyCode::Char(c) => self.editor.update_defined(c),
                        _ => true,
                    }
                } else {
                    true
                }
            },
            Event::Other => true,
        }
    }
}


/// Moving up or down leaves the cursor inside the line it lands on: keeping
/// its column inside that line changes nothing.
pub proof fn lemma_vertical_move_inside_line(ed: TextEditor, c: char)
    requires
        c == 'i' || c == 'o',
        ed.update_ok(c),
        ed.txtscr.outer.x <= ed.txtscr.inner.x,
        ed.moved(c) is Some,
    ensures
        into_x_result(ed.txtscr, ed.moved(c).unwrap(), ed.txtlen@) == ed.moved(c).unwrap(),
{
    let d = ed.txtscr;
    let p = ed.start(c);
    let data = ed.txtlen@;
    if c == 'i' {
        let y = fwd_outcome(d.inner.ys(), d.outer.ys(), p.yc(), data.len() as usize, 1).unwrap().unwrap();
        screen::lemma_into_x_settled(d, Pos::joined(p.xc(), y), data);
    } else {
        let y = back_outcome(d.inner.ys(), d.outer.ys(), p.yc(), 1).unwrap().unwrap();
        screen::lemma_into_x_settled(d, Pos::joined(p.xc(), y), data);
    }
}


/// The cursor lies within the reach of data of length `len` along an axis
/// whose outer range is `outer` and inner band `inner`.
pub open spec fn within_reach(inner: crate::screen::ScreenRange, outer: crate::screen::ScreenRange, c: crate::screen::PosCol, len: usize) -> bool {
    &&& outer.start <= c.screen <= data_end(outer, len)
    &&& c.data <= max_scroll(outer, len)
    &&& c.data < max_scroll(outer, len) ==> c.screen <= inner.end
}

/// The keys move the cursor the way they name: `e` one column back along
/// its line and `n` forward, `o` one line up and `i` down (forward over
/// the data where it scrolls).  Left and right keep the line; the inner
/// band lies inside the text area, and the cursor is not before its
/// start.
pub proof fn lemma_keys_move_their_way(ed: TextEditor, c: char)
    requires
        ed.update_ok(c),
        ed.moved(c) is Some,
        ed.txtscr.outer.x <= ed.txtscr.inner.x,
        ed.txtscr.outer.y <= ed.txtscr.inner.y,
        ed.txtscr.inner.x + ed.txtscr.inner.w <= ed.txtscr.outer.x + ed.txtscr.outer.w,
        ed.txtscr.inner.y + ed.txtscr.inner.h <= ed.txtscr.outer.y + ed.txtscr.outer.h,
        ed.txtscr.outer.x <= ed.start(c).x,
        ed.txtscr.outer.y <= ed.start(c).y,
        c == 'n' ==> within_reach(ed.txtscr.inner.xs(), ed.txtscr.outer.xs(), ed.start(c).xc(),
            row_len(ed.txtscr, ed.start(c), ed.txtlen@)),
        c == 'i' ==> within_reach(ed.txtscr.inner.ys(), ed.txtscr.outer.ys(), ed.start(c).yc(), ed.txtlen@.len() as usize),
    ensures
        ({
            let d = ed.txtscr;
            let p = ed.start(c);
            let q = ed.moved(c).unwrap();
            &&& c == 'e' ==> d.outer.xs().index_of(q.xc()) == d.outer.xs().index_of(p.xc()) - 1 && q.yc() == p.yc()
            &&& c == 'n' ==> d.outer.xs().index_of(q.xc()) > d.outer.xs().index_of(p.xc()) && q.yc() == p.yc()
            &&& c == 'o' ==> d.outer.ys().index_of(q.yc()) == d.outer.ys().index_of(p.yc()) - 1
            &&& c == 'i' ==> d.outer.ys().index_of(q.yc()) > d.outer.ys().index_of(p.yc())
        }),
{
    let d = ed.txtscr;
    let p = ed.start(c);
    let data = ed.txtlen@;
    if c == 'e' {
        screen::lemma_backward_index(d.inner.xs(), d.outer.xs(), p.xc(), 1);
    } else if c == 'n' {
        screen::lemma_forward_index(d.inner.xs(), d.outer.xs(), p.xc(), row_len(d, p, data), 1);
    } else if c == 'i' {
        screen::lemma_forward_index(d.inner.ys(), d.outer.ys(), p.yc(), data.len() as usize, 1);
    } else if c == 'o' {
        screen::lemma_backward_index(d.inner.ys(), d.outer.ys(), p.yc(), 1);
    }
}

} // verus!
