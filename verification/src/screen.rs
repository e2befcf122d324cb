//! Screen geometry and cursor movement, with lengths that saturate at zero.
//!
//! Same model as `scr`: a `PosCol` is the screen cell of a cursor along one
//! axis and the scroll of the data; the inner band is where the cursor moves
//! without scrolling.  Here a reversed range counts as empty.
use vstd::prelude::*;
use crate::scr::{narrow, min_int, sat_sub, narrow_usize};

verus! {

#[derive(Clone, Copy, Debug, PartialEq, Eq, Structural)]
pub struct ScreenRange {
    pub start: u16,
    pub end: u16,
}

#[derive(Clone, Copy, Debug, PartialEq, Eq, Structural)]
pub struct Screen {
    pub x: u16,
    pub y: u16,
    pub w: u16,
    pub h: u16,
}

#[derive(Clone, Copy, Debug, PartialEq, Eq, Structural)]
pub struct DataScreen {
    pub outer: Screen,
    pub inner: Screen,
}

#[derive(Clone, Copy, Debug, PartialEq, Eq, Structural)]
pub struct PosCol {
    pub screen: u16,
    pub data: usize,
}

#[derive(Clone, Copy, Debug, PartialEq, Eq, Structural)]
pub struct Pos {
    pub x: u16,
    pub y: u16,
    pub i: usize,
    pub j: usize,
}

impl ScreenRange {
    /// The number of cells in the range, zero when it is reversed.
    pub open spec fn width(self) -> int {
        sat_sub(self.end as int, self.start as int)
    }

    /// The data index that a cursor on this range points at.
    pub open spec fn index_of(self, col: PosCol) -> int {
        if col.screen > self.start {
            col.data + (col.screen - self.start)
        } else {
            col.data as int
        }
    }

    /// Builds a range, swapping the bounds when they come in the wrong order.
    pub fn new(start: u16, end: u16) -> (r: ScreenRange)
        ensures
            start > end ==> r == (ScreenRange { start: end, end: start }),
            start <= end ==> r == (ScreenRange { start, end }),
    {
        if start > end {
            ScreenRange { start: end, end: start }
        } else {
            ScreenRange { start, end }
        }
    }

    /// Index of the cursor within its range.
    pub fn idx(&self, col: &PosCol) -> (r: usize)
        requires
            self.index_of(*col) <= usize::MAX,
        ensures
            r == self.index_of(*col),
    {
        if col.screen > self.start {
            col.data + (col.screen.saturating_sub(self.start) as usize)
        } else {
            col.data
        }
    }

    pub fn len(&self) -> (r: usize)
        ensures
            r == self.width(),
    {
        self.end.saturating_sub(self.start) as usize
    }
}

impl Screen {
    pub open spec fn xs(self) -> ScreenRange {
        ScreenRange { start: self.x, end: (self.x + self.w) as u16 }
    }

    pub open spec fn ys(self) -> ScreenRange {
        ScreenRange { start: self.y, end: (self.y + self.h) as u16 }
    }

    pub open spec fn xfits(self) -> bool {
        self.x + self.w <= u16::MAX
    }

    pub open spec fn yfits(self) -> bool {
        self.y + self.h <= u16::MAX
    }

    pub open spec fn south(self, step: u16) -> Screen {
        if step < self.h {
            Screen { h: (self.h - step) as u16, ..self }
        } else {
            self
        }
    }

    pub open spec fn east(self, step: u16) -> Screen {
        if step < self.w {
            Screen { w: (self.w - step) as u16, ..self }
        } else {
            self
        }
    }

    pub open spec fn north(self, step: u16) -> Screen {
        if 2 * step < self.h {
            Screen { y: (self.y + step) as u16, h: (self.h - step) as u16, ..self }
        } else {
            self
        }
    }

    pub open spec fn west(self, step: u16) -> Screen {
        if 2 * step < self.w {
            Screen { x: (self.x + step) as u16, w: (self.w - step) as u16, ..self }
        } else {
            self
        }
    }

    pub fn origin(w: u16, h: u16) -> (r: Screen)
        ensures
            r == (Screen { x: 0, y: 0, w, h }),
    {
        Screen { x: 0, y: 0, w, h }
    }

    pub fn crop_y(&self, step: u16) -> (r: Screen)
        requires
            self.yfits(),
        ensures
            r == self.north(step).south(step),
    {
        let screen = *self;
        let north = screen.crop_north(step);
        north.crop_south(step)
    }

    pub fn crop_x(&self, step: u16) -> (r: Screen)
        requires
            self.xfits(),
        ensures
            r == self.east(step).west(step),
    {
        let screen = *self;
        let east = screen.crop_east(step);
        east.crop_west(step)
    }

    pub fn crop_south(&self, step: u16) -> (r: Screen)
        ensures
            r == self.south(step),
    {
        let mut screen = *self;
        if step < screen.h {
            screen.h = screen.h - step;
        }
        screen
    }

    pub fn crop_east(&self, step: u16) -> (r: Screen)
        ensures
            r == self.east(step),
    {
        let mut screen = *self;
        if step < screen.w {
            screen.w = screen.w - step;
        }
        screen
    }

    pub fn crop_north(&self, step: u16) -> (r: Screen)
        requires
            self.yfits(),
        ensures
            r == self.north(step),
    {
        let mut screen = *self;
        if (step as usize) * 2 < screen.y_rng().len() {
            screen.y = screen.y + step;
            screen.h = screen.h - step;
        }
        screen
    }

    pub fn crop_west(&self, step: u16) -> (r: Screen)
        requires
            self.xfits(),
        ensures
            r == self.west(step),
    {
        let mut screen = *self;
        if (step as usize) * 2 < screen.x_rng().len() {
            screen.x = screen.x + step;
            screen.w = screen.w - step;
        }
        screen
    }

    pub fn x_rng(&self) -> (r: ScreenRange)
        requires
            self.xfits(),
        ensures
            r == self.xs(),
            r.end == self.x + self.w,
    {
        ScreenRange { start: self.x, end: self.x + self.w }
    }

    pub fn y_rng(&self) -> (r: ScreenRange)
        requires
            self.yfits(),
        ensures
            r == self.ys(),
            r.end == self.y + self.h,
    {
        ScreenRange { start: self.y, end: self.y + self.h }
    }
}

impl DataScreen {
    pub fn new(outer: Screen, x: u16, y: u16) -> (r: DataScreen)
        requires
            outer.xfits(),
            outer.yfits(),
        ensures
            r.outer == outer,
            r.inner == outer.east(x).west(x).north(y).south(y),
    {
        let xc = outer.crop_x(x);
        let inner = xc.crop_y(y);
        DataScreen { inner, outer }
    }
}

impl Pos {
    pub open spec fn xc(self) -> PosCol {
        PosCol { screen: self.x, data: self.i }
    }

    pub open spec fn yc(self) -> PosCol {
        PosCol { screen: self.y, data: self.j }
    }

    /// The cursor made of a horizontal and a vertical column.
    pub open spec fn joined(x: PosCol, y: PosCol) -> Pos {
        Pos { x: x.screen, y: y.screen, i: x.data, j: y.data }
    }

    pub fn origin(screen: &Screen) -> (r: Pos)
        ensures
            r == (Pos { x: screen.x, y: screen.y, i: 0, j: 0 }),
    {
        Pos { x: screen.x, y: screen.y, i: 0, j: 0 }
    }

    pub fn x_col(&self) -> (r: PosCol)
        ensures
            r == self.xc(),
    {
        PosCol { screen: self.x, data: self.i }
    }

    pub fn y_col(&self) -> (r: PosCol)
        ensures
            r == self.yc(),
    {
        PosCol { screen: self.y, data: self.j }
    }

    pub fn join(x: &PosCol, y: &PosCol) -> (r: Pos)
        ensures
            r == Pos::joined(*x, *y),
    {
        Pos { x: x.screen, y: y.screen, i: x.data, j: y.data }
    }
}

/// `u` where it fits in a `u16`, zero otherwise.
pub fn u16_or_zero(u: usize) -> (r: u16)
    ensures
        r == narrow(u as int),
{
    narrow_usize(u)
}

/// Where a cursor along one axis lands when it is kept inside the data.
pub open spec fn into_result(inner: ScreenRange, outer: ScreenRange, pos: PosCol, len: usize) -> PosCol {
    let short = len < outer.width();
    let start = outer.start;
    let end: u16 = if short { (outer.start + len) as u16 } else { inner.end };
    let data: usize = if short { 0 } else { pos.data };
    let screen: u16 = if pos.screen < start { start } else if pos.screen >= end { end } else { pos.screen };
    PosCol { screen, data }
}

pub fn move_into(inner: &ScreenRange, outer: &ScreenRange, pos: &PosCol, len: usize) -> (r: PosCol)
    ensures
        r == into_result(*inner, *outer, *pos, len),
{
    let mut pos = *pos;
    let (start, end) = if len < outer.len() {
        pos.data = 0;
        let len = u16_or_zero(len);
        (outer.start, outer.start + len)
    } else {
        (outer.start, inner.end)
    };
    if pos.screen < start {
        pos.screen = start;
    } else if pos.screen >= end {
        pos.screen = end;
    }
    pos
}

pub open spec fn back_measure(inner: ScreenRange, pos: PosCol) -> int {
    (if pos.data != 0 { 2int } else { 0int }) + (if pos.screen != inner.start { 1int } else { 0int })
}

/// The outcome of moving a cursor back by `step`: `None` where the
/// arithmetic would overflow, `Some(None)` where the cursor cannot move,
/// `Some(Some(p))` with the new cursor otherwise.
pub open spec fn back_outcome(inner: ScreenRange, outer: ScreenRange, pos: PosCol, step: u16) -> Option<Option<PosCol>>
    decreases back_measure(inner, pos),
{
    if pos.screen == outer.start && pos.data == 0 {
        Some(None)
    } else if pos.screen == outer.start {
        if step < pos.data {
            Some(Some(PosCol { data: (pos.data - step) as usize, ..pos }))
        } else {
            Some(Some(PosCol { data: 0, ..pos }))
        }
    } else if pos.data == 0 {
        if outer.start + step > u16::MAX {
            None
        } else if outer.start + step <= pos.screen {
            Some(Some(PosCol { screen: (pos.screen - step) as u16, ..pos }))
        } else {
            Some(Some(PosCol { screen: outer.start, ..pos }))
        }
    } else if inner.start + step > u16::MAX {
        None
    } else if inner.start + step <= pos.screen {
        Some(Some(PosCol { screen: (pos.screen - step) as u16, ..pos }))
    } else if inner.start == pos.screen {
        if step <= pos.data {
            Some(Some(PosCol { data: (pos.data - step) as usize, ..pos }))
        } else {
            let next = PosCol { data: 0, ..pos };
            match back_outcome(inner, outer, next, (step - narrow(pos.data as int)) as u16) {
                None => None,
                Some(None) => Some(Some(next)),
                Some(Some(p)) => Some(Some(p)),
            }
        }
    } else if pos.screen < inner.start {
        None
    } else {
        let next = PosCol { screen: inner.start, ..pos };
        match back_outcome(inner, outer, next, (step - (pos.screen - inner.start)) as u16) {
            None => None,
            Some(None) => Some(Some(next)),
            Some(Some(p)) => Some(Some(p)),
        }
    }
}

pub fn move_backward(inner: &ScreenRange, outer: &ScreenRange, pos: &PosCol, step: u16) -> (r: Option<PosCol>)
    requires
        back_outcome(*inner, *outer, *pos, step) is Some,
    ensures
        back_outcome(*inner, *outer, *pos, step) == Some(r),
    decreases back_measure(*inner, *pos),
{
    let mut step = step;
    let mut pos = *pos;
    if pos.screen == outer.start && pos.data == 0 {
        None
    } else if pos.screen == outer.start {
        if (step as usize) < pos.data {
            pos.data = pos.data - step as usize;
        } else {
            pos.data = 0;
        }
        Some(pos)
    } else if pos.data == 0 {
        if outer.start + step <= pos.screen {
            pos.screen = pos.screen - step;
        } else {
            pos.screen = outer.start;
        }
        Some(pos)
    } else if inner.start + step <= pos.screen {
        pos.screen = pos.screen - step;
        Some(pos)
    } else if inner.start == pos.screen {
        if (step as usize) <= pos.data {
            pos.data = pos.data - step as usize;
            Some(pos)
        } else {
            step = step - u16_or_zero(pos.data);
            pos.data = 0;
            match move_backward(inner, outer, &pos, step) {
                Some(p) => Some(p),
                None => Some(pos),
            }
        }
    } else {
        step = step - (pos.screen - inner.start);
        pos.screen = inner.start;
        match move_backward(inner, outer, &pos, step) {
            Some(p) => Some(p),
            None => Some(pos),
        }
    }
}

pub open spec fn max_scroll(outer: ScreenRange, dlength: usize) -> int {
    sat_sub(dlength as int, outer.width())
}

pub open spec fn data_end(outer: ScreenRange, dlength: usize) -> int {
    min_int(outer.start + dlength, outer.end as int)
}

pub open spec fn fwd_measure(inner: ScreenRange, outer: ScreenRange, pos: PosCol, dlength: usize) -> int {
    (if pos.data != max_scroll(outer, dlength) { 2int } else { 0int })
        + (if pos.screen != inner.end { 1int } else { 0int })
}

/// The outcome of moving a cursor forward by `step` over data of length
/// `dlength`: `None` where the arithmetic would overflow, `Some(None)` where
/// the cursor is at the end of the data with the data fully scrolled,
/// `Some(Some(p))` otherwise.
pub open spec fn fwd_outcome(inner: ScreenRange, outer: ScreenRange, pos: PosCol, dlength: usize, step: u16) -> Option<Option<PosCol>>
    decreases fwd_measure(inner, outer, pos, dlength),
{
    if outer.start + dlength > usize::MAX {
        None
    } else {
        let sde = data_end(outer, dlength);
        let maxd = max_scroll(outer, dlength);
        if pos.screen == sde && pos.data == maxd {
            Some(None)
        } else if pos.screen == sde {
            if pos.data + step > usize::MAX {
                None
            } else if pos.data + step >= maxd {
                Some(Some(PosCol { data: (pos.data + step) as usize, ..pos }))
            } else {
                Some(Some(PosCol { data: maxd as usize, ..pos }))
            }
        } else if pos.data == maxd {
            if pos.screen + step > u16::MAX {
                None
            } else if pos.screen + step <= sde {
                Some(Some(PosCol { screen: (pos.screen + step) as u16, ..pos }))
            } else {
                Some(Some(PosCol { screen: sde as u16, ..pos }))
            }
        } else if pos.screen + step > u16::MAX {
            None
        } else if pos.screen + step <= inner.end {
            Some(Some(PosCol { screen: (pos.screen + step) as u16, ..pos }))
        } else if pos.screen == inner.end {
            if pos.data + step > usize::MAX {
                None
            } else if pos.data + step <= maxd {
                Some(Some(PosCol { data: (pos.data + step) as usize, ..pos }))
            } else {
                let next = PosCol { data: maxd as usize, ..pos };
                let nstep = sat_sub(step as int, narrow(sat_sub(maxd, pos.data as int)));
                match fwd_outcome(inner, outer, next, dlength, nstep as u16) {
                    None => None,
                    Some(None) => Some(Some(next)),
                    Some(Some(p)) => Some(Some(p)),
                }
            }
        } else {
            let next = PosCol { screen: inner.end, ..pos };
            let nstep = sat_sub(step as int, sat_sub(inner.end as int, pos.screen as int));
            match fwd_outcome(inner, outer, next, dlength, nstep as u16) {
                None => None,
                Some(None) => Some(Some(next)),
                Some(Some(p)) => Some(Some(p)),
            }
        }
    }
}

pub fn move_forward(inner: &ScreenRange, outer: &ScreenRange, pos: &PosCol, dlength: usize, step: u16) -> (r: Option<PosCol>)
    requires
        fwd_outcome(*inner, *outer, *pos, dlength, step) is Some,
    ensures
        fwd_outcome(*inner, *outer, *pos, dlength, step) == Some(r),
    decreases fwd_measure(*inner, *outer, *pos, dlength),
{
    let reach = outer.start as usize + dlength;
    let bound = if reach <= outer.end as usize { reach } else { outer.end as usize };
    let screen_data_end = u16_or_zero(bound);
    let mut step = step;
    let mut pos = *pos;
    let screen_len = outer.len();
    let max_data = dlength.saturating_sub(screen_len);
    if pos.screen == screen_data_end && pos.data == max_data {
        None
    } else if pos.screen == screen_data_end {
        if pos.data + step as usize >= max_data {
            pos.data = pos.data + step as usize;
        } else {
            pos.data = max_data;
        }
        Some(pos)
    } else if pos.data == max_data {
        if pos.screen + step <= screen_data_end {
            pos.screen = pos.screen + step;
        } else {
            pos.screen = screen_data_end;
        }
        Some(pos)
    } else if pos.screen + step <= inner.end {
        pos.screen = pos.screen + step;
        Some(pos)
    } else if pos.screen == inner.end {
        if pos.data + step as usize <= max_data {
            pos.data = pos.data + step as usize;
            Some(pos)
        } else {
            let diff = u16_or_zero(max_data.saturating_sub(pos.data));
            step = step.saturating_sub(diff);
            pos.data = max_data;
            match move_forward(inner, outer, &pos, dlength, step) {
                Some(p) => Some(p),
                None => Some(pos),
            }
        }
    } else {
        let diff = inner.end.saturating_sub(pos.screen);
        step = step.saturating_sub(diff);
        pos.screen = inner.end;
        match move_forward(inner, outer, &pos, dlength, step) {
            Some(p) => Some(p),
            None => Some(pos),
        }
    }
}

/// The displayable part of a row of length `len`, as `(start, end)`.
pub open spec fn visible(rng: ScreenRange, pos: PosCol, len: usize) -> (usize, usize) {
    if len < rng.width() {
        (0, len)
    } else {
        (pos.data, min_int(pos.data + rng.width(), len as int) as usize)
    }
}

pub open spec fn visible_ok(rng: ScreenRange, pos: PosCol, len: usize) -> bool {
    len >= rng.width() ==> pos.data + rng.width() <= usize::MAX
}

/// Returns the start and end of displayable text.
pub fn data_range(rng: &ScreenRange, pos: &PosCol, len: usize) -> (r: (usize, usize))
    requires
        visible_ok(*rng, *pos, len),
    ensures
        r == visible(*rng, *pos, len),
{
    if len < rng.len() {
        (0, len)
    } else {
        let reach = pos.data + rng.len();
        (pos.data, if reach <= len { reach } else { len })
    }
}

pub open spec fn row_len(dscr: DataScreen, pos: Pos, data: Seq<usize>) -> usize {
    let idx = dscr.outer.ys().index_of(pos.yc());
    if idx >= data.len() {
        0
    } else {
        data[idx]
    }
}

pub open spec fn clamp_row(dscr: DataScreen, pos: Pos, data: Seq<usize>) -> int {
    min_int(dscr.outer.ys().index_of(pos.yc()), sat_sub(data.len() as int, 1))
}

pub open spec fn into_x_ok(dscr: DataScreen, pos: Pos, data: Seq<usize>) -> bool {
    &&& dscr.inner.xfits()
    &&& dscr.outer.xfits()
    &&& dscr.outer.yfits()
    &&& data.len() > 0
    &&& dscr.outer.ys().index_of(pos.yc()) <= usize::MAX
}

pub open spec fn into_x_result(dscr: DataScreen, pos: Pos, data: Seq<usize>) -> Pos {
    Pos::joined(into_result(dscr.inner.xs(), dscr.outer.xs(), pos.xc(), data[clamp_row(dscr, pos, data)]), pos.yc())
}

pub open spec fn into_y_result(dscr: DataScreen, pos: Pos, data: Seq<usize>) -> Pos {
    Pos::joined(pos.xc(), into_result(dscr.inner.ys(), dscr.outer.ys(), pos.yc(), data.len() as usize))
}

pub fn move_left(dscr: &DataScreen, pos: &Pos, step: u16) -> (r: Option<Pos>)
    requires
        dscr.inner.xfits(),
        dscr.outer.xfits(),
        back_outcome(dscr.inner.xs(), dscr.outer.xs(), pos.xc(), step) is Some,
    ensures
        r == match back_outcome(dscr.inner.xs(), dscr.outer.xs(), pos.xc(), step).unwrap() {
            Some(c) => Some(Pos::joined(c, pos.yc())),
            None => None,
        },
{
    let x_inner = dscr.inner.x_rng();
    let x_outer = dscr.outer.x_rng();
    let x_col = pos.x_col();
    let y_col = pos.y_col();
    match move_backward(&x_inner, &x_outer, &x_col, step) {
        Some(x_col) => Some(Pos::join(&x_col, &y_col)),
        None => None,
    }
}

pub fn move_right(dscr: &DataScreen, pos: &Pos, data: &Vec<usize>, step: u16) -> (r: Option<Pos>)
    requires
        dscr.inner.xfits(),
        dscr.outer.xfits(),
        dscr.outer.yfits(),
        dscr.outer.ys().index_of(pos.yc()) <= usize::MAX,
        fwd_outcome(dscr.inner.xs(), dscr.outer.xs(), pos.xc(), row_len(*dscr, *pos, data@), step) is Some,
    ensures
        r == match fwd_outcome(dscr.inner.xs(), dscr.outer.xs(), pos.xc(), row_len(*dscr, *pos, data@), step).unwrap() {
            Some(c) => Some(Pos::joined(c, pos.yc())),
            None => None,
        },
{
    let x_inner = dscr.inner.x_rng();
    let x_outer = dscr.outer.x_rng();
    let x_col = pos.x_col();
    let y_col = pos.y_col();
    let idx = dscr.outer.y_rng().idx(&y_col);
    let x_len = if idx >= data.len() { 0 } else { data[idx] };
    match move_forward(&x_inner, &x_outer, &x_col, x_len, step) {
        Some(x_col) => Some(Pos::join(&x_col, &y_col)),
        None => None,
    }
}

pub fn move_up(dscr: &DataScreen, pos: &Pos, data: &Vec<usize>, step: u16) -> (r: Option<Pos>)
    requires
        dscr.inner.yfits(),
        dscr.outer.yfits(),
        back_outcome(dscr.inner.ys(), dscr.outer.ys(), pos.yc(), step) is Some,
        back_outcome(dscr.inner.ys(), dscr.outer.ys(), pos.yc(), step) matches Some(Some(c))
            ==> into_x_ok(*dscr, Pos::joined(pos.xc(), c), data@),
    ensures
        r == match back_outcome(dscr.inner.ys(), dscr.outer.ys(), pos.yc(), step).unwrap() {
            Some(c) => Some(into_x_result(*dscr, Pos::joined(pos.xc(), c), data@)),
            None => None,
        },
{
    let y_inner = dscr.inner.y_rng();
    let y_outer = dscr.outer.y_rng();
    let y_col = pos.y_col();
    let x_col = pos.x_col();
    match move_backward(&y_inner, &y_outer, &y_col, step) {
        Some(y_col) => {
            let p = Pos::join(&x_col, &y_col);
            Some(move_into_x(dscr, &p, data))
        },
        None => None,
    }
}

pub fn move_down(dscr: &DataScreen, pos: &Pos, data: &Vec<usize>, step: u16) -> (r: Option<Pos>)
    requires
        dscr.inner.yfits(),
        dscr.outer.yfits(),
        fwd_outcome(dscr.inner.ys(), dscr.outer.ys(), pos.yc(), data@.len() as usize, step) is Some,
        fwd_outcome(dscr.inner.ys(), dscr.outer.ys(), pos.yc(), data@.len() as usize, step) matches Some(Some(c))
            ==> into_x_ok(*dscr, Pos::joined(pos.xc(), c), data@),
    ensures
        r == match fwd_outcome(dscr.inner.ys(), dscr.outer.ys(), pos.yc(), data@.len() as usize, step).unwrap() {
            Some(c) => Some(into_x_result(*dscr, Pos::joined(pos.xc(), c), data@)),
            None => None,
        },
{
    let y_len = data.len();
    let y_inner = dscr.inner.y_rng();
    let y_outer = dscr.outer.y_rng();
    let x_col = pos.x_col();
    let y_col = pos.y_col();
    match move_forward(&y_inner, &y_outer, &y_col, y_len, step) {
        Some(y_col) => {
            let p = Pos::join(&x_col, &y_col);
            Some(move_into_x(dscr, &p, data))
        },
        None => None,
    }
}

/// Keeps the cursor inside the data after the screen changed size: first
/// the horizontal column, then the vertical one.
pub fn resize(dscr: &DataScreen, pos: &Pos, data: &Vec<usize>) -> (r: Pos)
    requires
        into_x_ok(*dscr, *pos, data@),
        dscr.inner.yfits(),
    ensures
        r == into_y_result(*dscr, into_x_result(*dscr, *pos, data@), data@),
{
    let pos = move_into_x(dscr, pos, data);
    move_into_y(dscr, &pos, data)
}

pub fn move_into_x(dscr: &DataScreen, pos: &Pos, data: &Vec<usize>) -> (r: Pos)
    requires
        into_x_ok(*dscr, *pos, data@),
    ensures
        r == into_x_result(*dscr, *pos, data@),
{
    let x_inner = dscr.inner.x_rng();
    let x_outer = dscr.outer.x_rng();
    let x_col = pos.x_col();
    let y_col = pos.y_col();
    let idx1 = dscr.outer.y_rng().idx(&y_col);
    let idx2 = data.len().saturating_sub(1);
    let idx = if idx1 <= idx2 { idx1 } else { idx2 };
    let x_len = data[idx];
    let x_col = move_into(&x_inner, &x_outer, &x_col, x_len);
    Pos::join(&x_col, &y_col)
}

pub fn move_into_y(dscr: &DataScreen, pos: &Pos, data: &Vec<usize>) -> (r: Pos)
    requires
        dscr.inner.yfits(),
        dscr.outer.yfits(),
    ensures
        r == into_y_result(*dscr, *pos, data@),
{
    let y_inner = dscr.inner.y_rng();
    let y_outer = dscr.outer.y_rng();
    let y_col = pos.y_col();
    let x_col = pos.x_col();
    let y_len = data.len();
    let y_col = move_into(&y_inner, &y_outer, &y_col, y_len);
    Pos::join(&x_col, &y_col)
}

/// The rows to draw: each visible row with its screen row, its index in
/// `data`, and the start and end of its visible part.
pub open spec fn row_ranges(dscr: DataScreen, pos: Pos, data: Seq<usize>) -> Seq<(u16, usize, usize, usize)> {
    let rows = visible(dscr.outer.ys(), pos.yc(), data.len() as usize);
    Seq::new(
        sat_sub(rows.1 as int, rows.0 as int) as nat,
        |k: int| {
            let cols = visible(dscr.outer.xs(), pos.xc(), data[rows.0 + k]);
            ((dscr.outer.y + k) as u16, (rows.0 + k) as usize, cols.0, cols.1)
        },
    )
}

pub open spec fn ranges_ok(dscr: DataScreen, pos: Pos, data: Seq<usize>) -> bool {
    let rows = visible(dscr.outer.ys(), pos.yc(), data.len() as usize);
    &&& dscr.outer.xfits()
    &&& dscr.outer.yfits()
    &&& visible_ok(dscr.outer.ys(), pos.yc(), data.len() as usize)
    &&& forall|k: int| rows.0 <= k < rows.1 ==> visible_ok(dscr.outer.xs(), pos.xc(), #[trigger] data[k])
}

pub fn get_ranges(dscr: &DataScreen, pos: &Pos, data: &Vec<usize>) -> (r: Vec<(u16, usize, usize, usize)>)
    requires
        ranges_ok(*dscr, *pos, data@),
    ensures
        r@ == row_ranges(*dscr, *pos, data@),
{
    let mut vec: Vec<(u16, usize, usize, usize)> = Vec::new();
    let x_col = pos.x_col();
    let y_col = pos.y_col();
    let x_outer = dscr.outer.x_rng();
    let y_outer = dscr.outer.y_rng();
    let (start, end) = data_range(&y_outer, &y_col, data.len());
    let ghost want = row_ranges(*dscr, *pos, data@);
    if start < end {
        let mut i = start;
        while i < end
            invariant
                (start, end) == visible(dscr.outer.ys(), pos.yc(), data@.len() as usize),
                start <= i <= end,
                end <= data@.len(),
                end - start <= y_outer.end - y_outer.start,
                y_outer == dscr.outer.ys(),
                y_outer.end == dscr.outer.y + dscr.outer.h,
                x_outer == dscr.outer.xs(),
                x_col == pos.xc(),
                ranges_ok(*dscr, *pos, data@),
                want == row_ranges(*dscr, *pos, data@),
                vec@.len() == i - start,
                forall|k: int| 0 <= k < vec@.len() ==> vec@[k] == want[k],
            decreases end - i,
        {
            let (a, b) = data_range(&x_outer, &x_col, data[i]);
            let e = i - start;
            let scr_idx = y_outer.start + (e as u16);
            vec.push((scr_idx, i, a, b));
            i = i + 1;
        }
    }
    assert(vec@ =~= want);
    vec
}

/// Moving back by `step` lowers the cursor's data index by `step`, down to
/// zero, and the cursor cannot move exactly when that index is zero.
pub proof fn lemma_backward_index(inner: ScreenRange, outer: ScreenRange, pos: PosCol, step: u16)
    requires
        back_outcome(inner, outer, pos, step) is Some,
        outer.start <= inner.start,
        outer.start <= pos.screen,
    ensures
        back_outcome(inner, outer, pos, step) == Some(None::<PosCol>) <==> outer.index_of(pos) == 0,
        back_outcome(inner, outer, pos, step) matches Some(Some(p)) ==> outer.start <= p.screen
            && outer.index_of(p) == sat_sub(outer.index_of(pos), step as int),
    decreases back_measure(inner, pos),
{
    if pos.screen == outer.start || pos.data == 0 || inner.start + step > u16::MAX || inner.start
        + step <= pos.screen {
    } else if inner.start == pos.screen {
        if step > pos.data {
            lemma_backward_index(inner, outer, PosCol { data: 0, ..pos }, (step - narrow(pos.data as int)) as u16);
        }
    } else if pos.screen > inner.start {
        lemma_backward_index(inner, outer, PosCol { screen: inner.start, ..pos }, (step - (pos.screen - inner.start)) as u16);
    }
}

/// Moving forward never scrolls back and never moves the cursor back
/// (beyond the last data cell), for a cursor that stays inside the inner
/// band until the data is fully scrolled.
pub proof fn lemma_forward_monotone(inner: ScreenRange, outer: ScreenRange, pos: PosCol, dlength: usize, step: u16)
    requires
        fwd_outcome(inner, outer, pos, dlength, step) is Some,
        pos.data <= max_scroll(outer, dlength),
        pos.data < max_scroll(outer, dlength) ==> pos.screen <= inner.end,
    ensures
        fwd_outcome(inner, outer, pos, dlength, step) matches Some(Some(p)) ==> p.data >= pos.data
            && p.screen >= min_int(pos.screen as int, data_end(outer, dlength)),
    decreases fwd_measure(inner, outer, pos, dlength),
{
    let sde = data_end(outer, dlength);
    let maxd = max_scroll(outer, dlength);
    if pos.screen == sde || pos.data == maxd || pos.screen + step > u16::MAX || pos.screen + step <= inner.end {
    } else if pos.screen == inner.end {
        if pos.data + step <= usize::MAX && pos.data + step > maxd {
            let nstep = sat_sub(step as int, narrow(sat_sub(maxd, pos.data as int)));
            lemma_forward_monotone(inner, outer, PosCol { data: maxd as usize, ..pos }, dlength, nstep as u16);
        }
    } else {
        let nstep = sat_sub(step as int, sat_sub(inner.end as int, pos.screen as int));
        lemma_forward_monotone(inner, outer, PosCol { screen: inner.end, ..pos }, dlength, nstep as u16);
    }
}

/// Whether moving a cursor back by `step` stays within the arithmetic
/// (`back_outcome` is defined).
pub fn back_defined(inner: &ScreenRange, outer: &ScreenRange, pos: &PosCol, step: u16) -> (r: bool)
    ensures
        r == back_outcome(*inner, *outer, *pos, step) is Some,
    decreases back_measure(*inner, *pos),
{
    if pos.screen == outer.start {
        true
    } else if pos.data == 0 {
        (outer.start as u32) + (step as u32) <= 65535
    } else if (inner.start as u32) + (step as u32) > 65535 {
        false
    } else if inner.start + step <= pos.screen {
        true
    } else if inner.start == pos.screen {
        if (step as usize) <= pos.data {
            true
        } else {
            let next = PosCol { data: 0, ..*pos };
            back_defined(inner, outer, &next, step - u16_or_zero(pos.data))
        }
    } else if pos.screen < inner.start {
        false
    } else {
        let next = PosCol { screen: inner.start, ..*pos };
        back_defined(inner, outer, &next, step - (pos.screen - inner.start))
    }
}

/// Whether moving a cursor forward by `step` over data of length `dlength`
/// stays within the arithmetic (`fwd_outcome` is defined).
pub fn fwd_defined(inner: &ScreenRange, outer: &ScreenRange, pos: &PosCol, dlength: usize, step: u16) -> (r: bool)
    ensures
        r == fwd_outcome(*inner, *outer, *pos, dlength, step) is Some,
    decreases fwd_measure(*inner, *outer, *pos, dlength),
{
    if (outer.start as u128) + (dlength as u128) > (usize::MAX as u128) {
        return false;
    }
    let reach = outer.start as usize + dlength;
    let bound = if reach <= outer.end as usize { reach } else { outer.end as usize };
    let sde = u16_or_zero(bound);
    let maxd = dlength.saturating_sub(outer.len());
    let data_room = (pos.data as u128) + (step as u128) <= (usize::MAX as u128);
    let screen_room = (pos.screen as u32) + (step as u32) <= 65535;
    if pos.screen == sde && pos.data == maxd {
        true
    } else if pos.screen == sde {
        data_room
    } else if pos.data == maxd {
        screen_room
    } else if !screen_room {
        false
    } else if pos.screen + step <= inner.end {
        true
    } else if pos.screen == inner.end {
        if !data_room {
            false
        } else if pos.data + step as usize <= maxd {
            true
        } else {
            let next = PosCol { data: maxd, ..*pos };
            let diff = u16_or_zero(maxd.saturating_sub(pos.data));
            fwd_defined(inner, outer, &next, dlength, step.saturating_sub(diff))
        }
    } else {
        let next = PosCol { screen: inner.end, ..*pos };
        fwd_defined(inner, outer, &next, dlength, step.saturating_sub(inner.end.saturating_sub(pos.screen)))
    }
}

/// Whether the cursor can be kept inside its row (`into_x_ok`).
pub fn into_x_defined(dscr: &DataScreen, pos: &Pos, data: &Vec<usize>) -> (r: bool)
    ensures
        r == into_x_ok(*dscr, *pos, data@),
{
    let xin = (dscr.inner.x as u32) + (dscr.inner.w as u32) <= 65535;
    let xout = (dscr.outer.x as u32) + (dscr.outer.w as u32) <= 65535;
    let yout = (dscr.outer.y as u32) + (dscr.outer.h as u32) <= 65535;
    let idx_fits = if pos.y > dscr.outer.y {
        (pos.j as u128) + ((pos.y - dscr.outer.y) as u128) <= (usize::MAX as u128)
    } else {
        true
    };
    xin && xout && yout && data.len() > 0 && idx_fits
}

/// Keeping a cursor inside the data a second time leaves it where the
/// first time put it.
pub proof fn lemma_into_settled(inner: ScreenRange, outer: ScreenRange, pos: PosCol, len: usize)
    requires
        outer.start <= outer.end,
        outer.start <= inner.end,
    ensures
        into_result(inner, outer, into_result(inner, outer, pos, len), len) == into_result(inner, outer, pos, len),
{
}

/// Keeping the cursor's column inside its line a second time leaves it
/// where the first time put it: the cursor that moving up or down gives
/// is already inside its line.
pub proof fn lemma_into_x_settled(dscr: DataScreen, pos: Pos, data: Seq<usize>)
    requires
        dscr.outer.xfits(),
        dscr.inner.xfits(),
        dscr.outer.x <= dscr.inner.x + dscr.inner.w,
    ensures
        into_x_result(dscr, into_x_result(dscr, pos, data), data) == into_x_result(dscr, pos, data),
{
    let q = into_x_result(dscr, pos, data);
    assert(q.yc() == pos.yc());
    lemma_into_settled(dscr.inner.xs(), dscr.outer.xs(), pos.xc(), data[clamp_row(dscr, pos, data)]);
    assert(q.xc() == into_result(dscr.inner.xs(), dscr.outer.xs(), pos.xc(), data[clamp_row(dscr, pos, data)]));
}


/// Moving forward never lowers the cursor's data index, and a step of at
/// least one raises it, where the cursor lies within the data's reach.
pub proof fn lemma_forward_index(inner: ScreenRange, outer: ScreenRange, pos: PosCol, dlength: usize, step: u16)
    requires
        fwd_outcome(inner, outer, pos, dlength, step) is Some,
        outer.start <= pos.screen <= data_end(outer, dlength),
        inner.end <= outer.end,
        pos.data <= max_scroll(outer, dlength),
        pos.data < max_scroll(outer, dlength) ==> pos.screen <= inner.end,
    ensures
        fwd_outcome(inner, outer, pos, dlength, step) matches Some(Some(p)) ==> outer.index_of(p) >= outer.index_of(pos)
            && (step > 0 ==> outer.index_of(p) > outer.index_of(pos)),
    decreases fwd_measure(inner, outer, pos, dlength),
{
    let sde = data_end(outer, dlength);
    let maxd = max_scroll(outer, dlength);
    if pos.screen == sde || pos.data == maxd || pos.screen + step > u16::MAX || pos.screen + step <= inner.end {
    } else if pos.screen == inner.end {
        if pos.data + step <= usize::MAX && pos.data + step > maxd {
            let nstep = sat_sub(step as int, narrow(sat_sub(maxd, pos.data as int)));
            lemma_forward_index(inner, outer, PosCol { data: maxd as usize, ..pos }, dlength, nstep as u16);
        }
    } else {
        let nstep = sat_sub(step as int, sat_sub(inner.end as int, pos.screen as int));
        lemma_forward_index(inner, outer, PosCol { screen: inner.end, ..pos }, dlength, nstep as u16);
    }
}

} // verus!
