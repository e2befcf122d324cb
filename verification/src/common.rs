//! Bounds on cursor movement along one axis, over ranges written as `a..b`
//! and cursors written as a screen `cursor` and a data `scroll`.
//!
//! A `Bound` says how a cursor moves over data of a given length on a
//! screen range: `Data` when all of the data fits, `Screen` when the data
//! scrolls once the cursor reaches the edge of the screen, `Space` when it
//! scrolls once the cursor reaches a margin kept from the edges.
use vstd::prelude::*;
use crate::scr::{narrow, min_int, sat_sub, narrow_usize};
use crate::bnd::byte_len;

verus! {

/// A half-open span of data indices.
#[derive(Clone, Copy, Debug, PartialEq, Eq, Structural)]
pub struct DataRange {
    pub a: usize,
    pub b: usize,
}

/// A span of screen cells along one axis.
#[derive(Clone, Copy, Debug, PartialEq, Eq, Structural)]
pub struct ScreenRange {
    pub a: u16,
    pub b: u16,
}

impl ScreenRange {
    pub open spec fn width(self) -> int {
        self.b - self.a
    }

    /// The data index that a cursor on this range points at.
    pub open spec fn index_of(self, col: PosCol) -> int {
        col.scroll + (col.cursor - self.a)
    }

    pub fn from_length(a: u16, len: usize) -> (r: ScreenRange)
        requires
            a + narrow(len as int) <= u16::MAX,
        ensures
            r.a == a,
            r.b == a + narrow(len as int),
    {
        let len = narrow_usize(len);
        ScreenRange { a, b: a + len }
    }

    /// Builds a range, swapping the bounds when they come in the wrong order.
    pub fn new(a: u16, b: u16) -> (r: ScreenRange)
        ensures
            a > b ==> r == (ScreenRange { a: b, b: a }),
            a <= b ==> r == (ScreenRange { a, b }),
    {
        if a > b {
            ScreenRange { a: b, b: a }
        } else {
            ScreenRange { a, b }
        }
    }

    /// The range as a data range over the same numbers.
    pub fn to_data_range(&self) -> (r: DataRange)
        ensures
            r.a == self.a,
            r.b == self.b,
    {
        DataRange { a: self.a as usize, b: self.b as usize }
    }

    /// Index of the cursor within its range.
    pub fn idx(&self, col: &PosCol) -> (r: usize)
        requires
            self.a <= col.cursor,
            self.index_of(*col) <= usize::MAX,
        ensures
            r == self.index_of(*col),
    {
        col.scroll + ((col.cursor - self.a) as usize)
    }

    pub fn len(&self) -> (r: usize)
        requires
            self.a <= self.b,
        ensures
            r == self.width(),
    {
        (self.b - self.a) as usize
    }
}

/// A rectangle of screen cells.
#[derive(Clone, Copy, Debug, PartialEq, Eq, Structural)]
pub struct Screen {
    pub x: u16,
    pub y: u16,
    pub w: u16,
    pub h: u16,
}

impl Screen {
    pub open spec fn xs(self) -> ScreenRange {
        ScreenRange { a: self.x, b: (self.x + self.w) as u16 }
    }

    pub open spec fn ys(self) -> ScreenRange {
        ScreenRange { a: self.y, b: (self.y + self.h) as u16 }
    }

    pub open spec fn xfits(self) -> bool {
        self.x + self.w <= u16::MAX
    }

    pub open spec fn yfits(self) -> bool {
        self.y + self.h <= u16::MAX
    }

    pub open spec fn fits(self) -> bool {
        self.xfits() && self.yfits()
    }

    pub fn x(&self) -> (r: ScreenRange)
        requires
            self.xfits(),
        ensures
            r == self.xs(),
            r.b == self.x + self.w,
    {
        ScreenRange { a: self.x, b: self.x + self.w }
    }

    pub fn y(&self) -> (r: ScreenRange)
        requires
            self.yfits(),
        ensures
            r == self.ys(),
            r.b == self.y + self.h,
    {
        ScreenRange { a: self.y, b: self.y + self.h }
    }
}

/// A cursor on both axes: screen cell `(x, y)` and scroll `(i, j)`.
#[derive(Clone, Copy, Debug, PartialEq, Eq, Structural)]
pub struct Pos {
    pub x: u16,
    pub y: u16,
    pub i: usize,
    pub j: usize,
}

impl Pos {
    pub open spec fn xc(self) -> PosCol {
        PosCol { cursor: self.x, scroll: self.i }
    }

    pub open spec fn yc(self) -> PosCol {
        PosCol { cursor: self.y, scroll: self.j }
    }

    pub fn x(&self) -> (r: PosCol)
        ensures
            r == self.xc(),
    {
        PosCol { cursor: self.x, scroll: self.i }
    }

    pub fn y(&self) -> (r: PosCol)
        ensures
            r == self.yc(),
    {
        PosCol { cursor: self.y, scroll: self.j }
    }
}

/// A cursor along one axis: the screen cell and the scroll of the data.
#[derive(Clone, Copy, Debug, PartialEq, Eq, Structural)]
pub struct PosCol {
    pub cursor: u16,
    pub scroll: usize,
}

impl PosCol {
    pub open spec fn with_x(self, x: PosCol) -> Pos {
        Pos { x: x.cursor, y: self.cursor, i: x.scroll, j: self.scroll }
    }

    pub open spec fn with_y(self, y: PosCol) -> Pos {
        Pos { x: self.cursor, y: y.cursor, i: self.scroll, j: y.scroll }
    }

    pub fn join_with_x(self, x: PosCol) -> (r: Pos)
        ensures
            r == self.with_x(x),
    {
        Pos { x: x.cursor, y: self.cursor, i: x.scroll, j: self.scroll }
    }

    pub fn join_with_y(self, y: PosCol) -> (r: Pos)
        ensures
            r == self.with_y(y),
    {
        Pos { x: self.cursor, y: y.cursor, i: self.scroll, j: y.scroll }
    }
}

#[derive(Clone, Copy, Debug, PartialEq, Eq, Structural)]
pub enum Bound {
    Data(ScreenRange),
    Screen(usize),
    Space(ScreenRange, usize),
}

/// The bound for data of length `len` on the screen range `srng`, keeping
/// `spc` cells of margin where the data scrolls.
pub open spec fn bound_for(srng: ScreenRange, spc: u16, len: usize) -> Bound {
    if srng.width() >= len {
        Bound::Data(ScreenRange { a: srng.a, b: (srng.a + len) as u16 })
    } else if spc == 0 || 2 * spc >= srng.width() {
        Bound::Screen(len)
    } else {
        Bound::Space(ScreenRange { a: (srng.a + spc) as u16, b: (srng.b - spc - 1) as u16 }, len)
    }
}

impl Bound {
    /// How far the data can scroll on the range `rng`.
    pub open spec fn max_of(self, rng: ScreenRange) -> int {
        match self {
            Bound::Screen(l) => l - rng.width(),
            Bound::Space(_, l) => l - rng.width(),
            Bound::Data(_) => 0,
        }
    }

    /// `max_scroll` can be computed on `rng` without underflow.
    pub open spec fn max_ok(self, rng: ScreenRange) -> bool {
        match self {
            Bound::Data(_) => true,
            _ => rng.a <= rng.b && self.max_of(rng) >= 0,
        }
    }

    /// The cell at which the cursor stops and the data scrolls, moving back.
    pub open spec fn back_anchor(self, srng: ScreenRange) -> u16 {
        match self {
            Bound::Space(rng, _) => rng.a,
            _ => srng.a,
        }
    }

    /// The cell at which the cursor stops and the data scrolls, moving forward.
    pub open spec fn fwd_anchor(self, srng: ScreenRange) -> u16 {
        match self {
            Bound::Space(rng, _) => rng.b,
            _ => srng.b,
        }
    }

    pub open spec fn back_measure(self, srng: ScreenRange, pos: PosCol) -> int {
        (if pos.scroll != 0 { 2int } else { 0int }) + (if pos.cursor != self.back_anchor(srng) { 1int } else { 0int })
    }

    pub open spec fn fwd_measure(self, srng: ScreenRange, pos: PosCol) -> int {
        (if pos.scroll != self.max_of(srng) { 2int } else { 0int }) + (if pos.cursor != self.fwd_anchor(srng) { 1int } else { 0int })
    }

    /// The range of the bound, where it has one, is in order.
    pub open spec fn ordered(self) -> bool {
        match self {
            Bound::Data(rng) => rng.a <= rng.b,
            Bound::Space(rng, _) => rng.a <= rng.b,
            Bound::Screen(_) => true,
        }
    }

    /// The cursor kept inside the cells that the bound allows: the data
    /// range or the margin band, or the whole screen range; the scroll is
    /// kept.
    pub open spec fn into_result(self, srng: ScreenRange, pos: PosCol) -> PosCol {
        let (start, end, data) = match self {
            Bound::Data(rng) => (rng.a, rng.b, pos.scroll),
            Bound::Space(rng, _) => (rng.a, rng.b, pos.scroll),
            Bound::Screen(_) => (srng.a, srng.b, pos.scroll),
        };
        let screen = if pos.cursor < start && !(pos.cursor >= end) {
            start
        } else if !(pos.cursor < start) && pos.cursor >= end {
            end
        } else {
            pos.cursor
        };
        PosCol { cursor: screen, scroll: data }
    }

    /// The outcome of moving back by `step`: `None` where the arithmetic
    /// would overflow, `Some(None)` where the cursor cannot move,
    /// `Some(Some(p))` with the new cursor otherwise.
    pub open spec fn back_outcome(self, srng: ScreenRange, pos: PosCol, step: u16) -> Option<Option<PosCol>>
        decreases self.back_measure(srng, pos),
    {
        match self {
            Bound::Data(rng) => {
                if pos.cursor == rng.a {
                    Some(None)
                } else if rng.a + step > u16::MAX {
                    None
                } else if rng.a + step <= pos.cursor {
                    Some(Some(PosCol { cursor: (pos.cursor - step) as u16, ..pos }))
                } else {
                    Some(Some(PosCol { cursor: rng.a, ..pos }))
                }
            },
            Bound::Screen(_) => {
                if pos.cursor == srng.a && pos.scroll == 0 {
                    Some(None)
                } else if pos.scroll == 0 {
                    if srng.a + step > u16::MAX {
                        None
                    } else if srng.a + step <= pos.cursor {
                        Some(Some(PosCol { cursor: (pos.cursor - step) as u16, ..pos }))
                    } else {
                        Some(Some(PosCol { cursor: srng.a, ..pos }))
                    }
                } else if pos.cursor == srng.a {
                    if step < pos.scroll {
                        Some(Some(PosCol { scroll: (pos.scroll - step) as usize, ..pos }))
                    } else {
                        Some(Some(PosCol { scroll: 0, ..pos }))
                    }
                } else if srng.a + step > u16::MAX {
                    None
                } else if srng.a + step <= pos.cursor {
                    Some(Some(PosCol { cursor: (pos.cursor - step) as u16, ..pos }))
                } else if pos.cursor < srng.a {
                    None
                } else {
                    let next = PosCol { cursor: srng.a, ..pos };
                    match self.back_outcome(srng, next, (step - (pos.cursor - srng.a)) as u16) {
                        None => None,
                        Some(None) => Some(Some(next)),
                        Some(Some(p)) => Some(Some(p)),
                    }
                }
            },
            Bound::Space(rng, _) => {
                if pos.scroll == 0 {
                    if pos.cursor == srng.a {
                        Some(None)
                    } else if srng.a + step > u16::MAX {
                        None
                    } else if srng.a + step <= pos.cursor {
                        Some(Some(PosCol { cursor: (pos.cursor - step) as u16, ..pos }))
                    } else {
                        Some(Some(PosCol { cursor: srng.a, ..pos }))
                    }
                } else if pos.cursor == rng.a {
                    if step < pos.scroll {
                        Some(Some(PosCol { scroll: (pos.scroll - step) as usize, ..pos }))
                    } else {
                        let next = PosCol { scroll: 0, ..pos };
                        match self.back_outcome(srng, next, (step - narrow(pos.scroll as int)) as u16) {
                            None => None,
                            Some(None) => Some(Some(next)),
                            Some(Some(p)) => Some(Some(p)),
                        }
                    }
                } else if rng.a + step > u16::MAX {
                    None
                } else if rng.a + step <= pos.cursor {
                    Some(Some(PosCol { cursor: (pos.cursor - step) as u16, ..pos }))
                } else if pos.cursor < rng.a {
                    None
                } else {
                    let next = PosCol { cursor: rng.a, ..pos };
                    match self.back_outcome(srng, next, (step - (pos.cursor - rng.a)) as u16) {
                        None => None,
                        Some(None) => Some(Some(next)),
                        Some(Some(p)) => Some(Some(p)),
                    }
                }
            },
        }
    }

    /// The outcome of moving forward by `step`: `None` where the arithmetic
    /// would overflow, `Some(None)` where the cursor cannot move,
    /// `Some(Some(p))` with the new cursor otherwise.
    pub open spec fn fwd_outcome(self, srng: ScreenRange, pos: PosCol, step: u16) -> Option<Option<PosCol>>
        decreases self.fwd_measure(srng, pos),
    {
        match self {
            Bound::Data(rng) => {
                if pos.cursor == rng.b {
                    Some(None)
                } else if pos.cursor + step > u16::MAX {
                    None
                } else if pos.cursor + step < rng.b {
                    Some(Some(PosCol { cursor: (pos.cursor + step) as u16, ..pos }))
                } else {
                    Some(Some(PosCol { cursor: rng.b, ..pos }))
                }
            },
            Bound::Screen(_) => {
                let m = self.max_of(srng);
                if !self.max_ok(srng) {
                    None
                } else if pos.cursor == srng.b && pos.scroll == m {
                    Some(None)
                } else if pos.cursor == srng.b {
                    if pos.scroll + step > usize::MAX {
                        None
                    } else if pos.scroll + step < m {
                        Some(Some(PosCol { scroll: (pos.scroll + step) as usize, ..pos }))
                    } else {
                        Some(Some(PosCol { scroll: m as usize, ..pos }))
                    }
                } else if pos.cursor + step > u16::MAX {
                    None
                } else if pos.cursor + step <= srng.b {
                    Some(Some(PosCol { cursor: (pos.cursor + step) as u16, ..pos }))
                } else if pos.scroll == m {
                    Some(Some(PosCol { cursor: srng.b, ..pos }))
                } else if pos.cursor > srng.b {
                    None
                } else {
                    let next = PosCol { cursor: srng.b, ..pos };
                    match self.fwd_outcome(srng, next, (step - (srng.b - pos.cursor)) as u16) {
                        None => None,
                        Some(None) => Some(Some(next)),
                        Some(Some(p)) => Some(Some(p)),
                    }
                }
            },
            Bound::Space(rng, _) => {
                let m = self.max_of(srng);
                if !self.max_ok(srng) {
                    None
                } else if pos.scroll == m {
                    if pos.cursor == srng.b {
                        Some(None)
                    } else if pos.cursor + step > u16::MAX {
                        None
                    } else if pos.cursor + step <= srng.b {
                        Some(Some(PosCol { cursor: (pos.cursor + step) as u16, ..pos }))
                    } else {
                        Some(Some(PosCol { cursor: srng.b, ..pos }))
                    }
                } else if pos.cursor == rng.b {
                    if pos.scroll + step > usize::MAX {
                        None
                    } else if pos.scroll + step < m {
                        Some(Some(PosCol { scroll: (pos.scroll + step) as usize, ..pos }))
                    } else {
                        let gain = if pos.scroll < m { narrow(m - pos.scroll) } else { 0 };
                        if step + gain > u16::MAX {
                            None
                        } else {
                            let next = PosCol { scroll: m as usize, ..pos };
                            match self.fwd_outcome(srng, next, (step + gain) as u16) {
                                None => None,
                                Some(None) => Some(Some(next)),
                                Some(Some(p)) => Some(Some(p)),
                            }
                        }
                    }
                } else if pos.cursor + step > u16::MAX {
                    None
                } else if pos.cursor + step <= rng.b {
                    Some(Some(PosCol { cursor: (pos.cursor + step) as u16, ..pos }))
                } else if pos.cursor > rng.b || step + (rng.b - pos.cursor) > u16::MAX {
                    None
                } else {
                    let next = PosCol { cursor: rng.b, ..pos };
                    match self.fwd_outcome(srng, next, (step + (rng.b - pos.cursor)) as u16) {
                        None => None,
                        Some(None) => Some(Some(next)),
                        Some(Some(p)) => Some(Some(p)),
                    }
                }
            },
        }
    }

    /// The part of the data shown: the numbers of the data bound's range,
    /// or a screen's width of data from the scroll.
    pub open spec fn shown(self, scr: ScreenRange, col: PosCol) -> DataRange {
        match self {
            Bound::Data(range) => DataRange { a: range.a as usize, b: range.b as usize },
            _ => DataRange { a: col.scroll, b: (col.scroll + scr.width()) as usize },
        }
    }

    /// `drng` can run without underflow or overflow.
    pub open spec fn shown_ok(self, scr: ScreenRange, col: PosCol) -> bool {
        match self {
            Bound::Data(_) => true,
            _ => scr.a <= scr.b && col.scroll + scr.width() <= usize::MAX,
        }
    }

    pub fn new(srng: ScreenRange, spc: u16, len: usize) -> (r: Bound)
        requires
            srng.a <= srng.b,
        ensures
            r == bound_for(srng, spc, len),
    {
        if srng.len() >= len {
            Bound::Data(ScreenRange::from_length(srng.a, len))
        } else {
            if spc == 0 || (spc as usize) * 2 >= srng.len() {
                Bound::Screen(len)
            } else {
                let start = srng.a + spc;
                let end = srng.b - spc - 1;
                Bound::Space(ScreenRange::new(start, end), len)
            }
        }
    }

    /// The bound for data one longer.
    pub fn increment(self) -> (r: Bound)
        requires
            match self {
                Bound::Data(rng) => rng.b < u16::MAX,
                Bound::Space(_, len) => len < usize::MAX,
                Bound::Screen(len) => len < usize::MAX,
            },
        ensures
            r == match self {
                Bound::Data(rng) => Bound::Data(ScreenRange { a: rng.a, b: (rng.b + 1) as u16 }),
                Bound::Space(rng, len) => Bound::Space(rng, (len + 1) as usize),
                Bound::Screen(len) => Bound::Screen((len + 1) as usize),
            },
    {
        match self {
            Bound::Data(rng) => Bound::Data(ScreenRange { a: rng.a, b: rng.b + 1 }),
            Bound::Space(rng, len) => Bound::Space(rng, len + 1),
            Bound::Screen(len) => Bound::Screen(len + 1),
        }
    }

    /// Keeps the cursor inside the cells that the bound allows.
    pub fn move_into(&self, srng: &ScreenRange, pos: &PosCol) -> (r: PosCol)
        ensures
            r == self.into_result(*srng, *pos),
    {
        let mut pos = *pos;
        let (start, end) = match self {
            Bound::Data(rng) => (rng.a, rng.b),
            Bound::Space(rng, _) => (rng.a, rng.b),
            Bound::Screen(_) => (srng.a, srng.b),
        };
        if pos.cursor < start && !(pos.cursor >= end) {
            pos.cursor = start;
        } else if !(pos.cursor < start) && pos.cursor >= end {
            pos.cursor = end;
        }
        pos
    }

    pub fn move_backward(&self, srng: &ScreenRange, pos: &PosCol, step: u16) -> (r: Option<PosCol>)
        requires
            self.back_outcome(*srng, *pos, step) is Some,
        ensures
            self.back_outcome(*srng, *pos, step) == Some(r),
        decreases self.back_measure(*srng, *pos),
    {
        let mut step = step;
        let mut pos = *pos;
        match self {
            Bound::Data(rng) => {
                if pos.cursor == rng.a {
                    None
                } else if rng.a + step <= pos.cursor {
                    pos.cursor = pos.cursor - step;
                    Some(pos)
                } else {
                    pos.cursor = rng.a;
                    Some(pos)
                }
            },
            Bound::Screen(_) => {
                if pos.cursor == srng.a && pos.scroll == 0 {
                    None
                } else if pos.scroll == 0 {
                    if srng.a + step <= pos.cursor {
                        pos.cursor = pos.cursor - step;
                        Some(pos)
                    } else {
                        pos.cursor = srng.a;
                        Some(pos)
                    }
                } else if pos.cursor == srng.a {
                    if (step as usize) < pos.scroll {
                        pos.scroll = pos.scroll - step as usize;
                        Some(pos)
                    } else {
                        pos.scroll = 0;
                        Some(pos)
                    }
                } else if srng.a + step <= pos.cursor {
                    pos.cursor = pos.cursor - step;
                    Some(pos)
                } else {
                    step = step - (pos.cursor - srng.a);
                    pos.cursor = srng.a;
                    match self.move_backward(srng, &pos, step) {
                        Some(p) => Some(p),
                        None => Some(pos),
                    }
                }
            },
            Bound::Space(rng, _) => {
                if pos.scroll == 0 {
                    if pos.cursor == srng.a {
                        None
                    } else if srng.a + step <= pos.cursor {
                        pos.cursor = pos.cursor - step;
                        Some(pos)
                    } else {
                        pos.cursor = srng.a;
                        Some(pos)
                    }
                } else if pos.cursor == rng.a {
                    if (step as usize) < pos.scroll {
                        pos.scroll = pos.scroll - step as usize;
                        Some(pos)
                    } else {
                        step = step - narrow_usize(pos.scroll);
                        pos.scroll = 0;
                        match self.move_backward(srng, &pos, step) {
                            Some(p) => Some(p),
                            None => Some(pos),
                        }
                    }
                } else if rng.a + step <= pos.cursor {
                    pos.cursor = pos.cursor - step;
                    Some(pos)
                } else {
                    step = step - (pos.cursor - rng.a);
                    pos.cursor = rng.a;
                    match self.move_backward(srng, &pos, step) {
                        Some(p) => Some(p),
                        None => Some(pos),
                    }
                }
            },
        }
    }

    pub fn move_forward(&self, srng: &ScreenRange, pos: &PosCol, step: u16) -> (r: Option<PosCol>)
        requires
            self.fwd_outcome(*srng, *pos, step) is Some,
        ensures
            self.fwd_outcome(*srng, *pos, step) == Some(r),
        decreases self.fwd_measure(*srng, *pos),
    {
        let mut step = step;
        let mut pos = *pos;
        match self {
            Bound::Data(rng) => {
                if pos.cursor == rng.b {
                    None
                } else if pos.cursor + step < rng.b {
                    pos.cursor = pos.cursor + step;
                    Some(pos)
                } else {
                    pos.cursor = rng.b;
                    Some(pos)
                }
            },
            Bound::Screen(_) => {
                let m = self.max_scroll(srng);
                if pos.cursor == srng.b && pos.scroll == m {
                    None
                } else if pos.cursor == srng.b {
                    if pos.scroll + (step as usize) < m {
                        pos.scroll = pos.scroll + step as usize;
                        Some(pos)
                    } else {
                        pos.scroll = m;
                        Some(pos)
                    }
                } else if pos.cursor + step <= srng.b {
                    pos.cursor = pos.cursor + step;
                    Some(pos)
                } else if pos.scroll == m {
                    pos.cursor = srng.b;
                    Some(pos)
                } else {
                    step = step - (srng.b - pos.cursor);
                    pos.cursor = srng.b;
                    match self.move_forward(srng, &pos, step) {
                        Some(p) => Some(p),
                        None => Some(pos),
                    }
                }
            },
            Bound::Space(rng, _) => {
                let m = self.max_scroll(srng);
                if pos.scroll == m {
                    if pos.cursor == srng.b {
                        None
                    } else if pos.cursor + step <= srng.b {
                        pos.cursor = pos.cursor + step;
                        Some(pos)
                    } else {
                        pos.cursor = srng.b;
                        Some(pos)
                    }
                } else if pos.cursor == rng.b {
                    if pos.scroll + (step as usize) < m {
                        pos.scroll = pos.scroll + step as usize;
                        Some(pos)
                    } else {
                        if pos.scroll < m {
                            step = step + narrow_usize(m - pos.scroll);
                        }
                        pos.scroll = m;
                        match self.move_forward(srng, &pos, step) {
                            Some(p) => Some(p),
                            None => Some(pos),
                        }
                    }
                } else if pos.cursor + step <= rng.b {
                    pos.cursor = pos.cursor + step;
                    Some(pos)
                } else {
                    step = step + (rng.b - pos.cursor);
                    pos.cursor = rng.b;
                    match self.move_forward(srng, &pos, step) {
                        Some(p) => Some(p),
                        None => Some(pos),
                    }
                }
            },
        }
    }

    /// How far the data can scroll on the range `rng`.
    pub fn max_scroll(&self, rng: &ScreenRange) -> (r: usize)
        requires
            self.max_ok(*rng),
        ensures
            r == self.max_of(*rng),
    {
        match self {
            Bound::Screen(l) => *l - rng.len(),
            Bound::Space(_, l) => *l - rng.len(),
            _ => 0,
        }
    }

    /// Returns the start and end of displayable text.
    pub fn drng(&self, scr: &ScreenRange, col: &PosCol) -> (r: DataRange)
        requires
            self.shown_ok(*scr, *col),
        ensures
            r == self.shown(*scr, *col),
    {
        match self {
            Bound::Data(range) => range.to_data_range(),
            _ => DataRange { a: col.scroll, b: col.scroll + scr.len() },
        }
    }
}

/// A page of text lines on a screen: one horizontal bound per line and a
/// vertical bound over the lines.
pub struct Page {
    pub scr: Screen,
    pub x: Vec<Bound>,
    pub y: Bound,
}

impl Page {
    /// The horizontal bound of the line that the cursor is on; an empty data
    /// bound past the last line.
    pub open spec fn row_bound(&self, pos: Pos) -> Bound {
        let idx = self.scr.ys().index_of(pos.yc());
        if idx >= self.x@.len() {
            Bound::Data(ScreenRange { a: 0, b: 0 })
        } else {
            self.x@[idx]
        }
    }

    /// The row of the cursor can be found without overflow.
    pub open spec fn row_ok(&self, pos: Pos) -> bool {
        self.scr.yfits() && self.scr.y <= pos.y && self.scr.ys().index_of(pos.yc()) <= usize::MAX
    }

    /// The cursor with its horizontal column kept inside its line.
    pub open spec fn into_x_result(&self, pos: Pos) -> Pos {
        self.row_bound(pos).into_result(self.scr.xs(), pos.xc()).with_y(pos.yc())
    }

    /// The lines to draw: each shown line with its screen row, its index, and
    /// the part of it that is shown.
    pub open spec fn ranges(&self, pos: Pos) -> Seq<(u16, usize, DataRange)> {
        let rows = self.y.shown(self.scr.ys(), pos.yc());
        Seq::new(
            sat_sub(rows.b as int, rows.a as int) as nat,
            |k: int| ((self.scr.y + k) as u16, (rows.a + k) as usize, self.x@[rows.a + k].shown(self.scr.xs(), pos.xc())),
        )
    }

    /// `get_ranges` can run without overflow or an index out of bounds.
    pub open spec fn ranges_ok(&self, pos: Pos) -> bool {
        let rows = self.y.shown(self.scr.ys(), pos.yc());
        let n = sat_sub(rows.b as int, rows.a as int);
        &&& self.scr.fits()
        &&& self.y.shown_ok(self.scr.ys(), pos.yc())
        &&& (n == 0 || self.scr.y + n - 1 <= u16::MAX)
        &&& forall|i: int| rows.a <= i < rows.b ==> i < self.x@.len()
            && (#[trigger] self.x@[i]).shown_ok(self.scr.xs(), pos.xc())
    }

    pub fn new(scr: &Screen, txt: &Vec<String>, hspc: u16, vspc: u16) -> (r: Page)
        requires
            scr.fits(),
        ensures
            r.scr == *scr,
            r.y == bound_for(scr.ys(), vspc, txt@.len() as usize),
            r.x@.len() == txt@.len(),
            forall|k: int| 0 <= k < txt@.len() ==> r.x@[k] == bound_for(scr.xs(), hspc, byte_len(#[trigger] txt@[k]@) as usize),
    {
        let mut x: Vec<Bound> = Vec::new();
        let xr = scr.x();
        let mut k: usize = 0;
        while k < txt.len()
            invariant
                k <= txt@.len(),
                xr == scr.xs(),
                xr.a <= xr.b,
                x@.len() == k,
                forall|j: int| 0 <= j < k ==> x@[j] == bound_for(scr.xs(), hspc, byte_len(#[trigger] txt@[j]@) as usize),
            decreases txt@.len() - k,
        {
            let len = txt[k].as_str().len();
            x.push(Bound::new(xr, hspc, len));
            k = k + 1;
        }
        Page { x, y: Bound::new(scr.y(), vspc, txt.len()), scr: *scr }
    }

    pub fn move_left(&self, pos: &Pos, step: u16) -> (r: Option<Pos>)
        requires
            self.row_ok(*pos),
            self.scr.xfits(),
            self.row_bound(*pos).back_outcome(self.scr.xs(), pos.xc(), step) is Some,
        ensures
            r == match self.row_bound(*pos).back_outcome(self.scr.xs(), pos.xc(), step).unwrap() {
                Some(c) => Some(c.with_y(pos.yc())),
                None => None,
            },
    {
        match self.x(pos).move_backward(&self.scr.x(), &pos.x(), step) {
            Some(c) => Some(c.join_with_y(pos.y())),
            None => None,
        }
    }

    pub fn move_right(&self, pos: &Pos, step: u16) -> (r: Option<Pos>)
        requires
            self.row_ok(*pos),
            self.scr.xfits(),
            self.row_bound(*pos).fwd_outcome(self.scr.xs(), pos.xc(), step) is Some,
        ensures
            r == match self.row_bound(*pos).fwd_outcome(self.scr.xs(), pos.xc(), step).unwrap() {
                Some(c) => Some(c.with_y(pos.yc())),
                None => None,
            },
    {
        match self.x(pos).move_forward(&self.scr.x(), &pos.x(), step) {
            Some(c) => Some(c.join_with_y(pos.y())),
            None => None,
        }
    }

    pub fn move_up(&self, pos: &Pos, step: u16) -> (r: Option<Pos>)
        requires
            self.scr.fits(),
            self.y.back_outcome(self.scr.ys(), pos.yc(), step) is Some,
            self.y.back_outcome(self.scr.ys(), pos.yc(), step) matches Some(Some(c))
                ==> self.row_ok(c.with_x(pos.xc())),
        ensures
            r == match self.y.back_outcome(self.scr.ys(), pos.yc(), step).unwrap() {
                Some(c) => Some(self.into_x_result(c.with_x(pos.xc()))),
                None => None,
            },
    {
        match self.y.move_backward(&self.scr.y(), &pos.y(), step) {
            Some(c) => {
                let p = c.join_with_x(pos.x());
                Some(self.move_into_x(&p))
            },
            None => None,
        }
    }

    pub fn move_down(&self, pos: &Pos, step: u16) -> (r: Option<Pos>)
        requires
            self.scr.fits(),
            self.y.fwd_outcome(self.scr.ys(), pos.yc(), step) is Some,
            self.y.fwd_outcome(self.scr.ys(), pos.yc(), step) matches Some(Some(c))
                ==> self.row_ok(c.with_x(pos.xc())),
        ensures
            r == match self.y.fwd_outcome(self.scr.ys(), pos.yc(), step).unwrap() {
                Some(c) => Some(self.into_x_result(c.with_x(pos.xc()))),
                None => None,
            },
    {
        match self.y.move_forward(&self.scr.y(), &pos.y(), step) {
            Some(c) => {
                let p = c.join_with_x(pos.x());
                Some(self.move_into_x(&p))
            },
            None => None,
        }
    }

    fn move_into_x(&self, pos: &Pos) -> (r: Pos)
        requires
            self.row_ok(*pos),
            self.scr.xfits(),
        ensures
            r == self.into_x_result(*pos),
    {
        self.x(pos).move_into(&self.scr.x(), &pos.x()).join_with_y(pos.y())
    }

    pub fn get_ranges(&self, pos: &Pos) -> (r: Vec<(u16, usize, DataRange)>)
        requires
            self.ranges_ok(*pos),
        ensures
            r@ == self.ranges(*pos),
    {
        let mut vec: Vec<(u16, usize, DataRange)> = Vec::new();
        let yr = self.scr.y();
        let xr = self.scr.x();
        let xc = pos.x();
        let drng = self.y.drng(&yr, &pos.y());
        let ghost want = self.ranges(*pos);
        if drng.a < drng.b {
            let mut i = drng.a;
            while i < drng.b
                invariant
                    drng == self.y.shown(self.scr.ys(), pos.yc()),
                    drng.a <= i <= drng.b,
                    yr == self.scr.ys(),
                    yr.a == self.scr.y,
                    xr == self.scr.xs(),
                    xc == pos.xc(),
                    self.ranges_ok(*pos),
                    want == self.ranges(*pos),
                    vec@.len() == i - drng.a,
                    forall|k: int| 0 <= k < vec@.len() ==> vec@[k] == want[k],
                decreases drng.b - i,
            {
                assert(self.ranges_ok(*pos));
                let ghost rows = self.y.shown(self.scr.ys(), pos.yc());
                assert(rows == drng);
                assert(rows.a <= i < rows.b);
                let ghost ii = i as int;
                let ghost b = self.x@[ii];
                assert(ii < self.x@.len());
                assert(b.shown_ok(self.scr.xs(), pos.xc()));
                let rng = self.x[i].drng(&xr, &xc);
                let e = i - drng.a;
                let row = yr.a + (e as u16);
                vec.push((row, i, rng));
                i = i + 1;
            }
        }
        assert(vec@ =~= want);
        vec
    }

    /// The horizontal bound of the line that the cursor is on.
    fn x(&self, pos: &Pos) -> (r: &Bound)
        requires
            self.row_ok(*pos),
        ensures
            *r == self.row_bound(*pos),
    {
        let idx = self.scr.y().idx(&pos.y());
        let len = self.x.len();
        if idx >= len {
            &Bound::Data(ScreenRange { a: 0, b: 0 })
        } else {
            &self.x[idx]
        }
    }
}


impl Bound {
    /// The largest data index that a cursor can reach.
    pub open spec fn last_index(self, srng: ScreenRange) -> int {
        match self {
            Bound::Data(rng) => rng.b - srng.a,
            Bound::Screen(l) => l as int,
            Bound::Space(_, l) => l as int,
        }
    }
}

/// Data that fits on the range gets a data bound as long as the data;
/// longer data scrolls, with the margin band strictly inside the range.
pub proof fn lemma_bound_for(srng: ScreenRange, spc: u16, len: usize)
    requires
        srng.a <= srng.b,
    ensures
        bound_for(srng, spc, len) matches Bound::Data(rng) ==> len <= srng.width() && rng.a
            == srng.a && rng.b - rng.a == len,
        bound_for(srng, spc, len) matches Bound::Screen(l) ==> l == len && len > srng.width(),
        bound_for(srng, spc, len) matches Bound::Space(rng, l) ==> l == len && len > srng.width()
            && srng.a < rng.a <= rng.b < srng.b,
{
}

/// Moving back by `step` lowers the cursor's data index by `step`, down to
/// zero, and the cursor cannot move exactly when that index is zero.
pub proof fn lemma_backward_index(b: Bound, srng: ScreenRange, pos: PosCol, step: u16)
    requires
        b.back_outcome(srng, pos, step) is Some,
        srng.a <= pos.cursor,
        b matches Bound::Data(rng) ==> rng.a == srng.a && pos.scroll == 0,
        b matches Bound::Space(rng, _) ==> srng.a <= rng.a,
    ensures
        b.back_outcome(srng, pos, step) == Some(None::<PosCol>) <==> srng.index_of(pos) == 0,
        b.back_outcome(srng, pos, step) matches Some(Some(p)) ==> srng.a <= p.cursor
            && srng.index_of(p) == sat_sub(srng.index_of(pos), step as int),
    decreases b.back_measure(srng, pos),
{
    match b {
        Bound::Data(_) => {},
        Bound::Screen(_) => {
            if pos.scroll != 0 && pos.cursor != srng.a && srng.a + step <= u16::MAX && srng.a
                + step > pos.cursor {
                lemma_backward_index(b, srng, PosCol { cursor: srng.a, ..pos }, (step - (pos.cursor - srng.a)) as u16);
            }
        },
        Bound::Space(rng, _) => {
            if pos.scroll == 0 {
            } else if pos.cursor == rng.a {
                if step >= pos.scroll {
                    lemma_backward_index(b, srng, PosCol { scroll: 0, ..pos }, (step - narrow(pos.scroll as int)) as u16);
                }
            } else if rng.a + step <= u16::MAX && rng.a + step > pos.cursor && pos.cursor >= rng.a {
                let next = PosCol { cursor: rng.a, ..pos };
                let nstep = (step - (pos.cursor - rng.a)) as u16;
                lemma_backward_index(b, srng, next, nstep);
            }
        },
    }
}

/// For data and screen bounds, moving forward by `step` raises the cursor's
/// data index by `step`, up to the last index, and the cursor cannot move
/// exactly when it is at the last index.
pub proof fn lemma_forward_index(b: Bound, srng: ScreenRange, pos: PosCol, step: u16)
    requires
        b.fwd_outcome(srng, pos, step) is Some,
        !(b is Space),
        srng.a <= pos.cursor,
        b matches Bound::Data(rng) ==> pos.cursor <= rng.b && pos.scroll == 0,
        b matches Bound::Screen(_) ==> pos.cursor <= srng.b && pos.scroll <= b.max_of(srng),
    ensures
        b.fwd_outcome(srng, pos, step) == Some(None::<PosCol>) <==> srng.index_of(pos) == b.last_index(srng),
        b.fwd_outcome(srng, pos, step) matches Some(Some(p)) ==> srng.a <= p.cursor
            && srng.index_of(p) == min_int(srng.index_of(pos) + step, b.last_index(srng)),
    decreases b.fwd_measure(srng, pos),
{
    match b {
        Bound::Screen(_) => {
            let m = b.max_of(srng);
            if pos.cursor != srng.b && pos.cursor + step <= u16::MAX && pos.cursor + step > srng.b
                && pos.scroll != m {
                lemma_forward_index(b, srng, PosCol { cursor: srng.b, ..pos }, (step - (srng.b - pos.cursor)) as u16);
            }
        },
        _ => {},
    }
}

/// Moving forward never scrolls back and never moves the cursor back, for a
/// cursor inside its bounds.
pub proof fn lemma_forward_monotone(b: Bound, srng: ScreenRange, pos: PosCol, step: u16)
    requires
        b.fwd_outcome(srng, pos, step) is Some,
        pos.cursor <= srng.b,
        b matches Bound::Data(rng) ==> pos.cursor <= rng.b,
        b matches Bound::Space(rng, _) ==> rng.b <= srng.b && (pos.scroll < b.max_of(srng)
            ==> pos.cursor <= rng.b),
        pos.scroll <= b.max_of(srng) || b is Data,
    ensures
        b.fwd_outcome(srng, pos, step) matches Some(Some(p)) ==> p.cursor >= pos.cursor && p.scroll
            >= pos.scroll,
    decreases b.fwd_measure(srng, pos),
{
    match b {
        Bound::Data(_) => {},
        Bound::Screen(_) => {
            let m = b.max_of(srng);
            if pos.cursor != srng.b && pos.cursor + step <= u16::MAX && pos.cursor + step > srng.b
                && pos.scroll != m {
                lemma_forward_monotone(b, srng, PosCol { cursor: srng.b, ..pos }, (step - (srng.b - pos.cursor)) as u16);
            }
        },
        Bound::Space(rng, _) => {
            let m = b.max_of(srng);
            if pos.scroll == m {
            } else if pos.cursor == rng.b {
                if pos.scroll + step <= usize::MAX && pos.scroll + step >= m {
                    let gain = if pos.scroll < m { narrow(m - pos.scroll) } else { 0 };
                    if step + gain <= u16::MAX {
                        lemma_forward_monotone(b, srng, PosCol { scroll: m as usize, ..pos }, (step + gain) as u16);
                    }
                }
            } else if pos.cursor + step <= u16::MAX && pos.cursor + step > rng.b && pos.cursor <= rng.b
                && step + (rng.b - pos.cursor) <= u16::MAX {
                lemma_forward_monotone(b, srng, PosCol { cursor: rng.b, ..pos }, (step + (rng.b - pos.cursor)) as u16);
            }
        },
    }
}

/// Keeping a cursor inside a bound a second time leaves it where the
/// first time put it.
pub proof fn lemma_into_settled(b: Bound, srng: ScreenRange, pos: PosCol)
    requires
        b.ordered(),
        srng.a <= srng.b,
    ensures
        b.into_result(srng, b.into_result(srng, pos)) == b.into_result(srng, pos),
{
}

/// Keeping the cursor's column inside its line a second time leaves it
/// where the first time put it: the cursor that moving up or down gives
/// is already inside its line.
pub proof fn lemma_into_x_settled(page: Page, pos: Pos)
    requires
        page.scr.xfits(),
        page.scr.y <= pos.y,
        forall|i: int| 0 <= i < page.x@.len() ==> (#[trigger] page.x@[i]).ordered(),
    ensures
        page.into_x_result(page.into_x_result(pos)) == page.into_x_result(pos),
{
    let q = page.into_x_result(pos);
    assert(q.yc() == pos.yc());
    assert(page.row_bound(q) == page.row_bound(pos));
    let idx = page.scr.ys().index_of(pos.yc());
    if 0 <= idx < page.x@.len() {
        assert(page.x@[idx].ordered());
    }
    lemma_into_settled(page.row_bound(pos), page.scr.xs(), pos.xc());
    assert(q.xc() == page.row_bound(pos).into_result(page.scr.xs(), pos.xc()));
}

} // verus!
