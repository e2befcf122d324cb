//! Bounds on cursor movement along one axis.
//!
//! A `Bound` says how a cursor moves over a row (or column) of data of a
//! given length on a screen range: `Data` when all of the data fits, so the
//! cursor moves within the data and never scrolls; `Screen` when the data is
//! longer and scrolls once the cursor reaches the edge of the screen;
//! `Space` when it scrolls once the cursor reaches a margin kept from the
//! edges.
use vstd::prelude::*;
use crate::scr::{Screen, ScreenRange, DataRange, Pos, PosCol, narrow, min_int, sat_sub, narrow_usize};
use vstd::utf8::encode_utf8;

verus! {

#[derive(Clone, Copy, Debug, PartialEq, Eq, Structural)]
pub enum Bound {
    Data(ScreenRange),
    Screen(usize),
    Space(ScreenRange, usize),
}

/// The bound for data of length `len` on the screen range `srng`, keeping
/// `spc` cells of margin where the data scrolls.
pub open spec fn bound_for(srng: ScreenRange, spc: u16, len: usize) -> Bound {
    if srng.width() >= len {
        Bound::Data(ScreenRange { start: srng.start, end: (srng.start + len) as u16 })
    } else if spc == 0 || 2 * spc >= srng.width() {
        Bound::Screen(len)
    } else {
        Bound::Space(ScreenRange { start: (srng.start + spc) as u16, end: (srng.end - spc - 1) as u16 }, len)
    }
}

impl Bound {
    /// How far the data can scroll on the range `rng`.
    pub open spec fn max_of(self, rng: ScreenRange) -> int {
        match self {
            Bound::Screen(l) => l - rng.width(),
            Bound::Space(_, l) => l - rng.width(),
            Bound::Data(_) => 0,
        }
    }

    /// `max_data` can be computed on `rng` without underflow.
    pub open spec fn max_ok(self, rng: ScreenRange) -> bool {
        match self {
            Bound::Data(_) => true,
            _ => rng.start <= rng.end && self.max_of(rng) >= 0,
        }
    }

    /// The cell at which the cursor stops and the data scrolls, moving back.
    pub open spec fn back_anchor(self, srng: ScreenRange) -> u16 {
        match self {
            Bound::Space(rng, _) => rng.start,
            _ => srng.start,
        }
    }

    /// The cell at which the cursor stops and the data scrolls, moving forward.
    pub open spec fn fwd_anchor(self, srng: ScreenRange) -> u16 {
        match self {
            Bound::Space(rng, _) => rng.end,
            _ => srng.end,
        }
    }

    pub open spec fn back_measure(self, srng: ScreenRange, pos: PosCol) -> int {
        (if pos.data != 0 { 2int } else { 0int }) + (if pos.screen != self.back_anchor(srng) { 1int } else { 0int })
    }

    pub open spec fn fwd_measure(self, srng: ScreenRange, pos: PosCol) -> int {
        (if pos.data != self.max_of(srng) { 2int } else { 0int }) + (if pos.screen != self.fwd_anchor(srng) { 1int } else { 0int })
    }

    /// The range of the bound, where it has one, is in order.
    pub open spec fn ordered(self) -> bool {
        match self {
            Bound::Data(rng) => rng.start <= rng.end,
            Bound::Space(rng, _) => rng.start <= rng.end,
            Bound::Screen(_) => true,
        }
    }

    /// The cursor kept inside the cells that the bound allows: the data
    /// range (unscrolled), the margin band, or the whole screen range.
    pub open spec fn into_result(self, srng: ScreenRange, pos: PosCol) -> PosCol {
        let (start, end, data) = match self {
            Bound::Data(rng) => (rng.start, rng.end, 0usize),
            Bound::Space(rng, _) => (rng.start, rng.end, pos.data),
            Bound::Screen(_) => (srng.start, srng.end, pos.data),
        };
        let screen = if pos.screen < start && !(pos.screen >= end) {
            start
        } else if !(pos.screen < start) && pos.screen >= end {
            end
        } else {
            pos.screen
        };
        PosCol { screen, data }
    }

    /// The outcome of moving back by `step`: `None` where the arithmetic
    /// would overflow, `Some(None)` where the cursor cannot move,
    /// `Some(Some(p))` with the new cursor otherwise.
    pub open spec fn back_outcome(self, srng: ScreenRange, pos: PosCol, step: u16) -> Option<Option<PosCol>>
        decreases self.back_measure(srng, pos),
    {
        match self {
            Bound::Data(rng) => {
                if pos.screen == rng.start {
                    Some(None)
                } else if rng.start + step > u16::MAX {
                    None
                } else if rng.start + step <= pos.screen {
                    Some(Some(PosCol { screen: (pos.screen - step) as u16, ..pos }))
                } else {
                    Some(Some(PosCol { screen: rng.start, ..pos }))
                }
            },
            Bound::Screen(_) => {
                if pos.screen == srng.start && pos.data == 0 {
                    Some(None)
                } else if pos.data == 0 {
                    if srng.start + step > u16::MAX {
                        None
                    } else if srng.start + step <= pos.screen {
                        Some(Some(PosCol { screen: (pos.screen - step) as u16, ..pos }))
                    } else {
                        Some(Some(PosCol { screen: srng.start, ..pos }))
                    }
                } else if pos.screen == srng.start {
                    if step < pos.data {
                        Some(Some(PosCol { data: (pos.data - step) as usize, ..pos }))
                    } else {
                        Some(Some(PosCol { data: 0, ..pos }))
                    }
                } else if srng.start + step > u16::MAX {
                    None
                } else if srng.start + step <= pos.screen {
                    Some(Some(PosCol { screen: (pos.screen - step) as u16, ..pos }))
                } else if pos.screen < srng.start {
                    None
                } else {
                    let next = PosCol { screen: srng.start, ..pos };
                    match self.back_outcome(srng, next, (step - (pos.screen - srng.start)) as u16) {
                        None => None,
                        Some(None) => Some(Some(next)),
                        Some(Some(p)) => Some(Some(p)),
                    }
                }
            },
            Bound::Space(rng, _) => {
                if pos.data == 0 {
                    if pos.screen == srng.start {
                        Some(None)
                    } else if srng.start + step > u16::MAX {
                        None
                    } else if srng.start + step <= pos.screen {
                        Some(Some(PosCol { screen: (pos.screen - step) as u16, ..pos }))
                    } else {
                        Some(Some(PosCol { screen: srng.start, ..pos }))
                    }
                } else if pos.screen == rng.start {
                    if step < pos.data {
                        Some(Some(PosCol { data: (pos.data - step) as usize, ..pos }))
                    } else {
                        let next = PosCol { data: 0, ..pos };
                        match self.back_outcome(srng, next, (step - narrow(pos.data as int)) as u16) {
                            None => None,
                            Some(None) => Some(Some(next)),
                            Some(Some(p)) => Some(Some(p)),
                        }
                    }
                } else if rng.start + step > u16::MAX {
                    None
                } else if rng.start + step <= pos.screen {
                    Some(Some(PosCol { screen: (pos.screen - step) as u16, ..pos }))
                } else if pos.screen < rng.start {
                    None
                } else {
                    let next = PosCol { screen: rng.start, ..pos };
                    match self.back_outcome(srng, next, (step - (pos.screen - rng.start)) as u16) {
                        None => None,
                        Some(None) => Some(Some(next)),
                        Some(Some(p)) => Some(Some(p)),
                    }
                }
            },
        }
    }

    /// The outcome of moving forward by `step`: `None` where the arithmetic
    /// would overflow, `Some(None)` where the cursor cannot move,
    /// `Some(Some(p))` with the new cursor otherwise.
    pub open spec fn fwd_outcome(self, srng: ScreenRange, pos: PosCol, step: u16) -> Option<Option<PosCol>>
        decreases self.fwd_measure(srng, pos),
    {
        match self {
            Bound::Data(rng) => {
                if pos.screen == rng.end {
                    Some(None)
                } else if pos.screen + step > u16::MAX {
                    None
                } else if pos.screen + step < rng.end {
                    Some(Some(PosCol { screen: (pos.screen + step) as u16, ..pos }))
                } else {
                    Some(Some(PosCol { screen: rng.end, ..pos }))
                }
            },
            Bound::Screen(_) => {
                let m = self.max_of(srng);
                if !self.max_ok(srng) {
                    None
                } else if pos.screen == srng.end && pos.data == m {
                    Some(None)
                } else if pos.screen == srng.end {
                    if pos.data + step > usize::MAX {
                        None
                    } else if pos.data + step < m {
                        Some(Some(PosCol { data: (pos.data + step) as usize, ..pos }))
                    } else {
                        Some(Some(PosCol { data: m as usize, ..pos }))
                    }
                } else if pos.screen + step > u16::MAX {
                    None
                } else if pos.screen + step <= srng.end {
                    Some(Some(PosCol { screen: (pos.screen + step) as u16, ..pos }))
                } else if pos.data == m {
                    Some(Some(PosCol { screen: srng.end, ..pos }))
                } else if pos.screen > srng.end {
                    None
                } else {
                    let next = PosCol { screen: srng.end, ..pos };
                    match self.fwd_outcome(srng, next, (step - (srng.end - pos.screen)) as u16) {
                        None => None,
                        Some(None) => Some(Some(next)),
                        Some(Some(p)) => Some(Some(p)),
                    }
                }
            },
            Bound::Space(rng, _) => {
                let m = self.max_of(srng);
                if !self.max_ok(srng) {
                    None
                } else if pos.data == m {
                    if pos.screen == srng.end {
                        Some(None)
                    } else if pos.screen + step > u16::MAX {
                        None
                    } else if pos.screen + step <= srng.end {
                        Some(Some(PosCol { screen: (pos.screen + step) as u16, ..pos }))
                    } else {
                        Some(Some(PosCol { screen: srng.end, ..pos }))
                    }
                } else if pos.screen == rng.end {
                    if pos.data + step > usize::MAX {
                        None
                    } else if pos.data + step < m {
                        Some(Some(PosCol { data: (pos.data + step) as usize, ..pos }))
                    } else {
                        let gain = if pos.data < m { narrow(m - pos.data) } else { 0 };
                        if step + gain > u16::MAX {
                            None
                        } else {
                            let next = PosCol { data: m as usize, ..pos };
                            match self.fwd_outcome(srng, next, (step + gain) as u16) {
                                None => None,
                                Some(None) => Some(Some(next)),
                                Some(Some(p)) => Some(Some(p)),
                            }
                        }
                    }
                } else if pos.screen + step > u16::MAX {
                    None
                } else if pos.screen + step <= rng.end {
                    Some(Some(PosCol { screen: (pos.screen + step) as u16, ..pos }))
                } else if pos.screen > rng.end || step + (rng.end - pos.screen) > u16::MAX {
                    None
                } else {
                    let next = PosCol { screen: rng.end, ..pos };
                    match self.fwd_outcome(srng, next, (step + (rng.end - pos.screen)) as u16) {
                        None => None,
                        Some(None) => Some(Some(next)),
                        Some(Some(p)) => Some(Some(p)),
                    }
                }
            },
        }
    }

    /// The part of the data shown: the whole data range, or the window that
    /// starts at the scroll.
    pub open spec fn shown(self, scr: ScreenRange, col: PosCol) -> DataRange {
        match self {
            Bound::Data(range) => DataRange { start: 0, end: (range.end - range.start) as usize },
            Bound::Screen(len) => DataRange { start: col.data, end: min_int(col.data + scr.width(), len as int) as usize },
            Bound::Space(_, len) => DataRange { start: col.data, end: min_int(col.data + scr.width(), len as int) as usize },
        }
    }

    /// `drng` can run without underflow or overflow.
    pub open spec fn shown_ok(self, scr: ScreenRange, col: PosCol) -> bool {
        match self {
            Bound::Data(range) => range.start <= range.end,
            _ => scr.start <= scr.end && col.data + scr.width() <= usize::MAX,
        }
    }

    pub fn new(srng: ScreenRange, spc: u16, len: usize) -> (r: Bound)
        requires
            srng.start <= srng.end,
        ensures
            r == bound_for(srng, spc, len),
    {
        if srng.len() >= len {
            Bound::Data(ScreenRange::from_length(srng.start, len))
        } else {
            if spc == 0 || (spc as usize) * 2 >= srng.len() {
                Bound::Screen(len)
            } else {
                let start = srng.start + spc;
                let end = srng.end - spc - 1;
                Bound::Space(ScreenRange::new(start, end), len)
            }
        }
    }

    /// The bound for data one longer.
    pub fn increment(self) -> (r: Bound)
        requires
            match self {
                Bound::Data(rng) => rng.end < u16::MAX,
                Bound::Space(_, len) => len < usize::MAX,
                Bound::Screen(len) => len < usize::MAX,
            },
        ensures
            r == match self {
                Bound::Data(rng) => if rng.start > rng.end + 1 {
                    Bound::Data(ScreenRange { start: (rng.end + 1) as u16, end: rng.start })
                } else {
                    Bound::Data(ScreenRange { start: rng.start, end: (rng.end + 1) as u16 })
                },
                Bound::Space(rng, len) => Bound::Space(rng, (len + 1) as usize),
                Bound::Screen(len) => Bound::Screen((len + 1) as usize),
            },
    {
        match self {
            Bound::Data(rng) => Bound::Data(ScreenRange::new(rng.start, rng.end + 1)),
            Bound::Space(rng, len) => Bound::Space(rng, len + 1),
            Bound::Screen(len) => Bound::Screen(len + 1),
        }
    }

    /// Keeps the cursor inside the cells that the bound allows.
    pub fn move_into(&self, srng: &ScreenRange, pos: &PosCol) -> (r: PosCol)
        ensures
            r == self.into_result(*srng, *pos),
    {
        let mut pos = *pos;
        let (start, end) = match self {
            Bound::Data(rng) => {
                pos.data = 0;
                (rng.start, rng.end)
            },
            Bound::Space(rng, _) => (rng.start, rng.end),
            Bound::Screen(_) => (srng.start, srng.end),
        };
        if pos.screen < start && !(pos.screen >= end) {
            pos.screen = start;
        } else if !(pos.screen < start) && pos.screen >= end {
            pos.screen = end;
        }
        pos
    }

    pub fn move_backward(&self, srng: &ScreenRange, pos: &PosCol, step: u16) -> (r: Option<PosCol>)
        requires
            self.back_outcome(*srng, *pos, step) is Some,
        ensures
            self.back_outcome(*srng, *pos, step) == Some(r),
        decreases self.back_measure(*srng, *pos),
    {
        let mut step = step;
        let mut pos = *pos;
        match self {
            Bound::Data(rng) => {
                if pos.screen == rng.start {
                    None
                } else if rng.start + step <= pos.screen {
                    pos.screen = pos.screen - step;
                    Some(pos)
                } else {
                    pos.screen = rng.start;
                    Some(pos)
                }
            },
            Bound::Screen(_) => {
                if pos.screen == srng.start && pos.data == 0 {
                    None
                } else if pos.data == 0 {
                    if srng.start + step <= pos.screen {
                        pos.screen = pos.screen - step;
                        Some(pos)
                    } else {
                        pos.screen = srng.start;
                        Some(pos)
                    }
                } else if pos.screen == srng.start {
                    if (step as usize) < pos.data {
                        pos.data = pos.data - step as usize;
                        Some(pos)
                    } else {
                        pos.data = 0;
                        Some(pos)
                    }
                } else if srng.start + step <= pos.screen {
                    pos.screen = pos.screen - step;
                    Some(pos)
                } else {
                    step = step - (pos.screen - srng.start);
                    pos.screen = srng.start;
                    match self.move_backward(srng, &pos, step) {
                        Some(p) => Some(p),
                        None => Some(pos),
                    }
                }
            },
            Bound::Space(rng, _) => {
                if pos.data == 0 {
                    if pos.screen == srng.start {
                        None
                    } else if srng.start + step <= pos.screen {
                        pos.screen = pos.screen - step;
                        Some(pos)
                    } else {
                        pos.screen = srng.start;
                        Some(pos)
                    }
                } else if pos.screen == rng.start {
                    if (step as usize) < pos.data {
                        pos.data = pos.data - step as usize;
                        Some(pos)
                    } else {
                        step = step - narrow_usize(pos.data);
                        pos.data = 0;
                        match self.move_backward(srng, &pos, step) {
                            Some(p) => Some(p),
                            None => Some(pos),
                        }
                    }
                } else if rng.start + step <= pos.screen {
                    pos.screen = pos.screen - step;
                    Some(pos)
                } else {
                    step = step - (pos.screen - rng.start);
                    pos.screen = rng.start;
                    match self.move_backward(srng, &pos, step) {
                        Some(p) => Some(p),
                        None => Some(pos),
                    }
                }
            },
        }
    }

    pub fn move_forward(&self, srng: &ScreenRange, pos: &PosCol, step: u16) -> (r: Option<PosCol>)
        requires
            self.fwd_outcome(*srng, *pos, step) is Some,
        ensures
            self.fwd_outcome(*srng, *pos, step) == Some(r),
        decreases self.fwd_measure(*srng, *pos),
    {
        let mut step = step;
        let mut pos = *pos;
        match self {
            Bound::Data(rng) => {
                if pos.screen == rng.end {
                    None
                } else if pos.screen + step < rng.end {
                    pos.screen = pos.screen + step;
                    Some(pos)
                } else {
                    pos.screen = rng.end;
                    Some(pos)
                }
            },
            Bound::Screen(_) => {
                let m = self.max_data(srng);
                if pos.screen == srng.end && pos.data == m {
                    None
                } else if pos.screen == srng.end {
                    if pos.data + (step as usize) < m {
                        pos.data = pos.data + step as usize;
                        Some(pos)
                    } else {
                        pos.data = m;
                        Some(pos)
                    }
                } else if pos.screen + step <= srng.end {
                    pos.screen = pos.screen + step;
                    Some(pos)
                } else if pos.data == m {
                    pos.screen = srng.end;
                    Some(pos)
                } else {
                    step = step - (srng.end - pos.screen);
                    pos.screen = srng.end;
                    match self.move_forward(srng, &pos, step) {
                        Some(p) => Some(p),
                        None => Some(pos),
                    }
                }
            },
            Bound::Space(rng, _) => {
                let m = self.max_data(srng);
                if pos.data == m {
                    if pos.screen == srng.end {
                        None
                    } else if pos.screen + step <= srng.end {
                        pos.screen = pos.screen + step;
                        Some(pos)
                    } else {
                        pos.screen = srng.end;
                        Some(pos)
                    }
                } else if pos.screen == rng.end {
                    if pos.data + (step as usize) < m {
                        pos.data = pos.data + step as usize;
                        Some(pos)
                    } else {
                        if pos.data < m {
                            step = step + narrow_usize(m - pos.data);
                        }
                        pos.data = m;
                        match self.move_forward(srng, &pos, step) {
                            Some(p) => Some(p),
                            None => Some(pos),
                        }
                    }
                } else if pos.screen + step <= rng.end {
                    pos.screen = pos.screen + step;
                    Some(pos)
                } else {
                    step = step + (rng.end - pos.screen);
                    pos.screen = rng.end;
                    match self.move_forward(srng, &pos, step) {
                        Some(p) => Some(p),
                        None => Some(pos),
                    }
                }
            },
        }
    }

    /// How far the data can scroll on the range `rng`.
    pub fn max_data(&self, rng: &ScreenRange) -> (r: usize)
        requires
            self.max_ok(*rng),
        ensures
            r == self.max_of(*rng),
    {
        match self {
            Bound::Screen(l) => *l - rng.len(),
            Bound::Space(_, l) => *l - rng.len(),
            _ => 0,
        }
    }

    /// Returns the start and end of displayable text.
    pub fn drng(&self, scr: &ScreenRange, col: &PosCol) -> (r: DataRange)
        requires
            self.shown_ok(*scr, *col),
        ensures
            r == self.shown(*scr, *col),
    {
        match self {
            Bound::Data(range) => range.to_data_range(),
            Bound::Screen(len) => {
                let reach = col.data + scr.len();
                DataRange { start: col.data, end: if reach <= *len { reach } else { *len } }
            },
            Bound::Space(_, len) => {
                let reach = col.data + scr.len();
                DataRange { start: col.data, end: if reach <= *len { reach } else { *len } }
            },
        }
    }
}


/// The length in bytes of the UTF-8 encoding of a text.
pub open spec fn byte_len(text: Seq<char>) -> nat {
    encode_utf8(text).len()
}

/// A page of text lines on a screen: one horizontal bound per line and a
/// vertical bound over the lines.
pub struct Page {
    pub scr: Screen,
    pub x: Vec<Bound>,
    pub y: Bound,
}

impl Page {
    /// The horizontal bound of the line that the cursor is on; an empty data
    /// bound past the last line.
    pub open spec fn row_bound(&self, pos: Pos) -> Bound {
        let idx = self.scr.ys().index_of(pos.yc());
        if idx >= self.x@.len() {
            Bound::Data(ScreenRange { start: 0, end: 0 })
        } else {
            self.x@[idx]
        }
    }

    /// The row of the cursor can be found without overflow.
    pub open spec fn row_ok(&self, pos: Pos) -> bool {
        self.scr.yfits() && self.scr.ys().index_of(pos.yc()) <= usize::MAX
    }

    /// The cursor with its horizontal column kept inside its line.
    pub open spec fn into_x_result(&self, pos: Pos) -> Pos {
        self.row_bound(pos).into_result(self.scr.xs(), pos.xc()).with_y(pos.yc())
    }

    /// The cursor with its vertical column kept inside the lines.
    pub open spec fn into_y_result(&self, pos: Pos) -> Pos {
        self.y.into_result(self.scr.ys(), pos.yc()).with_x(pos.xc())
    }

    /// The lines to draw: each shown line with its screen row, its index, and
    /// the part of it that is shown.
    pub open spec fn ranges(&self, pos: Pos) -> Seq<(u16, usize, DataRange)> {
        let rows = self.y.shown(self.scr.ys(), pos.yc());
        Seq::new(
            sat_sub(rows.end as int, rows.start as int) as nat,
            |k: int| ((self.scr.y + k) as u16, (rows.start + k) as usize, self.x@[rows.start + k].shown(self.scr.xs(), pos.xc())),
        )
    }

    /// `get_ranges` can run without overflow or an index out of bounds.
    pub open spec fn ranges_ok(&self, pos: Pos) -> bool {
        let rows = self.y.shown(self.scr.ys(), pos.yc());
        let n = sat_sub(rows.end as int, rows.start as int);
        &&& self.scr.fits()
        &&& self.y.shown_ok(self.scr.ys(), pos.yc())
        &&& (n == 0 || self.scr.y + n - 1 <= u16::MAX)
        &&& forall|i: int| rows.start <= i < rows.end ==> i < self.x@.len()
            && (#[trigger] self.x@[i]).shown_ok(self.scr.xs(), pos.xc())
    }

    pub fn new(scr: &Screen, txt: &Vec<String>, hspc: u16, vspc: u16) -> (r: Page)
        requires
            scr.fits(),
        ensures
            r.scr == *scr,
            r.y == bound_for(scr.ys(), vspc, txt@.len() as usize),
            r.x@.len() == txt@.len(),
            forall|k: int| 0 <= k < txt@.len() ==> r.x@[k] == bound_for(scr.xs(), hspc, byte_len(#[trigger] txt@[k]@) as usize),
    {
        let mut x: Vec<Bound> = Vec::new();
        let xr = scr.x();
        let mut k: usize = 0;
        while k < txt.len()
            invariant
                k <= txt@.len(),
                xr == scr.xs(),
                xr.start <= xr.end,
                x@.len() == k,
                forall|j: int| 0 <= j < k ==> x@[j] == bound_for(scr.xs(), hspc, byte_len(#[trigger] txt@[j]@) as usize),
            decreases txt@.len() - k,
        {
            let len = txt[k].as_str().len();
            x.push(Bound::new(xr, hspc, len));
            k = k + 1;
        }
        Page { x, y: Bound::new(scr.y(), vspc, txt.len()), scr: *scr }
    }

    pub fn move_left(&self, pos: &Pos, step: u16) -> (r: Option<Pos>)
        requires
            self.row_ok(*pos),
            self.scr.xfits(),
            self.row_bound(*pos).back_outcome(self.scr.xs(), pos.xc(), step) is Some,
        ensures
            r == match self.row_bound(*pos).back_outcome(self.scr.xs(), pos.xc(), step).unwrap() {
                Some(c) => Some(c.with_y(pos.yc())),
                None => None,
            },
    {
        match self.x(pos).move_backward(&self.scr.x(), &pos.x(), step) {
            Some(c) => Some(c.join_with_y(pos.y())),
            None => None,
        }
    }

    pub fn move_right(&self, pos: &Pos, step: u16) -> (r: Option<Pos>)
        requires
            self.row_ok(*pos),
            self.scr.xfits(),
            self.row_bound(*pos).fwd_outcome(self.scr.xs(), pos.xc(), step) is Some,
        ensures
            r == match self.row_bound(*pos).fwd_outcome(self.scr.xs(), pos.xc(), step).unwrap() {
                Some(c) => Some(c.with_y(pos.yc())),
                None => None,
            },
    {
        match self.x(pos).move_forward(&self.scr.x(), &pos.x(), step) {
            Some(c) => Some(c.join_with_y(pos.y())),
            None => None,
        }
    }

    pub fn move_up(&self, pos: &Pos, step: u16) -> (r: Option<Pos>)
        requires
            self.scr.fits(),
            self.y.back_outcome(self.scr.ys(), pos.yc(), step) is Some,
            self.y.back_outcome(self.scr.ys(), pos.yc(), step) matches Some(Some(c))
                ==> self.row_ok(c.with_x(pos.xc())),
        ensures
            r == match self.y.back_outcome(self.scr.ys(), pos.yc(), step).unwrap() {
                Some(c) => Some(self.into_x_result(c.with_x(pos.xc()))),
                None => None,
            },
    {
        match self.y.move_backward(&self.scr.y(), &pos.y(), step) {
            Some(c) => {
                let p = c.join_with_x(pos.x());
                Some(self.move_into_x(&p))
            },
            None => None,
        }
    }

    pub fn move_down(&self, pos: &Pos, step: u16) -> (r: Option<Pos>)
        requires
            self.scr.fits(),
            self.y.fwd_outcome(self.scr.ys(), pos.yc(), step) is Some,
            self.y.fwd_outcome(self.scr.ys(), pos.yc(), step) matches Some(Some(c))
                ==> self.row_ok(c.with_x(pos.xc())),
        ensures
            r == match self.y.fwd_outcome(self.scr.ys(), pos.yc(), step).unwrap() {
                Some(c) => Some(self.into_x_result(c.with_x(pos.xc()))),
                None => None,
            },
    {
        match self.y.move_forward(&self.scr.y(), &pos.y(), step) {
            Some(c) => {
                let p = c.join_with_x(pos.x());
                Some(self.move_into_x(&p))
            },
            None => None,
        }
    }

    pub fn move_into_y(&self, pos: &Pos) -> (r: Pos)
        requires
            self.scr.yfits(),
        ensures
            r == self.into_y_result(*pos),
    {
        self.y.move_into(&self.scr.y(), &pos.y()).join_with_x(pos.x())
    }

    pub fn move_into_x(&self, pos: &Pos) -> (r: Pos)
        requires
            self.row_ok(*pos),
            self.scr.xfits(),
        ensures
            r == self.into_x_result(*pos),
    {
        self.x(pos).move_into(&self.scr.x(), &pos.x()).join_with_y(pos.y())
    }

    pub fn get_ranges(&self, pos: &Pos) -> (r: Vec<(u16, usize, DataRange)>)
        requires
            self.ranges_ok(*pos),
        ensures
            r@ == self.ranges(*pos),
    {
        let mut vec: Vec<(u16, usize, DataRange)> = Vec::new();
        let yr = self.scr.y();
        let xr = self.scr.x();
        let xc = pos.x();
        let drng = self.y.drng(&yr, &pos.y());
        let ghost want = self.ranges(*pos);
        if drng.start < drng.end {
            let mut i = drng.start;
            while i < drng.end
                invariant
                    drng == self.y.shown(self.scr.ys(), pos.yc()),
                    drng.start <= i <= drng.end,
                    yr == self.scr.ys(),
                    yr.start == self.scr.y,
                    xr == self.scr.xs(),
                    xc == pos.xc(),
                    self.ranges_ok(*pos),
                    want == self.ranges(*pos),
                    vec@.len() == i - drng.start,
                    forall|k: int| 0 <= k < vec@.len() ==> vec@[k] == want[k],
                decreases drng.end - i,
            {
                assert(self.ranges_ok(*pos));
                let ghost rows = self.y.shown(self.scr.ys(), pos.yc());
                assert(rows == drng);
                assert(rows.start <= i < rows.end);
                let ghost ii = i as int;
                let ghost b = self.x@[ii];
                assert(ii < self.x@.len());
                assert(b.shown_ok(self.scr.xs(), pos.xc()));
                let rng = self.x[i].drng(&xr, &xc);
                let e = i - drng.start;
                let row = yr.start + (e as u16);
                vec.push((row, i, rng));
                i = i + 1;
            }
        }
        assert(vec@ =~= want);
        vec
    }

    /// The horizontal bound of the line that the cursor is on.
    pub fn x(&self, pos: &Pos) -> (r: &Bound)
        requires
            self.row_ok(*pos),
        ensures
            *r == self.row_bound(*pos),
    {
        let idx = self.scr.y().idx(&pos.y());
        let len = self.x.len();
        if idx >= len {
            &Bound::Data(ScreenRange { start: 0, end: 0 })
        } else {
            &self.x[idx]
        }
    }
}


impl Bound {
    /// The largest data index that a cursor can reach.
    pub open spec fn last_index(self, srng: ScreenRange) -> int {
        match self {
            Bound::Data(rng) => rng.end - srng.start,
            Bound::Screen(l) => l as int,
            Bound::Space(_, l) => l as int,
        }
    }
}

/// Data that fits on the range gets a data bound as long as the data;
/// longer data scrolls, with the margin band strictly inside the range.
pub proof fn lemma_bound_for(srng: ScreenRange, spc: u16, len: usize)
    requires
        srng.start <= srng.end,
    ensures
        bound_for(srng, spc, len) matches Bound::Data(rng) ==> len <= srng.width() && rng.start
            == srng.start && rng.end - rng.start == len,
        bound_for(srng, spc, len) matches Bound::Screen(l) ==> l == len && len > srng.width(),
        bound_for(srng, spc, len) matches Bound::Space(rng, l) ==> l == len && len > srng.width()
            && srng.start < rng.start <= rng.end < srng.end,
{
}

/// Moving back by `step` lowers the cursor's data index by `step`, down to
/// zero, and the cursor cannot move exactly when that index is zero.
pub proof fn lemma_backward_index(b: Bound, srng: ScreenRange, pos: PosCol, step: u16)
    requires
        b.back_outcome(srng, pos, step) is Some,
        srng.start <= pos.screen,
        b matches Bound::Data(rng) ==> rng.start == srng.start && pos.data == 0,
        b matches Bound::Space(rng, _) ==> srng.start <= rng.start,
    ensures
        b.back_outcome(srng, pos, step) == Some(None::<PosCol>) <==> srng.index_of(pos) == 0,
        b.back_outcome(srng, pos, step) matches Some(Some(p)) ==> srng.start <= p.screen
            && srng.index_of(p) == sat_sub(srng.index_of(pos), step as int),
    decreases b.back_measure(srng, pos),
{
    match b {
        Bound::Data(_) => {},
        Bound::Screen(_) => {
            if pos.data != 0 && pos.screen != srng.start && srng.start + step <= u16::MAX && srng.start
                + step > pos.screen {
                lemma_backward_index(b, srng, PosCol { screen: srng.start, ..pos }, (step - (pos.screen - srng.start)) as u16);
            }
        },
        Bound::Space(rng, _) => {
            if pos.data == 0 {
            } else if pos.screen == rng.start {
                if step >= pos.data {
                    lemma_backward_index(b, srng, PosCol { data: 0, ..pos }, (step - narrow(pos.data as int)) as u16);
                }
            } else if rng.start + step <= u16::MAX && rng.start + step > pos.screen && pos.screen >= rng.start {
                let next = PosCol { screen: rng.start, ..pos };
                let nstep = (step - (pos.screen - rng.start)) as u16;
                lemma_backward_index(b, srng, next, nstep);
            }
        },
    }
}

/// For data and screen bounds, moving forward by `step` raises the cursor's
/// data index by `step`, up to the last index, and the cursor cannot move
/// exactly when it is at the last index.
pub proof fn lemma_forward_index(b: Bound, srng: ScreenRange, pos: PosCol, step: u16)
    requires
        b.fwd_outcome(srng, pos, step) is Some,
        !(b is Space),
        srng.start <= pos.screen,
        b matches Bound::Data(rng) ==> pos.screen <= rng.end && pos.data == 0,
        b matches Bound::Screen(_) ==> pos.screen <= srng.end && pos.data <= b.max_of(srng),
    ensures
        b.fwd_outcome(srng, pos, step) == Some(None::<PosCol>) <==> srng.index_of(pos) == b.last_index(srng),
        b.fwd_outcome(srng, pos, step) matches Some(Some(p)) ==> srng.start <= p.screen
            && srng.index_of(p) == min_int(srng.index_of(pos) + step, b.last_index(srng)),
    decreases b.fwd_measure(srng, pos),
{
    match b {
        Bound::Screen(_) => {
            let m = b.max_of(srng);
            if pos.screen != srng.end && pos.screen + step <= u16::MAX && pos.screen + step > srng.end
                && pos.data != m {
                lemma_forward_index(b, srng, PosCol { screen: srng.end, ..pos }, (step - (srng.end - pos.screen)) as u16);
            }
        },
        _ => {},
    }
}

/// Moving forward never scrolls back and never moves the cursor back, for a
/// cursor inside its bounds.
pub proof fn lemma_forward_monotone(b: Bound, srng: ScreenRange, pos: PosCol, step: u16)
    requires
        b.fwd_outcome(srng, pos, step) is Some,
        pos.screen <= srng.end,
        b matches Bound::Data(rng) ==> pos.screen <= rng.end,
        b matches Bound::Space(rng, _) ==> rng.end <= srng.end && (pos.data < b.max_of(srng)
            ==> pos.screen <= rng.end),
        pos.data <= b.max_of(srng) || b is Data,
    ensures
        b.fwd_outcome(srng, pos, step) matches Some(Some(p)) ==> p.screen >= pos.screen && p.data
            >= pos.data,
    decreases b.fwd_measure(srng, pos),
{
    match b {
        Bound::Data(_) => {},
        Bound::Screen(_) => {
            let m = b.max_of(srng);
            if pos.screen != srng.end && pos.screen + step <= u16::MAX && pos.screen + step > srng.end
                && pos.data != m {
                lemma_forward_monotone(b, srng, PosCol { screen: srng.end, ..pos }, (step - (srng.end - pos.screen)) as u16);
            }
        },
        Bound::Space(rng, _) => {
            let m = b.max_of(srng);
            if pos.data == m {
            } else if pos.screen == rng.end {
                if pos.data + step <= usize::MAX && pos.data + step >= m {
                    let gain = if pos.data < m { narrow(m - pos.data) } else { 0 };
                    if step + gain <= u16::MAX {
                        lemma_forward_monotone(b, srng, PosCol { data: m as usize, ..pos }, (step + gain) as u16);
                    }
                }
            } else if pos.screen + step <= u16::MAX && pos.screen + step > rng.end && pos.screen <= rng.end
                && step + (rng.end - pos.screen) <= u16::MAX {
                lemma_forward_monotone(b, srng, PosCol { screen: rng.end, ..pos }, (step + (rng.end - pos.screen)) as u16);
            }
        },
    }
}

/// Keeping a cursor inside a bound a second time leaves it where the
/// first time put it.
pub proof fn lemma_into_settled(b: Bound, srng: ScreenRange, pos: PosCol)
    requires
        b.ordered(),
        srng.start <= srng.end,
    ensures
        b.into_result(srng, b.into_result(srng, pos)) == b.into_result(srng, pos),
{
}

/// Keeping the cursor's column inside its line a second time leaves it
/// where the first time put it: the cursor that moving up or down gives
/// is already inside its line.
pub proof fn lemma_into_x_settled(page: Page, pos: Pos)
    requires
        page.scr.xfits(),
        forall|i: int| 0 <= i < page.x@.len() ==> (#[trigger] page.x@[i]).ordered(),
    ensures
        page.into_x_result(page.into_x_result(pos)) == page.into_x_result(pos),
{
    let q = page.into_x_result(pos);
    assert(q.yc() == pos.yc());
    assert(page.row_bound(q) == page.row_bound(pos));
    let idx = page.scr.ys().index_of(pos.yc());
    if 0 <= idx < page.x@.len() {
        assert(page.x@[idx].ordered());
    }
    lemma_into_settled(page.row_bound(pos), page.scr.xs(), pos.xc());
    assert(q.xc() == page.row_bound(pos).into_result(page.scr.xs(), pos.xc()));
}

} // verus!
