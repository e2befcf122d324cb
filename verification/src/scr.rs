//! Screen geometry and cursor movement over a scrolled window of data.
//!
//! A `PosCol` is a cursor along one axis: `screen` is the cell the cursor sits
//! on and `data` is how far the data has been scrolled.  The `inner` range is
//! the band inside which the cursor moves freely; past it the data scrolls.
use vstd::prelude::*;

verus! {

/// `n` where it fits in a `u16`, zero otherwise.
pub open spec fn narrow(n: int) -> int {
    if 0 <= n <= u16::MAX {
        n
    } else {
        0
    }
}

/// The smaller of two integers.
pub open spec fn min_int(a: int, b: int) -> int {
    if a <= b {
        a
    } else {
        b
    }
}

/// `a - b`, or zero where that is negative.
pub open spec fn sat_sub(a: int, b: int) -> int {
    if a >= b {
        a - b
    } else {
        0
    }
}

pub(crate) fn narrow_usize(n: usize) -> (r: u16)
    ensures
        r == narrow(n as int),
{
    if n <= 65535usize {
        n as u16
    } else {
        0
    }
}

/// A half-open span of data indices.
#[derive(Clone, Copy, Debug, PartialEq, Eq, Structural)]
pub struct DataRange {
    pub start: usize,
    pub end: usize,
}

/// A span of screen cells along one axis.
#[derive(Clone, Copy, Debug, PartialEq, Eq, Structural)]
pub struct ScreenRange {
    pub start: u16,
    pub end: u16,
}

/// A cursor along one axis: the screen cell and the scroll of the data.
#[derive(Clone, Copy, Debug, PartialEq, Eq, Structural)]
pub struct PosCol {
    pub screen: u16,
    pub data: usize,
}

/// A cursor on both axes: screen cell `(x, y)` and scroll `(i, j)`.
#[derive(Clone, Copy, Debug, PartialEq, Eq, Structural)]
pub struct Pos {
    pub x: u16,
    pub y: u16,
    pub i: usize,
    pub j: usize,
}

/// A rectangle of screen cells.
#[derive(Clone, Copy, Debug, PartialEq, Eq, Structural)]
pub struct Screen {
    pub x: u16,
    pub y: u16,
    pub w: u16,
    pub h: u16,
}

/// An outer screen and the cropped inner band in which the cursor moves
/// without scrolling.
#[derive(Clone, Copy, Debug, PartialEq, Eq, Structural)]
pub struct DataScreen {
    pub outer: Screen,
    pub inner: Screen,
}

impl ScreenRange {
    /// The number of cells in the range.
    pub open spec fn width(self) -> int {
        self.end - self.start
    }

    /// The data index that a cursor on this range points at.
    pub open spec fn index_of(self, col: PosCol) -> int {
        if col.screen > self.start {
            col.data + (col.screen - self.start)
        } else {
            col.data as int
        }
    }

    /// Builds a range, swapping the bounds when they come in the wrong order.
    pub fn new(start: u16, end: u16) -> (r: ScreenRange)
        ensures
            start > end ==> r == (ScreenRange { start: end, end: start }),
            start <= end ==> r == (ScreenRange { start, end }),
    {
        if start > end {
            ScreenRange { start: end, end: start }
        } else {
            ScreenRange { start, end }
        }
    }

    /// The range that starts at `start` and spans `len` cells; a length that
    /// does not fit in a `u16` counts as zero.
    pub fn from_length(start: u16, len: usize) -> (r: ScreenRange)
        requires
            start + narrow(len as int) <= u16::MAX,
        ensures
            r.start == start,
            r.end == start + narrow(len as int),
    {
        let len = narrow_usize(len);
        ScreenRange { start, end: start + len }
    }

    /// The data range `0..len()`.
    pub fn to_data_range(&self) -> (r: DataRange)
        requires
            self.start <= self.end,
        ensures
            r.start == 0,
            r.end == self.width(),
    {
        DataRange { start: 0, end: self.len() }
    }

    /// Index of the cursor within its range.
    pub fn idx(&self, col: &PosCol) -> (r: usize)
        requires
            self.index_of(*col) <= usize::MAX,
        ensures
            r == self.index_of(*col),
    {
        if col.screen > self.start {
            col.data + ((col.screen - self.start) as usize)
        } else {
            col.data
        }
    }

    /// The number of cells in the range.
    pub fn len(&self) -> (r: usize)
        requires
            self.start <= self.end,
        ensures
            r == self.width(),
    {
        (self.end - self.start) as usize
    }
}

impl Screen {
    /// The horizontal range of the screen.
    pub open spec fn xs(self) -> ScreenRange {
        ScreenRange { start: self.x, end: (self.x + self.w) as u16 }
    }

    /// The vertical range of the screen.
    pub open spec fn ys(self) -> ScreenRange {
        ScreenRange { start: self.y, end: (self.y + self.h) as u16 }
    }

    /// Both ranges of the screen fit in `u16`.
    pub open spec fn fits(self) -> bool {
        self.xfits() && self.yfits()
    }

    /// The horizontal range fits in `u16`.
    pub open spec fn xfits(self) -> bool {
        self.x + self.w <= u16::MAX
    }

    /// The vertical range fits in `u16`.
    pub open spec fn yfits(self) -> bool {
        self.y + self.h <= u16::MAX
    }

    pub open spec fn south(self, step: u16) -> Screen {
        if step < self.h {
            Screen { h: (self.h - step) as u16, ..self }
        } else {
            self
        }
    }

    pub open spec fn east(self, step: u16) -> Screen {
        if step < self.w {
            Screen { w: (self.w - step) as u16, ..self }
        } else {
            self
        }
    }

    pub open spec fn north(self, step: u16) -> Screen {
        if 2 * step < self.h {
            Screen { y: (self.y + step) as u16, h: (self.h - step) as u16, ..self }
        } else {
            self
        }
    }

    pub open spec fn west(self, step: u16) -> Screen {
        if 2 * step < self.w {
            Screen { x: (self.x + step) as u16, w: (self.w - step) as u16, ..self }
        } else {
            self
        }
    }

    /// The screen with `step` rows taken from the top and then the bottom.
    pub open spec fn ycropped(self, step: u16) -> Screen {
        self.north(step).south(step)
    }

    /// The screen with `step` columns taken from the right and then the left.
    pub open spec fn xcropped(self, step: u16) -> Screen {
        self.east(step).west(step)
    }

    /// A screen at the origin of the given size.
    pub fn origin(w: u16, h: u16) -> (r: Screen)
        ensures
            r == (Screen { x: 0, y: 0, w, h }),
    {
        Screen { x: 0, y: 0, w, h }
    }

    pub fn ycrop(&self, step: u16) -> (r: Screen)
        requires
            self.y + self.h <= u16::MAX,
        ensures
            r == self.ycropped(step),
    {
        let screen = *self;
        let north = screen.crop_north(step);
        north.crop_south(step)
    }

    pub fn xcrop(&self, step: u16) -> (r: Screen)
        requires
            self.x + self.w <= u16::MAX,
        ensures
            r == self.xcropped(step),
    {
        let screen = *self;
        let east = screen.crop_east(step);
        east.crop_west(step)
    }

    /// Takes `step` rows from the bottom, where fewer than `h` rows would be taken.
    pub fn crop_south(&self, step: u16) -> (r: Screen)
        ensures
            r == self.south(step),
    {
        let mut screen = *self;
        if step < screen.h {
            screen.h = screen.h - step;
        }
        screen
    }

    /// Takes `step` columns from the right, where fewer than `w` would be taken.
    pub fn crop_east(&self, step: u16) -> (r: Screen)
        ensures
            r == self.east(step),
    {
        let mut screen = *self;
        if step < screen.w {
            screen.w = screen.w - step;
        }
        screen
    }

    /// Takes `step` rows from the top, where twice `step` is less than `h`.
    pub fn crop_north(&self, step: u16) -> (r: Screen)
        requires
            self.y + self.h <= u16::MAX,
        ensures
            r == self.north(step),
    {
        let mut screen = *self;
        if (step as usize) * 2 < screen.y().len() {
            screen.y = screen.y + step;
            screen.h = screen.h - step;
        }
        screen
    }

    /// Takes `step` columns from the left, where twice `step` is less than `w`.
    pub fn crop_west(&self, step: u16) -> (r: Screen)
        requires
            self.x + self.w <= u16::MAX,
        ensures
            r == self.west(step),
    {
        let mut screen = *self;
        if (step as usize) * 2 < screen.x().len() {
            screen.x = screen.x + step;
            screen.w = screen.w - step;
        }
        screen
    }

    /// The horizontal range of the screen.
    pub fn x(&self) -> (r: ScreenRange)
        requires
            self.x + self.w <= u16::MAX,
        ensures
            r == self.xs(),
            r.end == self.x + self.w,
    {
        ScreenRange { start: self.x, end: self.x + self.w }
    }

    /// The vertical range of the screen.
    pub fn y(&self) -> (r: ScreenRange)
        requires
            self.y + self.h <= u16::MAX,
        ensures
            r == self.ys(),
            r.end == self.y + self.h,
    {
        ScreenRange { start: self.y, end: self.y + self.h }
    }
}

impl DataScreen {
    /// The inner band is the outer screen cropped by `x` columns and `y` rows
    /// on each side.
    pub fn new(outer: Screen, x: u16, y: u16) -> (r: DataScreen)
        requires
            outer.fits(),
        ensures
            r.outer == outer,
            r.inner == outer.xcropped(x).ycropped(y),
    {
        let xc = outer.xcrop(x);
        let inner = xc.ycrop(y);
        DataScreen { inner, outer }
    }

    /// A cursor at the top left of the outer screen.
    pub fn new_pos(&self) -> (r: Pos)
        ensures
            r == (Pos { x: self.outer.x, y: self.outer.y, i: 0, j: 0 }),
    {
        Pos::origin(&self.outer)
    }

    /// Both screens fit in `u16`.
    pub open spec fn fits(self) -> bool {
        self.outer.fits() && self.inner.fits()
    }
}

impl PosCol {
    /// This column as the vertical part of a cursor, `x` as the horizontal.
    pub open spec fn with_x(self, x: PosCol) -> Pos {
        Pos { x: x.screen, y: self.screen, i: x.data, j: self.data }
    }

    /// This column as the horizontal part of a cursor, `y` as the vertical.
    pub open spec fn with_y(self, y: PosCol) -> Pos {
        Pos { x: self.screen, y: y.screen, i: self.data, j: y.data }
    }

    pub fn join_with_x(self, x: PosCol) -> (r: Pos)
        ensures
            r == self.with_x(x),
    {
        Pos { x: x.screen, y: self.screen, i: x.data, j: self.data }
    }

    pub fn join_with_y(self, y: PosCol) -> (r: Pos)
        ensures
            r == self.with_y(y),
    {
        Pos { x: self.screen, y: y.screen, i: self.data, j: y.data }
    }
}

impl Pos {
    /// The horizontal column of the cursor.
    pub open spec fn xc(self) -> PosCol {
        PosCol { screen: self.x, data: self.i }
    }

    /// The vertical column of the cursor.
    pub open spec fn yc(self) -> PosCol {
        PosCol { screen: self.y, data: self.j }
    }

    pub fn origin(screen: &Screen) -> (r: Pos)
        ensures
            r == (Pos { x: screen.x, y: screen.y, i: 0, j: 0 }),
    {
        Pos { x: screen.x, y: screen.y, i: 0, j: 0 }
    }

    pub fn x(&self) -> (r: PosCol)
        ensures
            r == self.xc(),
    {
        PosCol { screen: self.x, data: self.i }
    }

    pub fn y(&self) -> (r: PosCol)
        ensures
            r == self.yc(),
    {
        PosCol { screen: self.y, data: self.j }
    }
}


/// Where a cursor along one axis lands when it is kept inside the data:
/// short data pins the scroll at zero and the cursor within the data,
/// long data keeps the cursor within `outer.start ..= inner.end`.
pub open spec fn into_result(inner: ScreenRange, outer: ScreenRange, pos: PosCol, len: usize) -> PosCol {
    let short = len < outer.width();
    let start = outer.start;
    let end: u16 = if short { (outer.start + len) as u16 } else { inner.end };
    let data: usize = if short { 0 } else { pos.data };
    let screen: u16 = if pos.screen < start { start } else if pos.screen >= end { end } else { pos.screen };
    PosCol { screen, data }
}

pub fn move_into(inner: &ScreenRange, outer: &ScreenRange, pos: &PosCol, len: usize) -> (r: PosCol)
    requires
        outer.start <= outer.end,
    ensures
        r == into_result(*inner, *outer, *pos, len),
{
    let mut pos = *pos;
    let (start, end) = if len < outer.len() {
        pos.data = 0;
        (outer.start, outer.start + narrow_usize(len))
    } else {
        (outer.start, inner.end)
    };
    if pos.screen < start {
        pos.screen = start;
    } else if pos.screen >= end {
        pos.screen = end;
    }
    pos
}

/// Measure under which the backward move recurses.
pub open spec fn back_measure(inner: ScreenRange, pos: PosCol) -> int {
    (if pos.data != 0 { 2int } else { 0int }) + (if pos.screen != inner.start { 1int } else { 0int })
}

/// The outcome of moving a cursor back by `step`: `None` where the
/// arithmetic would overflow, `Some(None)` where the cursor cannot move
/// (it sits at the start with nothing scrolled), and `Some(Some(p))` with
/// the new cursor otherwise.  Inside the inner band the cursor moves;
/// at the inner start the data scrolls back; once the data is unscrolled
/// the cursor moves on towards the outer start.
pub open spec fn back_outcome(inner: ScreenRange, outer: ScreenRange, pos: PosCol, step: u16) -> Option<Option<PosCol>>
    decreases back_measure(inner, pos),
{
    if pos.screen == outer.start && pos.data == 0 {
        Some(None)
    } else if pos.screen == outer.start {
        if step < pos.data {
            Some(Some(PosCol { data: (pos.data - step) as usize, ..pos }))
        } else {
            Some(Some(PosCol { data: 0, ..pos }))
        }
    } else if pos.data == 0 {
        if outer.start + step > u16::MAX {
            None
        } else if outer.start + step <= pos.screen {
            Some(Some(PosCol { screen: (pos.screen - step) as u16, ..pos }))
        } else {
            Some(Some(PosCol { screen: outer.start, ..pos }))
        }
    } else if inner.start + step > u16::MAX {
        None
    } else if inner.start + step <= pos.screen {
        Some(Some(PosCol { screen: (pos.screen - step) as u16, ..pos }))
    } else if inner.start == pos.screen {
        if step <= pos.data {
            Some(Some(PosCol { data: (pos.data - step) as usize, ..pos }))
        } else {
            let next = PosCol { data: 0, ..pos };
            match back_outcome(inner, outer, next, (step - narrow(pos.data as int)) as u16) {
                None => None,
                Some(None) => Some(Some(next)),
                Some(Some(p)) => Some(Some(p)),
            }
        }
    } else if pos.screen < inner.start {
        None
    } else {
        let next = PosCol { screen: inner.start, ..pos };
        match back_outcome(inner, outer, next, (step - (pos.screen - inner.start)) as u16) {
            None => None,
            Some(None) => Some(Some(next)),
            Some(Some(p)) => Some(Some(p)),
        }
    }
}

/// Moves the cursor back by `step`; `None` where it cannot move.
pub fn move_backward(inner: &ScreenRange, outer: &ScreenRange, pos: &PosCol, step: u16) -> (r: Option<PosCol>)
    requires
        back_outcome(*inner, *outer, *pos, step) is Some,
    ensures
        back_outcome(*inner, *outer, *pos, step) == Some(r),
    decreases back_measure(*inner, *pos),
{
    let mut step = step;
    let mut pos = *pos;
    if pos.screen == outer.start && pos.data == 0 {
        None
    } else if pos.screen == outer.start {
        if (step as usize) < pos.data {
            pos.data = pos.data - step as usize;
        } else {
            pos.data = 0;
        }
        Some(pos)
    } else if pos.data == 0 {
        if outer.start + step <= pos.screen {
            pos.screen = pos.screen - step;
        } else {
            pos.screen = outer.start;
        }
        Some(pos)
    } else if inner.start + step <= pos.screen {
        pos.screen = pos.screen - step;
        Some(pos)
    } else if inner.start == pos.screen {
        if (step as usize) <= pos.data {
            pos.data = pos.data - step as usize;
            Some(pos)
        } else {
            step = step - narrow_usize(pos.data);
            pos.data = 0;
            match move_backward(inner, outer, &pos, step) {
                Some(p) => Some(p),
                None => Some(pos),
            }
        }
    } else {
        step = step - (pos.screen - inner.start);
        pos.screen = inner.start;
        match move_backward(inner, outer, &pos, step) {
            Some(p) => Some(p),
            None => Some(pos),
        }
    }
}

/// How far the data can scroll: the part of `dlength` that does not fit on
/// the outer range.
pub open spec fn max_scroll(outer: ScreenRange, dlength: usize) -> int {
    sat_sub(dlength as int, outer.width())
}

/// The last screen cell that shows data.
pub open spec fn data_end(outer: ScreenRange, dlength: usize) -> int {
    min_int(outer.start + dlength, outer.end as int)
}

pub open spec fn fwd_measure(inner: ScreenRange, outer: ScreenRange, pos: PosCol, dlength: usize) -> int {
    (if pos.data != max_scroll(outer, dlength) { 2int } else { 0int })
        + (if pos.screen != inner.end { 1int } else { 0int })
}

/// The outcome of moving a cursor forward by `step` over data of length
/// `dlength`: `None` where the arithmetic would overflow, `Some(None)` where
/// the cursor is already at the end of the data with the data fully
/// scrolled, `Some(Some(p))` otherwise.  When the cursor sits on the last
/// data cell the scroll grows by `step` if that reaches the full scroll,
/// and is set to the full scroll otherwise.
pub open spec fn fwd_outcome(inner: ScreenRange, outer: ScreenRange, pos: PosCol, dlength: usize, step: u16) -> Option<Option<PosCol>>
    decreases fwd_measure(inner, outer, pos, dlength),
{
    if outer.start + dlength > usize::MAX || outer.start > outer.end {
        None
    } else {
        let sde = data_end(outer, dlength);
        let maxd = max_scroll(outer, dlength);
        if pos.screen == sde && pos.data == maxd {
            Some(None)
        } else if pos.screen == sde {
            if pos.data + step > usize::MAX {
                None
            } else if pos.data + step >= maxd {
                Some(Some(PosCol { data: (pos.data + step) as usize, ..pos }))
            } else {
                Some(Some(PosCol { data: maxd as usize, ..pos }))
            }
        } else if pos.data == maxd {
            if pos.screen + step > u16::MAX {
                None
            } else if pos.screen + step <= sde {
                Some(Some(PosCol { screen: (pos.screen + step) as u16, ..pos }))
            } else {
                Some(Some(PosCol { screen: sde as u16, ..pos }))
            }
        } else if pos.screen + step > u16::MAX {
            None
        } else if pos.screen + step <= inner.end {
            Some(Some(PosCol { screen: (pos.screen + step) as u16, ..pos }))
        } else if pos.screen == inner.end {
            if pos.data + step > usize::MAX {
                None
            } else if pos.data + step <= maxd {
                Some(Some(PosCol { data: (pos.data + step) as usize, ..pos }))
            } else {
                let next = PosCol { data: maxd as usize, ..pos };
                let nstep = sat_sub(step as int, narrow(sat_sub(maxd, pos.data as int)));
                match fwd_outcome(inner, outer, next, dlength, nstep as u16) {
                    None => None,
                    Some(None) => Some(Some(next)),
                    Some(Some(p)) => Some(Some(p)),
                }
            }
        } else {
            let next = PosCol { screen: inner.end, ..pos };
            let nstep = sat_sub(step as int, sat_sub(inner.end as int, pos.screen as int));
            match fwd_outcome(inner, outer, next, dlength, nstep as u16) {
                None => None,
                Some(None) => Some(Some(next)),
                Some(Some(p)) => Some(Some(p)),
            }
        }
    }
}

/// Moves the cursor forward by `step` over data of length `dlength`;
/// `None` where it cannot move.
pub fn move_forward(inner: &ScreenRange, outer: &ScreenRange, pos: &PosCol, dlength: usize, step: u16) -> (r: Option<PosCol>)
    requires
        fwd_outcome(*inner, *outer, *pos, dlength, step) is Some,
    ensures
        fwd_outcome(*inner, *outer, *pos, dlength, step) == Some(r),
    decreases fwd_measure(*inner, *outer, *pos, dlength),
{
    let mut step = step;
    let mut pos = *pos;
    let reach = outer.start as usize + dlength;
    let screen_len = outer.len();
    let bound = if reach <= outer.end as usize { reach } else { outer.end as usize };
    let screen_data_end = narrow_usize(bound);
    let max_data = dlength.saturating_sub(screen_len);
    if pos.screen == screen_data_end && pos.data == max_data {
        None
    } else if pos.screen == screen_data_end {
        if pos.data + step as usize >= max_data {
            pos.data = pos.data + step as usize;
        } else {
            pos.data = max_data;
        }
        Some(pos)
    } else if pos.data == max_data {
        if pos.screen + step <= screen_data_end {
            pos.screen = pos.screen + step;
        } else {
            pos.screen = screen_data_end;
        }
        Some(pos)
    } else if pos.screen + step <= inner.end {
        pos.screen = pos.screen + step;
        Some(pos)
    } else if pos.screen == inner.end {
        if pos.data + step as usize <= max_data {
            pos.data = pos.data + step as usize;
            Some(pos)
        } else {
            let diff = narrow_usize(max_data.saturating_sub(pos.data));
            step = step.saturating_sub(diff);
            pos.data = max_data;
            match move_forward(inner, outer, &pos, dlength, step) {
                Some(p) => Some(p),
                None => Some(pos),
            }
        }
    } else {
        let diff = inner.end.saturating_sub(pos.screen);
        step = step.saturating_sub(diff);
        pos.screen = inner.end;
        match move_forward(inner, outer, &pos, dlength, step) {
            Some(p) => Some(p),
            None => Some(pos),
        }
    }
}

/// The displayable data of a row of length `len`: all of it where it is
/// shorter than the range, else the window that starts at the scroll.
pub open spec fn visible(rng: ScreenRange, pos: PosCol, len: usize) -> DataRange {
    if len < rng.width() {
        DataRange { start: 0, end: len }
    } else {
        DataRange { start: pos.data, end: min_int(pos.data + rng.width(), len as int) as usize }
    }
}

/// `visible` can be computed without overflow.
pub open spec fn visible_ok(rng: ScreenRange, pos: PosCol, len: usize) -> bool {
    rng.start <= rng.end && (len >= rng.width() ==> pos.data + rng.width() <= usize::MAX)
}

/// Returns the start and end of displayable text.
pub fn data_range(rng: &ScreenRange, pos: &PosCol, len: usize) -> (r: DataRange)
    requires
        visible_ok(*rng, *pos, len),
    ensures
        r == visible(*rng, *pos, len),
{
    if len < rng.len() {
        DataRange { start: 0, end: len }
    } else {
        let reach = pos.data + rng.len();
        DataRange { start: pos.data, end: if reach <= len { reach } else { len } }
    }
}


/// The length of the row that the cursor points at, zero past the last row.
pub open spec fn row_len(dscr: DataScreen, pos: Pos, data: Seq<usize>) -> usize {
    let idx = dscr.outer.ys().index_of(pos.yc());
    if idx >= data.len() {
        0
    } else {
        data[idx]
    }
}

/// The row used to clamp the cursor: the one it points at, or the last row.
pub open spec fn clamp_row(dscr: DataScreen, pos: Pos, data: Seq<usize>) -> int {
    min_int(dscr.outer.ys().index_of(pos.yc()), data.len() - 1)
}

/// `move_into_x` can run on this cursor.
pub open spec fn into_x_ok(dscr: DataScreen, pos: Pos, data: Seq<usize>) -> bool {
    &&& dscr.inner.xfits()
    &&& dscr.outer.fits()
    &&& data.len() > 0
    &&& dscr.outer.ys().index_of(pos.yc()) <= usize::MAX
}

/// The cursor with its horizontal column kept inside its row.
pub open spec fn into_x_result(dscr: DataScreen, pos: Pos, data: Seq<usize>) -> Pos {
    into_result(dscr.inner.xs(), dscr.outer.xs(), pos.xc(), data[clamp_row(dscr, pos, data)]).with_y(pos.yc())
}

/// The cursor with its vertical column kept inside the rows.
pub open spec fn into_y_result(dscr: DataScreen, pos: Pos, data: Seq<usize>) -> Pos {
    into_result(dscr.inner.ys(), dscr.outer.ys(), pos.yc(), data.len() as usize).with_x(pos.xc())
}

pub fn move_left(dscr: &DataScreen, pos: &Pos, step: u16) -> (r: Option<Pos>)
    requires
        dscr.inner.xfits(),
        dscr.outer.xfits(),
        back_outcome(dscr.inner.xs(), dscr.outer.xs(), pos.xc(), step) is Some,
    ensures
        r == match back_outcome(dscr.inner.xs(), dscr.outer.xs(), pos.xc(), step).unwrap() {
            Some(c) => Some(c.with_y(pos.yc())),
            None => None,
        },
{
    let xinner = dscr.inner.x();
    let xouter = dscr.outer.x();
    let xcol = pos.x();
    let ycol = pos.y();
    match move_backward(&xinner, &xouter, &xcol, step) {
        Some(x) => Some(x.join_with_y(ycol)),
        None => None,
    }
}

pub fn move_up(dscr: &DataScreen, pos: &Pos, data: &Vec<usize>, step: u16) -> (r: Option<Pos>)
    requires
        dscr.inner.yfits(),
        dscr.outer.yfits(),
        back_outcome(dscr.inner.ys(), dscr.outer.ys(), pos.yc(), step) is Some,
        back_outcome(dscr.inner.ys(), dscr.outer.ys(), pos.yc(), step) matches Some(Some(c))
            ==> into_x_ok(*dscr, c.with_x(pos.xc()), data@),
    ensures
        r == match back_outcome(dscr.inner.ys(), dscr.outer.ys(), pos.yc(), step).unwrap() {
            Some(c) => Some(into_x_result(*dscr, c.with_x(pos.xc()), data@)),
            None => None,
        },
{
    let yinner = dscr.inner.y();
    let youter = dscr.outer.y();
    let ycol = pos.y();
    let xcol = pos.x();
    match move_backward(&yinner, &youter, &ycol, step) {
        Some(y) => {
            let p = y.join_with_x(xcol);
            Some(move_into_x(dscr, &p, data))
        },
        None => None,
    }
}

pub fn move_right(dscr: &DataScreen, pos: &Pos, data: &Vec<usize>, step: u16) -> (r: Option<Pos>)
    requires
        dscr.inner.xfits(),
        dscr.outer.fits(),
        dscr.outer.ys().index_of(pos.yc()) <= usize::MAX,
        fwd_outcome(dscr.inner.xs(), dscr.outer.xs(), pos.xc(), row_len(*dscr, *pos, data@), step) is Some,
    ensures
        r == match fwd_outcome(dscr.inner.xs(), dscr.outer.xs(), pos.xc(), row_len(*dscr, *pos, data@), step).unwrap() {
            Some(c) => Some(c.with_y(pos.yc())),
            None => None,
        },
{
    let youter = dscr.outer.y();
    let idx = youter.idx(&pos.y());
    let xlen = if idx >= data.len() { 0 } else { data[idx] };
    let xinner = dscr.inner.x();
    let xouter = dscr.outer.x();
    let xcol = pos.x();
    let ycol = pos.y();
    match move_forward(&xinner, &xouter, &xcol, xlen, step) {
        Some(x) => Some(x.join_with_y(ycol)),
        None => None,
    }
}

pub fn move_down(dscr: &DataScreen, pos: &Pos, data: &Vec<usize>, step: u16) -> (r: Option<Pos>)
    requires
        dscr.inner.yfits(),
        dscr.outer.yfits(),
        fwd_outcome(dscr.inner.ys(), dscr.outer.ys(), pos.yc(), data@.len() as usize, step) is Some,
        fwd_outcome(dscr.inner.ys(), dscr.outer.ys(), pos.yc(), data@.len() as usize, step) matches Some(Some(c))
            ==> into_x_ok(*dscr, c.with_x(pos.xc()), data@),
    ensures
        r == match fwd_outcome(dscr.inner.ys(), dscr.outer.ys(), pos.yc(), data@.len() as usize, step).unwrap() {
            Some(c) => Some(into_x_result(*dscr, c.with_x(pos.xc()), data@)),
            None => None,
        },
{
    let ylen = data.len();
    let yinner = dscr.inner.y();
    let youter = dscr.outer.y();
    let ycol = pos.y();
    let xcol = pos.x();
    match move_forward(&yinner, &youter, &ycol, ylen, step) {
        Some(y) => {
            let p = y.join_with_x(xcol);
            Some(move_into_x(dscr, &p, data))
        },
        None => None,
    }
}

/// Keeps the horizontal column inside the row that the cursor points at
/// (or the last row, past the end).
pub fn move_into_x(dscr: &DataScreen, pos: &Pos, data: &Vec<usize>) -> (r: Pos)
    requires
        into_x_ok(*dscr, *pos, data@),
    ensures
        r == into_x_result(*dscr, *pos, data@),
{
    let xinner = dscr.inner.x();
    let xouter = dscr.outer.x();
    let xcol = pos.x();
    let youter = dscr.outer.y();
    let idx1 = youter.idx(&pos.y());
    let last = data.len() - 1;
    let idx = if idx1 <= last { idx1 } else { last };
    let xlen = data[idx];
    move_into(&xinner, &xouter, &xcol, xlen).join_with_y(pos.y())
}

/// Keeps the vertical column inside the rows.
pub fn move_into_y(dscr: &DataScreen, pos: &Pos, data: &Vec<usize>) -> (r: Pos)
    requires
        dscr.inner.yfits(),
        dscr.outer.yfits(),
    ensures
        r == into_y_result(*dscr, *pos, data@),
{
    let yinner = dscr.inner.y();
    let youter = dscr.outer.y();
    let ycol = pos.y();
    let ylen = data.len();
    move_into(&yinner, &youter, &ycol, ylen).join_with_x(pos.x())
}

/// The rows to draw: the visible rows of the data, each with its screen
/// row, its index in `data`, and its visible part.
pub open spec fn row_ranges(dscr: DataScreen, pos: Pos, data: Seq<usize>) -> Seq<(u16, usize, DataRange)> {
    let rows = visible(dscr.outer.ys(), pos.yc(), data.len() as usize);
    Seq::new(
        sat_sub(rows.end as int, rows.start as int) as nat,
        |k: int| ((dscr.outer.y + k) as u16, (rows.start + k) as usize, visible(dscr.outer.xs(), pos.xc(), data[rows.start + k])),
    )
}

/// `get_ranges` can run without overflow.
pub open spec fn ranges_ok(dscr: DataScreen, pos: Pos, data: Seq<usize>) -> bool {
    let rows = visible(dscr.outer.ys(), pos.yc(), data.len() as usize);
    &&& dscr.outer.fits()
    &&& visible_ok(dscr.outer.ys(), pos.yc(), data.len() as usize)
    &&& forall|k: int| rows.start <= k < rows.end ==> visible_ok(dscr.outer.xs(), pos.xc(), #[trigger] data[k])
}

pub fn get_ranges(dscr: &DataScreen, pos: &Pos, data: &Vec<usize>) -> (r: Vec<(u16, usize, DataRange)>)
    requires
        ranges_ok(*dscr, *pos, data@),
    ensures
        r@ == row_ranges(*dscr, *pos, data@),
{
    let mut vec: Vec<(u16, usize, DataRange)> = Vec::new();
    let youter = dscr.outer.y();
    let drng = data_range(&youter, &pos.y(), data.len());
    let xouter = dscr.outer.x();
    let xcol = pos.x();
    let ystart = youter.start;
    let ghost want = row_ranges(*dscr, *pos, data@);
    if drng.start < drng.end {
        let mut i = drng.start;
        while i < drng.end
            invariant
                drng == visible(dscr.outer.ys(), pos.yc(), data@.len() as usize),
                drng.start <= i <= drng.end,
                drng.end <= data@.len(),
                drng.end - drng.start <= youter.end - youter.start,
                youter == dscr.outer.ys(),
                youter.end == dscr.outer.y + dscr.outer.h,
                xouter == dscr.outer.xs(),
                xcol == pos.xc(),
                ystart == dscr.outer.y,
                ranges_ok(*dscr, *pos, data@),
                want == row_ranges(*dscr, *pos, data@),
                vec@.len() == i - drng.start,
                forall|k: int| 0 <= k < vec@.len() ==> vec@[k] == want[k],
            decreases drng.end - i,
        {
            let rng = data_range(&xouter, &xcol, data[i]);
            let e = i - drng.start;
            let scr_idx = ystart + (e as u16);
            vec.push((scr_idx, i, rng));
            i = i + 1;
        }
    }
    assert(vec@ =~= want);
    vec
}


/// A range built with `ScreenRange::new` is ordered and has the two given
/// values as its ends.
pub proof fn lemma_new_ordered(a: u16, b: u16)
    ensures
        ({
            let r = if a > b { ScreenRange { start: b, end: a } } else { ScreenRange { start: a, end: b } };
            r.start <= r.end && ((r.start == a && r.end == b) || (r.start == b && r.end == a))
        }),
{
}

/// Cropping keeps the inner band of a data screen inside the outer screen.
pub proof fn lemma_crop_inside(outer: Screen, x: u16, y: u16)
    requires
        outer.fits(),
    ensures
        ({
            let inner = outer.xcropped(x).ycropped(y);
            &&& outer.x <= inner.x
            &&& inner.x + inner.w <= outer.x + outer.w
            &&& outer.y <= inner.y
            &&& inner.y + inner.h <= outer.y + outer.h
        }),
{
}

/// Keeping a cursor inside the data puts it between the outer start and
/// the end bound, and unscrolls short data.
pub proof fn lemma_into_bounds(inner: ScreenRange, outer: ScreenRange, pos: PosCol, len: usize)
    requires
        outer.start <= outer.end,
        outer.start <= inner.end,
    ensures
        ({
            let r = into_result(inner, outer, pos, len);
            &&& outer.start <= r.screen
            &&& len < outer.width() ==> r.screen <= outer.start + len && r.data == 0
            &&& len >= outer.width() ==> r.screen <= inner.end && r.data == pos.data
        }),
{
}

/// Moving back by `step` lowers the cursor's data index by `step`, down to
/// zero, and the cursor cannot move exactly when that index is zero.
pub proof fn lemma_backward_index(inner: ScreenRange, outer: ScreenRange, pos: PosCol, step: u16)
    requires
        back_outcome(inner, outer, pos, step) is Some,
        outer.start <= inner.start,
        outer.start <= pos.screen,
    ensures
        back_outcome(inner, outer, pos, step) == Some(None::<PosCol>) <==> outer.index_of(pos) == 0,
        back_outcome(inner, outer, pos, step) matches Some(Some(p)) ==> outer.start <= p.screen
            && outer.index_of(p) == sat_sub(outer.index_of(pos), step as int),
    decreases back_measure(inner, pos),
{
    if pos.screen == outer.start || pos.data == 0 || inner.start + step > u16::MAX || inner.start
        + step <= pos.screen {
    } else if inner.start == pos.screen {
        if step > pos.data {
            lemma_backward_index(inner, outer, PosCol { data: 0, ..pos }, (step - narrow(pos.data as int)) as u16);
        }
    } else if pos.screen > inner.start {
        lemma_backward_index(inner, outer, PosCol { screen: inner.start, ..pos }, (step - (pos.screen - inner.start)) as u16);
    }
}

/// Moving forward never scrolls back and never moves the cursor back
/// (beyond the last data cell), for a cursor that stays inside the inner
/// band until the data is fully scrolled.
pub proof fn lemma_forward_monotone(inner: ScreenRange, outer: ScreenRange, pos: PosCol, dlength: usize, step: u16)
    requires
        fwd_outcome(inner, outer, pos, dlength, step) is Some,
        pos.data <= max_scroll(outer, dlength),
        pos.data < max_scroll(outer, dlength) ==> pos.screen <= inner.end,
    ensures
        fwd_outcome(inner, outer, pos, dlength, step) matches Some(Some(p)) ==> p.data >= pos.data
            && p.screen >= min_int(pos.screen as int, data_end(outer, dlength)),
    decreases fwd_measure(inner, outer, pos, dlength),
{
    let sde = data_end(outer, dlength);
    let maxd = max_scroll(outer, dlength);
    if pos.screen == sde || pos.data == maxd || pos.screen + step > u16::MAX || pos.screen + step <= inner.end {
    } else if pos.screen == inner.end {
        if pos.data + step <= usize::MAX && pos.data + step > maxd {
            let nstep = sat_sub(step as int, narrow(sat_sub(maxd, pos.data as int)));
            lemma_forward_monotone(inner, outer, PosCol { data: maxd as usize, ..pos }, dlength, nstep as u16);
        }
    } else {
        let nstep = sat_sub(step as int, sat_sub(inner.end as int, pos.screen as int));
        lemma_forward_monotone(inner, outer, PosCol { screen: inner.end, ..pos }, dlength, nstep as u16);
    }
}

/// Keeping a cursor inside the data a second time leaves it where the
/// first time put it.
pub proof fn lemma_into_settled(inner: ScreenRange, outer: ScreenRange, pos: PosCol, len: usize)
    requires
        outer.start <= outer.end,
        outer.start <= inner.end,
    ensures
        into_result(inner, outer, into_result(inner, outer, pos, len), len) == into_result(inner, outer, pos, len),
{
}

/// Keeping the cursor's column inside its line a second time leaves it
/// where the first time put it: the cursor that moving up or down gives
/// is already inside its line.
pub proof fn lemma_into_x_settled(dscr: DataScreen, pos: Pos, data: Seq<usize>)
    requires
        dscr.outer.xfits(),
        dscr.inner.xfits(),
        dscr.outer.x <= dscr.inner.x + dscr.inner.w,
    ensures
        into_x_result(dscr, into_x_result(dscr, pos, data), data) == into_x_result(dscr, pos, data),
{
    let q = into_x_result(dscr, pos, data);
    assert(q.yc() == pos.yc());
    lemma_into_settled(dscr.inner.xs(), dscr.outer.xs(), pos.xc(), data[clamp_row(dscr, pos, data)]);
    assert(q.xc() == into_result(dscr.inner.xs(), dscr.outer.xs(), pos.xc(), data[clamp_row(dscr, pos, data)]));
}

} // verus!
