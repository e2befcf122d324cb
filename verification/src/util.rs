//! Rectangles, ranges, and a scrolling cursor over a list.
use vstd::prelude::*;
use crate::strings::{decimal, push_decimal, push_str, chars_of, trim_bounds, trimmed, find_in, find_char, string_of};
use vstd::utf8::{encode_utf8, encode_scalar, is_ascii_chars};
use vstd::string::StringSliceAdditionalSpecFns;
use vstd::string::StrSliceExecFns;
use crate::scr::{sat_sub, min_int};

verus! {

/// A rectangle specified by a point and some lengths.
#[derive(Clone, Copy, Debug, PartialEq, Eq, Structural)]
pub struct Rect {
    pub x: u16,
    pub y: u16,
    pub w: u16,
    pub h: u16,
}

/// A range `a..b` with `a <= b`.
#[derive(Clone, Copy, Debug)]
pub struct Range {
    a: usize,
    b: usize,
}

impl View for Range {
    type V = (usize, usize);

    closed spec fn view(&self) -> (usize, usize) {
        (self.a, self.b)
    }
}

/// The message of a range whose start is past its end.
pub open spec fn range_error(a: usize, b: usize) -> Seq<char> {
    "invalid range: (a: "@ + decimal(a as nat) + ") > (b: "@ + decimal(b as nat) + ")"@
}

impl Range {
    #[verifier::type_invariant]
    spec fn ordered(self) -> bool {
        self.a <= self.b
    }

    /// The range `a..b`; an error where `a > b`.
    pub fn new(a: usize, b: usize) -> (r: Result<Range, String>)
        ensures
            a <= b <==> r is Ok,
            r matches Ok(range) ==> range@ == (a, b),
            r matches Err(e) ==> e@ == range_error(a, b),
    {
        if a > b {
            let mut e = String::new();
            push_str(&mut e, "invalid range: (a: ");
            push_decimal(&mut e, a);
            push_str(&mut e, ") > (b: ");
            push_decimal(&mut e, b);
            push_str(&mut e, ")");
            Err(e)
        } else {
            Ok(Range { a, b })
        }
    }

    pub fn len(&self) -> (r: usize)
        ensures
            r == self@.1 - self@.0,
    {
        proof {
            use_type_invariant(self);
        }
        self.b - self.a
    }

    pub fn start(&self) -> (r: usize)
        ensures
            r == self@.0,
            self@.0 <= self@.1,
    {
        proof {
            use_type_invariant(self);
        }
        self.a
    }

    pub fn end(&self) -> (r: usize)
        ensures
            r == self@.1,
            self@.0 <= self@.1,
    {
        proof {
            use_type_invariant(self);
        }
        self.b
    }

}

impl Rect {
    pub fn origin(w: u16, h: u16) -> (r: Rect)
        ensures
            r == (Rect { x: 0, y: 0, w, h }),
    {
        Rect { x: 0, y: 0, w, h }
    }

    pub fn mid_x(&self) -> (r: u16)
        requires
            self.x + self.w / 2 <= u16::MAX,
        ensures
            r == self.x + self.w / 2,
    {
        self.x + (self.w / 2)
    }

    pub fn mid_y(&self) -> (r: u16)
        requires
            self.y + self.h / 2 <= u16::MAX,
        ensures
            r == self.y + self.h / 2,
    {
        self.y + (self.h / 2)
    }

    /// The middle half of the horizontal span.
    pub fn quarter_x(&self) -> (r: Result<Range, String>)
        requires
            self.x + (self.w - self.w / 4) <= u16::MAX,
        ensures
            r matches Ok(range) && range@ == (
                (self.x + self.w / 4) as usize,
                (self.x + (self.w - self.w / 4)) as usize,
            ),
    {
        let start = self.x + (self.w / 4);
        let end = self.x + (self.w - (self.w / 4));
        Range::new(start as usize, end as usize)
    }

    /// The middle half of the vertical span.
    pub fn quarter_y(&self) -> (r: Result<Range, String>)
        requires
            self.y + (self.h - self.h / 4) <= u16::MAX,
        ensures
            r matches Ok(range) && range@ == (
                (self.y + self.h / 4) as usize,
                (self.y + (self.h - self.h / 4)) as usize,
            ),
    {
        let start = self.y + (self.h / 4);
        let end = self.y + (self.h - (self.h / 4));
        Range::new(start as usize, end as usize)
    }

    /// The horizontal span.
    pub fn horizontal(&self) -> (r: Result<Range, String>)
        requires
            self.x + self.w <= u16::MAX,
        ensures
            r matches Ok(range) && range@ == (self.x as usize, (self.x + self.w) as usize),
    {
        let start = self.x;
        let end = self.x + self.w;
        Range::new(start as usize, end as usize)
    }

    /// The vertical span.
    pub fn verticle(&self) -> (r: Result<Range, String>)
        requires
            self.y + self.h <= u16::MAX,
        ensures
            r matches Ok(range) && range@ == (self.y as usize, (self.y + self.h) as usize),
    {
        let start = self.y;
        let end = self.y + self.h;
        Range::new(start as usize, end as usize)
    }
}


/// What a cursor holds: the extra slot past the data (`tip`), the inner band
/// in which the cursor moves without scrolling, the outer range of screen
/// cells, the margin that made the band, the cursor cell, the scroll, and
/// the largest scroll.
pub struct CursorModel {
    pub tip: usize,
    pub inner: (usize, usize),
    pub outer: (usize, usize),
    pub buf: usize,
    pub cursor: usize,
    pub scroll: usize,
    pub maxscroll: usize,
}

/// A cursor over a list of `len` items shown on a range of screen cells.
#[derive(Clone, Copy, Debug)]
pub struct Cursor {
    tip: usize,
    inner: Range,
    outer: Range,
    buf: usize,
    cursor: usize,
    scroll: usize,
    maxscroll: usize,
}

impl View for Cursor {
    type V = CursorModel;

    closed spec fn view(&self) -> CursorModel {
        CursorModel {
            tip: self.tip,
            inner: self.inner@,
            outer: self.outer@,
            buf: self.buf,
            cursor: self.cursor,
            scroll: self.scroll,
            maxscroll: self.maxscroll,
        }
    }
}

/// The (outer, inner) ranges for `len` items on the range `r` with margin
/// `buf`: short lists get the cells they need, with no band; long lists get
/// all of `r` and the band `buf` cells in from each side (one more at the
/// end), or all of `r` where the margin leaves no band.
pub open spec fn cursor_ranges(len: usize, r: (usize, usize), buf: usize) -> ((usize, usize), (usize, usize)) {
    if len < r.1 - r.0 {
        ((r.0, (r.0 + len) as usize), (r.0, (r.0 + len) as usize))
    } else if r.0 + buf > r.1 - (buf + 1) {
        (r, r)
    } else {
        (r, ((r.0 + buf) as usize, (r.1 - (buf + 1)) as usize))
    }
}

/// `cursor_ranges` can be computed without overflow.
pub open spec fn cursor_ranges_ok(len: usize, r: (usize, usize), buf: usize) -> bool {
    len >= r.1 - r.0 ==> r.0 + buf <= usize::MAX && buf + 1 <= r.1
}

/// The cursor state for `len` items (plus `tip`) at the start of the range.
pub open spec fn cursor_start(len: usize, r: (usize, usize), buf: usize, tip: usize) -> CursorModel {
    let rs = cursor_ranges(len, r, buf);
    CursorModel {
        tip,
        inner: rs.1,
        outer: rs.0,
        buf,
        cursor: rs.0.0,
        scroll: 0,
        maxscroll: (len - (rs.0.1 - rs.0.0)) as usize,
    }
}

/// The data index that the cursor points at.
pub open spec fn cursor_index(m: CursorModel) -> int {
    m.scroll + m.cursor - m.outer.0
}

/// The state after moving back by `step`, and whether anything moved; `None`
/// where the arithmetic would overflow.
pub open spec fn cursor_back(m: CursorModel, step: usize) -> Option<(bool, CursorModel)> {
    if m.scroll == 0 {
        if m.cursor == m.outer.0 {
            Some((false, m))
        } else if m.outer.0 + step > usize::MAX {
            None
        } else if m.outer.0 + step <= m.cursor {
            Some((true, CursorModel { cursor: (m.cursor - step) as usize, ..m }))
        } else {
            Some((true, CursorModel { cursor: m.outer.0, ..m }))
        }
    } else if m.inner.0 + step > usize::MAX {
        None
    } else if m.inner.0 + step <= m.cursor {
        Some((true, CursorModel { cursor: (m.cursor - step) as usize, ..m }))
    } else if m.cursor < m.inner.0 {
        None
    } else {
        let step1 = step - (m.cursor - m.inner.0);
        if step1 <= m.scroll {
            Some((true, CursorModel { cursor: m.inner.0, scroll: (m.scroll - step1) as usize, ..m }))
        } else {
            let step2 = step1 - m.scroll;
            if m.outer.0 + step2 > usize::MAX {
                None
            } else if m.outer.0 + step2 <= m.inner.0 {
                Some((true, CursorModel { cursor: (m.inner.0 - step2) as usize, scroll: 0, ..m }))
            } else {
                Some((true, CursorModel { cursor: m.outer.0, scroll: 0, ..m }))
            }
        }
    }
}

/// The state after moving forward by `step`, and whether anything moved;
/// `None` where the arithmetic would overflow.
pub open spec fn cursor_fwd(m: CursorModel, step: usize) -> Option<(bool, CursorModel)> {
    let last = m.outer.1 - 1;
    if m.scroll == m.maxscroll {
        if m.outer.1 == 0 {
            None
        } else if m.cursor == last {
            Some((false, m))
        } else if m.cursor + step > usize::MAX {
            None
        } else if m.cursor + step <= last {
            Some((true, CursorModel { cursor: (m.cursor + step) as usize, ..m }))
        } else {
            Some((true, CursorModel { cursor: last as usize, ..m }))
        }
    } else if m.cursor + step > usize::MAX {
        None
    } else if m.cursor + step <= m.inner.1 {
        Some((true, CursorModel { cursor: (m.cursor + step) as usize, ..m }))
    } else if m.cursor > m.inner.1 {
        None
    } else {
        let step1 = step - (m.inner.1 - m.cursor);
        if m.scroll + step1 > usize::MAX {
            None
        } else if m.scroll + step1 <= m.maxscroll {
            Some((true, CursorModel { cursor: m.inner.1, scroll: (m.scroll + step1) as usize, ..m }))
        } else if m.scroll > m.maxscroll {
            None
        } else {
            let step2 = step1 - (m.maxscroll - m.scroll);
            if m.inner.1 + step2 > usize::MAX || m.outer.1 == 0 {
                None
            } else if m.inner.1 + step2 <= last {
                Some((true, CursorModel { cursor: (m.inner.1 + step2) as usize, scroll: m.maxscroll, ..m }))
            } else {
                Some((true, CursorModel { cursor: last as usize, scroll: m.maxscroll, ..m }))
            }
        }
    }
}

impl Cursor {
    /// (outer, inner) ranges for `len` items on `r` with margin `buf`.
    fn get_ranges(len: usize, r: &Range, buf: usize) -> (res: (Range, Range))
        requires
            cursor_ranges_ok(len, r@, buf),
        ensures
            (res.0@, res.1@) == cursor_ranges(len, r@, buf),
    {
        let rs = r.start();
        let re = r.end();
        if len < r.len() {
            let range = Range::new(rs, rs + len).unwrap();
            (range, range)
        } else {
            // where the margin is too big, the band is the whole range
            let inner = match Range::new(rs + buf, re - (buf + 1)) {
                Ok(range) => range,
                _ => *r,
            };
            (*r, inner)
        }
    }

    pub fn new(len: usize, r: &Range, buf: u8) -> (c: Cursor)
        requires
            cursor_ranges_ok(len, r@, buf as usize),
        ensures
            c@ == cursor_start(len, r@, buf as usize, 0),
    {
        let buf = buf as usize;
        let tip: usize = 0;
        let len = len + tip;
        let (outer, inner) = Self::get_ranges(len, r, buf);
        let start = outer.start();
        let olen = outer.len();
        Cursor { tip, buf, scroll: 0, maxscroll: len - olen, cursor: start, outer, inner }
    }

    /// A cursor for text: one slot past the end of the text, no margin.
    pub fn text(len: usize, r: &Range) -> (c: Cursor)
        requires
            len < usize::MAX,
            cursor_ranges_ok((len + 1) as usize, r@, 0),
        ensures
            c@ == cursor_start((len + 1) as usize, r@, 0, 1),
    {
        let buf: usize = 0;
        let tip: usize = 1;
        let len = len + tip;
        let (outer, inner) = Self::get_ranges(len, r, buf);
        let start = outer.start();
        let olen = outer.len();
        Cursor { tip, buf, scroll: 0, maxscroll: len - olen, cursor: start, outer, inner }
    }

    /// New ranges for `len` items on `r`; the scroll and the cursor are
    /// kept where they still fit.
    pub fn resize(&mut self, len: usize, r: &Range)
        requires
            len + old(self)@.tip <= usize::MAX,
            cursor_ranges_ok((len + old(self)@.tip) as usize, r@, old(self)@.buf),
        ensures
            ({
                let n = (len + old(self)@.tip) as usize;
                let rs = cursor_ranges(n, r@, old(self)@.buf);
                let maxscroll = n - (rs.0.1 - rs.0.0);
                final(self)@ == CursorModel {
                    outer: rs.0,
                    inner: rs.1,
                    maxscroll: maxscroll as usize,
                    scroll: if old(self)@.scroll <= maxscroll { old(self)@.scroll } else { maxscroll as usize },
                    cursor: if old(self)@.cursor <= rs.1.1 { old(self)@.cursor } else { rs.1.1 },
                    ..old(self)@
                }
            }),
    {
        let len = len + self.tip;
        let (outer, inner) = Self::get_ranges(len, r, self.buf);
        self.outer = outer;
        self.inner = inner;
        self.maxscroll = len - self.outer.len();
        self.scroll = if self.scroll <= self.maxscroll { self.scroll } else { self.maxscroll };
        let ie = self.inner.end();
        self.cursor = if self.cursor <= ie { self.cursor } else { ie };
    }

    /// Moves back by `step`: the cursor first, then the scroll, then the
    /// cursor again; false where nothing moved.
    pub fn backward(&mut self, step: usize) -> (moved: bool)
        requires
            cursor_back(old(self)@, step) is Some,
        ensures
            cursor_back(old(self)@, step) == Some((moved, final(self)@)),
    {
        let mut step = step;
        let os = self.outer.start();
        let is = self.inner.start();
        if self.scroll == 0 {
            if self.cursor == os {
                return false;
            } else if os + step <= self.cursor {
                self.cursor = self.cursor - step;
            } else {
                self.cursor = os;
            }
        } else if is + step <= self.cursor {
            self.cursor = self.cursor - step;
        } else {
            step = step - (self.cursor - is);
            self.cursor = is;
            if step <= self.scroll {
                self.scroll = self.scroll - step;
            } else {
                step = step - self.scroll;
                self.scroll = 0;
                if os + step <= self.cursor {
                    self.cursor = self.cursor - step;
                } else {
                    self.cursor = os;
                }
            }
        }
        true
    }

    /// Moves forward by `step`: the cursor first, then the scroll, then the
    /// cursor again; false where nothing moved.
    pub fn forward(&mut self, step: usize) -> (moved: bool)
        requires
            cursor_fwd(old(self)@, step) is Some,
        ensures
            cursor_fwd(old(self)@, step) == Some((moved, final(self)@)),
    {
        let mut step = step;
        let oe = self.outer.end();
        let ie = self.inner.end();
        if self.scroll == self.maxscroll {
            if self.cursor == oe - 1 {
                return false;
            } else if self.cursor + step <= oe - 1 {
                self.cursor = self.cursor + step;
            } else {
                self.cursor = oe - 1;
            }
        } else if self.cursor + step <= ie {
            self.cursor = self.cursor + step;
        } else {
            step = step - (ie - self.cursor);
            self.cursor = ie;
            if self.scroll + step <= self.maxscroll {
                self.scroll = self.scroll + step;
            } else {
                step = step - (self.maxscroll - self.scroll);
                self.scroll = self.maxscroll;
                if self.cursor + step <= oe - 1 {
                    self.cursor = self.cursor + step;
                } else {
                    self.cursor = oe - 1;
                }
            }
        }
        true
    }

    pub fn is_start(&self) -> (r: bool)
        ensures
            r == (self@.scroll == 0 && self@.cursor == self@.outer.0),
    {
        self.scroll == 0 && self.cursor == self.outer.start()
    }

    pub fn is_end(&self) -> (r: bool)
        ensures
            r == (self@.scroll == self@.maxscroll && self@.cursor == self@.outer.1),
    {
        self.scroll == self.maxscroll && self.cursor == self.outer.end()
    }

    pub fn get_scroll(&self) -> (r: usize)
        ensures
            r == self@.scroll,
    {
        self.scroll
    }

    /// Index of the cursor within its range.
    pub fn get_index(&self) -> (r: usize)
        requires
            self@.scroll + self@.cursor <= usize::MAX,
            self@.scroll + self@.cursor >= self@.outer.0,
        ensures
            r == cursor_index(self@),
    {
        self.scroll + self.cursor - self.outer.start()
    }

    pub fn get_cursor(&self) -> (r: u16)
        requires
            self@.cursor <= u16::MAX,
        ensures
            r == self@.cursor,
    {
        self.cursor as u16
    }

    pub fn get_screen_start(&self) -> (r: u16)
        requires
            self@.outer.0 <= u16::MAX,
        ensures
            r == self@.outer.0,
    {
        self.outer.start() as u16
    }

    /// Returns the start and end of displayable text.
    pub fn get_display_range(&self) -> (r: (usize, usize))
        requires
            self@.scroll + (self@.outer.1 - self@.outer.0) <= usize::MAX,
            self@.scroll + (self@.outer.1 - self@.outer.0) >= self@.tip,
        ensures
            r == (self@.scroll, (self@.scroll + (self@.outer.1 - self@.outer.0) - self@.tip) as usize),
    {
        (self.scroll, self.scroll + self.outer.len() - self.tip)
    }
}


/// A cursor state whose band lies in its outer range, whose cursor lies in
/// the outer range, and whose scroll is at most the largest scroll.
pub open spec fn cursor_valid(m: CursorModel) -> bool {
    &&& m.outer.0 <= m.inner.0 <= m.inner.1 <= m.outer.1
    &&& m.outer.0 <= m.cursor <= m.outer.1
    &&& m.scroll <= m.maxscroll
}

/// The largest data index that the cursor can point at.
pub open spec fn cursor_last(m: CursorModel) -> int {
    m.maxscroll + (m.outer.1 - 1) - m.outer.0
}

/// A new cursor is valid.
pub proof fn lemma_cursor_start_valid(len: usize, r: (usize, usize), buf: usize, tip: usize)
    requires
        r.0 <= r.1,
        cursor_ranges_ok(len, r, buf),
    ensures
        cursor_valid(cursor_start(len, r, buf, tip)),
{
}

/// Moving back keeps a cursor valid.
pub proof fn lemma_cursor_back_valid(m: CursorModel, step: usize)
    requires
        cursor_valid(m),
    ensures
        cursor_back(m, step) matches Some((_, n)) ==> cursor_valid(n),
{
}

/// Moving forward keeps a cursor over a non-empty range valid.
pub proof fn lemma_cursor_fwd_valid(m: CursorModel, step: usize)
    requires
        cursor_valid(m),
        m.outer.0 < m.outer.1,
    ensures
        cursor_fwd(m, step) matches Some((_, n)) ==> cursor_valid(n),
{
}

/// Moving back by `step` lowers the cursor's index by `step`, down to zero,
/// and nothing moves exactly when the index is zero.
pub proof fn lemma_cursor_back_index(m: CursorModel, step: usize)
    requires
        cursor_back(m, step) is Some,
        m.outer.0 <= m.inner.0,
        m.outer.0 <= m.cursor,
    ensures
        cursor_back(m, step) matches Some((moved, n)) ==> (!moved <==> cursor_index(m) == 0)
            && cursor_index(n) == sat_sub(cursor_index(m), step as int) && m.outer.0 <= n.cursor,
{
}

/// Moving forward by `step` raises the cursor's index by `step`, up to the
/// last index, and nothing moves exactly when the index is the last one;
/// for a cursor inside the band until the data is fully scrolled, where the
/// band ends before the outer range does.
pub proof fn lemma_cursor_fwd_index(m: CursorModel, step: usize)
    requires
        cursor_fwd(m, step) is Some,
        m.inner.1 < m.outer.1,
        m.outer.0 <= m.cursor <= m.outer.1 - 1,
        m.scroll <= m.maxscroll,
        m.scroll < m.maxscroll ==> m.cursor <= m.inner.1,
    ensures
        cursor_fwd(m, step) matches Some((moved, n)) ==> (!moved <==> cursor_index(m) == cursor_last(m))
            && cursor_index(n) == min_int(cursor_index(m) + step, cursor_last(m)),
{
}


/// A trimmed text split at its first tab, or else at its first space, with
/// both parts trimmed; the text twice where it has neither.
pub open spec fn split_once(source: Seq<char>) -> (Seq<char>, Seq<char>) {
    let line = trimmed(source);
    match find_char(line, '\t') {
        Some(i) => (trimmed(line.take(i)), trimmed(line.skip(i))),
        None => match find_char(line, ' ') {
            Some(i) => (trimmed(line.take(i)), trimmed(line.skip(i))),
            None => (line, line),
        },
    }
}

pub fn split_whitespace_once(source: &str) -> (r: (&str, &str))
    ensures
        (r.0@, r.1@) == split_once(source@),
{
    let v = chars_of(source);
    let (a, b) = trim_bounds(&v, 0, v.len());
    assert(v@.subrange(0, v@.len() as int) =~= v@);
    let ghost line = v@.subrange(a as int, b as int);
    assert(line == trimmed(source@));
    proof {
        crate::strings::lemma_find_char(line, '\t');
        crate::strings::lemma_find_char(line, ' ');
    }
    let found = match find_in(&v, a, b, '\t') {
        Some(i) => Some(i),
        None => find_in(&v, a, b, ' '),
    };
    assert(match find_char(line, '\t') {
        Some(i) => found == Some((a + i) as usize),
        None => match find_char(line, ' ') {
            Some(i) => found == Some((a + i) as usize),
            None => found is None,
        },
    });
    match found {
        Some(i) => {
            let ghost i0 = i - a;
            assert(split_once(source@) == (trimmed(line.take(i0)), trimmed(line.skip(i0))));
            let (a1, b1) = trim_bounds(&v, a, i);
            let (a2, b2) = trim_bounds(&v, i, b);
            assert(v@.subrange(a as int, i as int) =~= line.take(i - a));
            assert(v@.subrange(i as int, b as int) =~= line.skip(i - a));
            (source.substring_char(a1, b1), source.substring_char(a2, b2))
        },
        None => {
            let t = source.substring_char(a, b);
            (t, t)
        },
    }
}

/// The byte offset of character `k` of `cs` in UTF-8.
pub open spec fn off(cs: Seq<char>, k: int) -> int {
    encode_utf8(cs.take(k)).len() as int
}

proof fn lemma_encode_concat(x: Seq<char>, y: Seq<char>)
    ensures
        encode_utf8(x + y) == encode_utf8(x) + encode_utf8(y),
    decreases x.len(),
{
    if x.len() == 0 {
        assert(x + y =~= y);
        assert(Seq::<u8>::empty() + encode_utf8(y) =~= encode_utf8(y));
    } else {
        lemma_encode_concat(x.drop_first(), y);
        assert((x + y).drop_first() =~= x.drop_first() + y);
        assert(encode_utf8(x + y) =~= encode_scalar(x[0] as u32) + encode_utf8(x.drop_first() + y));
    }
}

proof fn lemma_scalar_len(c: char)
    ensures
        1 <= encode_scalar(c as u32).len() <= 4,
{
}

/// Offsets grow with each character by its length in bytes, one to four.
proof fn lemma_off_step(cs: Seq<char>, k: int)
    requires
        0 <= k < cs.len(),
    ensures
        off(cs, k + 1) == off(cs, k) + encode_scalar(cs[k] as u32).len(),
        off(cs, k) + 1 <= off(cs, k + 1) <= off(cs, k) + 4,
{
    assert(cs.take(k + 1) =~= cs.take(k) + seq![cs[k]]);
    lemma_encode_concat(cs.take(k), seq![cs[k]]);
    let one = seq![cs[k]];
    assert(one[0] == cs[k]);
    assert(one.drop_first() =~= Seq::<char>::empty());
    assert(encode_utf8(Seq::<char>::empty()) =~= Seq::<u8>::empty());
    assert(encode_utf8(one) == encode_scalar(one[0] as u32) + encode_utf8(one.drop_first()));
    assert(encode_utf8(one) =~= encode_scalar(cs[k] as u32));
    lemma_scalar_len(cs[k]);
}

/// Offsets grow strictly.
proof fn lemma_off_mono(cs: Seq<char>, i: int, j: int)
    requires
        0 <= i <= j <= cs.len(),
    ensures
        off(cs, i) + (j - i) <= off(cs, j) <= off(cs, i) + 4 * (j - i),
    decreases j - i,
{
    if i < j {
        lemma_off_mono(cs, i, j - 1);
        lemma_off_step(cs, j - 1);
    }
}

/// The first character at or after byte `x`, searching from `k`.
pub open spec fn ceil_from(cs: Seq<char>, x: int, k: int) -> int
    decreases cs.len() - k,
{
    if k >= cs.len() || off(cs, k) >= x {
        k
    } else {
        ceil_from(cs, x, k + 1)
    }
}

/// The last character at or before byte `x`, searching down from `k`.
pub open spec fn floor_from(cs: Seq<char>, x: int, k: int) -> int
    decreases k,
{
    if k <= 0 || off(cs, k) <= x {
        k
    } else {
        floor_from(cs, x, k - 1)
    }
}

/// The character that `str::ceil_char_boundary(x)` starts at.
pub open spec fn ceil_at(cs: Seq<char>, x: int) -> int {
    ceil_from(cs, x, 0)
}

/// The character that `str::floor_char_boundary(x)` starts at.
pub open spec fn floor_at(cs: Seq<char>, x: int) -> int {
    floor_from(cs, x, cs.len() as int)
}

/// The index of the last space in `t`.
pub open spec fn last_space(t: Seq<char>) -> Option<int>
    decreases t.len(),
{
    if t.len() == 0 {
        None
    } else if t.last() == ' ' {
        Some(t.len() - 1)
    } else {
        last_space(t.drop_last())
    }
}

proof fn lemma_last_space(t: Seq<char>)
    ensures
        last_space(t) matches Some(k) ==> 0 <= k < t.len() && t[k] == ' ',
    decreases t.len(),
{
    if t.len() > 0 && t.last() != ' ' {
        lemma_last_space(t.drop_last());
    }
}

/// One step of wrapping from byte `start`: the widest part that fits in
/// `w` bytes, cut at its last space; the piece kept (trimmed) and the byte
/// where the next step starts.  Where the space is the first character,
/// the piece is what follows it, and the next step starts that many bytes
/// further on.
pub open spec fn wrap_step(cs: Seq<char>, start: int, w: int) -> (Seq<char>, int) {
    let ks = ceil_at(cs, start);
    let ke = floor_at(cs, start + w);
    let t = cs.subrange(ks, ke);
    match last_space(t) {
        Some(k) => if k == 0 {
            (trimmed(t.skip(1)), off(cs, ks) + (off(cs, ke) - off(cs, ks + 1)))
        } else {
            (trimmed(t.take(k)), off(cs, ks + k))
        },
        None => (trimmed(t), off(cs, ke)),
    }
}

/// The lines of a text wrapped from byte `start` to `w` bytes, for at most
/// `fuel` steps; the rest of the text, trimmed, is the last line.
pub open spec fn wrap_from(cs: Seq<char>, start: int, w: int, fuel: nat) -> Seq<Seq<char>>
    decreases fuel,
{
    let len = off(cs, cs.len() as int);
    if start + w < len {
        if fuel == 0 {
            seq![]
        } else {
            let st = wrap_step(cs, start, w);
            seq![st.0] + wrap_from(cs, st.1, w, (fuel - 1) as nat)
        }
    } else if start < len {
        seq![trimmed(cs.skip(floor_at(cs, start)))]
    } else {
        seq![]
    }
}

/// The lines of a text wrapped to `w` bytes.
pub open spec fn wrap_text(cs: Seq<char>, w: int) -> Seq<Seq<char>> {
    wrap_from(cs, 0, w, (off(cs, cs.len() as int) + 1) as nat)
}

fn char_len(c: char) -> (r: usize)
    ensures
        r == encode_scalar(c as u32).len(),
{
    let u = c as u32;
    if u <= 0x7F {
        1
    } else if u <= 0x7FF {
        2
    } else if u <= 0xFFFF {
        3
    } else {
        4
    }
}

/// The byte offset of every character, and of the end.
fn offsets(v: &Vec<char>, total: usize) -> (r: Vec<usize>)
    requires
        off(v@, v@.len() as int) == total,
    ensures
        r@.len() == v@.len() + 1,
        forall|k: int| 0 <= k <= v@.len() ==> r@[k] == off(v@, k),
{
    let mut r: Vec<usize> = Vec::new();
    let mut acc: usize = 0;
    let mut k: usize = 0;
    assert(v@.take(0) =~= Seq::<char>::empty());
    while k < v.len()
        invariant
            off(v@, v@.len() as int) == total,
            k <= v@.len(),
            r@.len() == k,
            acc == off(v@, k as int),
            forall|j: int| 0 <= j < k ==> r@[j] == off(v@, j),
        decreases v@.len() - k,
    {
        r.push(acc);
        proof {
            lemma_off_step(v@, k as int);
            lemma_off_mono(v@, k + 1, v@.len() as int);
        }
        acc = acc + char_len(v[k]);
        k = k + 1;
    }
    r.push(acc);
    r
}

fn ceil_index(v: &Vec<char>, offs: &Vec<usize>, x: usize) -> (r: usize)
    requires
        offs@.len() == v@.len() + 1,
        forall|k: int| 0 <= k <= v@.len() ==> offs@[k] == off(v@, k),
    ensures
        r == ceil_at(v@, x as int),
        r <= v@.len(),
{
    let mut k: usize = 0;
    while k < v.len() && offs[k] < x
        invariant
            offs@.len() == v@.len() + 1,
            forall|j: int| 0 <= j <= v@.len() ==> offs@[j] == off(v@, j),
            k <= v@.len(),
            ceil_from(v@, x as int, 0) == ceil_from(v@, x as int, k as int),
        decreases v@.len() - k,
    {
        k = k + 1;
    }
    k
}

fn floor_index(v: &Vec<char>, offs: &Vec<usize>, x: usize) -> (r: usize)
    requires
        offs@.len() == v@.len() + 1,
        forall|k: int| 0 <= k <= v@.len() ==> offs@[k] == off(v@, k),
    ensures
        r == floor_at(v@, x as int),
        r <= v@.len(),
{
    let mut k: usize = v.len();
    while k > 0 && offs[k] > x
        invariant
            offs@.len() == v@.len() + 1,
            forall|j: int| 0 <= j <= v@.len() ==> offs@[j] == off(v@, j),
            k <= v@.len(),
            floor_from(v@, x as int, v@.len() as int) == floor_from(v@, x as int, k as int),
        decreases k,
    {
        k = k - 1;
    }
    k
}

/// The index in `v` of the last space in `v[from..to]`.
fn last_space_in(v: &Vec<char>, from: usize, to: usize) -> (r: Option<usize>)
    requires
        from <= to <= v@.len(),
    ensures
        match last_space(v@.subrange(from as int, to as int)) {
            Some(k) => r == Some((from + k) as usize),
            None => r is None,
        },
        r matches Some(i) ==> from <= i < to,
{
    proof {
        lemma_last_space(v@.subrange(from as int, to as int));
    }
    let mut i = to;
    while i > from
        invariant
            from <= i <= to <= v@.len(),
            last_space(v@.subrange(from as int, to as int)) == last_space(v@.subrange(from as int, i as int)),
        decreases i,
    {
        let ghost t = v@.subrange(from as int, i as int);
        assert(t.drop_last() =~= v@.subrange(from as int, i - 1));
        if v[i - 1] == ' ' {
            return Some(i - 1);
        }
        i = i - 1;
    }
    None
}

/// The trimmed text of `v[from..to]`.
fn trimmed_of(v: &Vec<char>, from: usize, to: usize) -> (s: String)
    requires
        from <= to <= v@.len(),
    ensures
        s@ == trimmed(v@.subrange(from as int, to as int)),
{
    let (a, b) = trim_bounds(v, from, to);
    string_of(v, a, b)
}

/// The first character at or after byte `x` starts no more than three
/// bytes after it, where `x` is within the text.
proof fn lemma_ceil_near(cs: Seq<char>, x: int, k: int)
    requires
        0 <= k <= cs.len(),
        0 <= x,
        k == 0 || off(cs, k - 1) < x,
    ensures
        k <= ceil_from(cs, x, k) <= cs.len(),
        ceil_from(cs, x, k) < cs.len() ==> off(cs, ceil_from(cs, x, k)) >= x,
        ceil_from(cs, x, k) < cs.len() ==> off(cs, ceil_from(cs, x, k)) <= x + 3,
        ceil_from(cs, x, k) == cs.len() ==> off(cs, cs.len() as int) <= x + 3,
        forall|j: int| k <= j < ceil_from(cs, x, k) ==> off(cs, j) < x,
    decreases cs.len() - k,
{
    if k < cs.len() && off(cs, k) < x {
        lemma_ceil_near(cs, x, k + 1);
    } else if k > 0 {
        lemma_off_step(cs, k - 1);
    }
}

/// The last character at or before byte `x` starts no more than three
/// bytes before it, where `x` is within the text.
proof fn lemma_floor_near(cs: Seq<char>, x: int, k: int)
    requires
        0 <= k <= cs.len(),
        0 <= x,
        k == cs.len() || off(cs, k + 1) > x,
    ensures
        0 <= floor_from(cs, x, k) <= k,
        off(cs, floor_from(cs, x, k)) <= x,
        floor_from(cs, x, k) < cs.len() ==> off(cs, floor_from(cs, x, k)) >= x - 3,
        forall|j: int| floor_from(cs, x, k) < j <= k ==> off(cs, j) > x,
    decreases k,
{
    if k > 0 && off(cs, k) > x {
        lemma_floor_near(cs, x, k - 1);
    } else if k < cs.len() {
        lemma_off_step(cs, k);
    } else {
        assert(cs.take(0) =~= Seq::<char>::empty());
    }
}

/// In ASCII text each character is one byte.
proof fn lemma_ascii_off(cs: Seq<char>, k: int)
    requires
        is_ascii_chars(cs),
        0 <= k <= cs.len(),
    ensures
        off(cs, k) == k,
    decreases k,
{
    if k == 0 {
        assert(cs.take(0) =~= Seq::<char>::empty());
    } else {
        lemma_ascii_off(cs, k - 1);
        lemma_off_step(cs, k - 1);
        assert('\0' <= cs[k - 1] <= '\u{7f}');
        assert((cs[k - 1] as u32) <= 0x7f);
    }
}

/// In ASCII text every byte starts a character.
proof fn lemma_ascii_bounds(cs: Seq<char>, x: int)
    requires
        is_ascii_chars(cs),
        0 <= x <= cs.len(),
    ensures
        ceil_at(cs, x) == x,
        floor_at(cs, x) == x,
{
    assert(cs.take(0) =~= Seq::<char>::empty());
    lemma_ceil_near(cs, x, 0);
    lemma_floor_near(cs, x, cs.len() as int);
    assert forall|k: int| 0 <= k <= cs.len() implies off(cs, k) == k by {
        lemma_ascii_off(cs, k);
    }
    let c = ceil_from(cs, x, 0);
    if c < x {
        assert(off(cs, c) == c);
    } else if c > x {
        assert(off(cs, x) == x);
    }
    let f = floor_from(cs, x, cs.len() as int);
    if f < x {
        assert(off(cs, x) == x);
    } else if f > x {
        assert(off(cs, f) == f);
    }
}

/// Wraps a line to `screenwidth` bytes, breaking at spaces where it can.
/// A width under five can make the steps stall; it is allowed where the
/// line fits, and for ASCII text from a width of two.
pub fn wrap(line: &str, screenwidth: u16) -> (r: Vec<String>)
    requires
        off(line@, line@.len() as int) + screenwidth <= usize::MAX,
        screenwidth >= 5 || off(line@, line@.len() as int) <= screenwidth
            || (is_ascii_chars(line@) && screenwidth >= 2),
    ensures
        r@.map_values(|s: String| s@) == wrap_text(line@, screenwidth as int),
{
    let v = chars_of(line);
    let ghost cs = v@;
    let width = screenwidth as usize;
    assert(line.spec_bytes() == encode_utf8(line@));
    assert(line@.take(line@.len() as int) =~= line@);
    let length = line.len();
    assert(length == off(cs, cs.len() as int));
    let offs = offsets(&v, length);
    let mut wrapped: Vec<String> = Vec::new();
    let mut start: usize = 0;
    let mut end: usize = width;
    let ghost mut fuel: nat = (length + 1) as nat;
    assert(wrapped@.map_values(|s: String| s@) + wrap_from(cs, 0, width as int, fuel) =~= wrap_text(cs, width as int));
    while end < length
        invariant
            cs == v@,
            cs == line@,
            length == off(cs, cs.len() as int),
            length + width <= usize::MAX,
            width >= 5 || length <= width || (is_ascii_chars(cs) && width >= 2),
            offs@.len() == cs.len() + 1,
            forall|k: int| 0 <= k <= cs.len() ==> offs@[k] == off(cs, k),
            start <= length,
            end == start + width,
            fuel + start >= length + 1,
            wrapped@.map_values(|s: String| s@) + wrap_from(cs, start as int, width as int, fuel) == wrap_text(cs, width as int),
        decreases length - start,
    {
        let ks = ceil_index(&v, &offs, start);
        let ke = floor_index(&v, &offs, end);
        proof {
            assert(cs.take(0) =~= Seq::<char>::empty());
            lemma_ceil_near(cs, start as int, 0);
            lemma_floor_near(cs, end as int, cs.len() as int);
            if width < 5 && length > width {
                lemma_ascii_off(cs, cs.len() as int);
                lemma_ascii_bounds(cs, start as int);
                lemma_ascii_bounds(cs, end as int);
                assert forall|k: int| 0 <= k <= cs.len() implies off(cs, k) == k by {
                    lemma_ascii_off(cs, k);
                }
            }
            if ks < cs.len() {
                lemma_off_mono(cs, ks as int, cs.len() as int);
            }
            if ke < ks {
                lemma_off_mono(cs, ke as int, ks as int);
            }
            lemma_off_mono(cs, ks as int, ke as int);
        }
        assert(ks <= ke);
        let ghost t = cs.subrange(ks as int, ke as int);
        let ghost old_pieces = wrapped@.map_values(|s: String| s@);
        let ghost st = wrap_step(cs, start as int, width as int);
        let new_start: usize;
        match last_space_in(&v, ks, ke) {
            Some(i) => {
                proof {
                    lemma_last_space(t);
                }
                assert(last_space(t) == Some((i - ks) as int));
                if i == ks {
                    wrapped.push(trimmed_of(&v, ks + 1, ke));
                    assert(t.skip(1) =~= cs.subrange(ks + 1, ke as int));
                    proof {
                        lemma_off_mono(cs, ks + 1, ke as int);
                        lemma_off_step(cs, ks as int);
                    }
                    new_start = offs[ks] + (offs[ke] - offs[ks + 1]);
                    assert(cs[ks as int] == ' ') by {
                        assert(t[0] == cs[ks as int]);
                    }
                    assert(off(cs, ks + 1) == off(cs, ks as int) + 1);
                    assert(new_start > start);
                    assert(new_start <= length) by {
                        lemma_off_mono(cs, ke as int, cs.len() as int);
                    }
                } else {
                    wrapped.push(trimmed_of(&v, ks, i));
                    assert(t.take(i - ks) =~= cs.subrange(ks as int, i as int));
                    proof {
                        lemma_off_mono(cs, ks as int, i as int);
                    }
                    new_start = offs[i];
                    assert(new_start > start);
                    assert(new_start <= length) by {
                        lemma_off_mono(cs, i as int, cs.len() as int);
                    }
                }
            },
            None => {
                assert(last_space(t) is None);
                wrapped.push(trimmed_of(&v, ks, ke));
                new_start = offs[ke];
                assert(new_start > start);
                assert(new_start <= length) by {
                    lemma_off_mono(cs, ke as int, cs.len() as int);
                }
            },
        }
        assert(new_start == st.1);
        assert(wrapped@.map_values(|s: String| s@) =~= old_pieces.push(st.0));
        assert(old_pieces + wrap_from(cs, start as int, width as int, fuel) == old_pieces + (seq![st.0] + wrap_from(cs, st.1, width as int, (fuel - 1) as nat)));
        assert(old_pieces + (seq![st.0] + wrap_from(cs, st.1, width as int, (fuel - 1) as nat)) =~= old_pieces.push(st.0) + wrap_from(cs, st.1, width as int, (fuel - 1) as nat));
        proof {
            fuel = (fuel - 1) as nat;
        }
        start = new_start;
        end = start + width;
    }
    let ghost old_pieces = wrapped@.map_values(|s: String| s@);
    if start < length {
        let k = floor_index(&v, &offs, start);
        wrapped.push(trimmed_of(&v, k, v.len()));
        assert(cs.subrange(k as int, cs.len() as int) =~= cs.skip(k as int));
        assert(wrapped@.map_values(|s: String| s@) =~= old_pieces.push(trimmed(cs.skip(k as int))));
        assert(old_pieces + seq![trimmed(cs.skip(k as int))] =~= old_pieces.push(trimmed(cs.skip(k as int))));
    } else {
        assert(old_pieces + Seq::<Seq<char>>::empty() =~= old_pieces);
    }
    wrapped
}

/// The lines of a list wrapped one by one, each with the index of the line
/// it comes from.
pub open spec fn wrap_all(lines: Seq<Seq<char>>, w: int) -> Seq<(int, Seq<char>)>
    decreases lines.len(),
{
    if lines.len() == 0 {
        seq![]
    } else {
        let n = (lines.len() - 1) as int;
        wrap_all(lines.take(n), w) + wrap_text(lines[n], w).map_values(|s: Seq<char>| (n, s))
    }
}

/// Every line of a list can be wrapped to `w` bytes.
pub open spec fn wrap_list_ok(lines: Seq<String>, w: u16) -> bool {
    forall|k: int| 0 <= k < lines.len() ==> {
        &&& off((#[trigger] lines[k])@, lines[k]@.len() as int) + w <= usize::MAX
        &&& (w >= 5 || off(lines[k]@, lines[k]@.len() as int) <= w || (is_ascii_chars(lines[k]@) && w >= 2))
    }
}

/// Wraps each line of a list to `w` bytes, keeping the index of the line
/// each wrapped line comes from.
pub fn wrap_list(lines: &Vec<String>, w: u16) -> (r: Vec<(usize, String)>)
    requires
        wrap_list_ok(lines@, w),
    ensures
        r@.map_values(|p: (usize, String)| (p.0 as int, p.1@)) == wrap_all(lines@.map_values(|s: String| s@), w as int),
{
    let ghost all = lines@.map_values(|s: String| s@);
    let mut display: Vec<(usize, String)> = Vec::new();
    let mut i: usize = 0;
    assert(all.take(0) =~= Seq::<Seq<char>>::empty());
    assert(display@.map_values(|p: (usize, String)| (p.0 as int, p.1@)) =~= wrap_all(all.take(0), w as int));
    while i < lines.len()
        invariant
            all == lines@.map_values(|s: String| s@),
            wrap_list_ok(lines@, w),
            i <= lines@.len(),
            display@.map_values(|p: (usize, String)| (p.0 as int, p.1@)) == wrap_all(all.take(i as int), w as int),
        decreases lines@.len() - i,
    {
        let v = wrap(lines[i].as_str(), w);
        let ghost before = display@.map_values(|p: (usize, String)| (p.0 as int, p.1@));
        let ghost pieces = wrap_text(all[i as int], w as int);
        let mut j: usize = 0;
        while j < v.len()
            invariant
                v@.map_values(|s: String| s@) == pieces,
                j <= v@.len(),
                display@.map_values(|p: (usize, String)| (p.0 as int, p.1@))
                    == before + pieces.take(j as int).map_values(|s: Seq<char>| (i as int, s)),
            decreases v@.len() - j,
        {
            let ghost old_display = display@;
            let piece = v[j].clone();
            assert(piece@ == pieces[j as int]) by {
                assert(v@.map_values(|s: String| s@)[j as int] == v@[j as int]@);
            }
            display.push((i, piece));
            assert(display@ =~= old_display.push((i, piece)));
            assert(pieces.take(j + 1) =~= pieces.take(j as int).push(pieces[j as int]));
            assert(display@.map_values(|p: (usize, String)| (p.0 as int, p.1@))
                =~= old_display.map_values(|p: (usize, String)| (p.0 as int, p.1@)).push((i as int, piece@)));
            assert(display@.map_values(|p: (usize, String)| (p.0 as int, p.1@))
                =~= before + pieces.take(j + 1).map_values(|s: Seq<char>| (i as int, s)));
            j = j + 1;
        }
        assert(pieces.take(j as int) =~= pieces);
        assert(all.take(i + 1).take(i as int) =~= all.take(i as int));
        assert(all.take(i + 1)[i as int] == all[i as int]);
        i = i + 1;
    }
    assert(all.take(i as int) =~= all);
    display
}

} // verus!
