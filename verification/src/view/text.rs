//! The text of a page: gemtext lines split into blocks of words, with a
//! cursor that moves over the pieces of every block.
use vstd::prelude::*;
use crate::strings::{
    chars_of, string_of, string_from, find_in, find_char, lemma_find_char, lines_of, lines_vec, first_nl,
    lemma_first_nl, has_prefix, starts_with, push_str, debug_str, str_debug,
};
use crate::status::{Status, StatusView, success_debug, input_debug, temporary_debug, permanent_debug};
use crate::gemini::gemtext::{GemTextLine, GemTextData, TextKind, text_lines, texts_of, text_line, lines_after};
use crate::gemini::{starts1, starts2, starts3};
use crate::view::styles::{LineStyles, Colors, style_of};

verus! {

/// The pieces of `s` split at spaces, at most `n` of them: the last piece
/// keeps the rest of the text (`str::splitn(n, ' ')`).
pub open spec fn split_n(s: Seq<char>, n: nat) -> Seq<Seq<char>>
    decreases n,
{
    if n == 0 {
        seq![]
    } else if n == 1 {
        seq![s]
    } else {
        match find_char(s, ' ') {
            Some(i) => seq![s.take(i)] + split_n(s.skip(i + 1), (n - 1) as nat),
            None => seq![s],
        }
    }
}

/// The texts of some strings.
pub open spec fn views_of(v: Seq<String>) -> Seq<Seq<char>> {
    v.map_values(|s: String| s@)
}

fn push_pieces(v: &Vec<char>, start: usize, m: usize, out: &mut Vec<String>)
    requires
        start <= v@.len(),
        m >= 1,
    ensures
        views_of(final(out)@) == views_of(old(out)@) + split_n(v@.skip(start as int), m as nat),
    decreases m,
{
    let ghost rest = v@.skip(start as int);
    assert(v@.subrange(start as int, v@.len() as int) =~= rest);
    proof {
        lemma_find_char(rest, ' ');
    }
    if m == 1 {
        out.push(string_of(v, start, v.len()));
        assert(views_of(out@) =~= views_of(old(out)@) + split_n(rest, 1));
        return;
    }
    match find_in(v, start, v.len(), ' ') {
        Some(i) => {
            let ghost k = i - start;
            out.push(string_of(v, start, i));
            let ghost mid = out@;
            assert(v@.subrange(start as int, i as int) =~= rest.take(k));
            assert(v@.skip(i + 1) =~= rest.skip(k + 1));
            push_pieces(v, i + 1, m - 1, out);
            assert(views_of(mid) =~= views_of(old(out)@).push(rest.take(k)));
            assert(views_of(out@) =~= views_of(old(out)@) + split_n(rest, m as nat));
        },
        None => {
            out.push(string_of(v, start, v.len()));
            assert(views_of(out@) =~= views_of(old(out)@) + split_n(rest, m as nat));
        },
    }
}

/// `s.splitn(n, ' ')`, each piece as a string.
pub fn split_words(s: &str, n: usize) -> (r: Vec<String>)
    ensures
        views_of(r@) == split_n(s@, n as nat),
{
    let v = chars_of(s);
    let mut out: Vec<String> = Vec::new();
    if n == 0 {
        assert(views_of(out@) =~= split_n(s@, 0));
        return out;
    }
    assert(v@.skip(0) =~= v@);
    push_pieces(&v, 0, n, &mut out);
    assert(views_of(Seq::<String>::empty()) + split_n(s@, n as nat) =~= split_n(s@, n as nat));
    out
}

/// A gemtext line as a block: its kind, its pieces, its colors, how many
/// pieces there are, and the piece under the cursor.
#[derive(Debug)]
pub struct GemTextBlock {
    data: GemTextData,
    text: Vec<String>,
    style: Colors,
    height: usize,
    current: usize,
}

/// A block as values.
pub struct BlockView {
    pub kind: TextKind,
    pub text: Seq<Seq<char>>,
    pub style: Colors,
    pub height: nat,
    pub current: nat,
}

impl View for GemTextBlock {
    type V = BlockView;

    closed spec fn view(&self) -> BlockView {
        BlockView {
            kind: self.data@,
            text: views_of(self.text@),
            style: self.style,
            height: self.height as nat,
            current: self.current as nat,
        }
    }
}

/// The block of a line on a screen `size.0` wide: the line's text split
/// at spaces into at most that many pieces, the cursor on the first.
pub open spec fn block_of(line: (TextKind, Seq<char>), styles: LineStyles, size: (u16, u16)) -> BlockView {
    let pieces = split_n(line.1, size.0 as nat);
    BlockView { kind: line.0, text: pieces, style: style_of(styles, line.0), height: pieces.len(), current: 0 }
}

/// The block with its cursor on piece `c`.
pub open spec fn at_piece(b: BlockView, c: nat) -> BlockView {
    BlockView { current: c, ..b }
}

impl Clone for GemTextBlock {
    fn clone(&self) -> (r: GemTextBlock)
        ensures
            r@ == self@,
    {
        let text = self.text.clone();
        assert(views_of(text@) =~= views_of(self.text@)) by {
            assert forall|i: int| 0 <= i < text@.len() implies text@[i]@ == self.text@[i]@ by {
                assert(vstd::pervasive::cloned(self.text@[i], text@[i]));
            }
        }
        GemTextBlock {
            data: self.data.clone(),
            text,
            style: self.style,
            height: self.height,
            current: self.current,
        }
    }
}

impl GemTextBlock {
    fn new(line: &GemTextLine, styles: &LineStyles, size: (u16, u16)) -> (r: GemTextBlock)
        ensures
            r@ == block_of(line@, *styles, size),
    {
        let style = styles.get_colors(line.data.clone());
        let width = size.0 as usize;
        let lines = split_words(line.text.as_str(), width);
        GemTextBlock { data: line.data.clone(), style, height: lines.len(), text: lines, current: 0 }
    }

    /// The kind of the block and the piece under the cursor.
    pub fn get_text_under_cursor(&self) -> (r: (GemTextData, String))
        requires
            self@.current < self@.text.len(),
        ensures
            r.0@ == self@.kind,
            r.1@ == self@.text[self@.current as int],
    {
        (self.data.clone(), self.text[self.current].clone())
    }

    /// Moves the cursor to the piece before, where there is one.
    pub fn move_cursor_up(&mut self) -> (r: bool)
        ensures
            r == (old(self)@.current > 0),
            final(self)@ == (if r { at_piece(old(self)@, (old(self)@.current - 1) as nat) } else { old(self)@ }),
    {
        if self.current > 0 {
            self.current = self.current - 1;
            true
        } else {
            false
        }
    }

    /// Moves the cursor to the piece after, where there is one.  The block
    /// must have a piece.
    pub fn move_cursor_down(&mut self) -> (r: bool)
        requires
            old(self)@.text.len() >= 1,
        ensures
            r == (old(self)@.current + 1 < old(self)@.text.len()),
            final(self)@ == (if r { at_piece(old(self)@, old(self)@.current + 1) } else { old(self)@ }),
    {
        if self.current < self.text.len() - 1 {
            self.current = self.current + 1;
            true
        } else {
            false
        }
    }
}

/// The page: its blocks, its colors, its size and the block under the
/// cursor.
#[derive(Debug)]
pub struct GemTextView {
    text: Vec<GemTextBlock>,
    styles: LineStyles,
    size: (u16, u16),
    current: usize,
}

/// A page as values.
pub struct PageView {
    pub blocks: Seq<BlockView>,
    pub styles: LineStyles,
    pub size: (u16, u16),
    pub current: nat,
}

/// The views of some blocks.
pub open spec fn block_views(v: Seq<GemTextBlock>) -> Seq<BlockView> {
    v.map_values(|b: GemTextBlock| b@)
}

impl View for GemTextView {
    type V = PageView;

    closed spec fn view(&self) -> PageView {
        PageView { blocks: block_views(self.text@), styles: self.styles, size: self.size, current: self.current as nat }
    }
}

/// The blocks of a document's lines.
pub open spec fn blocks_of(lines: Seq<(TextKind, Seq<char>)>, styles: LineStyles, size: (u16, u16)) -> Seq<BlockView> {
    lines.map_values(|l: (TextKind, Seq<char>)| block_of(l, styles, size))
}

/// The lines of a text can be read as gemtext.
pub open spec fn readable(content: Seq<char>) -> bool {
    text_lines(lines_of(content), false) is Ok
}

/// The page of a text: its gemtext lines as blocks, the cursor on the first.
pub open spec fn page_of(content: Seq<char>, styles: LineStyles, size: (u16, u16)) -> PageView {
    PageView {
        blocks: blocks_of(text_lines(lines_of(content), false)->Ok_0, styles, size),
        styles,
        size,
        current: 0,
    }
}

/// Moving up from block `cur`: the first block at or before it whose cursor
/// is not on its first piece moves its cursor back by one; the page's
/// cursor goes to that block, or to the first block where there is none.
pub open spec fn up_from(bs: Seq<BlockView>, cur: int) -> (Seq<BlockView>, int, bool)
    decreases cur,
{
    if bs[cur].current > 0 {
        (bs.update(cur, at_piece(bs[cur], (bs[cur].current - 1) as nat)), cur, true)
    } else if cur <= 0 {
        (bs, cur, false)
    } else {
        up_from(bs, cur - 1)
    }
}

/// Moving down from block `cur`: the first block at or after it whose
/// cursor is not on its last piece moves its cursor on by one; the page's
/// cursor goes to that block, or to the last block where there is none.
pub open spec fn down_from(bs: Seq<BlockView>, cur: int) -> (Seq<BlockView>, int, bool)
    decreases bs.len() - cur,
{
    if cur < 0 || cur >= bs.len() {
        (bs, cur, false)
    } else if bs[cur].current + 1 < bs[cur].text.len() {
        (bs.update(cur, at_piece(bs[cur], bs[cur].current + 1)), cur, true)
    } else if cur == bs.len() - 1 {
        (bs, cur, false)
    } else {
        down_from(bs, cur + 1)
    }
}

/// Every block that a move down from `cur` looks at has a piece.
pub open spec fn down_ok(bs: Seq<BlockView>, cur: int) -> bool
    decreases bs.len() - cur,
{
    if cur < 0 || cur >= bs.len() {
        false
    } else {
        &&& bs[cur].text.len() >= 1
        &&& (bs[cur].current + 1 < bs[cur].text.len() || cur == bs.len() - 1 || down_ok(bs, cur + 1))
    }
}

impl GemTextView {
    /// The page of a text.  The text must read as gemtext.
    pub fn new(content: String, styles: &LineStyles, size: (u16, u16)) -> (r: GemTextView)
        requires
            readable(content@),
        ensures
            r@ == page_of(content@, *styles, size),
    {
        let owned = lines_vec(content.as_str());
        let mut lines: Vec<&str> = Vec::new();
        let mut k: usize = 0;
        while k < owned.len()
            invariant
                k <= owned@.len(),
                lines@.len() == k,
                forall|j: int| 0 <= j < k ==> (#[trigger] lines@[j])@ == owned@[j]@,
            decreases owned@.len() - k,
        {
            lines.push(owned[k].as_str());
            k = k + 1;
        }
        assert(texts_of(lines@) =~= lines_of(content@));
        let doc = match GemTextLine::parse_doc(lines) {
            Ok(d) => d,
            Err(_) => {
                assert(false);
                Vec::new()
            },
        };
        let ghost parsed = text_lines(lines_of(content@), false)->Ok_0;
        let mut text: Vec<GemTextBlock> = Vec::new();
        let mut i: usize = 0;
        while i < doc.len()
            invariant
                i <= doc@.len(),
                doc@.len() == parsed.len(),
                forall|j: int| 0 <= j < doc@.len() ==> (#[trigger] doc@[j])@ == parsed[j],
                text@.len() == i,
                forall|j: int| 0 <= j < i ==> (#[trigger] text@[j])@ == block_of(parsed[j], *styles, size),
            decreases doc@.len() - i,
        {
            text.push(GemTextBlock::new(&doc[i], styles, size));
            i = i + 1;
        }
        let r = GemTextView { text, styles: *styles, size, current: 0 };
        assert(r@.blocks =~= blocks_of(parsed, *styles, size));
        r
    }

    /// The kind of the block and the piece under the cursor.
    pub fn get_text_under_cursor(&self) -> (r: (GemTextData, String))
        requires
            self@.current < self@.blocks.len(),
            self@.blocks[self@.current as int].current < self@.blocks[self@.current as int].text.len(),
        ensures
            r.0@ == self@.blocks[self@.current as int].kind,
            r.1@ == self@.blocks[self@.current as int].text[self@.blocks[self@.current as int].current as int],
    {
        self.text[self.current].get_text_under_cursor()
    }

    /// Moves the cursor up by one piece, across blocks.
    pub fn move_cursor_up(&mut self) -> (r: bool)
        requires
            old(self)@.current < old(self)@.blocks.len(),
        ensures
            ({
                let m = up_from(old(self)@.blocks, old(self)@.current as int);
                &&& r == m.2
                &&& final(self)@.blocks == m.0
                &&& final(self)@.current == m.1
            }),
            final(self)@.styles == old(self)@.styles,
            final(self)@.size == old(self)@.size,
        decreases old(self)@.current,
    {
        let cur = self.current;
        let ghost before = self.text@;
        if self.text[cur].move_cursor_up() {
            assert(block_views(self.text@) =~= block_views(before).update(cur as int, self.text@[cur as int]@));
            return true;
        } else if cur == 0 {
            assert(block_views(self.text@) =~= block_views(before));
            return false;
        } else {
            assert(block_views(self.text@) =~= block_views(before));
            self.current = cur - 1;
            return self.move_cursor_up();
        }
    }

    /// Moves the cursor down by one piece, across blocks.
    pub fn move_cursor_down(&mut self) -> (r: bool)
        requires
            down_ok(old(self)@.blocks, old(self)@.current as int),
        ensures
            ({
                let m = down_from(old(self)@.blocks, old(self)@.current as int);
                &&& r == m.2
                &&& final(self)@.blocks == m.0
                &&& final(self)@.current == m.1
            }),
            final(self)@.styles == old(self)@.styles,
            final(self)@.size == old(self)@.size,
        decreases old(self)@.blocks.len() - old(self)@.current,
    {
        let cur = self.current;
        let ghost before = self.text@;
        if self.text[cur].move_cursor_down() {
            assert(block_views(self.text@) =~= block_views(before).update(cur as int, self.text@[cur as int]@));
            return true;
        } else if cur == self.text.len() - 1 {
            assert(block_views(self.text@) =~= block_views(before));
            return false;
        } else {
            assert(block_views(self.text@) =~= block_views(before));
            self.current = cur + 1;
            return self.move_cursor_down();
        }
    }
}

/// The text shown for a response: a text document's content; for other
/// statuses a line that names the status.
pub open spec fn response_text(status: StatusView, content: Seq<char>) -> Seq<char> {
    match status {
        StatusView::Success(v, meta) => if has_prefix(meta, "text/"@) {
            content
        } else {
            "nontext media encountered "@ + success_debug(v) + ": "@ + debug_str(meta)
        },
        StatusView::InputExpected(v, meta) => "Input Expected "@ + input_debug(v) + ": "@ + debug_str(meta),
        StatusView::TemporaryFailure(v, meta) => "Temporary Failure "@ + temporary_debug(v) + ": "@ + debug_str(meta),
        StatusView::PermanentFailure(v, meta) => "Permanent Failure "@ + permanent_debug(v) + ": "@ + debug_str(meta),
        StatusView::Redirect(_v, u) => "Redirect to: "@ + u.0 + "?"@,
        StatusView::ClientCertRequired(_v, meta) => "Certificate required: "@ + meta,
    }
}

/// `a`, `b`, `c` and `d` one after the other.
fn joined4(a: &str, b: &str, c: &str, d: &str) -> (r: String)
    ensures
        r@ == a@ + b@ + c@ + d@,
{
    let mut r = string_from(a);
    push_str(&mut r, b);
    push_str(&mut r, c);
    push_str(&mut r, d);
    r
}

/// The text shown for a response.
pub fn response_text_of(status: &Status, content: &str) -> (r: String)
    ensures
        r@ == response_text(status@, content@),
{
    match status {
        Status::Success(v, meta) => {
            if starts_with(meta.as_str(), "text/") {
                string_from(content)
            } else {
                let d = str_debug(meta.as_str());
                joined4("nontext media encountered ", v.debug_text().as_str(), ": ", d.as_str())
            }
        },
        Status::InputExpected(v, meta) => {
            let d = str_debug(meta.as_str());
            joined4("Input Expected ", v.debug_text().as_str(), ": ", d.as_str())
        },
        Status::TemporaryFailure(v, meta) => {
            let d = str_debug(meta.as_str());
            joined4("Temporary Failure ", v.debug_text().as_str(), ": ", d.as_str())
        },
        Status::PermanentFailure(v, meta) => {
            let d = str_debug(meta.as_str());
            joined4("Permanent Failure ", v.debug_text().as_str(), ": ", d.as_str())
        },
        Status::Redirect(_v, url) => {
            let r = joined4("Redirect to: ", url.as_str(), "?", "");
            proof {
                reveal_strlit("");
                assert(r@ =~= response_text(status@, content@));
            }
            r
        },
        Status::ClientCertRequired(_v, meta) => {
            let r = joined4("Certificate required: ", meta.as_str(), "", "");
            proof {
                reveal_strlit("");
                assert(r@ =~= response_text(status@, content@));
            }
            r
        },
    }
}

/// Whether the lines of a text read as gemtext.
pub fn readable_text(s: &str) -> (r: bool)
    ensures
        r == readable(s@),
{
    let owned = lines_vec(s);
    let mut lines: Vec<&str> = Vec::new();
    let mut k: usize = 0;
    while k < owned.len()
        invariant
            k <= owned@.len(),
            lines@.len() == k,
            forall|j: int| 0 <= j < k ==> (#[trigger] lines@[j])@ == owned@[j]@,
        decreases owned@.len() - k,
    {
        lines.push(owned[k].as_str());
        k = k + 1;
    }
    assert(texts_of(lines@) =~= lines_of(s@));
    GemTextLine::parse_doc(lines).is_ok()
}

/// A line without line feeds that starts with none of the gemtext symbols
/// is one line of plain text.
pub proof fn lemma_plain_line(s: Seq<char>)
    requires
        s.len() > 0,
        forall|i: int| 0 <= i < s.len() ==> s[i] != '\n',
        s[0] != '`' && s[0] != '#' && s[0] != '=' && s[0] != '>' && s[0] != '*',
    ensures
        text_lines(lines_of(s), false) == Ok::<Seq<(TextKind, Seq<char>)>, Seq<char>>(seq![(TextKind::Text, s)]),
        readable(s),
{
    lemma_first_nl(s, s.len() as int);
    assert(lines_of(s) == seq![s]);
    assert(text_line(s) == Ok::<(TextKind, Seq<char>), Seq<char>>((TextKind::Text, s)));
    let rest = seq![s].drop_first();
    assert(rest =~= Seq::<Seq<char>>::empty());
    assert(text_lines(rest, false) == Ok::<Seq<(TextKind, Seq<char>)>, Seq<char>>(seq![]));
    assert(seq![(TextKind::Text, s)] + Seq::<(TextKind, Seq<char>)>::empty() =~= seq![(TextKind::Text, s)]);
}

impl GemTextView {
    /// The page for a response, with the same colors and size.  The text
    /// shown must read as gemtext.
    pub fn update_from_response(self, status: Status, content: String) -> (r: GemTextView)
        requires
            readable(response_text(status@, content@)),
        ensures
            r@ == page_of(response_text(status@, content@), self@.styles, self@.size),
    {
        let text = response_text_of(&status, content.as_str());
        GemTextView::new(text, &self.styles, self.size)
    }
}

/// Pieces joined again, with a space between each two.
pub open spec fn join_space(ps: Seq<Seq<char>>) -> Seq<char>
    decreases ps.len(),
{
    if ps.len() == 0 {
        seq![]
    } else if ps.len() == 1 {
        ps[0]
    } else {
        ps[0] + seq![' '] + join_space(ps.drop_first())
    }
}

/// Splitting into at least one piece loses nothing: the pieces joined with
/// spaces give the text back, and there are between one and `n` of them.
pub proof fn lemma_split_join(s: Seq<char>, n: nat)
    requires
        n >= 1,
    ensures
        join_space(split_n(s, n)) == s,
        1 <= split_n(s, n).len() <= n,
    decreases n,
{
    lemma_find_char(s, ' ');
    if n > 1 {
        match find_char(s, ' ') {
            Some(i) => {
                let rest = split_n(s.skip(i + 1), (n - 1) as nat);
                lemma_split_join(s.skip(i + 1), (n - 1) as nat);
                let ps = seq![s.take(i)] + rest;
                assert(ps.drop_first() =~= rest);
                assert(ps[0] == s.take(i));
                assert(s.take(i) + seq![' '] + s.skip(i + 1) =~= s);
            },
            None => {},
        }
    }
}

/// The cursor of every block is on one of its pieces.
pub open spec fn pieces_ok(bs: Seq<BlockView>) -> bool {
    forall|k: int| 0 <= k < bs.len() ==> (#[trigger] bs[k]).current < bs[k].text.len()
}

/// Moving up keeps every cursor on a piece and the page's cursor on a
/// block, changes no text, and where it fails leaves the blocks as they
/// were with the page's cursor on the first block.
pub proof fn lemma_up_keeps(bs: Seq<BlockView>, cur: int)
    requires
        0 <= cur < bs.len(),
        pieces_ok(bs),
    ensures
        ({
            let m = up_from(bs, cur);
            &&& m.0.len() == bs.len()
            &&& pieces_ok(m.0)
            &&& 0 <= m.1 <= cur
            &&& forall|k: int| 0 <= k < bs.len() ==> (#[trigger] m.0[k]).text == bs[k].text
            &&& (!m.2 ==> m.0 == bs && m.1 == 0)
        }),
    decreases cur,
{
    if bs[cur].current == 0 && cur > 0 {
        lemma_up_keeps(bs, cur - 1);
    }
}

/// Moving down keeps every cursor on a piece and the page's cursor on a
/// block, changes no text, and where it fails leaves the blocks as they
/// were with the page's cursor on the last block.
pub proof fn lemma_down_keeps(bs: Seq<BlockView>, cur: int)
    requires
        0 <= cur < bs.len(),
        pieces_ok(bs),
    ensures
        ({
            let m = down_from(bs, cur);
            &&& m.0.len() == bs.len()
            &&& pieces_ok(m.0)
            &&& cur <= m.1 < bs.len()
            &&& forall|k: int| 0 <= k < bs.len() ==> (#[trigger] m.0[k]).text == bs[k].text
            &&& (!m.2 ==> m.0 == bs && m.1 == bs.len() - 1)
        }),
        down_ok(bs, cur),
    decreases bs.len() - cur,
{
    if !(bs[cur].current + 1 < bs[cur].text.len()) && cur != bs.len() - 1 {
        lemma_down_keeps(bs, cur + 1);
    }
}

/// On a page at least one column wide, every block has a piece and its
/// cursor is on the first.
pub proof fn lemma_page_pieces(content: Seq<char>, styles: LineStyles, size: (u16, u16))
    requires
        size.0 >= 1,
    ensures
        pieces_ok(page_of(content, styles, size).blocks),
{
    let bs = page_of(content, styles, size).blocks;
    assert forall|k: int| 0 <= k < bs.len() implies (#[trigger] bs[k]).current < bs[k].text.len() by {
        let lines = text_lines(lines_of(content), false)->Ok_0;
        lemma_split_join(lines[k].1, size.0 as nat);
    }
}

} // verus!
