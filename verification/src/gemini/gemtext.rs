//! Gemtext lines read one by one, with links split into their URL and label.
use vstd::prelude::*;
use crate::strings::{chars_of, string_of, string_from, space, is_space, lead_space, lemma_lead_space};
use crate::weburl::{WebUrl, url_parsed, url_debug};
use crate::strings::{debug_str, str_debug, push_str};
use crate::gemini::{starts1, starts2, starts3};
use vstd::string::StrSliceExecFns;

verus! {

/// Where a link leads.
#[derive(Debug)]
pub enum Scheme {
    Gemini(WebUrl),
    Gopher(WebUrl),
    Http(WebUrl),
    Relative(String),
    Unknown(WebUrl),
}

/// Where a link leads, with each URL as its serialization and scheme.
pub enum SchemeView {
    Gemini((Seq<char>, Seq<char>)),
    Gopher((Seq<char>, Seq<char>)),
    Http((Seq<char>, Seq<char>)),
    Relative(Seq<char>),
    Unknown((Seq<char>, Seq<char>)),
}

impl View for Scheme {
    type V = SchemeView;

    open spec fn view(&self) -> SchemeView {
        match self {
            Scheme::Gemini(u) => SchemeView::Gemini(u@),
            Scheme::Gopher(u) => SchemeView::Gopher(u@),
            Scheme::Http(u) => SchemeView::Http(u@),
            Scheme::Relative(s) => SchemeView::Relative(s@),
            Scheme::Unknown(u) => SchemeView::Unknown(u@),
        }
    }
}

/// The kind of a gemtext line.
#[derive(Debug)]
pub enum GemTextData {
    HeadingOne,
    HeadingTwo,
    HeadingThree,
    Text,
    PreFormat,
    Link(Scheme),
    ListItem,
    Quote,
}

/// The kind of a gemtext line, with a link's target as a `SchemeView`.
pub enum TextKind {
    HeadingOne,
    HeadingTwo,
    HeadingThree,
    Text,
    PreFormat,
    Link(SchemeView),
    ListItem,
    Quote,
}

impl View for GemTextData {
    type V = TextKind;

    open spec fn view(&self) -> TextKind {
        match self {
            GemTextData::HeadingOne => TextKind::HeadingOne,
            GemTextData::HeadingTwo => TextKind::HeadingTwo,
            GemTextData::HeadingThree => TextKind::HeadingThree,
            GemTextData::Text => TextKind::Text,
            GemTextData::PreFormat => TextKind::PreFormat,
            GemTextData::Link(s) => TextKind::Link(s@),
            GemTextData::ListItem => TextKind::ListItem,
            GemTextData::Quote => TextKind::Quote,
        }
    }
}

/// A gemtext line: its kind and its text.
#[derive(Debug)]
pub struct GemTextLine {
    pub data: GemTextData,
    pub text: String,
}

impl View for GemTextLine {
    type V = (TextKind, Seq<char>);

    open spec fn view(&self) -> (TextKind, Seq<char>) {
        (self.data@, self.text@)
    }
}

impl Clone for Scheme {
    fn clone(&self) -> (r: Scheme)
        ensures
            r@ == self@,
    {
        match self {
            Scheme::Gemini(u) => Scheme::Gemini(u.clone()),
            Scheme::Gopher(u) => Scheme::Gopher(u.clone()),
            Scheme::Http(u) => Scheme::Http(u.clone()),
            Scheme::Relative(t) => Scheme::Relative(t.clone()),
            Scheme::Unknown(u) => Scheme::Unknown(u.clone()),
        }
    }
}

impl Clone for GemTextData {
    fn clone(&self) -> (r: GemTextData)
        ensures
            r@ == self@,
    {
        match self {
            GemTextData::HeadingOne => GemTextData::HeadingOne,
            GemTextData::HeadingTwo => GemTextData::HeadingTwo,
            GemTextData::HeadingThree => GemTextData::HeadingThree,
            GemTextData::Text => GemTextData::Text,
            GemTextData::PreFormat => GemTextData::PreFormat,
            GemTextData::Link(s) => GemTextData::Link(s.clone()),
            GemTextData::ListItem => GemTextData::ListItem,
            GemTextData::Quote => GemTextData::Quote,
        }
    }
}

impl Clone for GemTextLine {
    fn clone(&self) -> (r: GemTextLine)
        ensures
            r@ == self@,
    {
        GemTextLine { data: self.data.clone(), text: self.text.clone() }
    }
}

/// The number of characters at the start of `s` that are not white space.
pub open spec fn lead_word(s: Seq<char>) -> nat
    decreases s.len(),
{
    if s.len() > 0 && !is_space(s[0]) {
        1 + lead_word(s.drop_first())
    } else {
        0
    }
}

proof fn lemma_lead_word(s: Seq<char>, k: int)
    requires
        0 <= k <= s.len(),
        forall|i: int| 0 <= i < k ==> !is_space(s[i]),
        k == s.len() || is_space(s[k]),
    ensures
        lead_word(s) == k,
    decreases k,
{
    if k > 0 {
        lemma_lead_word(s.drop_first(), k - 1);
    }
}

/// The fields of a link's text: after any white space, the URL runs up to
/// the next white space; after the white space that follows it, the label
/// is the rest.  A line feed in the label leaves no fields.
pub open spec fn link_fields(s: Seq<char>) -> Option<(Seq<char>, Seq<char>)> {
    let a = lead_space(s) as int;
    let b = a + lead_word(s.skip(a)) as int;
    let c = b + lead_space(s.skip(b)) as int;
    if forall|i: int| c <= i < s.len() ==> s[i] != '\n' {
        Some((s.subrange(a, b), s.skip(c)))
    } else {
        None
    }
}

/// Splits a link's text into its URL and its label.
fn split_link(line: &str) -> (r: Option<(String, String)>)
    ensures
        match link_fields(line@) {
            Some((u, l)) => r matches Some((u2, l2)) && u2@ == u && l2@ == l,
            None => r is None,
        },
{
    let v = chars_of(line);
    let n = v.len();
    let mut a: usize = 0;
    while a < n && space(v[a])
        invariant
            n == v@.len(),
            a <= n,
            forall|i: int| 0 <= i < a ==> is_space(v@[i]),
        decreases n - a,
    {
        a = a + 1;
    }
    proof {
        lemma_lead_space(v@, a as int);
    }
    let mut b: usize = a;
    while b < n && !space(v[b])
        invariant
            n == v@.len(),
            a <= b <= n,
            forall|i: int| a <= i < b ==> !is_space(v@[i]),
        decreases n - b,
    {
        b = b + 1;
    }
    proof {
        let t = v@.skip(a as int);
        assert forall|i: int| 0 <= i < b - a implies !is_space(t[i]) by {
            assert(t[i] == v@[a + i]);
        }
        if b < n {
            assert(t[b - a] == v@[b as int]);
        }
        lemma_lead_word(t, b - a);
    }
    let mut c: usize = b;
    while c < n && space(v[c])
        invariant
            n == v@.len(),
            b <= c <= n,
            forall|i: int| b <= i < c ==> is_space(v@[i]),
        decreases n - c,
    {
        c = c + 1;
    }
    proof {
        let t = v@.skip(b as int);
        assert forall|i: int| 0 <= i < c - b implies is_space(t[i]) by {
            assert(t[i] == v@[b + i]);
        }
        if c < n {
            assert(t[c - b] == v@[c as int]);
        }
        lemma_lead_space(t, c - b);
    }
    let mut i: usize = c;
    while i < n
        invariant
            n == v@.len(),
            c <= i <= n,
            v@ == line@,
            a == lead_space(v@),
            b == a + lead_word(v@.skip(a as int)),
            c == b + lead_space(v@.skip(b as int)),
            forall|j: int| c <= j < i ==> v@[j] != '\n',
        decreases n - i,
    {
        if v[i] == '\n' {
            assert(v@[i as int] == '\n');
            assert(!(forall|j: int| c <= j < n ==> v@[j] != '\n'));
            return None;
        }
        i = i + 1;
    }
    assert(v@.subrange(c as int, n as int) =~= v@.skip(c as int));
    Some((string_of(&v, a, b), string_of(&v, c, n)))
}

/// The target of a parsed URL, by its scheme.
pub open spec fn scheme_view_of(u: (Seq<char>, Seq<char>)) -> SchemeView {
    if u.1 == "gemini"@ {
        SchemeView::Gemini(u)
    } else if u.1 == "gopher"@ {
        SchemeView::Gopher(u)
    } else if u.1 == "http"@ || u.1 == "https"@ {
        SchemeView::Http(u)
    } else {
        SchemeView::Unknown(u)
    }
}

/// A link read from its text: the target and the label (the URL itself
/// where the label is empty).  A relative URL is kept as its text; a URL
/// that fails to parse otherwise is an error.
pub open spec fn link_read(s: Seq<char>) -> Result<(SchemeView, Seq<char>), Seq<char>> {
    match link_fields(s) {
        None => Err("regex: no captures"@),
        Some((url, rest)) => {
            let label = if rest.len() == 0 { url } else { rest };
            match url_parsed(url) {
                Ok(u) => Ok((scheme_view_of(u), label)),
                Err((relative, _m)) => if relative {
                    Ok((SchemeView::Relative(url), label))
                } else {
                    Err("no parse url"@)
                },
            }
        },
    }
}

fn text_is(s: &str, t: &str) -> (r: bool)
    ensures
        r == (s@ == t@),
{
    crate::strings::text_eq(s, t)
}

impl Scheme {
    /// Reads a link's text into its target and its label.
    pub fn from_str(line: &str) -> (r: Result<(Scheme, String), String>)
        ensures
            match link_read(line@) {
                Ok((s, l)) => r matches Ok((s2, l2)) && s2@ == s && l2@ == l,
                Err(e) => r matches Err(e2) && e2@ == e,
            },
    {
        let (url_str, label_str) = match split_link(line) {
            Some(p) => p,
            None => return Err(crate::strings::string_from("regex: no captures")),
        };
        let label = if label_str.as_str().unicode_len() == 0 {
            crate::strings::string_from(url_str.as_str())
        } else {
            label_str
        };
        match WebUrl::parse(url_str.as_str()) {
            Ok(url) => {
                let s = url.scheme();
                let scheme = if text_is(s, "gemini") {
                    Scheme::Gemini(url)
                } else if text_is(s, "gopher") {
                    Scheme::Gopher(url)
                } else if text_is(s, "http") || text_is(s, "https") {
                    Scheme::Http(url)
                } else {
                    Scheme::Unknown(url)
                };
                Ok((scheme, label))
            },
            Err(e) => {
                if e.relative {
                    Ok((Scheme::Relative(url_str), label))
                } else {
                    Err(crate::strings::string_from("no parse url"))
                }
            },
        }
    }
}

/// A formatted line read by its leading symbol: `###`, `=>` (a link),
/// `##`, `>`, `*`, `#`; any other line is text.  A link that cannot be read
/// is an error that quotes the reason.
pub open spec fn text_line(line: Seq<char>) -> Result<(TextKind, Seq<char>), Seq<char>> {
    if starts3(line, '#') {
        Ok((TextKind::HeadingThree, line.skip(3)))
    } else if starts2(line, '=', '>') {
        match link_read(line.skip(2)) {
            Ok((s, label)) => Ok((TextKind::Link(s), label)),
            Err(e) => Err("could not parse link \""@ + e + "\""@),
        }
    } else if starts2(line, '#', '#') {
        Ok((TextKind::HeadingTwo, line.skip(2)))
    } else if starts1(line, '>') {
        Ok((TextKind::Quote, line.skip(1)))
    } else if starts1(line, '*') {
        Ok((TextKind::ListItem, line.skip(1)))
    } else if starts1(line, '#') {
        Ok((TextKind::HeadingOne, line.skip(1)))
    } else {
        Ok((TextKind::Text, line))
    }
}

/// `r` with `done` in front of its lines; an error stays as it is.
pub open spec fn lines_after(
    done: Seq<(TextKind, Seq<char>)>,
    r: Result<Seq<(TextKind, Seq<char>)>, Seq<char>>,
) -> Result<Seq<(TextKind, Seq<char>)>, Seq<char>> {
    match r {
        Ok(x) => Ok(done + x),
        Err(e) => Err(e),
    }
}

/// The lines of a document: backtick toggles switch preformatting and are
/// dropped; preformatted lines are kept as they are; the others are read
/// by `text_line`, and the first that fails makes the error.
pub open spec fn text_lines(lines: Seq<Seq<char>>, pre: bool) -> Result<Seq<(TextKind, Seq<char>)>, Seq<char>>
    decreases lines.len(),
{
    if lines.len() == 0 {
        Ok(seq![])
    } else if starts3(lines[0], '`') {
        text_lines(lines.drop_first(), !pre)
    } else if pre {
        lines_after(seq![(TextKind::PreFormat, lines[0])], text_lines(lines.drop_first(), pre))
    } else {
        match text_line(lines[0]) {
            Ok(x) => lines_after(seq![x], text_lines(lines.drop_first(), pre)),
            Err(e) => Err(e),
        }
    }
}

/// The texts of some lines.
pub open spec fn texts_of(lines: Seq<&str>) -> Seq<Seq<char>> {
    lines.map_values(|l: &str| l@)
}

/// The views of some read lines.
pub open spec fn line_views(v: Seq<GemTextLine>) -> Seq<(TextKind, Seq<char>)> {
    v.map_values(|g: GemTextLine| g@)
}

fn rest_from(v: &Vec<char>, from: usize) -> (s: String)
    requires
        from <= v@.len(),
    ensures
        s@ == v@.skip(from as int),
{
    assert(v@.subrange(from as int, v@.len() as int) =~= v@.skip(from as int));
    string_of(v, from, v.len())
}

impl GemTextLine {
    /// Reads the lines of a document.
    pub fn parse_doc(lines: Vec<&str>) -> (r: Result<Vec<GemTextLine>, String>)
        ensures
            match text_lines(texts_of(lines@), false) {
                Ok(x) => r matches Ok(v) && line_views(v@) == x,
                Err(e) => r matches Err(e2) && e2@ == e,
            },
    {
        let ghost all = texts_of(lines@);
        let mut vec: Vec<GemTextLine> = Vec::new();
        let mut preformat = false;
        let mut k: usize = 0;
        assert(all.skip(0) =~= all);
        assert(lines_after(line_views(vec@), text_lines(all, false)) == text_lines(all, false)) by {
            assert(line_views(vec@) =~= Seq::<(TextKind, Seq<char>)>::empty());
            match text_lines(all, false) {
                Ok(x) => assert(Seq::<(TextKind, Seq<char>)>::empty() + x =~= x),
                Err(_e) => {},
            }
        }
        while k < lines.len()
            invariant
                all == texts_of(lines@),
                k <= lines@.len(),
                text_lines(all, false) == lines_after(line_views(vec@), text_lines(all.skip(k as int), preformat)),
            decreases lines@.len() - k,
        {
            let line = lines[k];
            let ghost rest = all.skip(k as int);
            assert(rest.drop_first() =~= all.skip(k + 1));
            assert(rest[0] == line@);
            let ghost before = line_views(vec@);
            if GemTextLine::is_toggle(line) {
                preformat = !preformat;
            } else if preformat {
                vec.push(GemTextLine { data: GemTextData::PreFormat, text: crate::strings::string_from(line) });
                proof {
                    let item = (TextKind::PreFormat, line@);
                    assert(line_views(vec@) =~= before.push(item));
                    match text_lines(all.skip(k + 1), preformat) {
                        Ok(x) => assert(before + (seq![item] + x) =~= line_views(vec@) + x),
                        Err(_e) => {},
                    }
                }
            } else {
                match GemTextLine::parse_formatted(line) {
                    Ok(g) => {
                        let ghost item = g@;
                        vec.push(g);
                        proof {
                            assert(line_views(vec@) =~= before.push(item));
                            match text_lines(all.skip(k + 1), preformat) {
                                Ok(x) => assert(before + (seq![item] + x) =~= line_views(vec@) + x),
                                Err(_e) => {},
                            }
                        }
                    },
                    Err(e) => {
                        return Err(e);
                    },
                }
            }
            k = k + 1;
        }
        assert(all.skip(k as int) =~= Seq::<Seq<char>>::empty());
        assert(line_views(vec@) + Seq::<(TextKind, Seq<char>)>::empty() =~= line_views(vec@));
        Ok(vec)
    }

    fn is_toggle(line: &str) -> (r: bool)
        ensures
            r == starts3(line@, '`'),
    {
        let v = chars_of(line);
        v.len() >= 3 && v[0] == '`' && v[1] == '`' && v[2] == '`'
    }

    fn parse_formatted(line: &str) -> (r: Result<GemTextLine, String>)
        ensures
            match text_line(line@) {
                Ok(x) => r matches Ok(g) && g@ == x,
                Err(e) => r matches Err(e2) && e2@ == e,
            },
    {
        let v = chars_of(line);
        let n = v.len();
        if n >= 3 && v[0] == '#' && v[1] == '#' && v[2] == '#' {
            return Ok(GemTextLine { data: GemTextData::HeadingThree, text: rest_from(&v, 3) });
        }
        if n >= 2 && v[0] == '=' && v[1] == '>' {
            let text = rest_from(&v, 2);
            return match Scheme::from_str(text.as_str()) {
                Ok((url, label)) => Ok(GemTextLine { data: GemTextData::Link(url), text: label }),
                Err(e) => {
                    let mut m = crate::strings::string_from("could not parse link \"");
                    crate::strings::push_str(&mut m, e.as_str());
                    crate::strings::push_char(&mut m, '"');
                    proof {
                        reveal_strlit("\"");
                        assert(m@ =~= "could not parse link \""@ + e@ + "\""@);
                    }
                    Err(m)
                },
            };
        }
        if n >= 2 && v[0] == '#' && v[1] == '#' {
            return Ok(GemTextLine { data: GemTextData::HeadingTwo, text: rest_from(&v, 2) });
        }
        if n >= 1 && v[0] == '>' {
            return Ok(GemTextLine { data: GemTextData::Quote, text: rest_from(&v, 1) });
        }
        if n >= 1 && v[0] == '*' {
            return Ok(GemTextLine { data: GemTextData::ListItem, text: rest_from(&v, 1) });
        }
        if n >= 1 && v[0] == '#' {
            return Ok(GemTextLine { data: GemTextData::HeadingOne, text: rest_from(&v, 1) });
        }
        Ok(GemTextLine { data: GemTextData::Text, text: crate::strings::string_from(line) })
    }
}

/// The `Debug` form of a link target.
pub open spec fn scheme_debug(s: SchemeView) -> Seq<char> {
    match s {
        SchemeView::Gemini(u) => "Gemini("@ + url_debug(u.0) + ")"@,
        SchemeView::Gopher(u) => "Gopher("@ + url_debug(u.0) + ")"@,
        SchemeView::Http(u) => "Http("@ + url_debug(u.0) + ")"@,
        SchemeView::Relative(t) => "Relative("@ + debug_str(t) + ")"@,
        SchemeView::Unknown(u) => "Unknown("@ + url_debug(u.0) + ")"@,
    }
}

/// The `Debug` form of the kind of a line.
pub open spec fn kind_debug(k: TextKind) -> Seq<char> {
    match k {
        TextKind::HeadingOne => "HeadingOne"@,
        TextKind::HeadingTwo => "HeadingTwo"@,
        TextKind::HeadingThree => "HeadingThree"@,
        TextKind::Text => "Text"@,
        TextKind::PreFormat => "PreFormat"@,
        TextKind::Link(s) => "Link("@ + scheme_debug(s) + ")"@,
        TextKind::ListItem => "ListItem"@,
        TextKind::Quote => "Quote"@,
    }
}

impl Scheme {
    /// The `Debug` form of the target.
    pub fn debug_text(&self) -> (r: String)
        ensures
            r@ == scheme_debug(self@),
    {
        let mut r = String::new();
        let inner = match self {
            Scheme::Gemini(u) => {
                push_str(&mut r, "Gemini(");
                u.debug_text()
            },
            Scheme::Gopher(u) => {
                push_str(&mut r, "Gopher(");
                u.debug_text()
            },
            Scheme::Http(u) => {
                push_str(&mut r, "Http(");
                u.debug_text()
            },
            Scheme::Relative(t) => {
                push_str(&mut r, "Relative(");
                str_debug(t.as_str())
            },
            Scheme::Unknown(u) => {
                push_str(&mut r, "Unknown(");
                u.debug_text()
            },
        };
        push_str(&mut r, inner.as_str());
        push_str(&mut r, ")");
        proof {
            match self {
                Scheme::Gemini(_) => assert(r@ =~= scheme_debug(self@)),
                Scheme::Gopher(_) => assert(r@ =~= scheme_debug(self@)),
                Scheme::Http(_) => assert(r@ =~= scheme_debug(self@)),
                Scheme::Relative(_) => assert(r@ =~= scheme_debug(self@)),
                Scheme::Unknown(_) => assert(r@ =~= scheme_debug(self@)),
            }
        }
        r
    }
}

impl GemTextData {
    /// The `Debug` form of the kind.
    pub fn debug_text(&self) -> (r: String)
        ensures
            r@ == kind_debug(self@),
    {
        match self {
            GemTextData::HeadingOne => string_from("HeadingOne"),
            GemTextData::HeadingTwo => string_from("HeadingTwo"),
            GemTextData::HeadingThree => string_from("HeadingThree"),
            GemTextData::Text => string_from("Text"),
            GemTextData::PreFormat => string_from("PreFormat"),
            GemTextData::Link(s) => {
                let mut r = string_from("Link(");
                let inner = s.debug_text();
                push_str(&mut r, inner.as_str());
                push_str(&mut r, ")");
                assert(r@ =~= kind_debug(self@));
                r
            },
            GemTextData::ListItem => string_from("ListItem"),
            GemTextData::Quote => string_from("Quote"),
        }
    }
}

/// No line is a link.
pub open spec fn no_links(lines: Seq<Seq<char>>) -> bool {
    forall|i: int| 0 <= i < lines.len() ==> !starts2(#[trigger] lines[i], '=', '>')
}

/// Only links can make a document fail to read: one without them always
/// reads.
pub proof fn lemma_no_links(lines: Seq<Seq<char>>, pre: bool)
    requires
        no_links(lines),
    ensures
        text_lines(lines, pre) is Ok,
    decreases lines.len(),
{
    if lines.len() > 0 {
        let rest = lines.drop_first();
        assert forall|i: int| 0 <= i < rest.len() implies !starts2(#[trigger] rest[i], '=', '>') by {
            assert(rest[i] == lines[i + 1]);
        }
        assert(!starts2(lines[0], '=', '>'));
        lemma_no_links(rest, pre);
        lemma_no_links(rest, !pre);
    }
}


/// How a line read by `text_line` relates to the line: a line that starts
/// with `>` is a quote of the rest of the line; a heading, quote or list
/// item is its marker followed by its text; a text line is the whole line,
/// and carries none of the markers; only a line that starts with `=>` can
/// fail, and it reads as a link where it does not.
pub proof fn lemma_text_line_markers(line: Seq<char>)
    ensures
        starts1(line, '>') ==> text_line(line) == Ok::<(TextKind, Seq<char>), Seq<char>>((TextKind::Quote, line.skip(1))),
        text_line(line) is Err ==> starts2(line, '=', '>'),
        starts2(line, '=', '>') && text_line(line) is Ok ==> text_line(line)->Ok_0.0 is Link,
        text_line(line) matches Ok((k, t)) ==> {
            &&& k is Text ==> t == line && !starts1(line, '#') && !starts1(line, '>') && !starts1(line, '*')
                && !starts2(line, '=', '>')
            &&& k is Quote ==> line == seq!['>'] + t
            &&& k is ListItem ==> line == seq!['*'] + t
            &&& k is HeadingOne ==> line == seq!['#'] + t && !starts2(line, '#', '#')
            &&& k is HeadingTwo ==> line == seq!['#', '#'] + t && !starts3(line, '#')
            &&& k is HeadingThree ==> line == seq!['#', '#', '#'] + t
        },
{
    if starts3(line, '#') {
        assert(line =~= seq!['#', '#', '#'] + line.skip(3));
    } else if starts2(line, '=', '>') {
    } else if starts2(line, '#', '#') {
        assert(line =~= seq!['#', '#'] + line.skip(2));
    } else if starts1(line, '>') {
        assert(line =~= seq!['>'] + line.skip(1));
    } else if starts1(line, '*') {
        assert(line =~= seq!['*'] + line.skip(1));
    } else if starts1(line, '#') {
        assert(line =~= seq!['#'] + line.skip(1));
    }
}

} // verus!
