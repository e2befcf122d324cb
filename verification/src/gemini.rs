//! Gemini documents: statuses, response headers, and the lines of gemtext.
use vstd::prelude::*;
use vstd::utf8::{valid_utf8, decode_utf8};
use crate::strings::{
    chars_of, text_eq, push_char, push_str, push_range, push_decimal, decimal, line_bounds, lines_of,
    string_from, is_ascii_digit, digits_value,
};
use crate::util::{split_whitespace_once, split_once};
use crate::weburl::{WebUrl, url_parsed, url_joined, url_debug};
use crate::strings::{debug_str, str_debug};
use vstd::string::StrSliceExecFns;

pub mod gemtext;

verus! {

/// The protocol of a link.
#[derive(Clone, Copy, PartialEq, Eq, Debug, Structural)]
pub enum Scheme {
    Gemini,
    Gopher,
    Http,
    Unknown,
}

/// The protocol named by a URL scheme.
pub open spec fn scheme_of(s: Seq<char>) -> Scheme {
    if s == "gemini"@ {
        Scheme::Gemini
    } else if s == "gopher"@ {
        Scheme::Gopher
    } else if s == "http"@ || s == "https"@ {
        Scheme::Http
    } else {
        Scheme::Unknown
    }
}

pub fn parse_scheme(url: &WebUrl) -> (r: Scheme)
    ensures
        r == scheme_of(url@.1),
{
    let s = url.scheme();
    if text_eq(s, "gemini") {
        Scheme::Gemini
    } else if text_eq(s, "gopher") {
        Scheme::Gopher
    } else if text_eq(s, "http") || text_eq(s, "https") {
        Scheme::Http
    } else {
        Scheme::Unknown
    }
}

/// A link target: the text parsed as a URL, or, where it is relative,
/// joined onto `base`; the error's message where neither works.
pub open spec fn link_target(base: Seq<char>, input: Seq<char>) -> Result<(Seq<char>, Seq<char>), Seq<char>> {
    match url_parsed(input) {
        Ok(u) => Ok(u),
        Err((relative, m)) => if relative {
            url_joined(base, input)
        } else {
            Err(m)
        },
    }
}

pub fn join_if_relative(base: &WebUrl, url_str: &str) -> (r: Result<WebUrl, String>)
    ensures
        match r {
            Ok(u) => link_target(base@.0, url_str@) == Ok::<(Seq<char>, Seq<char>), Seq<char>>(u@),
            Err(e) => link_target(base@.0, url_str@) == Err::<(Seq<char>, Seq<char>), Seq<char>>(e@),
        },
{
    match WebUrl::parse(url_str) {
        Err(e) => {
            if e.relative {
                base.join(url_str)
            } else {
                Err(e.message)
            }
        },
        Ok(url) => Ok(url),
    }
}

/// The kind of a gemtext line.
#[derive(Clone, Debug)]
pub enum GemType {
    HeadingOne,
    HeadingTwo,
    HeadingThree,
    Text,
    PreFormat,
    Link(Scheme, WebUrl),
    BadLink(String),
    ListItem,
    Quote,
}

/// The kind of a gemtext line, with a link's URL as its serialization and
/// scheme.
pub enum GemKind {
    HeadingOne,
    HeadingTwo,
    HeadingThree,
    Text,
    PreFormat,
    Link(Scheme, (Seq<char>, Seq<char>)),
    BadLink(Seq<char>),
    ListItem,
    Quote,
}

impl View for GemType {
    type V = GemKind;

    open spec fn view(&self) -> GemKind {
        match self {
            GemType::HeadingOne => GemKind::HeadingOne,
            GemType::HeadingTwo => GemKind::HeadingTwo,
            GemType::HeadingThree => GemKind::HeadingThree,
            GemType::Text => GemKind::Text,
            GemType::PreFormat => GemKind::PreFormat,
            GemType::Link(s, u) => GemKind::Link(*s, u@),
            GemType::BadLink(m) => GemKind::BadLink(m@),
            GemType::ListItem => GemKind::ListItem,
            GemType::Quote => GemKind::Quote,
        }
    }
}

/// The line starts with `c` three times (a preformat toggle for backticks).
pub open spec fn starts3(l: Seq<char>, c: char) -> bool {
    l.len() >= 3 && l[0] == c && l[1] == c && l[2] == c
}

/// The line starts with `a` then `b`.
pub open spec fn starts2(l: Seq<char>, a: char, b: char) -> bool {
    l.len() >= 2 && l[0] == a && l[1] == b
}

/// The line starts with `c`.
pub open spec fn starts1(l: Seq<char>, c: char) -> bool {
    l.len() >= 1 && l[0] == c
}

/// A formatted gemtext line: its kind and its text, by its leading
/// symbol: `###`, `=>` (a link, then its target and label split at the
/// first white space), `##`, `>`, `*` (shown with a `- ` prefix), `#`; any
/// other line is text.
pub open spec fn formatted(line: Seq<char>, base: Seq<char>) -> (GemKind, Seq<char>) {
    if starts3(line, '#') {
        (GemKind::HeadingThree, line.skip(3))
    } else if starts2(line, '=', '>') {
        let parts = split_once(line.skip(2));
        match link_target(base, parts.0) {
            Ok(u) => (GemKind::Link(scheme_of(u.1), u), parts.1),
            Err(m) => (GemKind::BadLink(m), parts.1),
        }
    } else if starts2(line, '#', '#') {
        (GemKind::HeadingTwo, line.skip(2))
    } else if starts1(line, '>') {
        (GemKind::Quote, line.skip(1))
    } else if starts1(line, '*') {
        (GemKind::ListItem, seq!['-', ' '] + line.skip(1))
    } else if starts1(line, '#') {
        (GemKind::HeadingOne, line.skip(1))
    } else {
        (GemKind::Text, line)
    }
}

/// The lines of a document: backtick toggles switch preformatting and are
/// dropped; preformatted lines are kept as they are; the others are
/// formatted.
pub open spec fn doc_lines(lines: Seq<Seq<char>>, pre: bool, base: Seq<char>) -> Seq<(GemKind, Seq<char>)>
    decreases lines.len(),
{
    if lines.len() == 0 {
        seq![]
    } else if starts3(lines[0], '`') {
        doc_lines(lines.drop_first(), !pre, base)
    } else if pre {
        seq![(GemKind::PreFormat, lines[0])] + doc_lines(lines.drop_first(), pre, base)
    } else {
        seq![formatted(lines[0], base)] + doc_lines(lines.drop_first(), pre, base)
    }
}

/// The kinds and texts of parsed lines.
pub open spec fn doc_view(doc: Seq<(GemType, String)>) -> Seq<(GemKind, Seq<char>)> {
    doc.map_values(|p: (GemType, String)| (p.0@, p.1@))
}

/// Parses a gemtext document against the URL it came from.
pub fn parse_doc(text_str: &str, source: &WebUrl) -> (r: Vec<(GemType, String)>)
    ensures
        doc_view(r@) == doc_lines(lines_of(text_str@), false, source@.0),
{
    let v = chars_of(text_str);
    let bounds = line_bounds(&v);
    let ghost lines = lines_of(text_str@);
    let mut vec: Vec<(GemType, String)> = Vec::new();
    let mut preformat = false;
    let mut k: usize = 0;
    assert(lines.skip(0) =~= lines);
    assert(doc_view(vec@) + doc_lines(lines, false, source@.0) =~= doc_lines(lines, false, source@.0));
    while k < bounds.len()
        invariant
            v@ == text_str@,
            lines == lines_of(v@),
            bounds@.len() == lines.len(),
            forall|j: int| 0 <= j < bounds@.len() ==> (#[trigger] bounds@[j]).0 <= bounds@[j].1 <= v@.len(),
            forall|j: int| 0 <= j < bounds@.len() ==> v@.subrange(bounds@[j].0 as int, bounds@[j].1 as int) == #[trigger] lines[j],
            k <= bounds@.len(),
            doc_lines(lines, false, source@.0) == doc_view(vec@) + doc_lines(lines.skip(k as int), preformat, source@.0),
        decreases bounds@.len() - k,
    {
        let (a, b) = bounds[k];
        let line = text_str.substring_char(a, b);
        assert(line@ == lines[k as int]);
        let ghost rest = lines.skip(k as int);
        assert(rest.drop_first() =~= lines.skip(k + 1));
        assert(rest[0] == lines[k as int]);
        let ghost before = vec@;
        if is_toggle(line) {
            preformat = !preformat;
        } else if preformat {
            vec.push((GemType::PreFormat, string_from(line)));
            assert(doc_view(vec@) =~= doc_view(before).push((GemKind::PreFormat, line@)));
            assert(doc_view(before) + (seq![(GemKind::PreFormat, line@)] + doc_lines(lines.skip(k + 1), preformat, source@.0))
                =~= doc_view(vec@) + doc_lines(lines.skip(k + 1), preformat, source@.0));
        } else {
            let (gem, text) = parse_formatted(line, source);
            let ghost item = (gem@, text@);
            vec.push((gem, text));
            assert(doc_view(vec@) =~= doc_view(before).push(item));
            assert(doc_view(before) + (seq![item] + doc_lines(lines.skip(k + 1), preformat, source@.0))
                =~= doc_view(vec@) + doc_lines(lines.skip(k + 1), preformat, source@.0));
        }
        k = k + 1;
    }
    assert(lines.skip(k as int) =~= Seq::<Seq<char>>::empty());
    assert(doc_view(vec@) + Seq::<(GemKind, Seq<char>)>::empty() =~= doc_view(vec@));
    vec
}

/// Whether a line toggles preformatting.
fn is_toggle(line: &str) -> (r: bool)
    ensures
        r == starts3(line@, '`'),
{
    let v = chars_of(line);
    v.len() >= 3 && v[0] == '`' && v[1] == '`' && v[2] == '`'
}

/// The text `v[from..]`.
fn text_from(v: &Vec<char>, from: usize) -> (s: String)
    requires
        from <= v@.len(),
    ensures
        s@ == v@.skip(from as int),
{
    let mut s = String::new();
    push_range(&mut s, v, from, v.len());
    assert(v@.subrange(from as int, v@.len() as int) =~= v@.skip(from as int));
    s
}

fn parse_formatted(line: &str, source: &WebUrl) -> (r: (GemType, String))
    ensures
        (r.0@, r.1@) == formatted(line@, source@.0),
{
    let v = chars_of(line);
    let n = v.len();
    if n >= 3 && v[0] == '#' && v[1] == '#' && v[2] == '#' {
        return (GemType::HeadingThree, text_from(&v, 3));
    }
    if n >= 2 && v[0] == '=' && v[1] == '>' {
        let text = line.substring_char(2, n);
        assert(text@ =~= line@.skip(2));
        let (url_str, link_str) = split_whitespace_once(text);
        return match join_if_relative(source, url_str) {
            Ok(url) => {
                let scheme = parse_scheme(&url);
                (GemType::Link(scheme, url), string_from(link_str))
            },
            Err(s) => (GemType::BadLink(s), string_from(link_str)),
        };
    } else if n >= 2 && v[0] == '#' && v[1] == '#' {
        return (GemType::HeadingTwo, text_from(&v, 2));
    }
    if n >= 1 && v[0] == '>' {
        return (GemType::Quote, text_from(&v, 1));
    } else if n >= 1 && v[0] == '*' {
        let mut s = String::new();
        push_char(&mut s, '-');
        push_char(&mut s, ' ');
        push_range(&mut s, &v, 1, n);
        assert(v@.subrange(1, n as int) =~= v@.skip(1));
        assert(seq!['-', ' '] =~= Seq::<char>::empty().push('-').push(' '));
        return (GemType::ListItem, s);
    } else if n >= 1 && v[0] == '#' {
        return (GemType::HeadingOne, text_from(&v, 1));
    }
    (GemType::Text, string_from(line))
}

/// The status of a response.
#[derive(Clone, Copy, PartialEq, Eq, Debug, Structural)]
pub enum Status {
    InputExpected,
    InputExpectedSensitive,
    Success,
    RedirectTemporary,
    RedirectPermanent,
    FailTemporary,
    FailServerUnavailable,
    FailCGIError,
    FailProxyError,
    FailSlowDown,
    FailPermanent,
    FailNotFound,
    FailGone,
    FailProxyRequestRefused,
    FailBadRequest,
    CertRequiredClient,
    CertRequiredTransient,
    CertRequiredAuthorized,
    CertNotAccepted,
    FutureCertRejected,
    ExpiredCertRejected,
}

/// The status of a code: the first digit gives the class, the second the
/// detail; a detail without a status of its own falls back to the class.
pub open spec fn status_of_code(code: int) -> Option<Status> {
    if code == 10 || (12 <= code <= 19) {
        Some(Status::InputExpected)
    } else if code == 11 {
        Some(Status::InputExpectedSensitive)
    } else if 20 <= code <= 29 {
        Some(Status::Success)
    } else if code == 30 || (32 <= code <= 39) {
        Some(Status::RedirectTemporary)
    } else if code == 31 {
        Some(Status::RedirectPermanent)
    } else if code == 41 {
        Some(Status::FailServerUnavailable)
    } else if code == 40 || (45 <= code <= 49) {
        Some(Status::FailTemporary)
    } else if code == 42 {
        Some(Status::FailCGIError)
    } else if code == 43 {
        Some(Status::FailProxyError)
    } else if code == 44 {
        Some(Status::FailSlowDown)
    } else if code == 50 || (54 <= code <= 58) {
        Some(Status::FailPermanent)
    } else if code == 51 {
        Some(Status::FailNotFound)
    } else if code == 52 {
        Some(Status::FailGone)
    } else if code == 53 {
        Some(Status::FailProxyRequestRefused)
    } else if code == 59 {
        Some(Status::FailBadRequest)
    } else if code == 60 || (66 <= code <= 69) {
        Some(Status::CertRequiredClient)
    } else if code == 61 {
        Some(Status::CertRequiredTransient)
    } else if code == 62 {
        Some(Status::CertRequiredAuthorized)
    } else if code == 63 {
        Some(Status::CertNotAccepted)
    } else if code == 64 {
        Some(Status::FutureCertRejected)
    } else if code == 65 {
        Some(Status::ExpiredCertRejected)
    } else {
        None
    }
}

/// The error for a code that names no status.
pub open spec fn invalid_status(code: nat) -> Seq<char> {
    "invalid status number: "@ + decimal(code)
}

fn get_status(code: u8) -> (r: Result<Status, String>)
    ensures
        match status_of_code(code as int) {
            Some(s) => r == Ok::<Status, String>(s),
            None => r matches Err(e) && e@ == invalid_status(code as nat),
        },
{
    if code == 10 || (12 <= code && code <= 19) {
        Ok(Status::InputExpected)
    } else if code == 11 {
        Ok(Status::InputExpectedSensitive)
    } else if 20 <= code && code <= 29 {
        Ok(Status::Success)
    } else if code == 30 || (32 <= code && code <= 39) {
        Ok(Status::RedirectTemporary)
    } else if code == 31 {
        Ok(Status::RedirectPermanent)
    } else if code == 41 {
        Ok(Status::FailServerUnavailable)
    } else if code == 40 || (45 <= code && code <= 49) {
        Ok(Status::FailTemporary)
    } else if code == 42 {
        Ok(Status::FailCGIError)
    } else if code == 43 {
        Ok(Status::FailProxyError)
    } else if code == 44 {
        Ok(Status::FailSlowDown)
    } else if code == 50 || (54 <= code && code <= 58) {
        Ok(Status::FailPermanent)
    } else if code == 51 {
        Ok(Status::FailNotFound)
    } else if code == 52 {
        Ok(Status::FailGone)
    } else if code == 53 {
        Ok(Status::FailProxyRequestRefused)
    } else if code == 59 {
        Ok(Status::FailBadRequest)
    } else if code == 60 || (66 <= code && code <= 69) {
        Ok(Status::CertRequiredClient)
    } else if code == 61 {
        Ok(Status::CertRequiredTransient)
    } else if code == 62 {
        Ok(Status::CertRequiredAuthorized)
    } else if code == 63 {
        Ok(Status::CertNotAccepted)
    } else if code == 64 {
        Ok(Status::FutureCertRejected)
    } else if code == 65 {
        Ok(Status::ExpiredCertRejected)
    } else {
        let mut e = String::new();
        push_str(&mut e, "invalid status number: ");
        push_decimal(&mut e, code as usize);
        assert(e@ =~= invalid_status(code as nat));
        Err(e)
    }
}

/// The number that `str::parse::<u8>` reads from a text, before the range
/// check: an optional `+`, then one or more ASCII digits; `None` for any
/// other text.
pub open spec fn u8_text_value(s: Seq<char>) -> Option<int> {
    let body = if s.len() > 0 && s[0] == '+' { s.skip(1) } else { s };
    if body.len() > 0 && forall|i: int| 0 <= i < body.len() ==> is_ascii_digit(#[trigger] body[i]) {
        Some(digits_value(body))
    } else {
        None
    }
}

/// The message of the error that `str::parse::<u8>` gives for a text.
pub uninterp spec fn u8_parse_error(s: Seq<char>) -> Seq<char>;

/// `str::parse::<u8>`, with the error as its message.  As std documents
/// it, the text must be an optional `+` followed by decimal digits only,
/// and the number must fit in a `u8`.  The wording of the message is not
/// stated: it is named by `u8_parse_error`.
#[verifier::external_body]
fn parse_u8(s: &str) -> (r: Result<u8, String>)
    ensures
        r is Ok <==> (u8_text_value(s@) is Some && u8_text_value(s@)->0 <= 255),
        r matches Ok(v) ==> u8_text_value(s@) == Some(v as int),
        r matches Err(e) ==> e@ == u8_parse_error(s@),
{
    s.parse::<u8>().map_err(|e| e.to_string())
}

/// A status line read: the code, split from the message at the first white
/// space, names a status.
pub open spec fn status_parse(line: Seq<char>) -> Result<(Status, Seq<char>), Seq<char>> {
    let parts = split_once(line);
    let value = u8_text_value(parts.0);
    if value is Some && value->0 <= 255 {
        match status_of_code(value->0) {
            Some(s) => Ok((s, parts.1)),
            None => Err(invalid_status(value->0 as nat)),
        }
    } else {
        Err(u8_parse_error(parts.0))
    }
}

/// Reads the status and the message of a response header.
pub fn parse_status(line: &str) -> (r: Result<(Status, String), String>)
    ensures
        match status_parse(line@) {
            Ok((s, m)) => r matches Ok((s2, m2)) && s2 == s && m2@ == m,
            Err(e) => r matches Err(e2) && e2@ == e,
        },
{
    let (code_str, msg) = split_whitespace_once(line);
    let code = match parse_u8(code_str) {
        Ok(c) => c,
        Err(e) => return Err(e),
    };
    match get_status(code) {
        Ok(status) => Ok((status, string_from(msg))),
        Err(e) => Err(e),
    }
}

/// A line break (`"\r\n"`) starts at `i`.
pub open spec fn crlf_at(d: Seq<u8>, i: int) -> bool {
    0 <= i && i + 1 < d.len() && d[i] == 13 && d[i + 1] == 10
}

/// The first line break of the data.
pub fn find_clrf(data: &[u8]) -> (r: Option<usize>)
    ensures
        match r {
            Some(i) => crlf_at(data@, i as int) && forall|j: int| 0 <= j < i ==> !crlf_at(data@, j),
            None => forall|j: int| !crlf_at(data@, j),
        },
{
    let n = data.len();
    let mut i: usize = 0;
    while i < n
        invariant
            n == data@.len(),
            forall|j: int| 0 <= j < i ==> !crlf_at(data@, j),
        decreases n - i,
    {
        if i + 1 < n && data[i] == 13 && data[i + 1] == 10 {
            return Some(i);
        }
        i = i + 1;
    }
    None
}

/// What `String::from_utf8_lossy` gives for some bytes.
pub uninterp spec fn lossy_text(bytes: Seq<u8>) -> Seq<char>;

/// `String::from_utf8_lossy`, made an owned text: valid UTF-8 is decoded
/// as it is; what it does with invalid sequences (replacement characters)
/// is not stated beyond the name `lossy_text`.
#[verifier::external_body]
fn utf8_lossy(bytes: &[u8]) -> (s: String)
    ensures
        s@ == lossy_text(bytes@),
        valid_utf8(bytes@) ==> s@ == decode_utf8(bytes@),
{
    String::from_utf8_lossy(bytes).to_string()
}

/// A response split after its first line break: the header line (with its
/// line break) and the content, each decoded.
pub open spec fn response_split(data: Seq<u8>, i: int) -> (Seq<char>, Seq<char>) {
    (lossy_text(data.take(i + 2)), lossy_text(data.skip(i + 2)))
}

/// Splits the bytes of a response into its header and its content.
pub fn response_parts(data: Vec<u8>) -> (r: Result<(String, String), String>)
    ensures
        match r {
            Ok((h, c)) => exists|i: int| #[trigger] crlf_at(data@, i)
                && (forall|j: int| 0 <= j < i ==> !crlf_at(data@, j))
                && response_split(data@, i) == (h@, c@),
            Err(e) => (forall|j: int| !crlf_at(data@, j)) && e@ == "Could not find the clrf"@,
        },
{
    let mut response = data;
    let idx = match find_clrf(response.as_slice()) {
        Some(i) => i,
        None => return Err(string_from("Could not find the clrf")),
    };
    let ghost whole = response@;
    let n = response.len();
    assert(crlf_at(whole, idx as int) && idx + 1 < n);
    let content = response.split_off(idx + 2);
    assert(response@ =~= whole.take(idx + 2));
    assert(content@ =~= whole.skip(idx + 2));
    let content = utf8_lossy(content.as_slice());
    let header = utf8_lossy(response.as_slice());
    assert(crlf_at(whole, idx as int));
    Ok((header, content))
}

/// The name of a status, as its `Debug` form writes it.
pub open spec fn status_text(s: Status) -> Seq<char> {
    match s {
        Status::InputExpected => "InputExpected"@,
        Status::InputExpectedSensitive => "InputExpectedSensitive"@,
        Status::Success => "Success"@,
        Status::RedirectTemporary => "RedirectTemporary"@,
        Status::RedirectPermanent => "RedirectPermanent"@,
        Status::FailTemporary => "FailTemporary"@,
        Status::FailServerUnavailable => "FailServerUnavailable"@,
        Status::FailCGIError => "FailCGIError"@,
        Status::FailProxyError => "FailProxyError"@,
        Status::FailSlowDown => "FailSlowDown"@,
        Status::FailPermanent => "FailPermanent"@,
        Status::FailNotFound => "FailNotFound"@,
        Status::FailGone => "FailGone"@,
        Status::FailProxyRequestRefused => "FailProxyRequestRefused"@,
        Status::FailBadRequest => "FailBadRequest"@,
        Status::CertRequiredClient => "CertRequiredClient"@,
        Status::CertRequiredTransient => "CertRequiredTransient"@,
        Status::CertRequiredAuthorized => "CertRequiredAuthorized"@,
        Status::CertNotAccepted => "CertNotAccepted"@,
        Status::FutureCertRejected => "FutureCertRejected"@,
        Status::ExpiredCertRejected => "ExpiredCertRejected"@,
    }
}

impl Status {
    /// The name of the status.
    pub fn name(&self) -> (r: &'static str)
        ensures
            r@ == status_text(*self),
    {
        match self {
            Status::InputExpected => "InputExpected",
            Status::InputExpectedSensitive => "InputExpectedSensitive",
            Status::Success => "Success",
            Status::RedirectTemporary => "RedirectTemporary",
            Status::RedirectPermanent => "RedirectPermanent",
            Status::FailTemporary => "FailTemporary",
            Status::FailServerUnavailable => "FailServerUnavailable",
            Status::FailCGIError => "FailCGIError",
            Status::FailProxyError => "FailProxyError",
            Status::FailSlowDown => "FailSlowDown",
            Status::FailPermanent => "FailPermanent",
            Status::FailNotFound => "FailNotFound",
            Status::FailGone => "FailGone",
            Status::FailProxyRequestRefused => "FailProxyRequestRefused",
            Status::FailBadRequest => "FailBadRequest",
            Status::CertRequiredClient => "CertRequiredClient",
            Status::CertRequiredTransient => "CertRequiredTransient",
            Status::CertRequiredAuthorized => "CertRequiredAuthorized",
            Status::CertNotAccepted => "CertNotAccepted",
            Status::FutureCertRejected => "FutureCertRejected",
            Status::ExpiredCertRejected => "ExpiredCertRejected",
        }
    }
}

/// A fetched document: where it came from, its status and message, and its
/// lines.
pub struct GemDoc {
    pub url: WebUrl,
    pub status: Status,
    pub msg: String,
    pub doc: Vec<(GemType, String)>,
}

/// The one line shown for a response that is not a success.
pub open spec fn status_line_text(s: Status, msg: Seq<char>) -> Seq<char> {
    "response: status: "@ + status_text(s) + ", msg: "@ + msg
}

impl GemDoc {
    /// The document for a response header and its content: the content's
    /// lines where the status is a success, else one line of text that
    /// names the status and its message.
    pub fn from_response(url: &WebUrl, response: &str, content: &str) -> (r: Result<GemDoc, String>)
        ensures
            match status_parse(response@) {
                Err(e) => r matches Err(e2) && e2@ == e,
                Ok((s, m)) => r matches Ok(d) && d.url@ == url@ && d.status == s && d.msg@ == m
                    && doc_view(d.doc@) == (if s == Status::Success {
                        doc_lines(lines_of(content@), false, url@.0)
                    } else {
                        seq![(GemKind::Text, status_line_text(s, m))]
                    }),
            },
    {
        let (status, msg) = match parse_status(response) {
            Ok(p) => p,
            Err(e) => return Err(e),
        };
        let doc = if status == Status::Success {
            parse_doc(content, url)
        } else {
            let mut line = String::new();
            push_str(&mut line, "response: status: ");
            push_str(&mut line, status.name());
            push_str(&mut line, ", msg: ");
            push_str(&mut line, msg.as_str());
            assert(line@ =~= status_line_text(status, msg@));
            let mut v: Vec<(GemType, String)> = Vec::new();
            v.push((GemType::Text, line));
            assert(doc_view(v@) =~= seq![(GemKind::Text, status_line_text(status, msg@))]);
            v
        };
        Ok(GemDoc { url: url.clone(), status, msg, doc })
    }
}

/// The number of lines that are not preformatting toggles.
pub open spec fn non_toggles(lines: Seq<Seq<char>>) -> nat
    decreases lines.len(),
{
    if lines.len() == 0 {
        0
    } else if starts3(lines[0], '`') {
        non_toggles(lines.drop_first())
    } else {
        1 + non_toggles(lines.drop_first())
    }
}

/// Reading a document keeps one line for each line that is not a toggle,
/// whatever the preformatting state.
pub proof fn lemma_doc_lines_len(lines: Seq<Seq<char>>, pre: bool, base: Seq<char>)
    ensures
        doc_lines(lines, pre, base).len() == non_toggles(lines),
    decreases lines.len(),
{
    if lines.len() > 0 {
        lemma_doc_lines_len(lines.drop_first(), pre, base);
        lemma_doc_lines_len(lines.drop_first(), !pre, base);
    }
}

/// The name of a protocol.
pub open spec fn scheme_name(s: Scheme) -> Seq<char> {
    match s {
        Scheme::Gemini => "Gemini"@,
        Scheme::Gopher => "Gopher"@,
        Scheme::Http => "Http"@,
        Scheme::Unknown => "Unknown"@,
    }
}

/// The `Debug` form of the kind of a line.
pub open spec fn gem_kind_debug(k: GemKind) -> Seq<char> {
    match k {
        GemKind::HeadingOne => "HeadingOne"@,
        GemKind::HeadingTwo => "HeadingTwo"@,
        GemKind::HeadingThree => "HeadingThree"@,
        GemKind::Text => "Text"@,
        GemKind::PreFormat => "PreFormat"@,
        GemKind::Link(s, u) => "Link("@ + scheme_name(s) + ", "@ + url_debug(u.0) + ")"@,
        GemKind::BadLink(m) => "BadLink("@ + debug_str(m) + ")"@,
        GemKind::ListItem => "ListItem"@,
        GemKind::Quote => "Quote"@,
    }
}

impl Scheme {
    /// The name of the protocol.
    pub fn name(&self) -> (r: &'static str)
        ensures
            r@ == scheme_name(*self),
    {
        match self {
            Scheme::Gemini => "Gemini",
            Scheme::Gopher => "Gopher",
            Scheme::Http => "Http",
            Scheme::Unknown => "Unknown",
        }
    }
}

impl GemType {
    /// The `Debug` form of the kind of line.
    pub fn debug_text(&self) -> (r: String)
        ensures
            r@ == gem_kind_debug(self@),
    {
        match self {
            GemType::HeadingOne => string_from("HeadingOne"),
            GemType::HeadingTwo => string_from("HeadingTwo"),
            GemType::HeadingThree => string_from("HeadingThree"),
            GemType::Text => string_from("Text"),
            GemType::PreFormat => string_from("PreFormat"),
            GemType::Link(s, u) => {
                let mut r = string_from("Link(");
                push_str(&mut r, s.name());
                push_str(&mut r, ", ");
                let d = u.debug_text();
                push_str(&mut r, d.as_str());
                push_str(&mut r, ")");
                assert(r@ =~= gem_kind_debug(self@));
                r
            },
            GemType::BadLink(m) => {
                let mut r = string_from("BadLink(");
                let d = str_debug(m.as_str());
                push_str(&mut r, d.as_str());
                push_str(&mut r, ")");
                assert(r@ =~= gem_kind_debug(self@));
                r
            },
            GemType::ListItem => string_from("ListItem"),
            GemType::Quote => string_from("Quote"),
        }
    }
}

/// Every code from 10 to 69 names a status, and no other code does.
pub proof fn lemma_codes_named(code: int)
    ensures
        status_of_code(code) is Some <==> 10 <= code <= 69,
{
}


/// How a formatted line relates to the line it was read from: a line that
/// starts with `>` is a quote of the rest of the line; a heading, quote or
/// list item is its marker followed by its text (a list item shows `- `
/// in place of its `*`); a text line is the whole line, and carries none
/// of the markers.
pub proof fn lemma_formatted_markers(line: Seq<char>, base: Seq<char>)
    ensures
        starts1(line, '>') ==> formatted(line, base) == (GemKind::Quote, line.skip(1)),
        ({
            let (k, t) = formatted(line, base);
            &&& k is Text ==> t == line && !starts1(line, '#') && !starts1(line, '>') && !starts1(line, '*')
                && !starts2(line, '=', '>')
            &&& k is Quote ==> line == seq!['>'] + t
            &&& k is HeadingOne ==> line == seq!['#'] + t && !starts2(line, '#', '#')
            &&& k is HeadingTwo ==> line == seq!['#', '#'] + t && !starts3(line, '#')
            &&& k is HeadingThree ==> line == seq!['#', '#', '#'] + t
            &&& k is ListItem ==> t.len() >= 2 && t[0] == '-' && t[1] == ' ' && line == seq!['*'] + t.skip(2)
        }),
{
    let (k, t) = formatted(line, base);
    if starts3(line, '#') {
        assert(line =~= seq!['#', '#', '#'] + line.skip(3));
    } else if starts2(line, '=', '>') {
    } else if starts2(line, '#', '#') {
        assert(line =~= seq!['#', '#'] + line.skip(2));
    } else if starts1(line, '>') {
        assert(line =~= seq!['>'] + line.skip(1));
    } else if starts1(line, '*') {
        assert((seq!['-', ' '] + line.skip(1)).skip(2) =~= line.skip(1));
        assert(line =~= seq!['*'] + line.skip(1));
    } else if starts1(line, '#') {
        assert(line =~= seq!['#'] + line.skip(1));
    }
}

/// The code that names a status: its own code, or, for the general status
/// of a class, the class's first code.
pub open spec fn code_of_status(s: Status) -> int {
    match s {
        Status::InputExpected => 10,
        Status::InputExpectedSensitive => 11,
        Status::Success => 20,
        Status::RedirectTemporary => 30,
        Status::RedirectPermanent => 31,
        Status::FailTemporary => 40,
        Status::FailServerUnavailable => 41,
        Status::FailCGIError => 42,
        Status::FailProxyError => 43,
        Status::FailSlowDown => 44,
        Status::FailPermanent => 50,
        Status::FailNotFound => 51,
        Status::FailGone => 52,
        Status::FailProxyRequestRefused => 53,
        Status::FailBadRequest => 59,
        Status::CertRequiredClient => 60,
        Status::CertRequiredTransient => 61,
        Status::CertRequiredAuthorized => 62,
        Status::CertNotAccepted => 63,
        Status::FutureCertRejected => 64,
        Status::ExpiredCertRejected => 65,
    }
}

/// Each status is read back from the code that names it (31 is the
/// permanent redirect, 11 sensitive input, 41 to 44, 51 to 53, 59 and 61
/// to 65 their own failures); any code reads as a status of its own class
/// (same first digit), and a code other than the status's own reads as
/// the general status of its class.
pub proof fn lemma_status_codes(s: Status, code: int)
    ensures
        status_of_code(code_of_status(s)) == Some(s),
        status_of_code(code) == Some(s) ==> code / 10 == code_of_status(s) / 10,
        status_of_code(code) == Some(s) && code != code_of_status(s) ==> code_of_status(s) % 10 == 0,
{
}

} // verus!
