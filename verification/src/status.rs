//! Gemini response statuses, with redirects parsed as URLs.
use vstd::prelude::*;
use crate::strings::{decimal, int_text, push_int, push_str, string_from};
use crate::gemstatus::{header_parts, status_line};
use crate::weburl::{WebUrl, url_parsed};

verus! {

#[derive(Debug, Clone, Copy, PartialEq, Eq, Structural)]
pub enum Input {
    Input(i16),
    Sensitive,
}

#[derive(Debug, Clone, Copy, PartialEq, Eq, Structural)]
pub enum Success {
    Success(i16),
}

#[derive(Debug, Clone, Copy, PartialEq, Eq, Structural)]
pub enum Redirect {
    Temporary(i16),
    Permanent,
}

#[derive(Debug, Clone, Copy, PartialEq, Eq, Structural)]
pub enum TemporaryFailure {
    TemporaryFailure(i16),
    ServerUnavailable,
    CGIError,
    ProxyError,
    SlowDown,
}

#[derive(Debug, Clone, Copy, PartialEq, Eq, Structural)]
pub enum PermanentFailure {
    PermanentFailure(i16),
    NotFound,
    Gone,
    ProxyRequestRefused,
    BadRequest,
}

#[derive(Debug, Clone, Copy, PartialEq, Eq, Structural)]
pub enum ClientCertRequired {
    ClientCertRequired(i16),
    TransientCertRequired,
    AuthorizedCertRequired,
    CertNotAccepted,
    FutureCertRejected,
    ExpiredCertRejected,
}

/// A response status; a redirect carries the URL to go to.
#[derive(Debug, Clone)]
pub enum Status {
    InputExpected(Input, String),
    Success(Success, String),
    Redirect(Redirect, WebUrl),
    TemporaryFailure(TemporaryFailure, String),
    PermanentFailure(PermanentFailure, String),
    ClientCertRequired(ClientCertRequired, String),
}

/// A status as values: a redirect's URL as its serialization and scheme.
pub enum StatusView {
    InputExpected(Input, Seq<char>),
    Success(Success, Seq<char>),
    Redirect(Redirect, (Seq<char>, Seq<char>)),
    TemporaryFailure(TemporaryFailure, Seq<char>),
    PermanentFailure(PermanentFailure, Seq<char>),
    ClientCertRequired(ClientCertRequired, Seq<char>),
}

impl View for Status {
    type V = StatusView;

    open spec fn view(&self) -> StatusView {
        match self {
            Status::InputExpected(v, m) => StatusView::InputExpected(*v, m@),
            Status::Success(v, m) => StatusView::Success(*v, m@),
            Status::Redirect(v, u) => StatusView::Redirect(*v, u@),
            Status::TemporaryFailure(v, m) => StatusView::TemporaryFailure(*v, m@),
            Status::PermanentFailure(v, m) => StatusView::PermanentFailure(*v, m@),
            Status::ClientCertRequired(v, m) => StatusView::ClientCertRequired(*v, m@),
        }
    }
}

/// The status for a code and the text that follows it: for a redirect,
/// the text parsed as a URL; `None` where the code maps to nothing or the
/// redirect's URL does not parse.
pub open spec fn status_view(code: i16, meta: Seq<char>) -> Option<StatusView> {
    if 30 <= code <= 39 {
        match url_parsed(meta) {
            Ok(u) => Some(StatusView::Redirect(redirect_kind(code), u)),
            Err(_) => None,
        }
    } else if code == 11 {
        Some(StatusView::InputExpected(Input::Sensitive, meta))
    } else if 10 <= code <= 19 {
        Some(StatusView::InputExpected(Input::Input(code), meta))
    } else if 20 <= code <= 29 {
        Some(StatusView::Success(Success::Success(code), meta))
    } else if code == 41 {
        Some(StatusView::TemporaryFailure(TemporaryFailure::ServerUnavailable, meta))
    } else if code == 42 {
        Some(StatusView::TemporaryFailure(TemporaryFailure::CGIError, meta))
    } else if code == 43 {
        Some(StatusView::TemporaryFailure(TemporaryFailure::ProxyError, meta))
    } else if code == 44 {
        Some(StatusView::TemporaryFailure(TemporaryFailure::SlowDown, meta))
    } else if 40 <= code <= 49 {
        Some(StatusView::TemporaryFailure(TemporaryFailure::TemporaryFailure(code), meta))
    } else if code == 51 {
        Some(StatusView::PermanentFailure(PermanentFailure::NotFound, meta))
    } else if code == 52 {
        Some(StatusView::PermanentFailure(PermanentFailure::Gone, meta))
    } else if code == 53 {
        Some(StatusView::PermanentFailure(PermanentFailure::ProxyRequestRefused, meta))
    } else if code == 59 {
        Some(StatusView::PermanentFailure(PermanentFailure::BadRequest, meta))
    } else if 50 <= code <= 58 {
        Some(StatusView::PermanentFailure(PermanentFailure::PermanentFailure(code), meta))
    } else if code == 61 {
        Some(StatusView::ClientCertRequired(ClientCertRequired::TransientCertRequired, meta))
    } else if code == 62 {
        Some(StatusView::ClientCertRequired(ClientCertRequired::AuthorizedCertRequired, meta))
    } else if code == 63 {
        Some(StatusView::ClientCertRequired(ClientCertRequired::CertNotAccepted, meta))
    } else if code == 64 {
        Some(StatusView::ClientCertRequired(ClientCertRequired::FutureCertRejected, meta))
    } else if code == 65 {
        Some(StatusView::ClientCertRequired(ClientCertRequired::ExpiredCertRejected, meta))
    } else if 60 <= code <= 69 {
        Some(StatusView::ClientCertRequired(ClientCertRequired::ClientCertRequired(code), meta))
    } else {
        None
    }
}

/// The status of a header line, where it is one and its code maps to a
/// status.
pub open spec fn header_status(line: Seq<char>) -> Option<StatusView> {
    match header_parts(line) {
        Some((code, meta)) => status_view(code as i16, meta),
        None => None,
    }
}

proof fn lemma_new_view(code: i16, m: String, r: Result<Status, String>)
    requires
        status_new_ok(code, m, r),
    ensures
        match status_view(code, m@) {
            Some(v) => r matches Ok(s) && s@ == v,
            None => r is Err,
        },
{
}

/// The status for a code that is not a redirect, with the text that follows
/// the code; `None` for redirects and for codes outside 10..=69.
pub open spec fn plain_status(code: i16, meta: String) -> Option<Status> {
    if code == 11 {
        Some(Status::InputExpected(Input::Sensitive, meta))
    } else if 10 <= code <= 19 {
        Some(Status::InputExpected(Input::Input(code), meta))
    } else if 20 <= code <= 29 {
        Some(Status::Success(Success::Success(code), meta))
    } else if code == 41 {
        Some(Status::TemporaryFailure(TemporaryFailure::ServerUnavailable, meta))
    } else if code == 42 {
        Some(Status::TemporaryFailure(TemporaryFailure::CGIError, meta))
    } else if code == 43 {
        Some(Status::TemporaryFailure(TemporaryFailure::ProxyError, meta))
    } else if code == 44 {
        Some(Status::TemporaryFailure(TemporaryFailure::SlowDown, meta))
    } else if 40 <= code <= 49 {
        Some(Status::TemporaryFailure(TemporaryFailure::TemporaryFailure(code), meta))
    } else if code == 51 {
        Some(Status::PermanentFailure(PermanentFailure::NotFound, meta))
    } else if code == 52 {
        Some(Status::PermanentFailure(PermanentFailure::Gone, meta))
    } else if code == 53 {
        Some(Status::PermanentFailure(PermanentFailure::ProxyRequestRefused, meta))
    } else if code == 59 {
        Some(Status::PermanentFailure(PermanentFailure::BadRequest, meta))
    } else if 50 <= code <= 58 {
        Some(Status::PermanentFailure(PermanentFailure::PermanentFailure(code), meta))
    } else if code == 61 {
        Some(Status::ClientCertRequired(ClientCertRequired::TransientCertRequired, meta))
    } else if code == 62 {
        Some(Status::ClientCertRequired(ClientCertRequired::AuthorizedCertRequired, meta))
    } else if code == 63 {
        Some(Status::ClientCertRequired(ClientCertRequired::CertNotAccepted, meta))
    } else if code == 64 {
        Some(Status::ClientCertRequired(ClientCertRequired::FutureCertRejected, meta))
    } else if code == 65 {
        Some(Status::ClientCertRequired(ClientCertRequired::ExpiredCertRejected, meta))
    } else if 60 <= code <= 69 {
        Some(Status::ClientCertRequired(ClientCertRequired::ClientCertRequired(code), meta))
    } else {
        None
    }
}

/// The kind of redirect for a code in 30..=39.
pub open spec fn redirect_kind(code: i16) -> Redirect {
    if code == 31 {
        Redirect::Permanent
    } else {
        Redirect::Temporary(code)
    }
}

/// The message for a code that maps to no status.
pub open spec fn unmapped(code: i16) -> Seq<char> {
    "received status number "@ + int_text(code as int) + " which maps to nothing"@
}

/// What `Status::new` gives: for a redirect, the parsed URL or the parse
/// error's message.
pub open spec fn status_new_ok(code: i16, meta: String, r: Result<Status, String>) -> bool {
    if 30 <= code <= 39 {
        match url_parsed(meta@) {
            Ok(u) => r matches Ok(Status::Redirect(k, url)) && k == redirect_kind(code) && url@ == u,
            Err((_, m)) => r matches Err(e) && e@ == m,
        }
    } else {
        match plain_status(code, meta) {
            Some(s) => r == Ok::<Status, String>(s),
            None => r matches Err(e) && e@ == unmapped(code),
        }
    }
}

impl Status {
    pub fn new(code: i16, meta: String) -> (r: Result<Status, String>)
        ensures
            status_new_ok(code, meta, r),
    {
        if code == 10 {
            Ok(Status::InputExpected(Input::Input(code), meta))
        } else if code == 11 {
            Ok(Status::InputExpected(Input::Sensitive, meta))
        } else if 12 <= code && code <= 19 {
            Ok(Status::InputExpected(Input::Input(code), meta))
        } else if 20 <= code && code <= 29 {
            Ok(Status::Success(Success::Success(code), meta))
        } else if 30 <= code && code <= 39 {
            let url = match WebUrl::parse(meta.as_str()) {
                Ok(url) => url,
                Err(e) => {
                    return Err(e.message);
                },
            };
            if code == 31 {
                Ok(Status::Redirect(Redirect::Permanent, url))
            } else {
                Ok(Status::Redirect(Redirect::Temporary(code), url))
            }
        } else if code == 40 {
            Ok(Status::TemporaryFailure(TemporaryFailure::TemporaryFailure(code), meta))
        } else if code == 41 {
            Ok(Status::TemporaryFailure(TemporaryFailure::ServerUnavailable, meta))
        } else if code == 42 {
            Ok(Status::TemporaryFailure(TemporaryFailure::CGIError, meta))
        } else if code == 43 {
            Ok(Status::TemporaryFailure(TemporaryFailure::ProxyError, meta))
        } else if code == 44 {
            Ok(Status::TemporaryFailure(TemporaryFailure::SlowDown, meta))
        } else if 45 <= code && code <= 49 {
            Ok(Status::TemporaryFailure(TemporaryFailure::TemporaryFailure(code), meta))
        } else if code == 50 {
            Ok(Status::PermanentFailure(PermanentFailure::PermanentFailure(code), meta))
        } else if code == 51 {
            Ok(Status::PermanentFailure(PermanentFailure::NotFound, meta))
        } else if code == 52 {
            Ok(Status::PermanentFailure(PermanentFailure::Gone, meta))
        } else if code == 53 {
            Ok(Status::PermanentFailure(PermanentFailure::ProxyRequestRefused, meta))
        } else if 54 <= code && code <= 58 {
            Ok(Status::PermanentFailure(PermanentFailure::PermanentFailure(code), meta))
        } else if code == 59 {
            Ok(Status::PermanentFailure(PermanentFailure::BadRequest, meta))
        } else if code == 60 {
            Ok(Status::ClientCertRequired(ClientCertRequired::ClientCertRequired(code), meta))
        } else if code == 61 {
            Ok(Status::ClientCertRequired(ClientCertRequired::TransientCertRequired, meta))
        } else if code == 62 {
            Ok(Status::ClientCertRequired(ClientCertRequired::AuthorizedCertRequired, meta))
        } else if code == 63 {
            Ok(Status::ClientCertRequired(ClientCertRequired::CertNotAccepted, meta))
        } else if code == 64 {
            Ok(Status::ClientCertRequired(ClientCertRequired::FutureCertRejected, meta))
        } else if code == 65 {
            Ok(Status::ClientCertRequired(ClientCertRequired::ExpiredCertRejected, meta))
        } else if 66 <= code && code <= 69 {
            Ok(Status::ClientCertRequired(ClientCertRequired::ClientCertRequired(code), meta))
        } else {
            let mut e = String::new();
            push_str(&mut e, "received status number ");
            push_int(&mut e, code as i32);
            push_str(&mut e, " which maps to nothing");
            Err(e)
        }
    }

    /// Reads a status header line: the code, then the text.  An empty error
    /// where the line is no header line.
    pub fn from_str(line: &str) -> (r: Result<Status, String>)
        ensures
            match header_parts(line@) {
                None => r matches Err(e) && e@ == Seq::<char>::empty(),
                Some((code, meta)) => exists|m: String| m@ == meta && #[trigger] status_new_ok(code as i16, m, r),
            },
            match header_status(line@) {
                Some(v) => r matches Ok(s) && s@ == v,
                None => r is Err,
            },
    {
        match status_line(line) {
            None => Err(String::new()),
            Some((code, meta)) => {
                let ghost m = meta;
                let r = Status::new(code, meta);
                assert(status_new_ok((code as int) as i16, m, r));
                proof {
                    lemma_new_view(code, m, r);
                }
                r
            },
        }
    }
}

/// The `Debug` form of a variant with a code: its name and the code in
/// brackets.
pub open spec fn coded(name: Seq<char>, code: i16) -> Seq<char> {
    name + "("@ + int_text(code as int) + ")"@
}

pub open spec fn input_debug(v: Input) -> Seq<char> {
    match v {
        Input::Input(c) => coded("Input"@, c),
        Input::Sensitive => "Sensitive"@,
    }
}

pub open spec fn success_debug(v: Success) -> Seq<char> {
    match v {
        Success::Success(c) => coded("Success"@, c),
    }
}

pub open spec fn temporary_debug(v: TemporaryFailure) -> Seq<char> {
    match v {
        TemporaryFailure::TemporaryFailure(c) => coded("TemporaryFailure"@, c),
        TemporaryFailure::ServerUnavailable => "ServerUnavailable"@,
        TemporaryFailure::CGIError => "CGIError"@,
        TemporaryFailure::ProxyError => "ProxyError"@,
        TemporaryFailure::SlowDown => "SlowDown"@,
    }
}

pub open spec fn permanent_debug(v: PermanentFailure) -> Seq<char> {
    match v {
        PermanentFailure::PermanentFailure(c) => coded("PermanentFailure"@, c),
        PermanentFailure::NotFound => "NotFound"@,
        PermanentFailure::Gone => "Gone"@,
        PermanentFailure::ProxyRequestRefused => "ProxyRequestRefused"@,
        PermanentFailure::BadRequest => "BadRequest"@,
    }
}

fn coded_text(name: &str, code: i16) -> (r: String)
    ensures
        r@ == coded(name@, code),
{
    let mut r = String::new();
    push_str(&mut r, name);
    push_str(&mut r, "(");
    push_int(&mut r, code as i32);
    push_str(&mut r, ")");
    assert(r@ =~= coded(name@, code));
    r
}

impl Input {
    /// The `Debug` form.
    pub fn debug_text(&self) -> (r: String)
        ensures
            r@ == input_debug(*self),
    {
        match self {
            Input::Input(c) => coded_text("Input", *c),
            Input::Sensitive => string_from("Sensitive"),
        }
    }
}

impl Success {
    /// The `Debug` form.
    pub fn debug_text(&self) -> (r: String)
        ensures
            r@ == success_debug(*self),
    {
        match self {
            Success::Success(c) => coded_text("Success", *c),
        }
    }
}

impl TemporaryFailure {
    /// The `Debug` form.
    pub fn debug_text(&self) -> (r: String)
        ensures
            r@ == temporary_debug(*self),
    {
        match self {
            TemporaryFailure::TemporaryFailure(c) => coded_text("TemporaryFailure", *c),
            TemporaryFailure::ServerUnavailable => string_from("ServerUnavailable"),
            TemporaryFailure::CGIError => string_from("CGIError"),
            TemporaryFailure::ProxyError => string_from("ProxyError"),
            TemporaryFailure::SlowDown => string_from("SlowDown"),
        }
    }
}

impl PermanentFailure {
    /// The `Debug` form.
    pub fn debug_text(&self) -> (r: String)
        ensures
            r@ == permanent_debug(*self),
    {
        match self {
            PermanentFailure::PermanentFailure(c) => coded_text("PermanentFailure", *c),
            PermanentFailure::NotFound => string_from("NotFound"),
            PermanentFailure::Gone => string_from("Gone"),
            PermanentFailure::ProxyRequestRefused => string_from("ProxyRequestRefused"),
            PermanentFailure::BadRequest => string_from("BadRequest"),
        }
    }
}


/// The code a status stands for: the code a general status holds, or the
/// fixed code of a status with a name of its own.
pub open spec fn view_code(s: StatusView) -> i16 {
    match s {
        StatusView::InputExpected(Input::Input(c), _) => c,
        StatusView::InputExpected(Input::Sensitive, _) => 11,
        StatusView::Success(Success::Success(c), _) => c,
        StatusView::Redirect(Redirect::Temporary(c), _) => c,
        StatusView::Redirect(Redirect::Permanent, _) => 31,
        StatusView::TemporaryFailure(TemporaryFailure::TemporaryFailure(c), _) => c,
        StatusView::TemporaryFailure(TemporaryFailure::ServerUnavailable, _) => 41,
        StatusView::TemporaryFailure(TemporaryFailure::CGIError, _) => 42,
        StatusView::TemporaryFailure(TemporaryFailure::ProxyError, _) => 43,
        StatusView::TemporaryFailure(TemporaryFailure::SlowDown, _) => 44,
        StatusView::PermanentFailure(PermanentFailure::PermanentFailure(c), _) => c,
        StatusView::PermanentFailure(PermanentFailure::NotFound, _) => 51,
        StatusView::PermanentFailure(PermanentFailure::Gone, _) => 52,
        StatusView::PermanentFailure(PermanentFailure::ProxyRequestRefused, _) => 53,
        StatusView::PermanentFailure(PermanentFailure::BadRequest, _) => 59,
        StatusView::ClientCertRequired(ClientCertRequired::ClientCertRequired(c), _) => c,
        StatusView::ClientCertRequired(ClientCertRequired::TransientCertRequired, _) => 61,
        StatusView::ClientCertRequired(ClientCertRequired::AuthorizedCertRequired, _) => 62,
        StatusView::ClientCertRequired(ClientCertRequired::CertNotAccepted, _) => 63,
        StatusView::ClientCertRequired(ClientCertRequired::FutureCertRejected, _) => 64,
        StatusView::ClientCertRequired(ClientCertRequired::ExpiredCertRejected, _) => 65,
    }
}

/// A general status holds a code of its own class that no named status
/// stands for.
pub open spec fn view_well_coded(s: StatusView) -> bool {
    match s {
        StatusView::InputExpected(Input::Input(c), _) => 10 <= c <= 19 && c != 11,
        StatusView::Success(Success::Success(c), _) => 20 <= c <= 29,
        StatusView::Redirect(Redirect::Temporary(c), _) => 30 <= c <= 39 && c != 31,
        StatusView::TemporaryFailure(TemporaryFailure::TemporaryFailure(c), _) => c == 40 || 45 <= c <= 49,
        StatusView::PermanentFailure(PermanentFailure::PermanentFailure(c), _) => c == 50 || 54 <= c <= 58,
        StatusView::ClientCertRequired(ClientCertRequired::ClientCertRequired(c), _) => c == 60 || 66 <= c <= 69,
        _ => true,
    }
}

/// The text a status holds, where it is not a redirect.
pub open spec fn view_text(s: StatusView) -> Seq<char> {
    match s {
        StatusView::InputExpected(_, m) => m,
        StatusView::Success(_, m) => m,
        StatusView::Redirect(_, u) => u.0,
        StatusView::TemporaryFailure(_, m) => m,
        StatusView::PermanentFailure(_, m) => m,
        StatusView::ClientCertRequired(_, m) => m,
    }
}

/// Reading a code gives back a status that stands for that code and is the
/// named status where the code has one (31 the permanent redirect, 11
/// sensitive input, and so on); a status other than a redirect holds the
/// text, and a redirect holds the text parsed as a URL; every code from 10
/// to 69 reads as a status, a redirect's only where its URL parses; and
/// every status other than a redirect is read back from its code and text.
pub proof fn lemma_status_codes(code: i16, meta: Seq<char>, s: StatusView)
    ensures
        status_view(code, meta) matches Some(t) ==> view_code(t) == code && view_well_coded(t)
            && (t matches StatusView::Redirect(_, u) ==> url_parsed(meta) == Ok::<(Seq<char>, Seq<char>), (bool, Seq<char>)>(u))
            && (t !is Redirect ==> view_text(t) == meta),
        (10 <= code <= 69 && !(30 <= code <= 39)) ==> status_view(code, meta) is Some,
        30 <= code <= 39 ==> (status_view(code, meta) is Some <==> url_parsed(meta) is Ok),
        view_well_coded(s) && s !is Redirect ==> status_view(view_code(s), view_text(s)) == Some(s),
{
}

} // verus!
