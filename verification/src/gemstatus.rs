//! Gemini response status codes, grouped by their first digit.
use vstd::prelude::*;
use crate::strings::{chars_of, string_of, int_text, push_int, push_str, is_ascii_digit, digits_value};

verus! {

#[derive(Debug, Clone, Copy, PartialEq, Eq, Structural)]
pub enum Input {
    Input(i16),
    Sensitive,
}

#[derive(Debug, Clone, Copy, PartialEq, Eq, Structural)]
pub enum Success {
    Success(i16),
}

#[derive(Debug, Clone, Copy, PartialEq, Eq, Structural)]
pub enum Redirect {
    Temporary(i16),
    Permanent,
}

#[derive(Debug, Clone, Copy, PartialEq, Eq, Structural)]
pub enum TemporaryFailure {
    TemporaryFailure(i16),
    ServerUnavailable,
    CGIError,
    ProxyError,
    SlowDown,
}

#[derive(Debug, Clone, Copy, PartialEq, Eq, Structural)]
pub enum PermanentFailure {
    PermanentFailure(i16),
    NotFound,
    Gone,
    ProxyRequestRefused,
    BadRequest,
}

#[derive(Debug, Clone, Copy, PartialEq, Eq, Structural)]
pub enum ClientCertificateRequired {
    ClientCertificateRequired(i16),
    TransientCertificateRequired,
    AuthorizedCertificateRequired,
    CertificateNotAccepted,
    FutureCertificateRejected,
    ExpiredCertificateRejected,
}

/// A response status with the text that follows the code.
#[derive(Debug, Clone)]
pub enum Status {
    InputExpected(Input, String),
    Success(Success, String),
    Redirect(Redirect, String),
    TemporaryFailure(TemporaryFailure, String),
    PermanentFailure(PermanentFailure, String),
    ClientCertificateRequired(ClientCertificateRequired, String),
}

pub open spec fn input_for(code: i16) -> Option<Input> {
    if code == 11 {
        Some(Input::Sensitive)
    } else if 10 <= code <= 19 {
        Some(Input::Input(code))
    } else {
        None
    }
}

pub open spec fn success_for(code: i16) -> Option<Success> {
    if 20 <= code <= 29 {
        Some(Success::Success(code))
    } else {
        None
    }
}

pub open spec fn redirect_for(code: i16) -> Option<Redirect> {
    if code == 31 {
        Some(Redirect::Permanent)
    } else if 30 <= code <= 39 {
        Some(Redirect::Temporary(code))
    } else {
        None
    }
}

pub open spec fn temporary_for(code: i16) -> Option<TemporaryFailure> {
    if code == 41 {
        Some(TemporaryFailure::ServerUnavailable)
    } else if code == 42 {
        Some(TemporaryFailure::CGIError)
    } else if code == 43 {
        Some(TemporaryFailure::ProxyError)
    } else if code == 44 {
        Some(TemporaryFailure::SlowDown)
    } else if 40 <= code <= 49 {
        Some(TemporaryFailure::TemporaryFailure(code))
    } else {
        None
    }
}

pub open spec fn permanent_for(code: i16) -> Option<PermanentFailure> {
    if code == 51 {
        Some(PermanentFailure::NotFound)
    } else if code == 52 {
        Some(PermanentFailure::Gone)
    } else if code == 53 {
        Some(PermanentFailure::ProxyRequestRefused)
    } else if code == 59 {
        Some(PermanentFailure::BadRequest)
    } else if 50 <= code <= 58 {
        Some(PermanentFailure::PermanentFailure(code))
    } else {
        None
    }
}

pub open spec fn certificate_for(code: i16) -> Option<ClientCertificateRequired> {
    if code == 61 {
        Some(ClientCertificateRequired::TransientCertificateRequired)
    } else if code == 62 {
        Some(ClientCertificateRequired::AuthorizedCertificateRequired)
    } else if code == 63 {
        Some(ClientCertificateRequired::CertificateNotAccepted)
    } else if code == 64 {
        Some(ClientCertificateRequired::FutureCertificateRejected)
    } else if code == 65 {
        Some(ClientCertificateRequired::ExpiredCertificateRejected)
    } else if 60 <= code <= 69 {
        Some(ClientCertificateRequired::ClientCertificateRequired(code))
    } else {
        None
    }
}

/// The status for a code and its text; `None` for codes outside 10..=69.
pub open spec fn status_for(code: i16, meta: String) -> Option<Status> {
    if input_for(code) is Some {
        Some(Status::InputExpected(input_for(code)->0, meta))
    } else if success_for(code) is Some {
        Some(Status::Success(success_for(code)->0, meta))
    } else if redirect_for(code) is Some {
        Some(Status::Redirect(redirect_for(code)->0, meta))
    } else if temporary_for(code) is Some {
        Some(Status::TemporaryFailure(temporary_for(code)->0, meta))
    } else if permanent_for(code) is Some {
        Some(Status::PermanentFailure(permanent_for(code)->0, meta))
    } else if certificate_for(code) is Some {
        Some(Status::ClientCertificateRequired(certificate_for(code)->0, meta))
    } else {
        None
    }
}

/// Whether a code is a status code.
pub open spec fn code_known(code: i16) -> bool {
    input_for(code) is Some || success_for(code) is Some || redirect_for(code) is Some || temporary_for(code) is Some
        || permanent_for(code) is Some || certificate_for(code) is Some
}

/// The text that follows the code.
pub open spec fn meta_of(s: Status) -> String {
    match s {
        Status::InputExpected(_, m) => m,
        Status::Success(_, m) => m,
        Status::Redirect(_, m) => m,
        Status::TemporaryFailure(_, m) => m,
        Status::PermanentFailure(_, m) => m,
        Status::ClientCertificateRequired(_, m) => m,
    }
}

/// The message for a code that is no status.
pub open spec fn unknown_code(code: i16) -> Seq<char> {
    "this =>>> ("@ + int_text(code as int) + ") ? ... is not meth"@
}

impl Input {
    pub fn new(code: i16) -> (r: Option<Input>)
        ensures
            r == input_for(code),
    {
        if code == 10 {
            Some(Input::Input(code))
        } else if code == 11 {
            Some(Input::Sensitive)
        } else if 12 <= code && code <= 19 {
            Some(Input::Input(code))
        } else {
            None
        }
    }
}

impl Success {
    pub fn new(code: i16) -> (r: Option<Success>)
        ensures
            r == success_for(code),
    {
        if 20 <= code && code <= 29 {
            Some(Success::Success(code))
        } else {
            None
        }
    }
}

impl Redirect {
    pub fn new(code: i16) -> (r: Option<Redirect>)
        ensures
            r == redirect_for(code),
    {
        if code == 30 {
            Some(Redirect::Temporary(code))
        } else if code == 31 {
            Some(Redirect::Permanent)
        } else if 32 <= code && code <= 39 {
            Some(Redirect::Temporary(code))
        } else {
            None
        }
    }
}

impl TemporaryFailure {
    pub fn new(code: i16) -> (r: Option<TemporaryFailure>)
        ensures
            r == temporary_for(code),
    {
        if code == 40 {
            Some(TemporaryFailure::TemporaryFailure(code))
        } else if code == 41 {
            Some(TemporaryFailure::ServerUnavailable)
        } else if code == 42 {
            Some(TemporaryFailure::CGIError)
        } else if code == 43 {
            Some(TemporaryFailure::ProxyError)
        } else if code == 44 {
            Some(TemporaryFailure::SlowDown)
        } else if 45 <= code && code <= 49 {
            Some(TemporaryFailure::TemporaryFailure(code))
        } else {
            None
        }
    }
}

impl PermanentFailure {
    pub fn new(code: i16) -> (r: Option<PermanentFailure>)
        ensures
            r == permanent_for(code),
    {
        if code == 50 {
            Some(PermanentFailure::PermanentFailure(code))
        } else if code == 51 {
            Some(PermanentFailure::NotFound)
        } else if code == 52 {
            Some(PermanentFailure::Gone)
        } else if code == 53 {
            Some(PermanentFailure::ProxyRequestRefused)
        } else if 54 <= code && code <= 58 {
            Some(PermanentFailure::PermanentFailure(code))
        } else if code == 59 {
            Some(PermanentFailure::BadRequest)
        } else {
            None
        }
    }
}

impl ClientCertificateRequired {
    pub fn new(code: i16) -> (r: Option<ClientCertificateRequired>)
        ensures
            r == certificate_for(code),
    {
        if code == 60 {
            Some(ClientCertificateRequired::ClientCertificateRequired(code))
        } else if code == 61 {
            Some(ClientCertificateRequired::TransientCertificateRequired)
        } else if code == 62 {
            Some(ClientCertificateRequired::AuthorizedCertificateRequired)
        } else if code == 63 {
            Some(ClientCertificateRequired::CertificateNotAccepted)
        } else if code == 64 {
            Some(ClientCertificateRequired::FutureCertificateRejected)
        } else if code == 65 {
            Some(ClientCertificateRequired::ExpiredCertificateRejected)
        } else if 66 <= code && code <= 69 {
            Some(ClientCertificateRequired::ClientCertificateRequired(code))
        } else {
            None
        }
    }
}

/// A status header line `k` digits in: the digits, a space or tab, text
/// without a line feed, and a final `"\r\n"`.
pub open spec fn header_at(line: Seq<char>, k: int) -> bool {
    &&& 1 <= k <= 3
    &&& k + 3 <= line.len()
    &&& forall|i: int| 0 <= i < k ==> is_ascii_digit(#[trigger] line[i])
    &&& (line[k] == ' ' || line[k] == '\t')
    &&& line[line.len() - 2] == '\r'
    &&& line[line.len() - 1] == '\n'
    &&& forall|i: int| k < i < line.len() - 2 ==> #[trigger] line[i] != '\n'
}

/// The code and the text of a status header line, where the line is one.
pub open spec fn header_parts(line: Seq<char>) -> Option<(int, Seq<char>)> {
    if header_at(line, 1) {
        Some((digits_value(line.take(1)), line.subrange(2, line.len() - 2)))
    } else if header_at(line, 2) {
        Some((digits_value(line.take(2)), line.subrange(3, line.len() - 2)))
    } else if header_at(line, 3) {
        Some((digits_value(line.take(3)), line.subrange(4, line.len() - 2)))
    } else {
        None
    }
}

proof fn lemma_digits_bound(s: Seq<char>)
    requires
        forall|i: int| 0 <= i < s.len() ==> is_ascii_digit(#[trigger] s[i]),
    ensures
        0 <= digits_value(s),
        s.len() <= 3 ==> digits_value(s) <= 999,
        s.len() <= 2 ==> digits_value(s) <= 99,
        s.len() <= 1 ==> digits_value(s) <= 9,
    decreases s.len(),
{
    if s.len() > 0 {
        lemma_digits_bound(s.drop_last());
    }
}

/// Splits a status header line into its code and its text.
pub fn status_line(line: &str) -> (r: Option<(i16, String)>)
    ensures
        match header_parts(line@) {
            Some((code, meta)) => r matches Some((c, m)) && c == code && m@ == meta,
            None => r is None,
        },
{
    let v = chars_of(line);
    let n = v.len();
    let mut k: usize = 0;
    let mut value: i16 = 0;
    while k < n && k < 3 && '0' <= v[k] && v[k] <= '9'
        invariant
            v@ == line@,
            n == v@.len(),
            k <= 3,
            k <= n,
            forall|i: int| 0 <= i < k ==> is_ascii_digit(#[trigger] v@[i]),
            value == digits_value(v@.take(k as int)),
            0 <= value <= 999,
        decreases n - k,
    {
        proof {
            lemma_digits_bound(v@.take(k as int));
            assert(v@.take(k + 1).drop_last() =~= v@.take(k as int));
        }
        value = value * 10 + ((v[k] as u32 - '0' as u32) as i16);
        k = k + 1;
        proof {
            lemma_digits_bound(v@.take(k as int));
        }
    }
    assert(forall|j: int| 1 <= j <= 3 && j != k ==> !header_at(v@, j)) by {
        assert forall|j: int| 1 <= j <= 3 && j != k implies !header_at(v@, j) by {
            if j < k {
                assert(is_ascii_digit(v@[j]));
            } else if header_at(v@, j) {
                assert(is_ascii_digit(v@[k as int]));
                assert(k < 3 && k < n);
            }
        }
    }
    if k < 1 || k + 3 > n || !(v[k] == ' ' || v[k] == '\t') || v[n - 2] != '\r' || v[n - 1] != '\n' {
        return None;
    }
    let mut i = k + 1;
    while i < n - 2
        invariant
            v@ == line@,
            n == v@.len(),
            k + 1 <= i <= n - 2,
            forall|j: int| k < j < i ==> v@[j] != '\n',
        decreases n - 2 - i,
    {
        if v[i] == '\n' {
            return None;
        }
        i = i + 1;
    }
    assert(header_at(v@, k as int));
    Some((value, string_of(&v, k + 1, n - 2)))
}

impl Status {
    /// The status for a code and its text; an error for codes outside 10..=69.
    pub fn new(code: i16, meta: String) -> (r: Result<Status, String>)
        ensures
            match status_for(code, meta) {
                Some(s) => r == Ok::<Status, String>(s),
                None => r matches Err(e) && e@ == unknown_code(code),
            },
    {
        if let Some(status) = Input::new(code) {
            return Ok(Status::InputExpected(status, meta));
        } else if let Some(status) = Success::new(code) {
            return Ok(Status::Success(status, meta));
        } else if let Some(status) = Redirect::new(code) {
            return Ok(Status::Redirect(status, meta));
        } else if let Some(status) = TemporaryFailure::new(code) {
            return Ok(Status::TemporaryFailure(status, meta));
        }
        if let Some(status) = PermanentFailure::new(code) {
            return Ok(Status::PermanentFailure(status, meta));
        } else if let Some(status) = ClientCertificateRequired::new(code) {
            return Ok(Status::ClientCertificateRequired(status, meta));
        }
        let mut e = String::new();
        push_str(&mut e, "this =>>> (");
        push_int(&mut e, code as i32);
        push_str(&mut e, ") ? ... is not meth");
        Err(e)
    }

    /// Reads a status header line: the code, then the text.  An empty error
    /// where the line is no header, the error of `new` for an unknown code.
    pub fn parse_line(line: &str) -> (r: Result<Status, String>)
        ensures
            match header_parts(line@) {
                None => r matches Err(e) && e@ == Seq::<char>::empty(),
                Some((code, meta)) => if code_known(code as i16) {
                    r matches Ok(s) && meta_of(s)@ == meta && status_for(code as i16, meta_of(s)) == Some(s)
                } else {
                    r matches Err(e) && e@ == unknown_code(code as i16)
                },
            },
    {
        match status_line(line) {
            None => Err(String::new()),
            Some((code, meta)) => Status::new(code, meta),
        }
    }
}

impl std::str::FromStr for Status {
    type Err = String;

    /// Reads a status header line (`Status::parse_line`).
    fn from_str(line: &str) -> (r: Result<Status, String>)
        ensures
            match header_parts(line@) {
                None => r matches Err(e) && e@ == Seq::<char>::empty(),
                Some((code, meta)) => if code_known(code as i16) {
                    r matches Ok(s) && meta_of(s)@ == meta && status_for(code as i16, meta_of(s)) == Some(s)
                } else {
                    r matches Err(e) && e@ == unknown_code(code as i16)
                },
            },
    {
        Status::parse_line(line)
    }
}


/// The code a status stands for: the code a general status holds, or the
/// fixed code of a status with a name of its own.
pub open spec fn code_of(s: Status) -> i16 {
    match s {
        Status::InputExpected(Input::Input(c), _) => c,
        Status::InputExpected(Input::Sensitive, _) => 11,
        Status::Success(Success::Success(c), _) => c,
        Status::Redirect(Redirect::Temporary(c), _) => c,
        Status::Redirect(Redirect::Permanent, _) => 31,
        Status::TemporaryFailure(TemporaryFailure::TemporaryFailure(c), _) => c,
        Status::TemporaryFailure(TemporaryFailure::ServerUnavailable, _) => 41,
        Status::TemporaryFailure(TemporaryFailure::CGIError, _) => 42,
        Status::TemporaryFailure(TemporaryFailure::ProxyError, _) => 43,
        Status::TemporaryFailure(TemporaryFailure::SlowDown, _) => 44,
        Status::PermanentFailure(PermanentFailure::PermanentFailure(c), _) => c,
        Status::PermanentFailure(PermanentFailure::NotFound, _) => 51,
        Status::PermanentFailure(PermanentFailure::Gone, _) => 52,
        Status::PermanentFailure(PermanentFailure::ProxyRequestRefused, _) => 53,
        Status::PermanentFailure(PermanentFailure::BadRequest, _) => 59,
        Status::ClientCertificateRequired(ClientCertificateRequired::ClientCertificateRequired(c), _) => c,
        Status::ClientCertificateRequired(ClientCertificateRequired::TransientCertificateRequired, _) => 61,
        Status::ClientCertificateRequired(ClientCertificateRequired::AuthorizedCertificateRequired, _) => 62,
        Status::ClientCertificateRequired(ClientCertificateRequired::CertificateNotAccepted, _) => 63,
        Status::ClientCertificateRequired(ClientCertificateRequired::FutureCertificateRejected, _) => 64,
        Status::ClientCertificateRequired(ClientCertificateRequired::ExpiredCertificateRejected, _) => 65,
    }
}

/// A general status holds a code of its own class that no named status
/// stands for.
pub open spec fn well_coded(s: Status) -> bool {
    match s {
        Status::InputExpected(Input::Input(c), _) => 10 <= c <= 19 && c != 11,
        Status::Success(Success::Success(c), _) => 20 <= c <= 29,
        Status::Redirect(Redirect::Temporary(c), _) => 30 <= c <= 39 && c != 31,
        Status::TemporaryFailure(TemporaryFailure::TemporaryFailure(c), _) => c == 40 || 45 <= c <= 49,
        Status::PermanentFailure(PermanentFailure::PermanentFailure(c), _) => c == 50 || 54 <= c <= 58,
        Status::ClientCertificateRequired(ClientCertificateRequired::ClientCertificateRequired(c), _) => c == 60 || 66 <= c <= 69,
        _ => true,
    }
}

/// Reading a code gives back a status that stands for that code and holds
/// the text, and is the named status where the code has one (31 the
/// permanent redirect, 11 sensitive input, and so on); every code from 10
/// to 69 reads as a status; and every such status is read back from its
/// code and text.
pub proof fn lemma_status_codes(code: i16, meta: String, s: Status)
    ensures
        status_for(code, meta) matches Some(t) ==> code_of(t) == code && meta_of(t) == meta && well_coded(t),
        10 <= code <= 69 <==> status_for(code, meta) is Some,
        well_coded(s) ==> status_for(code_of(s), meta_of(s)) == Some(s),
{
}

} // verus!
