//! URLs, parsed and joined by the `url` crate.
//!
//! A `WebUrl` keeps the parsed value together with its serialization and its
//! scheme, which are what the rest of the library reads.
use vstd::prelude::*;

verus! {

#[verifier::external_type_specification]
#[verifier::external_body]
pub struct ExUrl(url::Url);

/// What `url::Url::parse` gives for a text: the serialization and the
/// scheme of the URL, or, for an error, whether it is
/// `ParseError::RelativeUrlWithoutBase` and the error's message.
pub uninterp spec fn url_parsed(text: Seq<char>) -> Result<(Seq<char>, Seq<char>), (bool, Seq<char>)>;

/// What `url::Url::join` gives for the URL with this serialization and an
/// input: the serialization and scheme of the result, or the error's
/// message.
pub uninterp spec fn url_joined(base: Seq<char>, input: Seq<char>) -> Result<(Seq<char>, Seq<char>), Seq<char>>;

/// What the `Debug` form of `url::Url` writes for the URL with this
/// serialization (its parts, field by field).
pub uninterp spec fn url_debug(serial: Seq<char>) -> Seq<char>;

/// A parsed URL.
#[derive(Debug)]
pub struct WebUrl {
    url: url::Url,
    text: String,
    scheme: String,
}

impl View for WebUrl {
    /// The serialization and the scheme.
    type V = (Seq<char>, Seq<char>);

    closed spec fn view(&self) -> (Seq<char>, Seq<char>) {
        (self.text@, self.scheme@)
    }
}

/// A URL failed to parse: whether it was relative with no base, and the
/// error's message.
#[derive(Debug)]
pub struct UrlError {
    pub relative: bool,
    pub message: String,
}

impl Clone for WebUrl {
    /// A copy of the URL (`url::Url::clone`, and the copies of the texts):
    /// the copy has the same serialization and scheme.
    #[verifier::external_body]
    fn clone(&self) -> (r: WebUrl)
        ensures
            r@ == self@,
    {
        WebUrl { url: self.url.clone(), text: self.text.clone(), scheme: self.scheme.clone() }
    }
}

/// `url::Url::parse`, with the URL kept beside its serialization and
/// scheme, and an error as whether it is `ParseError::RelativeUrlWithoutBase`
/// and its message.  The result is named by `url_parsed`: nothing more of it
/// is stated here.
#[verifier::external_body]
fn url_parse(text: &str) -> (r: Result<WebUrl, UrlError>)
    ensures
        match r {
            Ok(u) => url_parsed(text@) == Ok::<(Seq<char>, Seq<char>), (bool, Seq<char>)>(u@),
            Err(e) => url_parsed(text@) == Err::<(Seq<char>, Seq<char>), (bool, Seq<char>)>((e.relative, e.message@)),
        },
{
    match url::Url::parse(text) {
        Ok(u) => Ok(WebUrl { text: u.as_str().to_string(), scheme: u.scheme().to_string(), url: u }),
        Err(e) => Err(UrlError { relative: e == url::ParseError::RelativeUrlWithoutBase, message: e.to_string() }),
    }
}

/// `url::Url::join` of `input` onto `base`, with the error as its message.
/// The result is named by `url_joined`: nothing more of it is stated here.
#[verifier::external_body]
fn url_join(base: &WebUrl, input: &str) -> (r: Result<WebUrl, String>)
    ensures
        match r {
            Ok(u) => url_joined(base@.0, input@) == Ok::<(Seq<char>, Seq<char>), Seq<char>>(u@),
            Err(e) => url_joined(base@.0, input@) == Err::<(Seq<char>, Seq<char>), Seq<char>>(e@),
        },
{
    match base.url.join(input) {
        Ok(u) => Ok(WebUrl { text: u.as_str().to_string(), scheme: u.scheme().to_string(), url: u }),
        Err(e) => Err(e.to_string()),
    }
}

impl WebUrl {
    /// Parses an absolute URL.  The result is `url_parsed(text@)`.
    pub fn parse(text: &str) -> (r: Result<WebUrl, UrlError>)
        ensures
            match r {
                Ok(u) => url_parsed(text@) == Ok::<(Seq<char>, Seq<char>), (bool, Seq<char>)>(u@),
                Err(e) => url_parsed(text@) == Err::<(Seq<char>, Seq<char>), (bool, Seq<char>)>((e.relative, e.message@)),
            },
    {
        url_parse(text)
    }

    /// Resolves `input` against this URL.  The result is
    /// `url_joined(self@.0, input@)`.
    pub fn join(&self, input: &str) -> (r: Result<WebUrl, String>)
        ensures
            match r {
                Ok(u) => url_joined(self@.0, input@) == Ok::<(Seq<char>, Seq<char>), Seq<char>>(u@),
                Err(e) => url_joined(self@.0, input@) == Err::<(Seq<char>, Seq<char>), Seq<char>>(e@),
            },
    {
        url_join(self, input)
    }

    /// The serialization of the URL.
    pub fn as_str(&self) -> (r: &str)
        ensures
            r@ == self@.0,
    {
        self.text.as_str()
    }

    /// The scheme of the URL.
    pub fn scheme(&self) -> (r: &str)
        ensures
            r@ == self@.1,
    {
        self.scheme.as_str()
    }

    /// The `Debug` form of the URL (`<url::Url as Debug>::fmt`), named by
    /// `url_debug`: its wording is not stated here.
    #[verifier::external_body]
    pub(crate) fn debug_text(&self) -> (r: String)
        ensures
            r@ == url_debug(self@.0),
    {
        format!("{:?}", self.url)
    }
}

} // verus!
