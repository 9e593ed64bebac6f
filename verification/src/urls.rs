//! URLs, taken apart.
use vstd::prelude::*;
use vstd::string::*;

use crate::text::{opt_view, same_ignoring_case, equal_ignoring_case};

verus! {

/// What the library reads of a URL.
#[derive(Clone, Debug, PartialEq, Eq)]
pub struct ParsedUrl {
    /// The whole URL in its normalised form.
    pub text: String,
    /// The scheme, without the colon.
    pub scheme: String,
    /// The host, where the URL has one.
    pub host: Option<String>,
    /// The path, with its leading slash.
    pub path: String,
}

/// What a [`ParsedUrl`] says.
pub struct UrlView {
    pub text: Seq<char>,
    pub scheme: Seq<char>,
    pub host: Option<Seq<char>>,
    pub path: Seq<char>,
}

impl View for ParsedUrl {
    type V = UrlView;

    open spec fn view(&self) -> UrlView {
        UrlView {
            text: self.text@,
            scheme: self.scheme@,
            host: opt_view(self.host),
            path: self.path@,
        }
    }
}

/// The parts of the URL that a text states, or why it states none.
pub uninterp spec fn url_of(text: Seq<char>) -> Result<UrlView, Seq<char>>;

/// The debug form of the URL that a text states.
pub uninterp spec fn url_debug_of(text: Seq<char>) -> Option<Seq<char>>;

/// Calls `url::Url::parse` and takes the URL apart with `as_str`, `scheme`, `host_str` and
/// `path`; an error is printed. The grammar and the normalisation are left to that
/// function: the outcome is named [`url_of`].
#[verifier::external_body]
pub(crate) fn parse_url(text: &str) -> (r: Result<ParsedUrl, String>)
    ensures
        match r {
            Ok(url) => url_of(text@) == Ok::<UrlView, Seq<char>>(url@),
            Err(reason) => url_of(text@) == Err::<UrlView, Seq<char>>(reason@),
        },
{
    match url::Url::parse(text) {
        Ok(url) => Ok(ParsedUrl {
            text: url.as_str().to_string(),
            scheme: url.scheme().to_string(),
            host: url.host_str().map(|h| h.to_string()),
            path: url.path().to_string(),
        }),
        Err(error) => Err(error.to_string()),
    }
}

/// Calls the `Debug` implementation of `url::Url` on the URL that `text` states, read with
/// `url::Url::parse`. What it prints is named [`url_debug_of`]; it exists exactly where
/// the text states a URL.
#[verifier::external_body]
pub(crate) fn debug_url(text: &str) -> (r: Option<String>)
    ensures
        opt_view(r) == url_debug_of(text@),
        r is Some == url_of(text@) is Ok,
{
    match url::Url::parse(text) {
        Ok(url) => Some(format!("{:?}", url)),
        Err(_) => None,
    }
}

/// The text states a URL whose scheme is `https`.
pub open spec fn is_https(text: Seq<char>) -> bool {
    url_of(text) matches Ok(url) && equal_ignoring_case(url.scheme, "https"@)
}

/// Whether a git remote is reached over HTTPS.
pub fn is_https_remote(remote_url: &str) -> (r: bool)
    ensures
        r == is_https(remote_url@),
{
    match parse_url(remote_url) {
        Ok(url) => same_ignoring_case(url.scheme.as_str(), "https"),
        Err(_) => false,
    }
}

}
