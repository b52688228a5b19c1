//! Remote resources: recognising and parsing their URLs.

pub mod bridge;
pub mod header;

use url::Url;
use vstd::prelude::*;
use vstd::string::*;
use crate::error::{Error, ErrorView, BAD_REQUEST};
use crate::text::{same_text, starts_with};

verus! {

/// A parsed URL, held as text: its serialization and the path part of it.
#[derive(Debug, PartialEq, Eq)]
pub struct ParsedUrl {
    /// The whole URL as the parser serialized it.
    pub text: String,
    /// The path of the URL, percent-encoded.
    pub path: String,
}

/// The mathematical value of a [`ParsedUrl`].
pub struct UrlView {
    pub text: Seq<char>,
    pub path: Seq<char>,
}

impl View for ParsedUrl {
    type V = UrlView;

    open spec fn view(&self) -> UrlView {
        UrlView { text: self.text@, path: self.path@ }
    }
}

impl Clone for ParsedUrl {
    fn clone(&self) -> (r: ParsedUrl)
        ensures
            r == *self,
    {
        ParsedUrl { text: self.text.clone(), path: self.path.clone() }
    }
}

/// What `Url::parse` gives for `raw`: the URL, or the text of the
/// parser's complaint.
pub uninterp spec fn url_parse(raw: Seq<char>) -> Result<UrlView, Seq<char>>;

/// What is left of the URL serialized as `text` after `Url::set_path` with
/// `path`, or `None` where `text` is not a URL.
pub uninterp spec fn url_with_path(text: Seq<char>, path: Seq<char>) -> Option<UrlView>;

/// The views of both sides of a parse result.
pub open spec fn parsed_view(r: Result<ParsedUrl, String>) -> Result<UrlView, Seq<char>> {
    match r {
        Ok(url) => Ok(url@),
        Err(message) => Err(message@),
    }
}

/// The view of an edited URL.
pub open spec fn edited_view(r: Option<ParsedUrl>) -> Option<UrlView> {
    match r {
        Some(url) => Some(url@),
        None => None,
    }
}

/// Calls `Url::parse`. The result is the named value [`url_parse`]: on
/// success the serialization and the path of the URL, on failure the
/// parser's message.
#[verifier::external_body]
fn parse_url(raw: &str) -> (r: Result<ParsedUrl, String>)
    ensures
        parsed_view(r) == url_parse(raw@),
{
    match Url::parse(raw) {
        Ok(url) => Ok(ParsedUrl { text: url.as_str().to_owned(), path: url.path().to_owned() }),
        Err(err) => Err(err.to_string()),
    }
}

/// The longest serialization that the URL parser can address.
pub const URL_LIMIT: u64 = 0xffff_ffff;

/// Whether `text` is a URL as the parser writes it: it parses, and the
/// serialization of what it parses to is `text` again.
pub open spec fn is_serialized(text: Seq<char>) -> bool {
    url_parse(text) matches Ok(url) && url.text == text
}

/// Whether replacing the path of the URL serialized as `text` by `path`
/// stays within what the URL parser can address, however much of `path`
/// has to be escaped: each byte of it may become three, behind a slash or
/// an escaped slash of its own.
pub open spec fn edit_fits(text: Seq<char>, path: Seq<char>) -> bool {
    vstd::utf8::encode_utf8(text).len() + 3 * vstd::utf8::encode_utf8(path).len() + 3
        <= URL_LIMIT
}

/// Calls `Url::set_path` on the URL serialized as `text`. The result is
/// the named value [`url_with_path`].
///
/// The parser panics where the serialization up to the end of the new
/// path outgrows 32 bits. So `text` has to be the parser's own
/// serialization, which makes its length the length that the parser
/// works on, and that length and the escaped path together are bounded.
#[verifier::external_body]
fn set_url_path(text: &str, path: &str) -> (r: Option<ParsedUrl>)
    requires
        is_serialized(text@),
        edit_fits(text@, path@),
    ensures
        edited_view(r) == url_with_path(text@, path@),
{
    match Url::parse(text) {
        Ok(mut url) => {
            url.set_path(path);
            Some(ParsedUrl { text: url.as_str().to_owned(), path: url.path().to_owned() })
        },
        Err(_) => None,
    }
}

/// Whether an argument names a remote resource: it begins with `http://`
/// or `https://`.
pub open spec fn spec_is_http(raw: Seq<char>) -> bool {
    "http://"@.is_prefix_of(raw) || "https://"@.is_prefix_of(raw)
}

/// Whether an argument names a remote resource.
pub fn is_http(url: &str) -> (r: bool)
    ensures
        r == spec_is_http(url@),
{
    starts_with(url, "http://") || starts_with(url, "https://")
}

/// The outcome of reading an argument as a URL, given what the parser
/// made of it; `None` stands for an argument that is not valid text.
pub open spec fn url_outcome(parsed: Option<Result<UrlView, Seq<char>>>) -> Result<
    UrlView,
    ErrorView,
> {
    match parsed {
        Some(Ok(url)) => Ok(url),
        Some(Err(message)) => Err(ErrorView::Http { code: BAD_REQUEST, message }),
        None => Err(
            ErrorView::Http { code: BAD_REQUEST, message: "url is not a valid UTF8 string"@ },
        ),
    }
}

/// The views of both sides of a URL result.
pub open spec fn outcome_view(r: Result<ParsedUrl, Error>) -> Result<UrlView, ErrorView> {
    match r {
        Ok(url) => Ok(url@),
        Err(e) => Err(e@),
    }
}

/// Turns what the parser made of an argument into a URL or a bad-request
/// error that carries the parser's message.
pub fn url_from_parsed(parsed: Option<Result<ParsedUrl, String>>) -> (r: Result<ParsedUrl, Error>)
    ensures
        outcome_view(r) == url_outcome(
            match parsed {
                Some(p) => Some(parsed_view(p)),
                None => None,
            },
        ),
{
    match parsed {
        Some(Ok(url)) => Ok(url),
        Some(Err(message)) => Err(Error::Http { code: BAD_REQUEST, message }),
        None => Err(
            Error::Http {
                code: BAD_REQUEST,
                message: String::from_str("url is not a valid UTF8 string"),
            },
        ),
    }
}

/// Reads an argument as a URL. `url` is `None` where the argument is not
/// valid text, which is a bad request like any other malformed URL.
pub fn try_to_url(url: Option<&str>) -> (r: Result<ParsedUrl, Error>)
    ensures
        outcome_view(r) == url_outcome(
            match url {
                Some(raw) => Some(url_parse(raw@)),
                None => None,
            },
        ),
{
    match url {
        Some(raw) => url_from_parsed(Some(parse_url(raw))),
        None => url_from_parsed(None),
    }
}

/// Whether replacing the path of `text` by `path` stays within what the
/// URL parser can address.
pub fn fits_edit(text: &str, path: &str) -> (r: bool)
    ensures
        r == edit_fits(text@, path@),
{
    let text_len: usize = text.as_bytes().len();
    let path_len: usize = path.as_bytes().len();
    if text_len as u64 > URL_LIMIT || path_len as u64 > URL_LIMIT {
        return false;
    }
    text_len as u64 + 3 * (path_len as u64) + 3 <= URL_LIMIT
}

/// The URL after an edit that may not have been possible: the edited URL
/// where there is one, the URL as it was otherwise.
pub open spec fn spec_edited_or(edited: Option<UrlView>, url: UrlView) -> UrlView {
    match edited {
        Some(edited) => edited,
        None => url,
    }
}

/// Settles an edit: `url` stays as it was where there is no edited URL.
pub fn edited_or(edited: Option<ParsedUrl>, url: ParsedUrl) -> (r: ParsedUrl)
    ensures
        r@ == spec_edited_or(edited_view(edited), url@),
{
    match edited {
        Some(edited) => edited,
        None => url,
    }
}

/// Whether what the parser made of a text is that text again.
pub open spec fn parsed_as_written(text: Seq<char>, parsed: Result<UrlView, Seq<char>>) -> bool {
    parsed matches Ok(url) && url.text == text
}

/// Tests whether a text is a URL as the parser writes it, given what the
/// parser made of the text.
pub fn is_as_written(text: &str, parsed: &Result<ParsedUrl, String>) -> (r: bool)
    ensures
        r == parsed_as_written(text@, parsed_view(*parsed)),
{
    match parsed {
        Ok(url) => same_text(url.text.as_str(), text),
        Err(_) => false,
    }
}

/// Replaces the path of a URL. The URL is returned unchanged where its
/// text is not a URL as the parser writes it, or where the result would
/// outgrow what the parser can address.
pub open spec fn spec_replace_url_path(url: UrlView, path: Seq<char>) -> UrlView {
    if edit_fits(url.text, path) && is_serialized(url.text) {
        spec_edited_or(url_with_path(url.text, path), url)
    } else {
        url
    }
}

/// Replaces the path of a URL, escaping it as the URL parser does.
pub fn replace_url_path(url: ParsedUrl, path: &str) -> (r: ParsedUrl)
    ensures
        r@ == spec_replace_url_path(url@, path@),
{
    if !fits_edit(url.text.as_str(), path) {
        return url;
    }
    let parsed = parse_url(url.text.as_str());
    if is_as_written(url.text.as_str(), &parsed) {
        let edited = set_url_path(url.text.as_str(), path);
        edited_or(edited, url)
    } else {
        url
    }
}

} // verus!
