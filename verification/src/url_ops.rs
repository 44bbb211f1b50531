//! The URL operations the client setup needs, from the `url` crate. A URL is
//! carried through the library as its serialization: the text that
//! `url::Url::as_str` gives back, which parses again to the same URL.

use vstd::prelude::*;

verus! {

/// The serialization of the URL that `url::Url::parse` makes of `input`, or
/// `None` where it refuses the input.
pub uninterp spec fn url_parse(input: Seq<char>) -> Option<Seq<char>>;

/// The `Display` text of the `url::ParseError` that `url::Url::parse` reports
/// for `input`.
pub uninterp spec fn url_parse_error_text(input: Seq<char>) -> Seq<char>;

/// The host text (`url::Url::host_str`) of the URL that `serialization` parses
/// to; `None` where it has no host or does not parse.
pub uninterp spec fn url_host(serialization: Seq<char>) -> Option<Seq<char>>;

/// The explicit port (`url::Url::port`) of the URL that `serialization` parses
/// to; `None` where it names no port, names the scheme's default port, or does
/// not parse.
pub uninterp spec fn url_port(serialization: Seq<char>) -> Option<u16>;

/// The serialization of the URL that `serialization` parses to after
/// `url::Url::path_segments_mut` and `extend` with the one segment `segment`;
/// `None` where the URL cannot be a base (it has no path segments to extend) or
/// does not parse.
pub uninterp spec fn url_push_segment(serialization: Seq<char>, segment: Seq<char>) -> Option<Seq<char>>;

/// The view of an optional text.
pub open spec fn opt_text(text: Option<String>) -> Option<Seq<char>> {
    match text {
        Some(t) => Some(t@),
        None => None,
    }
}

/// Parses a URL with `url::Url::parse` and gives back its serialization
/// (`String::from(url)`), or the `Display` text of the parse error. Claims: the
/// result is the one `url_parse` names for the input, an error exactly where
/// that name is `None`, and the error text is the one `url_parse_error_text`
/// names.
#[verifier::external_body]
pub(crate) fn parse_url(input: &str) -> (parsed: Result<String, String>)
    ensures
        parsed matches Ok(s) ==> url_parse(input@) == Some(s@),
        parsed matches Err(t) ==> url_parse(input@) is None && t@ == url_parse_error_text(input@),
{
    match url::Url::parse(input) {
        Ok(url) => Ok(String::from(url)),
        Err(e) => Err(e.to_string()),
    }
}

/// The host of a URL given by its serialization: `url::Url::host_str` after
/// `url::Url::parse`. Claims: the result is the one `url_host` names.
#[verifier::external_body]
pub(crate) fn host_of(serialization: &str) -> (host: Option<String>)
    ensures
        opt_text(host) == url_host(serialization@),
{
    match url::Url::parse(serialization) {
        Ok(url) => url.host_str().map(String::from),
        Err(_) => None,
    }
}

/// The explicit port of a URL given by its serialization: `url::Url::port`
/// after `url::Url::parse`. Claims: the result is the one `url_port` names.
#[verifier::external_body]
pub(crate) fn port_of(serialization: &str) -> (port: Option<u16>)
    ensures
        port == url_port(serialization@),
{
    match url::Url::parse(serialization) {
        Ok(url) => url.port(),
        Err(_) => None,
    }
}

/// Appends one path segment to a URL given by its serialization:
/// `url::Url::path_segments_mut` and `extend`, after `url::Url::parse`.
/// Claims: the result is the one `url_push_segment` names.
#[verifier::external_body]
pub(crate) fn push_segment(serialization: &str, segment: &str) -> (extended: Option<String>)
    ensures
        opt_text(extended) == url_push_segment(serialization@, segment@),
{
    let mut url = match url::Url::parse(serialization) {
        Ok(url) => url,
        Err(_) => return None,
    };
    match url.path_segments_mut() {
        Ok(mut segments) => { segments.extend([segment]); }
        Err(()) => return None,
    }
    Some(String::from(url))
}

} // verus!
