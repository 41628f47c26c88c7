use vstd::prelude::*;

use crate::types::RelayError;

verus! {

#[verifier::external_type_specification]
#[verifier::external_body]
pub struct ExUrl(url::Url);

#[verifier::external_type_specification]
#[verifier::external_body]
pub struct ExParseError(url::ParseError);

/// A parsed URL, with what the relay reads of it: its text, its host and
/// whether it can be a base.
#[derive(Debug)]
pub struct ParsedUrl {
    inner: url::Url,
    text: String,
    host: Option<String>,
    cannot_be_a_base: bool,
}

pub struct UrlView {
    pub text: Seq<char>,
    pub host: Option<Seq<char>>,
    pub cannot_be_a_base: bool,
}

pub open spec fn opt_view(o: Option<String>) -> Option<Seq<char>> {
    match o {
        Some(s) => Some(s@),
        None => None,
    }
}

impl View for ParsedUrl {
    type V = UrlView;

    closed spec fn view(&self) -> UrlView {
        UrlView {
            text: self.text@,
            host: opt_view(self.host),
            cannot_be_a_base: self.cannot_be_a_base,
        }
    }
}

/// The URL written in `s`, if `s` holds one.
pub uninterp spec fn parsed_url(s: Seq<char>) -> Option<UrlView>;

/// The URL with its path segments cleared.
pub uninterp spec fn path_cleared(v: UrlView) -> UrlView;

/// The URL with its query removed.
pub uninterp spec fn query_removed(v: UrlView) -> UrlView;

/// The instance base of a URL: no path segments and no query.
pub open spec fn base_of(v: UrlView) -> UrlView {
    query_removed(path_cleared(v))
}

/// Relies on `url::Url::parse`, read back through `as_str`, `host_str` and
/// `cannot_be_a_base`: the result depends on the text alone.
#[verifier::external_body]
fn parse_url(s: &str) -> (r: Result<ParsedUrl, url::ParseError>)
    ensures
        match r {
            Ok(u) => parsed_url(s@) == Some(u@),
            Err(_) => parsed_url(s@) is None,
        },
{
    url::Url::parse(s).map(|inner| ParsedUrl {
        text: inner.as_str().to_string(),
        host: inner.host_str().map(|h| h.to_string()),
        cannot_be_a_base: inner.cannot_be_a_base(),
        inner,
    })
}

/// Relies on `url::Url::path_segments_mut` and `PathSegmentsMut::clear`,
/// which succeed on a URL that can be a base, cut only its path, and leave
/// its host alone.
#[verifier::external_body]
fn clear_path(u: ParsedUrl) -> (r: ParsedUrl)
    requires
        !u@.cannot_be_a_base,
    ensures
        r@ == path_cleared(u@),
        r@.host == u@.host,
        r@.cannot_be_a_base == u@.cannot_be_a_base,
{
    let mut inner = u.inner;
    if let Ok(mut segments) = inner.path_segments_mut() {
        segments.clear();
    }
    let text = inner.as_str().to_string();
    let host = inner.host_str().map(|h| h.to_string());
    ParsedUrl { cannot_be_a_base: inner.cannot_be_a_base(), inner, text, host }
}

/// Relies on `url::Url::set_query` with `None`, which removes the query and
/// leaves the host alone.
#[verifier::external_body]
fn clear_query(u: ParsedUrl) -> (r: ParsedUrl)
    ensures
        r@ == query_removed(u@),
        r@.host == u@.host,
        r@.cannot_be_a_base == u@.cannot_be_a_base,
{
    let mut inner = u.inner;
    inner.set_query(None);
    let text = inner.as_str().to_string();
    let host = inner.host_str().map(|h| h.to_string());
    ParsedUrl { cannot_be_a_base: inner.cannot_be_a_base(), inner, text, host }
}

impl ParsedUrl {
    /// The text of the URL.
    pub fn as_str(&self) -> (r: &str)
        ensures
            r@ == self@.text,
    {
        self.text.as_str()
    }

    /// The host of the URL, if it has one.
    pub fn host(&self) -> (r: Option<String>)
        ensures
            opt_view(r) == self@.host,
    {
        match &self.host {
            Some(h) => Some(h.clone()),
            None => None,
        }
    }

    pub fn cannot_be_a_base(&self) -> (r: bool)
        ensures
            r == self@.cannot_be_a_base,
    {
        self.cannot_be_a_base
    }
}

/// The URL written in `s`, if it holds one.
pub fn parse(s: &str) -> (r: Option<ParsedUrl>)
    ensures
        match parsed_url(s@) {
            Some(v) => r is Some && r->Some_0@ == v,
            None => r is None,
        },
{
    match parse_url(s) {
        Ok(u) => Some(u),
        Err(_) => None,
    }
}

/// Drops the path and the query of `url`, which must be able to be a base.
pub fn base_url(url: ParsedUrl) -> (r: Result<ParsedUrl, RelayError>)
    ensures
        url@.cannot_be_a_base ==> r == Err::<ParsedUrl, RelayError>(RelayError::CannotBeABase),
        !url@.cannot_be_a_base ==> r is Ok && r->Ok_0@ == base_of(url@),
{
    if url.cannot_be_a_base() {
        return Err(RelayError::CannotBeABase);
    }
    Ok(clear_query(clear_path(url)))
}

/// The base URL of the instance that `input` points into.
pub fn extract_instance_url(input: &str) -> (r: Result<ParsedUrl, RelayError>)
    ensures
        match parsed_url(input@) {
            None => r == Err::<ParsedUrl, RelayError>(RelayError::InvalidUrl),
            Some(v) => if v.cannot_be_a_base {
                r == Err::<ParsedUrl, RelayError>(RelayError::CannotBeABase)
            } else {
                r is Ok && r->Ok_0@ == base_of(v)
            },
        },
{
    match parse_url(input) {
        Ok(u) => base_url(u),
        Err(_) => Err(RelayError::InvalidUrl),
    }
}

} // verus!
