//! Endpoint addresses, built with the `url` crate.

use vstd::prelude::*;
use vstd::string::{StrSliceExecFns, StringExecFns};

verus! {

/// `url::ParseError`, the reason `Url::parse` refused an input.
#[verifier::external_type_specification]
#[verifier::external_body]
pub struct ExParseError(url::ParseError);

/// The serialization of the URL that `Url::parse` makes of `input`, or `None`
/// where it returns an error. The WHATWG parsing rules take pages; the result
/// depends on the input alone.
pub uninterp spec fn parsed_url(input: Seq<char>) -> Option<Seq<char>>;

/// The serialization of `url` after one path segment was appended with
/// `Url::path_segments_mut().push(segment)`, or `None` where `url` does not
/// parse or is a cannot-be-a-base URL. A function of its two arguments alone.
pub uninterp spec fn url_with_segment(url: Seq<char>, segment: Seq<char>) -> Option<Seq<char>>;

/// Calls `url::Url::parse` and hands back the serialization (`String::from(Url)`)
/// of what it parsed. Claimed: `Ok` exactly where `parsed_url` is `Some`, and
/// then the serialization that `parsed_url` names. Which `ParseError` comes
/// back on a failure is not stated.
#[verifier::external_body]
pub(crate) fn parse_url(input: &str) -> (res: Result<String, url::ParseError>)
    ensures
        res is Ok <==> parsed_url(input@) is Some,
        res matches Ok(s) ==> parsed_url(input@) == Some(s@),
{
    url::Url::parse(input).map(String::from)
}

/// Parses `url` with `url::Url::parse`, appends `segment` through
/// `Url::path_segments_mut` and `PathSegmentsMut::push` (which percent-encodes
/// it), and hands back the serialization. Claimed: the result is what
/// `url_with_segment` names.
///
/// `url` must be a serialization that `Url::parse` gives back unchanged, so
/// that the URL the body works on is exactly `url`, of at most four bytes a
/// character. The length bound then keeps the serialization within the `u32`
/// offsets that the crate keeps (it unwraps them, and panics past them): the
/// new serialization holds the old one, a slash, and the segment with each
/// byte percent-encoded into at most three.
#[verifier::external_body]
pub(crate) fn push_path_segment(url: &str, segment: &str) -> (res: Option<String>)
    requires
        parsed_url(url@) == Some(url@),
        4 * url@.len() + 12 * segment@.len() + 1 <= u32::MAX,
    ensures
        res is Some <==> url_with_segment(url@, segment@) is Some,
        res matches Some(s) ==> url_with_segment(url@, segment@) == Some(s@),
{
    let mut parsed = url::Url::parse(url).ok()?;
    parsed.path_segments_mut().ok()?.push(segment);
    Some(parsed.into())
}

/// Why an endpoint address could not be built.
pub enum UrlError {
    /// `Url::parse` refused the base address.
    UrlParsing(url::ParseError),
    /// The address takes no path segments (a cannot-be-a-base URL).
    CannotBeABase,
    /// The address parses, but not to itself: it is not written the way the
    /// `url` crate writes URLs.
    NotSerialized,
    /// The address would pass the 4 GB that the `url` crate supports.
    TooLong,
}

/// The number of characters up to which `append_segment` takes an address.
pub const URL_CHAR_LIMIT: usize = 900_000_000;

/// The number of characters up to which `append_segment` takes a segment.
pub const SEGMENT_CHAR_LIMIT: usize = 50_000_000;

/// The address that `parse_url` gives for `input`, with its error mapped to `UrlError`.
pub open spec fn parse_outcome(input: Seq<char>, res: Result<String, UrlError>) -> bool {
    match res {
        Ok(s) => parsed_url(input) == Some(s@),
        Err(e) => parsed_url(input) is None && e is UrlParsing,
    }
}

/// Parses an absolute address; the error comes back as `UrlError::UrlParsing`.
pub fn absolute_url(input: &str) -> (res: Result<String, UrlError>)
    ensures
        parse_outcome(input@, res),
{
    match parse_url(input) {
        Ok(s) => Ok(s),
        Err(e) => Err(UrlError::UrlParsing(e)),
    }
}

/// `segment` appended to `url` as `url_with_segment` names it, or
/// `CannotBeABase` where it names nothing.
pub open spec fn segment_outcome(url: Seq<char>, segment: Seq<char>, res: Result<String, UrlError>) -> bool {
    match url_with_segment(url, segment) {
        Some(u) => (res matches Ok(s) && s@ == u),
        None => (res matches Err(e) && e is CannotBeABase),
    }
}

/// Whether `append_segment` takes `url` and `segment` in by their lengths.
pub open spec fn segment_fits(url: Seq<char>, segment: Seq<char>) -> bool {
    url.len() <= URL_CHAR_LIMIT && segment.len() <= SEGMENT_CHAR_LIMIT
}

/// What `append_segment` gives for `url` and `segment`: `TooLong` past the
/// length limits; else `UrlParsing` where `url` does not parse,
/// `NotSerialized` where it parses to another text; else the address with
/// the segment appended, or `CannotBeABase`.
pub open spec fn append_outcome(url: Seq<char>, segment: Seq<char>, res: Result<String, UrlError>) -> bool {
    if !segment_fits(url, segment) {
        res matches Err(e) && e is TooLong
    } else {
        match parsed_url(url) {
            None => (res matches Err(e) && e is UrlParsing),
            Some(p) => if p != url {
                res matches Err(e) && e is NotSerialized
            } else {
                segment_outcome(url, segment, res)
            },
        }
    }
}

/// Appends `segment` to the address `url`, which must be written as the
/// `url` crate writes it (as `absolute_url` hands addresses out).
pub fn append_segment(url: &str, segment: &str) -> (res: Result<String, UrlError>)
    ensures
        append_outcome(url@, segment@, res),
{
    if url.unicode_len() > URL_CHAR_LIMIT || segment.unicode_len() > SEGMENT_CHAR_LIMIT {
        return Err(UrlError::TooLong);
    }
    let reparsed = match parse_url(url) {
        Ok(p) => p,
        Err(e) => return Err(UrlError::UrlParsing(e)),
    };
    if reparsed != String::from_str(url) {
        return Err(UrlError::NotSerialized);
    }
    match push_path_segment(url, segment) {
        Some(s) => Ok(s),
        None => Err(UrlError::CannotBeABase),
    }
}

} // verus!
