//! URLs as text, with the operations of the `url` crate on them.

use crate::text::{pair_views, text_view, text_views};
use vstd::prelude::*;

verus! {

/// The longest text, in bytes, that is handed to an operation that edits a URL.
pub const MAX_TEXT_BYTES: usize = 0x00ff_ffff;

/// Whether `text` is short enough to be edited as a URL or as a part of one.
pub open spec fn fits(text: Seq<char>) -> bool {
    vstd::utf8::encode_utf8(text).len() <= MAX_TEXT_BYTES
}

/// Decides whether `text` is short enough to be edited as a URL.
pub fn check_fits(text: &str) -> (res: bool)
    ensures
        res == fits(text@),
{
    text.as_bytes().len() <= MAX_TEXT_BYTES
}

/// `url::ParseError`, the error of `url::Url::parse`: carried, never looked
/// into.
#[verifier::external_type_specification]
#[verifier::external_body]
pub struct ExUrlParseError(url::ParseError);

/// The serialization of the URL that `url::Url::parse` reads from `text`, or
/// `None` where it reports an error.
pub uninterp spec fn url_of(text: Seq<char>) -> Option<Seq<char>>;

/// The serialization of the URL `url` after `url::Url::set_scheme` has
/// accepted `scheme`; `None` where `url` is no URL or the scheme is refused.
pub uninterp spec fn url_with_scheme(url: Seq<char>, scheme: Seq<char>) -> Option<Seq<char>>;

/// The serialization of the URL `url` after `url::Url::set_host` has accepted
/// `host`; `None` where `url` is no URL or the host is refused.
pub uninterp spec fn url_with_host(url: Seq<char>, host: Seq<char>) -> Option<Seq<char>>;

/// The path segments that `url::Url::path_segments` gives for the URL `url`,
/// in order; `None` where `url` is no URL or cannot be a base.
pub uninterp spec fn url_path_segments(url: Seq<char>) -> Option<Seq<Seq<char>>>;

/// The serialization of the URL that `url::Url::parse_with_params` builds from
/// `base` and the query pairs `pairs`; `None` where `base` is no URL.
pub uninterp spec fn url_with_query(base: Seq<char>, pairs: Seq<(Seq<char>, Seq<char>)>) -> Option<
    Seq<char>,
>;

/// Calls `url::Url::parse` and gives the URL back as its serialization. The
/// contract names that text; it claims that the same input always parses to
/// the same URL, and that an error comes exactly where there is none.
#[verifier::external_body]
pub(crate) fn parse_url(text: &str) -> (res: Result<String, url::ParseError>)
    ensures
        res is Ok <==> url_of(text@) is Some,
        res matches Ok(parsed) ==> url_of(text@) == Some(parsed@),
{
    url::Url::parse(text).map(String::from)
}

/// Calls `url::Url::set_scheme` on the URL that `url` parses to and gives the
/// changed URL back as its serialization, or `None` where `url` does not parse
/// or the call returns an error. The contract names that result. The bounds
/// keep the offsets inside the URL within 32 bits, as the crate expects.
#[verifier::external_body]
pub(crate) fn set_url_scheme(url: &str, scheme: &str) -> (res: Option<String>)
    requires
        fits(url@),
        fits(scheme@),
    ensures
        text_view(res) == url_with_scheme(url@, scheme@),
{
    let mut parsed = url::Url::parse(url).ok()?;
    parsed.set_scheme(scheme).ok()?;
    Some(String::from(parsed))
}

/// Calls `url::Url::set_host` with `Some(host)` on the URL that `url` parses to
/// and gives the changed URL back as its serialization, or `None` where `url`
/// does not parse or the call returns an error. The contract names that
/// result. The bounds keep the offsets inside the URL within 32 bits.
#[verifier::external_body]
pub(crate) fn set_url_host(url: &str, host: &str) -> (res: Option<String>)
    requires
        fits(url@),
        fits(host@),
    ensures
        text_view(res) == url_with_host(url@, host@),
{
    let mut parsed = url::Url::parse(url).ok()?;
    parsed.set_host(Some(host)).ok()?;
    Some(String::from(parsed))
}

/// Calls `url::Url::path_segments` on the URL that `url` parses to and collects
/// the segments, or gives `None` where `url` does not parse or the call
/// returns `None`. The contract names that result.
#[verifier::external_body]
pub(crate) fn path_segments(url: &str) -> (res: Option<Vec<String>>)
    ensures
        res is Some <==> url_path_segments(url@) is Some,
        res matches Some(segments) ==> url_path_segments(url@) == Some(text_views(segments@)),
{
    let parsed = url::Url::parse(url).ok()?;
    let segments = parsed.path_segments()?;
    Some(segments.map(String::from).collect())
}

/// Calls `url::Url::parse_with_params` and gives the URL back as its
/// serialization. The contract names that text, and claims that an error
/// comes exactly where there is none. The bounds keep the URL within the
/// 32-bit offsets that the crate expects.
#[verifier::external_body]
pub(crate) fn parse_url_with_params(base: &str, pairs: &Vec<(String, String)>) -> (res: Result<
    String,
    url::ParseError,
>)
    requires
        fits(base@),
        pairs@.len() <= 8,
        forall|i: int|
            0 <= i < pairs@.len() ==> fits((#[trigger] pairs@[i]).0@) && fits(pairs@[i].1@),
    ensures
        res is Ok <==> url_with_query(base@, pair_views(pairs@)) is Some,
        res matches Ok(built) ==> url_with_query(base@, pair_views(pairs@)) == Some(built@),
{
    url::Url::parse_with_params(base, pairs.iter()).map(String::from)
}

} // verus!
