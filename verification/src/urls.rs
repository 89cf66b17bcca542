//! Link resolution against the source page.
//!
//! URLs live in the pipeline as plain strings holding the serialization that
//! the URL collaborator produced. Parsing, joining and query building are the
//! collaborator's; which of them is consulted, and what happens to an item
//! whose link resolves to nothing, is verified here.

use vstd::prelude::*;

verus! {

/// What `url::Url::parse` returns for the given text: the normalized
/// serialization of the URL, or nothing when the text is not a valid absolute
/// URL.
pub uninterp spec fn parsed_abs_url(s: Seq<char>) -> Option<Seq<char>>;

/// Relies on url::Url::parse: succeeds exactly when the text is a valid
/// absolute URL, returning its normalized serialization; deterministic in the
/// text alone.
#[verifier::external_body]
pub(crate) fn parse_abs_url(s: &str) -> (r: Option<String>)
    ensures
        r is Some <==> parsed_abs_url(s@) is Some,
        r matches Some(u) ==> u@ == parsed_abs_url(s@).unwrap(),
{
    url::Url::parse(s).ok().map(String::from)
}

/// What joining `href` as a reference against the URL serialized as `base`
/// yields: the serialization of the joined URL, or nothing when `base` does
/// not parse or the join fails.
pub uninterp spec fn joined_url(base: Seq<char>, href: Seq<char>) -> Option<Seq<char>>;

/// Relies on url::Url::join (with url::Url::parse to reconstruct the base from
/// its serialization): resolves `href` as a URL reference against `base`;
/// deterministic in the two texts alone.
#[verifier::external_body]
pub(crate) fn join_url(base: &str, href: &str) -> (r: Option<String>)
    ensures
        r is Some <==> joined_url(base@, href@) is Some,
        r matches Some(u) ==> u@ == joined_url(base@, href@).unwrap(),
{
    let base = match url::Url::parse(base) {
        Ok(base) => base,
        Err(_) => return None,
    };
    base.join(href).ok().map(String::from)
}

/// How an extracted `href` resolves against the source URL: text that already
/// parses as an absolute URL is taken as it is; anything else is joined
/// against the source URL as a relative reference; an item whose text does
/// neither has no link.
pub open spec fn resolved_url(base: Seq<char>, href: Seq<char>) -> Option<Seq<char>> {
    if parsed_abs_url(href) is Some {
        parsed_abs_url(href)
    } else {
        joined_url(base, href)
    }
}

/// Resolves an extracted `href` into an absolute URL: absolute text is passed
/// through (normalized), relative text is joined against `base`.
pub fn resolve_url(base: &str, href: &str) -> (r: Option<String>)
    ensures
        r is Some <==> resolved_url(base@, href@) is Some,
        r matches Some(u) ==> u@ == resolved_url(base@, href@).unwrap(),
{
    match parse_abs_url(href) {
        Some(u) => Some(u),
        None => join_url(base, href),
    }
}

/// What appending one key/value pair to the query of the URL serialized as `u`
/// yields: the serialization of the extended URL, or nothing when `u` does not
/// parse.
pub uninterp spec fn appended_pair(u: Seq<char>, key: Seq<char>, value: Seq<char>) -> Option<
    Seq<char>,
>;

/// Relies on url::Url::query_pairs_mut / form_urlencoded::Serializer::
/// append_pair (with url::Url::parse to reconstruct the URL from its
/// serialization): appends one percent-encoded key=value pair to the query;
/// deterministic in the three texts alone.
#[verifier::external_body]
pub(crate) fn append_query_pair(u: &str, key: &str, value: &str) -> (r: Option<String>)
    ensures
        r is Some <==> appended_pair(u@, key@, value@) is Some,
        r matches Some(e) ==> e@ == appended_pair(u@, key@, value@).unwrap(),
{
    let mut parsed = match url::Url::parse(u) {
        Ok(parsed) => parsed,
        Err(_) => return None,
    };
    parsed.query_pairs_mut().append_pair(key, value);
    Some(String::from(parsed))
}

} // verus!
