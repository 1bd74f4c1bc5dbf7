use vstd::prelude::*;

verus! {

#[verifier::external_type_specification]
#[verifier::external_body]
pub struct ExUrl(url::Url);

/// The serialized text of a parsed URL.
pub uninterp spec fn url_text(u: url::Url) -> Seq<char>;

/// The serialized text of the URL that the given text parses to, if it parses
/// at all; the result depends on the text alone.
pub uninterp spec fn url_parse_of(s: Seq<char>) -> Option<Seq<char>>;

/// The serialized text of a relative reference resolved against a base URL's
/// text, if the resolution succeeds; the result depends on the texts alone.
pub uninterp spec fn url_join_of(base: Seq<char>, rel: Seq<char>) -> Option<Seq<char>>;

/// Relies on `url::Url::parse`: validates and normalizes absolute-URL text.
#[verifier::external_body]
pub fn parse_url(s: &str) -> (r: Option<url::Url>)
    ensures
        match r {
            Some(u) => url_parse_of(s@) == Some(url_text(u)),
            None => url_parse_of(s@) is None,
        },
{
    url::Url::parse(s).ok()
}

/// Relies on `url::Url::join`: resolves a relative reference against a base.
#[verifier::external_body]
pub fn join_url(base: &url::Url, rel: &str) -> (r: Option<url::Url>)
    ensures
        match r {
            Some(u) => url_join_of(url_text(*base), rel@) == Some(url_text(u)),
            None => url_join_of(url_text(*base), rel@) is None,
        },
{
    base.join(rel).ok()
}

/// Relies on `url::Url::as_str`: the URL's serialized text.
#[verifier::external_body]
pub fn url_to_string(u: &url::Url) -> (r: String)
    ensures
        r@ == url_text(*u),
{
    String::from(u.as_str())
}

/// Whether the text is a well-formed RFC 3339 timestamp; the answer depends
/// on the text alone.
pub uninterp spec fn rfc3339_ok(s: Seq<char>) -> bool;

/// Relies on `chrono::DateTime::parse_from_rfc3339` (see `rfc3339_ok`).
#[verifier::external_body]
pub fn rfc3339_valid(s: &str) -> (r: bool)
    ensures
        r == rfc3339_ok(s@),
{
    chrono::DateTime::parse_from_rfc3339(s).is_ok()
}

} // verus!
