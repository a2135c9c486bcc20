use vstd::prelude::*;

verus! {

#[verifier::external_type_specification]
#[verifier::external_body]
pub struct ExParseError(url::ParseError);

/// The serialization of the URL that `url::Url::parse` makes of `s`, or
/// `None` where it refuses `s`.
pub uninterp spec fn parsed_url(s: Seq<char>) -> Option<Seq<char>>;

/// The serialization of the URL that `url::Url::join` makes of `rel`
/// against the URL parsed from `base`, or `None` where either step fails.
pub uninterp spec fn joined_url(base: Seq<char>, rel: Seq<char>) -> Option<Seq<char>>;

/// Relies on `url::Url::parse`: it succeeds or fails on the text alone, and
/// the parsed URL's serialization depends on the text alone.
#[verifier::external_body]
pub(crate) fn parse_url(s: &str) -> (r: Result<String, url::ParseError>)
    ensures
        r is Ok <==> parsed_url(s@) is Some,
        r is Ok ==> r->Ok_0@ == parsed_url(s@)->0,
{
    url::Url::parse(s).map(String::from)
}

/// Relies on `url::Url::join` (on the URL that `url::Url::parse` makes of
/// `base`): the outcome depends on the two texts alone.
#[verifier::external_body]
pub(crate) fn join_url(base: &str, rel: &str) -> (r: Result<String, url::ParseError>)
    ensures
        r is Ok <==> joined_url(base@, rel@) is Some,
        r is Ok ==> r->Ok_0@ == joined_url(base@, rel@)->0,
{
    url::Url::parse(base).and_then(|u| u.join(rel)).map(String::from)
}

} // verus!
