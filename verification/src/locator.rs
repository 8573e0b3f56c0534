//! Absolute URLs as text, and the few operations on them that planning needs.

use vstd::prelude::*;

verus! {

/// `url::ParseError`, the error of the URL parser. Nothing of it is looked
/// at: it is carried to the error of the job.
#[verifier::external_type_specification]
#[verifier::external_body]
pub struct ExParseError(url::ParseError);

/// The serialization of the absolute URL that `input` parses to; `None` where
/// `input` is no absolute URL.
pub uninterp spec fn url_parsed(input: Seq<char>) -> Option<Seq<char>>;

/// The URL that `reference` denotes relative to the URL `base`; `None` where
/// either of them cannot be parsed.
pub uninterp spec fn url_joined(base: Seq<char>, reference: Seq<char>) -> Option<Seq<char>>;

/// The URL `base` with its path replaced by `path`; `None` where `base` is no
/// absolute URL.
pub uninterp spec fn url_with_path(base: Seq<char>, path: Seq<char>) -> Option<Seq<char>>;

/// The URL `base` with the pair `key=value` appended to its query; `None`
/// where `base` is no absolute URL.
pub uninterp spec fn url_with_pair(base: Seq<char>, key: Seq<char>, value: Seq<char>) -> Option<
    Seq<char>,
>;

/// `Url::parse`, followed by the serialization of the URL it returns. The
/// result is a function of the input text alone.
#[verifier::external_body]
pub(crate) fn parse(input: &str) -> (r: Result<String, url::ParseError>)
    ensures
        r is Ok <==> url_parsed(input@) is Some,
        r matches Ok(u) ==> url_parsed(input@) == Some(u@),
{
    url::Url::parse(input).map(String::from)
}

/// `Url::join` on the URL that `Url::parse` makes of `base`, followed by the
/// serialization of the URL it returns. An error of either step is
/// returned. The result is a function of the two texts alone.
#[verifier::external_body]
pub(crate) fn join(base: &str, reference: &str) -> (r: Result<String, url::ParseError>)
    ensures
        r is Ok <==> url_joined(base@, reference@) is Some,
        r matches Ok(u) ==> url_joined(base@, reference@) == Some(u@),
{
    url::Url::parse(base)?.join(reference).map(String::from)
}

/// `Url::set_path` on the URL that `Url::parse` makes of `base`, followed by
/// the serialization of the changed URL. An error of the parser is returned.
/// The result is a function of the two texts alone.
#[verifier::external_body]
pub(crate) fn with_path(base: &str, path: &str) -> (r: Result<String, url::ParseError>)
    ensures
        r is Ok <==> url_with_path(base@, path@) is Some,
        r matches Ok(u) ==> url_with_path(base@, path@) == Some(u@),
{
    let mut target = url::Url::parse(base)?;
    target.set_path(path);
    Ok(String::from(target))
}

/// `Url::query_pairs_mut` on the URL that `Url::parse` makes of `base`, then
/// `append_pair` on the serializer it hands out, followed by the
/// serialization of the changed URL. An error of the parser is returned. The
/// result is a function of the three texts alone.
#[verifier::external_body]
pub(crate) fn with_pair(base: &str, key: &str, value: &str) -> (r: Result<
    String,
    url::ParseError,
>)
    ensures
        r is Ok <==> url_with_pair(base@, key@, value@) is Some,
        r matches Ok(u) ==> url_with_pair(base@, key@, value@) == Some(u@),
{
    let mut target = url::Url::parse(base)?;
    target.query_pairs_mut().append_pair(key, value);
    Ok(String::from(target))
}

} // verus!
