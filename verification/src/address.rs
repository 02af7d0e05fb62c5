//! Request addresses. Parsing and hierarchical resolution are the `url`
//! crate's; this module hands it strings and takes strings back.

use vstd::prelude::*;
use vstd::string::StringExecFns;

use crate::error::DDragonClientError;

verus! {

/// The serialisation `url::Url::parse` gives for `input`, or `None` where it
/// rejects the input.
pub uninterp spec fn url_parse(input: Seq<char>) -> Option<Seq<char>>;

/// The serialisation of `reference` resolved against `base` by
/// `url::Url::join`, or `None` where `base` is no absolute URL or the
/// resolution is rejected.
pub uninterp spec fn url_join(base: Seq<char>, reference: Seq<char>) -> Option<Seq<char>>;

/// Calls `url::Url::parse` and returns the parsed URL's serialisation.
///
/// Trusted: the outcome is the function `url_parse` of the input text alone.
#[verifier::external_body]
pub(crate) fn parse_url(input: &str) -> (r: Result<String, url::ParseError>)
    ensures
        match r {
            Ok(text) => url_parse(input@) == Some(text@),
            Err(_) => url_parse(input@) is None,
        },
{
    url::Url::parse(input).map(String::from)
}

/// Reads `base` back into a `url::Url` and calls `url::Url::join` on it with
/// `reference`, returning the resolved URL's serialisation.
///
/// Trusted: the outcome is the function `url_join` of the two texts alone, and
/// it is an error where `base` does not parse.
#[verifier::external_body]
pub(crate) fn join_url(base: &str, reference: &str) -> (r: Result<String, url::ParseError>)
    ensures
        match r {
            Ok(text) => url_join(base@, reference@) == Some(text@),
            Err(_) => url_join(base@, reference@) is None,
        },
{
    url::Url::parse(base)?.join(reference).map(String::from)
}

/// The path of the version list, relative to the service's root.
pub const VERSIONS_PATH: &'static str = "/api/versions.json";

/// The path under which the documents of `version` are published: the one
/// supported locale is fixed, and the path ends in a slash so that file names
/// resolve below it.
pub open spec fn data_path(version: Seq<char>) -> Seq<char> {
    "/cdn/"@ + version + "/data/en_US/"@
}

/// The address of the document root of `version` at `base`.
pub open spec fn data_root(base: Seq<char>, version: Seq<char>) -> Option<Seq<char>> {
    url_join(base, data_path(version))
}

/// The address of the document `endpoint` of `version` at `base`: the endpoint
/// resolved against the document root, which is resolved against the base.
pub open spec fn document_address(
    base: Seq<char>,
    version: Seq<char>,
    endpoint: Seq<char>,
) -> Option<Seq<char>> {
    match data_root(base, version) {
        Some(root) => url_join(root, endpoint),
        None => None,
    }
}

/// Builds the text of `data_path` for `version`.
pub fn build_data_path(version: &str) -> (path: String)
    ensures
        path@ == data_path(version@),
{
    String::from_str("/cdn/").concat(version).concat("/data/en_US/")
}

/// The document path is the version between two fixed texts, whatever the
/// version: it starts at the root, names the one locale and ends in a slash.
pub proof fn data_path_shape(version: Seq<char>)
    ensures
        data_path(version).len() == version.len() + 17,
        data_path(version).subrange(0, 5) == "/cdn/"@,
        data_path(version).subrange(5, 5 + version.len() as int) == version,
        data_path(version).subrange(5 + version.len() as int, 17 + version.len() as int)
            == "/data/en_US/"@,
        data_path(version)[0] == '/',
        data_path(version).last() == '/',
{
    reveal_strlit("/cdn/");
    reveal_strlit("/data/en_US/");
    let path = data_path(version);
    assert(path.len() == version.len() + 17);
    assert(path.subrange(0, 5) =~= "/cdn/"@);
    assert(path.subrange(5, 5 + version.len() as int) =~= version);
    assert(path.subrange(5 + version.len() as int, 17 + version.len() as int) =~= "/data/en_US/"@);
}

/// Checks that `input` is an absolute URL and returns its normal form.
pub fn normalize(input: &str) -> (r: Result<String, DDragonClientError>)
    ensures
        match r {
            Ok(text) => url_parse(input@) == Some(text@),
            Err(e) => url_parse(input@) is None && e is UrlParse,
        },
{
    match parse_url(input) {
        Ok(text) => Ok(text),
        Err(e) => Err(DDragonClientError::UrlParse(e)),
    }
}

/// Resolves `reference` against `base` by the rules of hierarchical URLs.
pub fn resolve(base: &str, reference: &str) -> (r: Result<String, DDragonClientError>)
    ensures
        match r {
            Ok(text) => url_join(base@, reference@) == Some(text@),
            Err(e) => url_join(base@, reference@) is None && e is UrlParse,
        },
{
    match join_url(base, reference) {
        Ok(text) => Ok(text),
        Err(e) => Err(DDragonClientError::UrlParse(e)),
    }
}

} // verus!
