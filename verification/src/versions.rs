//! Version resolution: from the published version list to the one version
//! that scopes every later request.

use vstd::prelude::*;

use crate::error::{DDragonClientError, Reply};

verus! {

/// The list of strings that `serde_json::from_str` decodes `text` into, or
/// `None` where `text` is not a JSON array of strings.
pub uninterp spec fn json_string_list(text: Seq<char>) -> Option<Seq<Seq<char>>>;

/// The texts of a list of strings.
pub open spec fn texts(list: Seq<String>) -> Seq<Seq<char>> {
    Seq::new(list.len(), |i: int| list[i]@)
}

/// Calls `serde_json::from_str` with a list of strings as the target.
///
/// Trusted: the outcome is the function `json_string_list` of the text alone.
#[verifier::external_body]
pub(crate) fn decode_string_list(text: &str) -> (r: Result<Vec<String>, serde_json::Error>)
    ensures
        match r {
            Ok(list) => json_string_list(text@) == Some(texts(list@)),
            Err(_) => json_string_list(text@) is None,
        },
{
    serde_json::from_str::<Vec<String>>(text)
}

/// The version that a published list selects: its first entry, which the
/// publisher documents as the newest.
pub open spec fn newest(list: Seq<Seq<char>>) -> Option<Seq<char>> {
    if list.len() == 0 {
        None
    } else {
        Some(list[0])
    }
}

/// The version that a reply to the version-list request resolves to, where it
/// resolves to one.
pub open spec fn resolved(reply: Reply) -> Option<Seq<char>> {
    match reply {
        Reply::Body(text) => match json_string_list(text@) {
            Some(list) => newest(list),
            None => None,
        },
        _ => None,
    }
}

/// Selects the newest version of a published list.
///
/// Succeeds on every list with at least one entry, whatever follows the first;
/// fails with `NoLatestVersion` on the empty list and on no other.
pub fn latest_version(list: Vec<String>) -> (r: Result<String, DDragonClientError>)
    ensures
        match r {
            Ok(version) => newest(texts(list@)) == Some(version@),
            Err(e) => list@.len() == 0 && e is NoLatestVersion,
        },
{
    if list.len() == 0 {
        Err(DDragonClientError::NoLatestVersion)
    } else {
        Ok(list[0].clone())
    }
}

/// Decodes the text of a version list.
pub fn decode_versions(text: &str) -> (r: Result<Vec<String>, DDragonClientError>)
    ensures
        match r {
            Ok(list) => json_string_list(text@) == Some(texts(list@)),
            Err(e) => json_string_list(text@) is None && e is JSONParse,
        },
{
    match decode_string_list(text) {
        Ok(list) => Ok(list),
        Err(e) => Err(DDragonClientError::JSONParse(e)),
    }
}

/// Whether `e` is the error that a reply which resolves to no version ends in:
/// a failed request, an unreadable body, a body that is no list of strings
/// and an empty list each have their own.
pub open spec fn refusal(reply: Reply, e: DDragonClientError) -> bool {
    match reply {
        Reply::RequestFailed(why) => e == DDragonClientError::Request(why),
        Reply::BodyUnreadable(why) => e == DDragonClientError::Parse(why),
        Reply::Body(text) => match json_string_list(text@) {
            None => e is JSONParse,
            Some(_) => e is NoLatestVersion,
        },
    }
}

/// Resolves the version from the reply to the version-list request.
///
/// Succeeds exactly where the reply carries a list with at least one entry,
/// and then with its first entry; otherwise fails with the reply's `refusal`.
pub fn resolve_version(reply: Reply) -> (r: Result<String, DDragonClientError>)
    ensures
        match r {
            Ok(version) => resolved(reply) == Some(version@),
            Err(e) => resolved(reply) is None && refusal(reply, e),
        },
{
    let text = reply.into_body()?;
    let list = decode_versions(text.as_str())?;
    latest_version(list)
}

/// Whatever the length of a list and whatever follows its first entry, a list
/// with at least one entry selects that first entry.
pub proof fn first_entry_is_selected(list: Seq<Seq<char>>)
    requires
        list.len() >= 1,
    ensures
        newest(list) == Some(list[0]),
        forall|rest: Seq<Seq<char>>| #[trigger] newest(seq![list[0]] + rest) == Some(list[0]),
{
    assert forall|rest: Seq<Seq<char>>| #[trigger] newest(seq![list[0]] + rest) == Some(
        list[0],
    ) by {
        assert((seq![list[0]] + rest)[0] == list[0]);
    }
}

} // verus!
