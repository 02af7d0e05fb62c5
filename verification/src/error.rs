//! The failures a client call can end in, and what a transport hands back.

use vstd::prelude::*;
use vstd::string::StringExecFns;

verus! {

/// `url::ParseError`, carried through unopened: why a string is not a URL.
#[verifier::external_type_specification]
#[verifier::external_body]
pub struct ExUrlParseError(url::ParseError);

/// `serde_json::Error`, carried through unopened: why a text did not decode.
#[verifier::external_type_specification]
#[verifier::external_body]
pub struct ExJsonError(serde_json::Error);

/// Every way a client call can fail. Each is final for the call that met it.
#[derive(Debug)]
pub enum DDragonClientError {
    /// The computed address is not a valid URL.
    UrlParse(url::ParseError),
    /// The request could not be completed; the transport's own description.
    Request(String),
    /// The response body could not be read as text; the reader's description.
    Parse(String),
    /// The text is not JSON of the expected shape.
    JSONParse(serde_json::Error),
    /// The published version list holds no entry.
    NoLatestVersion,
}

/// What a transport hands back for one request.
#[derive(Debug)]
pub enum Reply {
    /// The request succeeded and its body was read as text.
    Body(String),
    /// The request could not be completed.
    RequestFailed(String),
    /// The request succeeded but its body could not be read as text.
    BodyUnreadable(String),
}

impl DDragonClientError {
    /// The sentence that describes each failure class.
    pub open spec fn spec_message(&self) -> Seq<char> {
        match self {
            DDragonClientError::UrlParse(_) => "Could not parse URL."@,
            DDragonClientError::Request(_) => "Could not complete request."@,
            DDragonClientError::Parse(_) => "Could not parse JSON data."@,
            DDragonClientError::JSONParse(_) => "Could not parse JSON data."@,
            DDragonClientError::NoLatestVersion => "Could not find the latest API version."@,
        }
    }

    /// A human-readable description of the failure.
    pub fn message(&self) -> (text: String)
        ensures
            text@ == self.spec_message(),
    {
        match self {
            DDragonClientError::UrlParse(_) => String::from_str("Could not parse URL."),
            DDragonClientError::Request(_) => String::from_str("Could not complete request."),
            DDragonClientError::Parse(_) => String::from_str("Could not parse JSON data."),
            DDragonClientError::JSONParse(_) => String::from_str("Could not parse JSON data."),
            DDragonClientError::NoLatestVersion => String::from_str(
                "Could not find the latest API version.",
            ),
        }
    }
}

impl Reply {
    /// The failure that a reply without a readable body stands for, if any.
    pub open spec fn failure(self) -> Option<DDragonClientError> {
        match self {
            Reply::Body(_) => None,
            Reply::RequestFailed(why) => Some(DDragonClientError::Request(why)),
            Reply::BodyUnreadable(why) => Some(DDragonClientError::Parse(why)),
        }
    }

    /// Splits a reply into its body text or the failure it stands for.
    pub fn into_body(self) -> (r: Result<String, DDragonClientError>)
        ensures
            match r {
                Ok(text) => self == Reply::Body(text),
                Err(e) => self.failure() == Some(e),
            },
    {
        match self {
            Reply::Body(text) => Ok(text),
            Reply::RequestFailed(why) => Err(DDragonClientError::Request(why)),
            Reply::BodyUnreadable(why) => Err(DDragonClientError::Parse(why)),
        }
    }
}

} // verus!
