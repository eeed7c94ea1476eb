//! The two ways a search can fail.

use vstd::prelude::*;
use vstd::string::to_string_from_display_ensures;

verus! {

/// The failure of an HTTP exchange, as reqwest reports it.
#[verifier::external_type_specification]
#[verifier::external_body]
pub struct ExReqwestError(reqwest::Error);

/// The failure to read a body as JSON, as serde_json reports it.
#[verifier::external_type_specification]
#[verifier::external_body]
pub struct ExJsonError(serde_json::Error);

/// Why a search produced no posts. Each variant keeps the failure it wraps.
#[derive(Debug)]
pub enum BooruError {
    /// The request could not be sent, or its response could not be read.
    HTTP(reqwest::Error),
    /// The response body does not hold a sequence of posts.
    Deserialization(serde_json::Error),
}

impl BooruError {
    /// A readable description: what failed, followed by the cause's own
    /// description.
    pub fn description(&self) -> (r: String)
        ensures
            match self {
                BooruError::HTTP(e) => exists|d: String|
                    #[trigger] to_string_from_display_ensures::<reqwest::Error>(e, d) && r@
                        == "error sending HTTP request "@ + d@,
                BooruError::Deserialization(e) => exists|d: String|
                    #[trigger] to_string_from_display_ensures::<serde_json::Error>(e, d) && r@
                        == "error deserializing post json "@ + d@,
            },
    {
        match self {
            BooruError::HTTP(e) => {
                let cause = e.to_string();
                let mut r = String::from_str("error sending HTTP request ");
                r.append(cause.as_str());
                r
            },
            BooruError::Deserialization(e) => {
                let cause = e.to_string();
                let mut r = String::from_str("error deserializing post json ");
                r.append(cause.as_str());
                r
            },
        }
    }
}

impl From<reqwest::Error> for BooruError {
    fn from(e: reqwest::Error) -> (r: BooruError)
        ensures
            r == BooruError::HTTP(e),
    {
        BooruError::HTTP(e)
    }
}

impl vstd::std_specs::convert::FromSpecImpl<reqwest::Error> for BooruError {
    open spec fn obeys_from_spec() -> bool {
        true
    }

    open spec fn from_spec(e: reqwest::Error) -> BooruError {
        BooruError::HTTP(e)
    }
}

impl From<serde_json::Error> for BooruError {
    fn from(e: serde_json::Error) -> (r: BooruError)
        ensures
            r == BooruError::Deserialization(e),
    {
        BooruError::Deserialization(e)
    }
}

impl vstd::std_specs::convert::FromSpecImpl<serde_json::Error> for BooruError {
    open spec fn obeys_from_spec() -> bool {
        true
    }

    open spec fn from_spec(e: serde_json::Error) -> BooruError {
        BooruError::Deserialization(e)
    }
}

} // verus!
