//! The ways in which a call can fail.

use vstd::prelude::*;

verus! {

/// `hyper::Error`, the failure of the HTTP transport. The library carries
/// such a value and never looks into it.
#[verifier::external_type_specification]
#[verifier::external_body]
pub struct ExHyperError(hyper::Error);

/// `serde_json::Error`, the failure to decode a response body. The library
/// carries such a value and never looks into it.
#[verifier::external_type_specification]
#[verifier::external_body]
pub struct ExJsonError(serde_json::Error);

/// Why a call failed.
#[derive(Debug)]
pub enum FetchError {
    /// The transport failed.
    Http(hyper::Error),
    /// The body was not the JSON that was expected.
    Json(serde_json::Error),
    /// The service answered with a status other than 200.
    Non200StatusCode,
    /// The answer holds no page, or no entity, for what was asked.
    NoPage,
    /// Any other failure, in words.
    Custom(String),
}

impl From<hyper::Error> for FetchError {
    fn from(err: hyper::Error) -> (res: FetchError) {
        FetchError::Http(err)
    }
}

impl vstd::std_specs::convert::FromSpecImpl<hyper::Error> for FetchError {
    open spec fn obeys_from_spec() -> bool {
        true
    }

    open spec fn from_spec(err: hyper::Error) -> FetchError {
        FetchError::Http(err)
    }
}

impl From<serde_json::Error> for FetchError {
    fn from(err: serde_json::Error) -> (res: FetchError) {
        FetchError::Json(err)
    }
}

impl vstd::std_specs::convert::FromSpecImpl<serde_json::Error> for FetchError {
    open spec fn obeys_from_spec() -> bool {
        true
    }

    open spec fn from_spec(err: serde_json::Error) -> FetchError {
        FetchError::Json(err)
    }
}

} // verus!
