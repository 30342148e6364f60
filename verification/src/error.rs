//! The closed set of failures that a call can end in.

use vstd::prelude::*;
use vstd::std_specs::convert::FromSpecImpl;

verus! {

#[derive(Debug)]
pub enum Error {
    /// The base address, or the address joined with a path, could not be parsed
    InvalidUrl,
    /// The requested URI needs the client to have an API token with the right scopes
    Unauthorised,
    /// Access is forbidden to the requested resource
    Forbidden,
    /// The server can not find the requested resource
    NotFound,
    /// The request was well formatted, but the request content contains semantic errors
    UnprocessableEntity,
    /// The request was not completed. The server met an unexpected condition
    InternalServerError,
    /// The server sent an undocumented response code
    UnexpectedResponseCode,
    /// The request could not be sent, or the body could not be read or decoded
    ReqwestError(reqwest::Error),
}

impl From<reqwest::Error> for Error {
    fn from(value: reqwest::Error) -> (r: Self) {
        Error::ReqwestError(value)
    }
}

impl FromSpecImpl<reqwest::Error> for Error {
    open spec fn obeys_from_spec() -> bool {
        true
    }

    open spec fn from_spec(value: reqwest::Error) -> Self {
        Error::ReqwestError(value)
    }
}

} // verus!
