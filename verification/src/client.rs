//! The credentialed transport: a base address and the headers that every
//! request carries, the resolution of a path against the address, and the
//! classification of response statuses.

use crate::error::Error;
use crate::headers::{build_headers, default_lines, header_lines, is_header_text, is_valid_token};
use reqwest::header::HeaderMap;
use vstd::prelude::*;

verus! {

/// Whether `Url::parse` accepts the text as an absolute URL.
pub uninterp spec fn url_parses(text: Seq<char>) -> bool;

/// The serialization of the URL that `Url::join` resolves a reference to
/// against the URL written as `base`, or `None` where there is no such URL.
pub uninterp spec fn url_join(base: Seq<char>, reference: Seq<char>) -> Option<Seq<char>>;

/// Calls `reqwest::Url::parse` and reports whether it returned a URL.
/// Parsing reads nothing but the text, so the answer is `url_parses` of it.
#[verifier::external_body]
fn parse_url(text: &str) -> (ok: bool)
    ensures
        ok == url_parses(text@),
{
    reqwest::Url::parse(text).is_ok()
}

/// Parses `base` with `reqwest::Url::parse`, resolves `reference` against it
/// with `Url::join` and hands back the serialization of the result. It is
/// `None` where either call returns an error. Both calls read nothing but
/// their texts, so the result is `url_join` of the two.
#[verifier::external_body]
fn join_url(base: &str, reference: &str) -> (joined: Option<String>)
    ensures
        joined matches Some(target) ==> url_join(base@, reference@) == Some(target@),
        joined is None ==> url_join(base@, reference@) is None,
{
    match reqwest::Url::parse(base) {
        Ok(url) => match url.join(reference) {
            Ok(target) => Some(String::from(target)),
            Err(_) => None,
        },
        Err(_) => None,
    }
}

/// The address that `Client::new` binds.
pub open spec fn default_base() -> Seq<char> {
    "https://api.infomaniak.com"@
}

/// What a response status stands for: `Ok` where the body is to be read
/// and decoded, else the error that the call ends in.
pub open spec fn classify_status(status: u16) -> Result<(), Error> {
    if status == 200 || status == 201 {
        Ok(())
    } else if status == 401 {
        Err(Error::Unauthorised)
    } else if status == 403 {
        Err(Error::Forbidden)
    } else if status == 404 {
        Err(Error::NotFound)
    } else if status == 422 {
        Err(Error::UnprocessableEntity)
    } else if status == 500 {
        Err(Error::InternalServerError)
    } else {
        Err(Error::UnexpectedResponseCode)
    }
}

/// An outgoing GET request: the resolved address and the headers to send.
pub struct Request<'a> {
    pub url: String,
    pub headers: &'a HeaderMap,
}

/// The access point to the remote API. Its base address and its headers
/// are fixed when it is made.
pub struct Client {
    url: String,
    headers: HeaderMap,
    token: Ghost<Seq<char>>,
}

impl Client {
    #[verifier::type_invariant]
    spec fn carries_credentials(self) -> bool {
        header_lines(self.headers) == default_lines(self.token@)
    }

    /// The base address, as it was given.
    pub closed spec fn base(&self) -> Seq<char> {
        self.url@
    }

    /// The token that the client was made with.
    pub closed spec fn token(&self) -> Seq<char> {
        self.token@
    }

    /// What `get` owes for a path: the request for the resolved address
    /// with the client's headers, or `InvalidUrl` where the path does not
    /// resolve.
    pub open spec fn prepares(&self, path: Seq<char>, r: Result<Request<'_>, Error>) -> bool {
        match url_join(self.base(), path) {
            Some(target) => r matches Ok(request) && request.url@ == target && header_lines(
                *request.headers,
            ) == default_lines(self.token()),
            None => r matches Err(Error::InvalidUrl),
        }
    }

    /// A client for the production address. The token must be fit for a
    /// header, which `is_valid_token` tells.
    pub fn new(token: &str) -> (client: Client)
        requires
            is_header_text(token@),
        ensures
            client.base() == default_base(),
            client.token() == token@,
    {
        Client {
            url: "https://api.infomaniak.com".to_owned(),
            headers: build_headers(token),
            token: Ghost(token@),
        }
    }

    /// What `with_url` owes for an address and a token: a client bound to
    /// both where the address parses as an absolute URL, else `InvalidUrl`.
    pub open spec fn binds(url: Seq<char>, token: Seq<char>, r: Result<Client, Error>) -> bool {
        if url_parses(url) {
            r matches Ok(client) && client.base() == url && client.token() == token
        } else {
            r matches Err(Error::InvalidUrl)
        }
    }

    /// A client for another address. An address that does not parse is
    /// answered with `InvalidUrl`, whatever the token; with one that parses,
    /// the token must be fit for a header.
    pub fn with_url(url: &str, token: &str) -> (r: Result<Client, Error>)
        requires
            url_parses(url@) ==> is_header_text(token@),
        ensures
            Client::binds(url@, token@, r),
    {
        if parse_url(url) {
            Ok(Client { url: url.to_owned(), headers: build_headers(token), token: Ghost(token@) })
        } else {
            Err(Error::InvalidUrl)
        }
    }

    /// As `with_url`, for any address and any token: `None` where the
    /// address parses and the token cannot stand in a header, so that no
    /// client can be made.
    pub fn try_with_url(url: &str, token: &str) -> (made: Option<Result<Client, Error>>)
        ensures
            made is None <==> url_parses(url@) && !is_header_text(token@),
            made matches Some(r) ==> Client::binds(url@, token@, r),
    {
        if is_valid_token(token) || !parse_url(url) {
            Some(Client::with_url(url, token))
        } else {
            None
        }
    }

    /// The base address.
    pub fn base_url(&self) -> (text: &str)
        ensures
            text@ == self.base(),
    {
        self.url.as_str()
    }

    /// The headers that every request of this client carries.
    pub fn headers(&self) -> (headers: &HeaderMap)
        ensures
            header_lines(*headers) == default_lines(self.token()),
    {
        proof {
            use_type_invariant(self);
        }
        &self.headers
    }

    /// Prepares the GET request for a path: resolves the path against the
    /// base address and attaches the client's headers.
    pub fn get(&self, path: &str) -> (r: Result<Request<'_>, Error>)
        ensures
            self.prepares(path@, r),
    {
        proof {
            use_type_invariant(self);
        }
        match join_url(self.url.as_str(), path) {
            Some(target) => Ok(Request { url: target, headers: &self.headers }),
            None => Err(Error::InvalidUrl),
        }
    }
}

/// Classifies a response status. `Ok` says that the body is to be read and
/// decoded; an error ends the call, and the body is left unread.
pub fn check_response_code(status: u16) -> (r: Result<(), Error>)
    ensures
        r == classify_status(status),
{
    if status == 200 || status == 201 {
        Ok(())
    } else if status == 401 {
        Err(Error::Unauthorised)
    } else if status == 403 {
        Err(Error::Forbidden)
    } else if status == 404 {
        Err(Error::NotFound)
    } else if status == 422 {
        Err(Error::UnprocessableEntity)
    } else if status == 500 {
        Err(Error::InternalServerError)
    } else {
        Err(Error::UnexpectedResponseCode)
    }
}

/// What sending leads to: the response, to be read and decoded, where it
/// arrived with a status of success; else the error that the call ends in.
pub open spec fn reception<R>(sent: Result<(u16, R), reqwest::Error>) -> Result<R, Error> {
    match sent {
        Ok((status, response)) => match classify_status(status) {
            Ok(_) => Ok(response),
            Err(error) => Err(error),
        },
        Err(failure) => Err(Error::ReqwestError(failure)),
    }
}

/// What reading and decoding the body leads to: the decoded value, or the
/// engine's failure, wrapped.
pub open spec fn decoding<T>(body: Result<T, reqwest::Error>) -> Result<T, Error> {
    match body {
        Ok(value) => Ok(value),
        Err(failure) => Err(Error::ReqwestError(failure)),
    }
}

/// What a whole call ends in, given what sending gave and what reading and
/// decoding the body gives.
pub open spec fn outcome<R, T>(
    sent: Result<(u16, R), reqwest::Error>,
    body: Result<T, reqwest::Error>,
) -> Result<T, Error> {
    match reception(sent) {
        Ok(_) => decoding(body),
        Err(error) => Err(error),
    }
}

/// Decides what follows sending. `sent` is the status together with the
/// response it came with, or the engine's failure. The response is handed
/// back, to be read, only where the status is one of success; otherwise it
/// is dropped unread and the call ends in the error.
pub fn received<R>(sent: Result<(u16, R), reqwest::Error>) -> (r: Result<R, Error>)
    ensures
        r == reception(sent),
{
    match sent {
        Ok((status, response)) => match check_response_code(status) {
            Ok(_) => Ok(response),
            Err(error) => Err(error),
        },
        Err(failure) => Err(Error::from(failure)),
    }
}

/// Ends the call with what reading and decoding the body gave.
pub fn decoded<T>(body: Result<T, reqwest::Error>) -> (r: Result<T, Error>)
    ensures
        r == decoding(body),
{
    match body {
        Ok(value) => Ok(value),
        Err(failure) => Err(Error::from(failure)),
    }
}

/// A status lets the call go on to decoding exactly when it is 200 or 201.
pub proof fn success_is_ok_or_created(status: u16)
    ensures
        classify_status(status) is Ok <==> (status == 200 || status == 201),
{
}

/// Where the status is not one of success, or sending failed, the call ends
/// in the same error whatever the body holds: the body has no part in it.
pub proof fn failure_ignores_the_body<R, T>(
    sent: Result<(u16, R), reqwest::Error>,
    body: Result<T, reqwest::Error>,
    other: Result<T, reqwest::Error>,
)
    requires
        !(sent matches Ok((status, _)) && (status == 200 || status == 201)),
    ensures
        reception(sent) is Err,
        outcome(sent, body) == outcome(sent, other),
        outcome(sent, body) == Err::<T, Error>(reception(sent)->Err_0),
{
}

/// Where the response arrived with 200 or 201, the call ends in what
/// decoding the body gave.
pub proof fn success_goes_on_to_decoding<R, T>(
    status: u16,
    response: R,
    body: Result<T, reqwest::Error>,
)
    requires
        status == 200 || status == 201,
    ensures
        reception(Ok::<(u16, R), reqwest::Error>((status, response))) == Ok::<R, Error>(response),
        outcome(Ok::<(u16, R), reqwest::Error>((status, response)), body) == decoding(body),
{
}

/// Every request that a client prepares carries the headers for the token
/// that the client was made with, whatever the address and the path.
pub proof fn requests_carry_the_token(
    url: Seq<char>,
    token: Seq<char>,
    made: Result<Client, Error>,
    path: Seq<char>,
    r: Result<Request, Error>,
)
    requires
        Client::binds(url, token, made),
        made is Ok,
        made->Ok_0.prepares(path, r),
        r is Ok,
    ensures
        header_lines(*r->Ok_0.headers) == default_lines(token),
{
}

} // verus!
