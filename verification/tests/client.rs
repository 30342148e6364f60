use infomaniak::client::{check_response_code, decoded, received, Client};
use infomaniak::error::Error;
use infomaniak::headers::{build_headers, is_valid_token};
use reqwest::header::{HeaderMap, HeaderValue, AUTHORIZATION, CONTENT_TYPE};

fn assert_default_headers(headers: &HeaderMap, token: &str) {
    assert_eq!(headers.len(), 2);
    assert_eq!(headers.keys_len(), 2);
    let expected = format!("Bearer {token}");
    assert_eq!(headers.get(AUTHORIZATION).expect("authorization").as_bytes(), expected.as_bytes());
    assert_eq!(headers.get(CONTENT_TYPE).expect("content type").as_bytes(), b"application/json");
    assert_eq!(headers.get("authorization").expect("authorization").as_bytes(), expected.as_bytes());
    assert_eq!(headers.get("content-type").expect("content type").as_bytes(), b"application/json");
}

#[test]
fn success_statuses_proceed_to_decoding() {
    assert!(matches!(check_response_code(200), Ok(())));
    assert!(matches!(check_response_code(201), Ok(())));
}

#[test]
fn enumerated_statuses_map_to_their_errors() {
    assert!(matches!(check_response_code(401), Err(Error::Unauthorised)));
    assert!(matches!(check_response_code(403), Err(Error::Forbidden)));
    assert!(matches!(check_response_code(404), Err(Error::NotFound)));
    assert!(matches!(check_response_code(422), Err(Error::UnprocessableEntity)));
    assert!(matches!(check_response_code(500), Err(Error::InternalServerError)));
}

#[test]
fn other_statuses_are_unexpected() {
    for status in [0u16, 100, 199, 202, 204, 301, 400, 402, 405, 418, 421, 423, 499, 501, 503, 999, u16::MAX] {
        assert!(matches!(check_response_code(status), Err(Error::UnexpectedResponseCode)));
    }
}

#[test]
fn only_ok_and_created_succeed() {
    for status in 0..=u16::MAX {
        let succeeds = check_response_code(status).is_ok();
        assert_eq!(succeeds, status == 200 || status == 201);
    }
}

#[test]
fn headers_carry_the_token_byte_for_byte() {
    assert_default_headers(&build_headers("TOKEN"), "TOKEN");
    assert_default_headers(&build_headers(""), "");
    assert_default_headers(&build_headers("a b\t\u{e9}\u{20ac}"), "a b\t\u{e9}\u{20ac}");
    assert_eq!(
        build_headers("TOKEN").get(AUTHORIZATION).expect("authorization").as_bytes(),
        b"Bearer TOKEN"
    );
}

#[test]
fn valid_tokens_are_those_a_header_value_takes() {
    for token in ["TOKEN", "", " ", "\t", "a b", "\u{e9}", "\u{20ac}x", "~", "\u{80}"] {
        assert!(is_valid_token(token));
        assert!(HeaderValue::from_str(token).is_ok());
    }
    for token in ["\n", "a\rb", "\u{7f}", "\u{0}", "ok\u{1f}", "\u{b}", "TOKEN\n"] {
        assert!(!is_valid_token(token));
        assert!(HeaderValue::from_str(token).is_err());
    }
}

#[test]
fn new_binds_the_production_address() {
    let client = Client::new("TOKEN");
    assert_eq!(client.base_url(), "https://api.infomaniak.com");
    assert_default_headers(client.headers(), "TOKEN");
    let request = client.get("/1/llm").expect("the path resolves");
    assert_eq!(request.url, "https://api.infomaniak.com/1/llm");
}

#[test]
fn with_url_rejects_an_unparseable_address() {
    assert!(matches!(Client::with_url("not a url", "TOKEN"), Err(Error::InvalidUrl)));
    assert!(matches!(Client::with_url("", "TOKEN"), Err(Error::InvalidUrl)));
    assert!(matches!(Client::with_url("/1/llm", "TOKEN"), Err(Error::InvalidUrl)));
    assert!(matches!(Client::with_url("http://[::1", "TOKEN"), Err(Error::InvalidUrl)));
    assert!(matches!(Client::with_url("not a url", "bad\ntoken"), Err(Error::InvalidUrl)));
}

#[test]
fn try_with_url_tells_the_three_cases_apart() {
    assert!(matches!(Client::try_with_url("not a url", "TOKEN"), Some(Err(Error::InvalidUrl))));
    assert!(matches!(Client::try_with_url("not a url", "bad\ntoken"), Some(Err(Error::InvalidUrl))));
    assert!(matches!(Client::try_with_url("http://localhost", "bad\ntoken"), None));
    match Client::try_with_url("http://localhost:8080", "TOKEN") {
        Some(Ok(client)) => {
            assert_eq!(client.base_url(), "http://localhost:8080");
            assert_default_headers(client.headers(), "TOKEN");
        }
        _ => panic!("Could not create client"),
    }
}

#[test]
fn with_url_accepts_a_valid_address() {
    let client = match Client::with_url("http://127.0.0.1:5000", "TOKEN") {
        Ok(client) => client,
        Err(_) => panic!("Could not create client"),
    };
    assert_eq!(client.base_url(), "http://127.0.0.1:5000");
    assert_default_headers(client.headers(), "TOKEN");
}

#[test]
fn get_resolves_the_path_against_the_base() {
    let client = Client::with_url("https://example.net/a/b.html", "T").ok().expect("valid");
    assert_eq!(client.get("c.png").expect("resolves").url, "https://example.net/a/c.png");
    assert_eq!(client.get("/v1/meta").expect("resolves").url, "https://example.net/v1/meta");
    assert_eq!(client.get("//eve.com/b").expect("resolves").url, "https://eve.com/b");
    assert_eq!(client.get("").expect("resolves").url, "https://example.net/a/b.html");

    let client = Client::with_url("https://example.net/a/b/", "T").ok().expect("valid");
    assert_eq!(client.get("c.png").expect("resolves").url, "https://example.net/a/b/c.png");
}

#[test]
fn get_rejects_a_path_that_does_not_resolve() {
    let client = Client::with_url("https://example.net", "T").ok().expect("valid");
    assert!(matches!(client.get("http://[::1"), Err(Error::InvalidUrl)));
    assert!(matches!(client.get("//"), Err(Error::InvalidUrl)));

    let client = Client::with_url("mailto:someone@example.net", "T").ok().expect("valid");
    assert!(matches!(client.get("/1/llm"), Err(Error::InvalidUrl)));
}

#[test]
fn every_request_carries_the_default_headers() {
    let client = Client::with_url("http://localhost:8080", "s3cr3t").ok().expect("valid");
    for path in ["/1/llm", "other", "/a/b?c=d"] {
        let request = client.get(path).expect("resolves");
        assert_default_headers(request.headers, "s3cr3t");
        assert_eq!(request.headers, client.headers());
    }
}

fn engine_failure() -> reqwest::Error {
    match reqwest::Client::new().get("not a url").build() {
        Ok(_) => panic!("the address must not parse"),
        Err(failure) => failure,
    }
}

#[test]
fn a_response_is_handed_on_only_after_success() {
    assert!(matches!(received(Ok((200, "body"))), Ok("body")));
    assert!(matches!(received(Ok((201, "body"))), Ok("body")));
    assert!(matches!(received(Ok((401, "body"))), Err(Error::Unauthorised)));
    assert!(matches!(received(Ok((403, "body"))), Err(Error::Forbidden)));
    assert!(matches!(received(Ok((404, "body"))), Err(Error::NotFound)));
    assert!(matches!(received(Ok((422, "body"))), Err(Error::UnprocessableEntity)));
    assert!(matches!(received(Ok((500, "body"))), Err(Error::InternalServerError)));
    assert!(matches!(received(Ok((204, "body"))), Err(Error::UnexpectedResponseCode)));
    assert!(matches!(received(Ok((302, "body"))), Err(Error::UnexpectedResponseCode)));
}

#[test]
fn a_failure_to_send_is_wrapped() {
    let failure = engine_failure();
    let text = format!("{:?}", failure);
    match received::<u8>(Err(failure)) {
        Err(Error::ReqwestError(inner)) => assert_eq!(format!("{:?}", inner), text),
        _ => panic!("the failure must be wrapped"),
    }
}

#[test]
fn a_failure_to_decode_is_wrapped() {
    let failure = engine_failure();
    let text = format!("{:?}", failure);
    match decoded::<u8>(Err(failure)) {
        Err(Error::ReqwestError(inner)) => assert_eq!(format!("{:?}", inner), text),
        _ => panic!("the failure must be wrapped"),
    }
    assert!(matches!(decoded(Ok(47054u64)), Ok(47054)));
}

#[test]
fn a_transport_failure_is_wrapped() {
    let failure = engine_failure();
    let text = format!("{:?}", failure);
    match Error::from(failure) {
        Error::ReqwestError(inner) => assert_eq!(format!("{:?}", inner), text),
        _ => panic!("the failure must be wrapped"),
    }
}
