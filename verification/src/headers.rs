//! The headers that every request carries, held in the HTTP engine's own
//! header map.

use reqwest::header::{HeaderMap, HeaderName, HeaderValue};
use vstd::prelude::*;
use vstd::std_specs::iter::IteratorSpec;
use vstd::utf8::encode_utf8;

verus! {

/// `http::HeaderMap`, which reqwest hands on as `reqwest::header::HeaderMap`.
#[verifier::external_type_specification]
#[verifier::external_body]
#[verifier::reject_recursive_types(T)]
pub struct ExHeaderMap<T>(reqwest::header::HeaderMap<T>);

/// `http::HeaderValue`, the value of one header line.
#[verifier::external_type_specification]
#[verifier::external_body]
pub struct ExHeaderValue(reqwest::header::HeaderValue);

/// What a header map holds: for each name that has a line, the bytes of
/// its values, in the order in which the map yields them.
pub uninterp spec fn header_lines(map: HeaderMap<HeaderValue>) -> Map<Seq<char>, Seq<Seq<u8>>>;

/// A header name that the map takes and keeps as it is written here: up to
/// 64 lower-case letters and hyphens.
pub open spec fn is_header_name(name: Seq<char>) -> bool {
    &&& 0 < name.len() <= 64
    &&& forall|i: int|
        0 <= i < name.len() ==> {
            let c = #[trigger] name[i] as u32;
            97 <= c <= 122 || c == 45
        }
}

/// A character that may stand in a header value: a tab, or anything from
/// the space on but the delete character.
pub open spec fn is_header_char(c: char) -> bool {
    c as u32 == 9 || (c as u32 >= 32 && c as u32 != 127)
}

/// A text that can be sent as a header value.
pub open spec fn is_header_text(text: Seq<char>) -> bool {
    forall|i: int| 0 <= i < text.len() ==> is_header_char(#[trigger] text[i])
}

/// The value of the `authorization` header for a token.
pub open spec fn bearer(token: Seq<char>) -> Seq<char> {
    "Bearer "@ + token
}

/// The lines attached to every request made with a token: exactly
/// `authorization: Bearer <token>` and `content-type: application/json`.
pub open spec fn default_lines(token: Seq<char>) -> Map<Seq<char>, Seq<Seq<u8>>> {
    map![
        "authorization"@ => seq![encode_utf8(bearer(token))],
        "content-type"@ => seq![encode_utf8("application/json"@)],
    ]
}

/// The lines of an empty header map.
pub open spec fn no_lines() -> Map<Seq<char>, Seq<Seq<u8>>> {
    Map::empty()
}

/// Calls `HeaderMap::new`, which makes a map without lines.
#[verifier::external_body]
fn empty_headers() -> (headers: HeaderMap)
    ensures
        header_lines(headers) == no_lines(),
{
    HeaderMap::new()
}

/// Calls `HeaderMap::insert` with the name and the value converted by
/// `HeaderName::from_bytes` and `HeaderValue::from_str`. Afterwards the name
/// has this one value, the bytes of the text, whatever it had before; the
/// other names keep theirs. `requires` admits only names and texts that the
/// two conversions take, and maps far below the 32768 entries past which
/// the map refuses to grow: on others a conversion fails or `insert` panics.
#[verifier::external_body]
fn insert_header(headers: &mut HeaderMap, name: &str, value: &str)
    requires
        is_header_name(name@),
        is_header_text(value@),
        header_lines(*old(headers)).dom().finite(),
        header_lines(*old(headers)).dom().len() < 1024,
    ensures
        header_lines(*final(headers)) == header_lines(*old(headers)).insert(
            name@,
            seq![encode_utf8(value@)],
        ),
{
    headers.insert(
        HeaderName::from_bytes(name.as_bytes()).unwrap(),
        HeaderValue::from_str(value).unwrap(),
    );
}

/// Whether a token can be sent in the `authorization` header.
pub fn is_valid_token(token: &str) -> (ok: bool)
    ensures
        ok == is_header_text(token@),
{
    broadcast use vstd::string::group_string_axioms;

    let mut rest = token.chars();
    let ghost mut seen: int = 0;
    assert(token@.skip(0) =~= token@);
    loop
        invariant
            0 <= seen <= token@.len(),
            rest.obeys_prophetic_iter_laws(),
            rest.remaining() == token@.skip(seen),
            forall|k: int| 0 <= k < seen ==> is_header_char(#[trigger] token@[k]),
        decreases token@.len() - seen,
    {
        match rest.next() {
            None => {
                return true;
            },
            Some(c) => {
                assert(c == token@[seen]);
                let code = c as u32;
                if !(code == 9 || (code >= 32 && code != 127)) {
                    return false;
                }
                proof {
                    assert(token@.skip(seen).drop_first() =~= token@.skip(seen + 1));
                    seen = seen + 1;
                }
            },
        }
    }
}

/// A token that may stand in a header still may behind `Bearer `.
pub proof fn bearer_is_header_text(token: Seq<char>)
    requires
        is_header_text(token),
    ensures
        is_header_text(bearer(token)),
{
    reveal_strlit("Bearer ");
    let prefix = "Bearer "@;
    assert forall|i: int| 0 <= i < bearer(token).len() implies is_header_char(
        #[trigger] bearer(token)[i],
    ) by {
        if i < prefix.len() {
            assert(bearer(token)[i] == prefix[i]);
        } else {
            assert(bearer(token)[i] == token[i - prefix.len()]);
        }
    }
}

/// The default lines are two: the names differ, so neither line replaces
/// the other, and each name has its one value.
pub proof fn default_lines_hold_both_headers(token: Seq<char>)
    ensures
        default_lines(token).dom() == set!["authorization"@, "content-type"@],
        default_lines(token).dom().len() == 2,
        default_lines(token)["authorization"@] == seq![encode_utf8(bearer(token))],
        default_lines(token)["content-type"@] == seq![encode_utf8("application/json"@)],
{
    reveal_strlit("authorization");
    reveal_strlit("content-type");
    assert("authorization"@[0] != "content-type"@[0]);
    assert(default_lines(token).dom() =~= set!["authorization"@, "content-type"@]);
}

/// The headers for a token.
pub fn build_headers(token: &str) -> (headers: HeaderMap)
    requires
        is_header_text(token@),
    ensures
        header_lines(headers) == default_lines(token@),
{
    let mut headers = empty_headers();
    let value = "Bearer ".to_owned().concat(token);
    proof {
        bearer_is_header_text(token@);
        reveal_strlit("authorization");
        reveal_strlit("content-type");
        reveal_strlit("application/json");
    }
    insert_header(&mut headers, "authorization", value.as_str());
    insert_header(&mut headers, "content-type", "application/json");
    headers
}

} // verus!
