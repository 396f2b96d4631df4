//! The boundary to the `http` crate: its request and response types, what
//! the contracts of this library say of them, and the calls into it.
//!
//! Nothing in this file is proved. Each item says what it takes on trust.

use vstd::prelude::*;

verus! {

/// `http::Request`, carried through as an opaque value.
#[verifier::external_type_specification]
#[verifier::external_body]
#[verifier::reject_recursive_types(T)]
pub struct ExRequest<T>(http::Request<T>);

/// `http::Response`, carried through as an opaque value.
#[verifier::external_type_specification]
#[verifier::external_body]
#[verifier::reject_recursive_types(T)]
pub struct ExResponse<T>(http::Response<T>);

/// The header fields of a request: for each header name that
/// `Request::headers` holds, the bytes of the first value stored under it.
/// The names are in lower case, which is how `http::HeaderMap` keeps them
/// whatever case they arrived in.
pub uninterp spec fn header_fields(req: http::Request<Vec<u8>>) -> Map<Seq<char>, Seq<u8>>;

/// The status code of a response, the number that `Response::status` holds.
pub uninterp spec fn response_status(resp: http::Response<Vec<u8>>) -> u16;

/// The body of a response, the bytes that `Response::body` refers to.
pub uninterp spec fn response_body(resp: http::Response<Vec<u8>>) -> Seq<u8>;

/// A character that a header name holds unchanged when it is stored: a
/// lower-case letter, a digit or a hyphen.
pub open spec fn is_plain_name_char(c: char) -> bool {
    ('a' <= c && c <= 'z') || ('0' <= c && c <= '9') || c == '-'
}

/// A header name that is looked up exactly as it is written: not empty,
/// each character plain, and shorter than 64 characters, the length up to
/// which `http` normalises a name into a buffer before it compares.
pub open spec fn is_plain_name(name: Seq<char>) -> bool {
    &&& 0 < name.len() < 64
    &&& forall|i: int| 0 <= i < name.len() ==> is_plain_name_char(#[trigger] name[i])
}

/// Calls `HeaderMap::get` on the headers of `req` and copies the bytes of
/// the value it finds (`HeaderValue::as_bytes`).
///
/// Trusted: for a plain name the lookup neither fails nor panics; it
/// returns the first value stored under that name, and nothing when the map
/// has no such name.
#[verifier::external_body]
pub(crate) fn header_value(req: &http::Request<Vec<u8>>, name: &str) -> (found: Option<Vec<u8>>)
    requires
        is_plain_name(name@),
    ensures
        found matches Some(value) ==> header_fields(*req).contains_key(name@)
            && value@ == header_fields(*req)[name@],
        found is None ==> !header_fields(*req).contains_key(name@),
{
    match req.headers().get(name) {
        Some(value) => Some(value.as_bytes().to_vec()),
        None => None,
    }
}

/// Calls `Response::builder`, sets the status and closes the builder with
/// the body.
///
/// Trusted: for a status from 100 to 599 the builder accepts the status,
/// and the response holds that status and that body.
#[verifier::external_body]
pub(crate) fn build_response(status: u16, body: Vec<u8>) -> (resp: http::Response<Vec<u8>>)
    requires
        100 <= status < 600,
    ensures
        response_status(resp) == status,
        response_body(resp) == body@,
{
    http::Response::builder().status(status).body(body).unwrap()
}

} // verus!
