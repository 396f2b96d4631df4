//! A handler for an edge host: it answers each request with the address of
//! the client, which the host announces in one request header.
//!
//! The request and the response are the `http` crate's types. What the
//! handler reads from one and puts into the other is modelled in [`wire`];
//! the decision itself, on plain values, is in [`reply`].

use vstd::prelude::*;

pub mod reply;
pub mod wire;

use crate::reply::{respond, HandlerError, STATUS_BAD_REQUEST, STATUS_OK};
use crate::wire::{build_response, header_fields, header_value, is_plain_name, response_body, response_status};

verus! {

/// The header in which the host announces the client's address.
pub const CLIENT_IP_HEADER: &'static str = "fastly-client-ip";

/// The client's address as a request announces it: the value of its
/// [`CLIENT_IP_HEADER`] field, if it has one.
pub open spec fn announced_address(req: http::Request<Vec<u8>>) -> Option<Seq<u8>> {
    if header_fields(req).contains_key(CLIENT_IP_HEADER@) {
        Some(header_fields(req)[CLIENT_IP_HEADER@])
    } else {
        None
    }
}

/// Whether `resp` is the answer to `req`. A request that announces an
/// address is answered with status 200 and that address as the body, byte
/// for byte; one that announces none, with status 400 and an empty body.
pub open spec fn answers(req: http::Request<Vec<u8>>, resp: http::Response<Vec<u8>>) -> bool {
    match announced_address(req) {
        Some(address) => response_status(resp) == STATUS_OK && response_body(resp) == address,
        None => response_status(resp) == STATUS_BAD_REQUEST && response_body(resp)
            == Seq::<u8>::empty(),
    }
}

proof fn lemma_client_ip_header_is_plain()
    ensures
        is_plain_name(CLIENT_IP_HEADER@),
{
    reveal_strlit("fastly-client-ip");
}

/// Reads the client's address from a request: the bytes that the request
/// announces, or [`HandlerError::MissingHeader`] where it announces none.
pub fn client_ip(req: &http::Request<Vec<u8>>) -> (outcome: Result<Vec<u8>, HandlerError>)
    ensures
        match outcome {
            Ok(address) => announced_address(*req) == Some(address@),
            Err(e) => e == HandlerError::MissingHeader && announced_address(*req).is_none(),
        },
{
    proof {
        lemma_client_ip_header_is_plain();
    }
    match header_value(req, CLIENT_IP_HEADER) {
        Some(address) => Ok(address),
        None => Err(HandlerError::MissingHeader),
    }
}

/// Answers a request with the address of its client. The request is only
/// read, and nothing is kept from one call to the next.
pub fn user_entrypoint(req: &http::Request<Vec<u8>>) -> (resp: http::Response<Vec<u8>>)
    ensures
        answers(*req, resp),
{
    let reply = respond(client_ip(req));
    build_response(reply.status, reply.body)
}

/// A request has one answer: two responses that both answer it carry the
/// same status and the same body.
pub proof fn lemma_answer_is_unique(
    req: http::Request<Vec<u8>>,
    first: http::Response<Vec<u8>>,
    second: http::Response<Vec<u8>>,
)
    requires
        answers(req, first),
        answers(req, second),
    ensures
        response_status(first) == response_status(second),
        response_body(first) == response_body(second),
{
}

} // verus!
