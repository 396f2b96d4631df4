//! What the handler answers, decided on plain values.

use vstd::prelude::*;

verus! {

/// The status of an answer that carries the client's address.
pub const STATUS_OK: u16 = 200;

/// The status of the answer to a request that does not name its client.
pub const STATUS_BAD_REQUEST: u16 = 400;

/// Why a request cannot be answered with the client's address.
#[derive(Clone, Copy, Debug, PartialEq, Eq, Structural)]
pub enum HandlerError {
    /// The request carries no header that names the client.
    MissingHeader,
}

/// An answer before it is handed to the host: a status and a body.
#[derive(Debug, PartialEq, Eq)]
pub struct Reply {
    pub status: u16,
    pub body: Vec<u8>,
}

/// Turns the outcome of the lookup into the answer. An address is echoed
/// unchanged under [`STATUS_OK`]; a missing header gives an empty body under
/// [`STATUS_BAD_REQUEST`].
pub fn respond(outcome: Result<Vec<u8>, HandlerError>) -> (reply: Reply)
    ensures
        match outcome {
            Ok(address) => reply.status == STATUS_OK && reply.body@ == address@,
            Err(_) => reply.status == STATUS_BAD_REQUEST && reply.body@ == Seq::<u8>::empty(),
        },
{
    match outcome {
        Ok(address) => Reply { status: STATUS_OK, body: address },
        Err(HandlerError::MissingHeader) => Reply { status: STATUS_BAD_REQUEST, body: Vec::new() },
    }
}

} // verus!
