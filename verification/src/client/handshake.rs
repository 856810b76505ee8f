//! What the answer to the connect request decides about the connection.

use vstd::prelude::*;
use crate::client_handler::ReplyError;
use crate::protocol::Reply;

verus! {

/// What a handshake ends in.
#[derive(Debug, Clone, Copy, PartialEq, Eq, Structural)]
pub enum HandshakeOutcome {
    /// The server accepted the connection.
    Established,
    /// The connection is closed; the flag tells whether to reconnect.
    Close(bool),
}

/// The outcome of the handshake, from the answer to the connect request
/// (`None` when the waiter was dropped without one): a connect reply
/// establishes the connection; an error reply closes it, to reconnect if
/// the error is temporary; any other reply closes it for good; no reply
/// (the connection closed, or the request timed out) closes it, to
/// reconnect.
pub fn handshake_outcome(answer: Option<Result<Reply, ReplyError>>) -> (o: HandshakeOutcome)
    ensures
        o == match answer {
            Some(Ok(Reply::Connect(_))) => HandshakeOutcome::Established,
            Some(Ok(Reply::Error(e))) => HandshakeOutcome::Close(e.temporary),
            Some(Ok(_)) => HandshakeOutcome::Close(false),
            Some(Err(_)) => HandshakeOutcome::Close(true),
            None => HandshakeOutcome::Close(true),
        },
{
    match answer {
        Some(Ok(Reply::Connect(_))) => HandshakeOutcome::Established,
        Some(Ok(Reply::Error(e))) => HandshakeOutcome::Close(e.temporary),
        Some(Ok(_)) => HandshakeOutcome::Close(false),
        Some(Err(_)) => HandshakeOutcome::Close(true),
        None => HandshakeOutcome::Close(true),
    }
}

} // verus!
