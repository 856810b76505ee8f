//! Errors of client requests, and what a waiting request makes of what it
//! received.

use vstd::prelude::*;
use crate::client_handler::{ReplyError, reply_error_text};
use crate::protocol::{Error, Reply};
use crate::text::{decimal_digits, decimal_string};

verus! {

/// Errors that can occur when making requests to the server.
#[derive(Debug)]
pub enum RequestError {
    /// The server returned an error response
    ErrorResponse(Error),
    /// The server returned an unexpected reply type
    UnexpectedReply(Reply),
    /// An error occurred while processing the reply
    ReplyError(ReplyError),
    /// The request timed out
    Timeout,
    /// The request was cancelled
    Cancelled,
}

/// What the caller of a request received before its deadline: the reply,
/// or the reason there is none; the waiter dropped without an answer; or
/// nothing before the deadline.
#[derive(Debug)]
pub enum Delivery {
    Replied(Result<Reply, ReplyError>),
    Dropped,
    DeadlinePassed,
}

/// How a request that expected `Reply::Publish` (or, for an RPC,
/// `Reply::Rpc`) ends, given what it received.
pub open spec fn failure_of(d: Delivery) -> Option<RequestError> {
    match d {
        Delivery::Replied(Ok(Reply::Error(e))) => Some(RequestError::ErrorResponse(e)),
        Delivery::Replied(Ok(r)) => Some(RequestError::UnexpectedReply(r)),
        Delivery::Replied(Err(e)) => Some(RequestError::ReplyError(e)),
        Delivery::Dropped => Some(RequestError::Cancelled),
        Delivery::DeadlinePassed => Some(RequestError::Timeout),
    }
}

/// The outcome of a publication: `Ok` on a publish reply, else the error.
pub fn publish_outcome(d: Delivery) -> (r: Result<(), RequestError>)
    ensures
        d matches Delivery::Replied(Ok(Reply::Publish(_))) ==> r is Ok,
        !(d matches Delivery::Replied(Ok(Reply::Publish(_)))) ==> r == Err::<(), RequestError>(
            failure_of(d).unwrap(),
        ),
{
    match d {
        Delivery::Replied(Ok(Reply::Publish(_))) => Ok(()),
        Delivery::Replied(Ok(Reply::Error(e))) => Err(RequestError::ErrorResponse(e)),
        Delivery::Replied(Ok(r)) => Err(RequestError::UnexpectedReply(r)),
        Delivery::Replied(Err(e)) => Err(RequestError::ReplyError(e)),
        Delivery::Dropped => Err(RequestError::Cancelled),
        Delivery::DeadlinePassed => Err(RequestError::Timeout),
    }
}

/// The outcome of an RPC: the result data on an RPC reply, else the error.
pub fn rpc_outcome(d: Delivery) -> (r: Result<Vec<u8>, RequestError>)
    ensures
        d matches Delivery::Replied(Ok(Reply::Rpc(res))) ==> r == Ok::<Vec<u8>, RequestError>(
            res.data,
        ),
        !(d matches Delivery::Replied(Ok(Reply::Rpc(_)))) ==> r == Err::<Vec<u8>, RequestError>(
            failure_of(d).unwrap(),
        ),
{
    match d {
        Delivery::Replied(Ok(Reply::Rpc(res))) => Ok(res.data),
        Delivery::Replied(Ok(Reply::Error(e))) => Err(RequestError::ErrorResponse(e)),
        Delivery::Replied(Ok(r)) => Err(RequestError::UnexpectedReply(r)),
        Delivery::Replied(Err(e)) => Err(RequestError::ReplyError(e)),
        Delivery::Dropped => Err(RequestError::Cancelled),
        Delivery::DeadlinePassed => Err(RequestError::Timeout),
    }
}

/// The message of each request error, as its `Display` renders it.
pub open spec fn request_error_text(e: RequestError) -> Seq<char> {
    match e {
        RequestError::ErrorResponse(err) => "Server error: "@ + decimal_digits(err.code as nat)
            + " "@ + err.message@,
        RequestError::UnexpectedReply(_) => "Unexpected reply from server"@,
        RequestError::ReplyError(err) => "Reply processing error: "@ + reply_error_text(err),
        RequestError::Timeout => "Request timed out: deadline has elapsed"@,
        RequestError::Cancelled => "Request was cancelled"@,
    }
}

impl RequestError {
    /// The message of the error.
    pub fn to_str(&self) -> (s: String)
        ensures
            s@ == request_error_text(*self),
    {
        match self {
            RequestError::ErrorResponse(err) => {
                let mut s = "Server error: ".to_owned();
                let code = decimal_string(err.code as u64);
                s.append(code.as_str());
                s.append(" ");
                s.append(err.message.as_str());
                s
            },
            RequestError::UnexpectedReply(_) => "Unexpected reply from server".to_owned(),
            RequestError::ReplyError(err) => {
                let mut s = "Reply processing error: ".to_owned();
                let t = err.to_str();
                s.append(t.as_str());
                s
            },
            RequestError::Timeout => "Request timed out: deadline has elapsed".to_owned(),
            RequestError::Cancelled => "Request was cancelled".to_owned(),
        }
    }
}

} // verus!
