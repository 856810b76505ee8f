//! Error codes of the Centrifugo protocol and the client error type.
//!
//! Client operation errors use codes 100-199; connection-level
//! (disconnect) codes are in 3000-3999, where 3500-3999 (and 4500-4999)
//! mean that the client must not reconnect.

use vstd::prelude::*;
use crate::protocol;
use crate::text::{decimal_digits, decimal_string};

verus! {

/// Error raised when a subscription that is not unsubscribed is removed.
#[derive(Debug, Clone, Copy, PartialEq, Eq, Structural)]
pub enum RemoveSubscriptionError {
    /// Subscription must be unsubscribed before removal
    NotUnsubscribed,
}

/// Numeric error code of a client operation.
#[derive(Debug, Clone, Copy, PartialEq, Eq, Structural)]
pub struct ClientErrorCode(pub u16);

/// Text of a client error code, as its `Display` shows it.
pub open spec fn client_code_text(code: u16) -> Seq<char> {
    if code == 100 {
        "internal server error"@
    } else if code == 101 {
        "unauthorized"@
    } else if code == 102 {
        "unknown channel"@
    } else if code == 103 {
        "permission denied"@
    } else if code == 104 {
        "method not found"@
    } else if code == 105 {
        "already subscribed"@
    } else if code == 106 {
        "limit exceeded"@
    } else if code == 107 {
        "bad request"@
    } else if code == 108 {
        "not available"@
    } else if code == 109 {
        "token expired"@
    } else if code == 110 {
        "expired"@
    } else if code == 111 {
        "too many requests"@
    } else if code == 112 {
        "unrecoverable position"@
    } else {
        "unknown code "@ + decimal_digits(code as nat)
    }
}

impl ClientErrorCode {
    /// `Internal` (100)
    pub fn internal() -> (c: Self)
        ensures
            c.0 == 100,
    {
        ClientErrorCode(100)
    }

    /// `Unauthorized` (101)
    pub fn unauthorized() -> (c: Self)
        ensures
            c.0 == 101,
    {
        ClientErrorCode(101)
    }

    /// `UnknownChannel` (102)
    pub fn unknown_channel() -> (c: Self)
        ensures
            c.0 == 102,
    {
        ClientErrorCode(102)
    }

    /// `PermissionDenied` (103)
    pub fn permission_denied() -> (c: Self)
        ensures
            c.0 == 103,
    {
        ClientErrorCode(103)
    }

    /// `MethodNotFound` (104)
    pub fn method_not_found() -> (c: Self)
        ensures
            c.0 == 104,
    {
        ClientErrorCode(104)
    }

    /// `AlreadySubscribed` (105)
    pub fn already_subscribed() -> (c: Self)
        ensures
            c.0 == 105,
    {
        ClientErrorCode(105)
    }

    /// `LimitExceeded` (106)
    pub fn limit_exceeded() -> (c: Self)
        ensures
            c.0 == 106,
    {
        ClientErrorCode(106)
    }

    /// `BadRequest` (107)
    pub fn bad_request() -> (c: Self)
        ensures
            c.0 == 107,
    {
        ClientErrorCode(107)
    }

    /// `NotAvailable` (108)
    pub fn not_available() -> (c: Self)
        ensures
            c.0 == 108,
    {
        ClientErrorCode(108)
    }

    /// `TokenExpired` (109)
    pub fn token_expired() -> (c: Self)
        ensures
            c.0 == 109,
    {
        ClientErrorCode(109)
    }

    /// `Expired` (110)
    pub fn expired() -> (c: Self)
        ensures
            c.0 == 110,
    {
        ClientErrorCode(110)
    }

    /// `TooManyRequests` (111)
    pub fn too_many_requests() -> (c: Self)
        ensures
            c.0 == 111,
    {
        ClientErrorCode(111)
    }

    /// `UnrecoverablePosition` (112)
    pub fn unrecoverable_position() -> (c: Self)
        ensures
            c.0 == 112,
    {
        ClientErrorCode(112)
    }

    /// Temporary (retryable) codes: internal error and too many requests.
    pub fn is_temporary(self) -> (r: bool)
        ensures
            r <==> (self.0 == 100 || self.0 == 111),
    {
        self.0 == 100 || self.0 == 111
    }

    /// Human-readable text of the code.
    pub fn to_str(&self) -> (s: String)
        ensures
            s@ == client_code_text(self.0),
    {
        if self.0 == 100 {
            "internal server error".to_owned()
        } else if self.0 == 101 {
            "unauthorized".to_owned()
        } else if self.0 == 102 {
            "unknown channel".to_owned()
        } else if self.0 == 103 {
            "permission denied".to_owned()
        } else if self.0 == 104 {
            "method not found".to_owned()
        } else if self.0 == 105 {
            "already subscribed".to_owned()
        } else if self.0 == 106 {
            "limit exceeded".to_owned()
        } else if self.0 == 107 {
            "bad request".to_owned()
        } else if self.0 == 108 {
            "not available".to_owned()
        } else if self.0 == 109 {
            "token expired".to_owned()
        } else if self.0 == 110 {
            "expired".to_owned()
        } else if self.0 == 111 {
            "too many requests".to_owned()
        } else if self.0 == 112 {
            "unrecoverable position".to_owned()
        } else {
            let mut s = "unknown code ".to_owned();
            let digits = decimal_string(self.0 as u64);
            s.append(digits.as_str());
            s
        }
    }
}

/// Numeric error code that closes a connection.
#[derive(Debug, Clone, Copy, PartialEq, Eq, Structural)]
pub struct DisconnectErrorCode(pub u16);

/// Whether a client that was disconnected with `code` reconnects.
pub open spec fn reconnects_after(code: u16) -> bool {
    !((3500 <= code && code <= 3999) || (4500 <= code && code <= 4999))
}

/// Text of a disconnect code, as its `Display` shows it.
pub open spec fn disconnect_code_text(code: u16) -> Seq<char> {
    if code == 3000 {
        "connection closed"@
    } else if code == 3001 {
        "shutdown"@
    } else if code == 3004 {
        "internal server error"@
    } else if code == 3005 {
        "connection expired"@
    } else if code == 3006 {
        "subscription expired"@
    } else if code == 3008 {
        "slow"@
    } else if code == 3009 {
        "write error"@
    } else if code == 3010 {
        "insufficient state"@
    } else if code == 3011 {
        "force reconnect"@
    } else if code == 3012 {
        "no pong"@
    } else if code == 3013 {
        "too many requests"@
    } else if code == 3500 {
        "invalid token"@
    } else if code == 3501 {
        "bad request"@
    } else if code == 3502 {
        "stale"@
    } else if code == 3503 {
        "force disconnect"@
    } else if code == 3504 {
        "connection limit"@
    } else if code == 3505 {
        "channel limit"@
    } else if code == 3506 {
        "inappropriate protocol"@
    } else if code == 3507 {
        "permission denied"@
    } else if code == 3508 {
        "not available"@
    } else if code == 3509 {
        "too many errors"@
    } else {
        "unknown code "@ + decimal_digits(code as nat)
    }
}

impl DisconnectErrorCode {
    /// `ConnectionClosed` (3000)
    pub fn connection_closed() -> (c: Self)
        ensures
            c.0 == 3000,
    {
        DisconnectErrorCode(3000)
    }

    /// `Shutdown` (3001)
    pub fn shutdown() -> (c: Self)
        ensures
            c.0 == 3001,
    {
        DisconnectErrorCode(3001)
    }

    /// `ServerError` (3004)
    pub fn server_error() -> (c: Self)
        ensures
            c.0 == 3004,
    {
        DisconnectErrorCode(3004)
    }

    /// `Expired` (3005)
    pub fn expired() -> (c: Self)
        ensures
            c.0 == 3005,
    {
        DisconnectErrorCode(3005)
    }

    /// `SubExpired` (3006)
    pub fn sub_expired() -> (c: Self)
        ensures
            c.0 == 3006,
    {
        DisconnectErrorCode(3006)
    }

    /// `Slow` (3008)
    pub fn slow() -> (c: Self)
        ensures
            c.0 == 3008,
    {
        DisconnectErrorCode(3008)
    }

    /// `WriteError` (3009)
    pub fn write_error() -> (c: Self)
        ensures
            c.0 == 3009,
    {
        DisconnectErrorCode(3009)
    }

    /// `InsufficientState` (3010)
    pub fn insufficient_state() -> (c: Self)
        ensures
            c.0 == 3010,
    {
        DisconnectErrorCode(3010)
    }

    /// `ForceReconnect` (3011)
    pub fn force_reconnect() -> (c: Self)
        ensures
            c.0 == 3011,
    {
        DisconnectErrorCode(3011)
    }

    /// `NoPong` (3012)
    pub fn no_pong() -> (c: Self)
        ensures
            c.0 == 3012,
    {
        DisconnectErrorCode(3012)
    }

    /// `TooManyRequests` (3013)
    pub fn too_many_requests() -> (c: Self)
        ensures
            c.0 == 3013,
    {
        DisconnectErrorCode(3013)
    }

    /// `InvalidToken` (3500)
    pub fn invalid_token() -> (c: Self)
        ensures
            c.0 == 3500,
    {
        DisconnectErrorCode(3500)
    }

    /// `BadRequest` (3501)
    pub fn bad_request() -> (c: Self)
        ensures
            c.0 == 3501,
    {
        DisconnectErrorCode(3501)
    }

    /// `Stale` (3502)
    pub fn stale() -> (c: Self)
        ensures
            c.0 == 3502,
    {
        DisconnectErrorCode(3502)
    }

    /// `ForceNoReconnect` (3503)
    pub fn force_no_reconnect() -> (c: Self)
        ensures
            c.0 == 3503,
    {
        DisconnectErrorCode(3503)
    }

    /// `ConnectionLimit` (3504)
    pub fn connection_limit() -> (c: Self)
        ensures
            c.0 == 3504,
    {
        DisconnectErrorCode(3504)
    }

    /// `ChannelLimit` (3505)
    pub fn channel_limit() -> (c: Self)
        ensures
            c.0 == 3505,
    {
        DisconnectErrorCode(3505)
    }

    /// `InappropriateProtocol` (3506)
    pub fn inappropriate_protocol() -> (c: Self)
        ensures
            c.0 == 3506,
    {
        DisconnectErrorCode(3506)
    }

    /// `PermissionDenied` (3507)
    pub fn permission_denied() -> (c: Self)
        ensures
            c.0 == 3507,
    {
        DisconnectErrorCode(3507)
    }

    /// `NotAvailable` (3508)
    pub fn not_available() -> (c: Self)
        ensures
            c.0 == 3508,
    {
        DisconnectErrorCode(3508)
    }

    /// `TooManyErrors` (3509)
    pub fn too_many_errors() -> (c: Self)
        ensures
            c.0 == 3509,
    {
        DisconnectErrorCode(3509)
    }

    /// Codes 3500-3999 and 4500-4999 forbid reconnecting; all others allow it.
    pub fn should_reconnect(self) -> (r: bool)
        ensures
            r == reconnects_after(self.0),
    {
        !((3500 <= self.0 && self.0 <= 3999) || (4500 <= self.0 && self.0 <= 4999))
    }

    /// Human-readable text of the code.
    pub fn to_str(&self) -> (s: String)
        ensures
            s@ == disconnect_code_text(self.0),
    {
        if self.0 == 3000 {
            "connection closed".to_owned()
        } else if self.0 == 3001 {
            "shutdown".to_owned()
        } else if self.0 == 3004 {
            "internal server error".to_owned()
        } else if self.0 == 3005 {
            "connection expired".to_owned()
        } else if self.0 == 3006 {
            "subscription expired".to_owned()
        } else if self.0 == 3008 {
            "slow".to_owned()
        } else if self.0 == 3009 {
            "write error".to_owned()
        } else if self.0 == 3010 {
            "insufficient state".to_owned()
        } else if self.0 == 3011 {
            "force reconnect".to_owned()
        } else if self.0 == 3012 {
            "no pong".to_owned()
        } else if self.0 == 3013 {
            "too many requests".to_owned()
        } else if self.0 == 3500 {
            "invalid token".to_owned()
        } else if self.0 == 3501 {
            "bad request".to_owned()
        } else if self.0 == 3502 {
            "stale".to_owned()
        } else if self.0 == 3503 {
            "force disconnect".to_owned()
        } else if self.0 == 3504 {
            "connection limit".to_owned()
        } else if self.0 == 3505 {
            "channel limit".to_owned()
        } else if self.0 == 3506 {
            "inappropriate protocol".to_owned()
        } else if self.0 == 3507 {
            "permission denied".to_owned()
        } else if self.0 == 3508 {
            "not available".to_owned()
        } else if self.0 == 3509 {
            "too many errors".to_owned()
        } else {
            let mut s = "unknown code ".to_owned();
            let digits = decimal_string(self.0 as u64);
            s.append(digits.as_str());
            s
        }
    }
}

/// Error of a client operation: a code and a human-readable message.
#[derive(Debug, Clone, PartialEq, Eq)]
pub struct ClientError {
    /// Numeric error code
    pub code: ClientErrorCode,
    /// Human-readable error message
    pub message: String,
}

impl ClientError {
    /// A client error with the given code and message.
    pub fn new(code: ClientErrorCode, message: &str) -> (e: Self)
        ensures
            e.code == code,
            e.message@ == message@,
    {
        ClientError { code, message: message.to_owned() }
    }

    /// A client error with code 100 and the given message.
    pub fn internal(message: &str) -> (e: Self)
        ensures
            e.code.0 == 100,
            e.message@ == message@,
    {
        Self::new(ClientErrorCode::internal(), message)
    }

    /// A client error with code 101 and the given message.
    pub fn unauthorized(message: &str) -> (e: Self)
        ensures
            e.code.0 == 101,
            e.message@ == message@,
    {
        Self::new(ClientErrorCode::unauthorized(), message)
    }

    /// A client error with code 102 and the given message.
    pub fn unknown_channel(message: &str) -> (e: Self)
        ensures
            e.code.0 == 102,
            e.message@ == message@,
    {
        Self::new(ClientErrorCode::unknown_channel(), message)
    }

    /// A client error with code 103 and the given message.
    pub fn permission_denied(message: &str) -> (e: Self)
        ensures
            e.code.0 == 103,
            e.message@ == message@,
    {
        Self::new(ClientErrorCode::permission_denied(), message)
    }

    /// A client error with code 104 and the given message.
    pub fn method_not_found(message: &str) -> (e: Self)
        ensures
            e.code.0 == 104,
            e.message@ == message@,
    {
        Self::new(ClientErrorCode::method_not_found(), message)
    }

    /// A client error with code 105 and the given message.
    pub fn already_subscribed(message: &str) -> (e: Self)
        ensures
            e.code.0 == 105,
            e.message@ == message@,
    {
        Self::new(ClientErrorCode::already_subscribed(), message)
    }

    /// A client error with code 106 and the given message.
    pub fn limit_exceeded(message: &str) -> (e: Self)
        ensures
            e.code.0 == 106,
            e.message@ == message@,
    {
        Self::new(ClientErrorCode::limit_exceeded(), message)
    }

    /// A client error with code 107 and the given message.
    pub fn bad_request(message: &str) -> (e: Self)
        ensures
            e.code.0 == 107,
            e.message@ == message@,
    {
        Self::new(ClientErrorCode::bad_request(), message)
    }

    /// A client error with code 108 and the given message.
    pub fn not_available(message: &str) -> (e: Self)
        ensures
            e.code.0 == 108,
            e.message@ == message@,
    {
        Self::new(ClientErrorCode::not_available(), message)
    }

    /// A client error with code 109 and the given message.
    pub fn token_expired(message: &str) -> (e: Self)
        ensures
            e.code.0 == 109,
            e.message@ == message@,
    {
        Self::new(ClientErrorCode::token_expired(), message)
    }

    /// A client error with code 110 and the given message.
    pub fn expired(message: &str) -> (e: Self)
        ensures
            e.code.0 == 110,
            e.message@ == message@,
    {
        Self::new(ClientErrorCode::expired(), message)
    }

    /// A client error with code 111 and the given message.
    pub fn too_many_requests(message: &str) -> (e: Self)
        ensures
            e.code.0 == 111,
            e.message@ == message@,
    {
        Self::new(ClientErrorCode::too_many_requests(), message)
    }

    /// A client error with code 112 and the given message.
    pub fn unrecoverable_position(message: &str) -> (e: Self)
        ensures
            e.code.0 == 112,
            e.message@ == message@,
    {
        Self::new(ClientErrorCode::unrecoverable_position(), message)
    }
}

impl ClientError {
    /// The error with the code's own text as its message.
    pub fn from_code(code: ClientErrorCode) -> (e: Self)
        ensures
            e.code == code,
            e.message@ == client_code_text(code.0),
    {
        let text = code.to_str();
        ClientError { code, message: text }
    }
}

impl From<u16> for ClientErrorCode {
    fn from(code: u16) -> (c: Self) {
        ClientErrorCode(code)
    }
}

impl vstd::std_specs::convert::FromSpecImpl<u16> for ClientErrorCode {
    open spec fn obeys_from_spec() -> bool {
        true
    }

    open spec fn from_spec(code: u16) -> Self {
        ClientErrorCode(code)
    }
}

impl From<ClientErrorCode> for u16 {
    fn from(code: ClientErrorCode) -> (c: Self) {
        code.0
    }
}

impl vstd::std_specs::convert::FromSpecImpl<ClientErrorCode> for u16 {
    open spec fn obeys_from_spec() -> bool {
        true
    }

    open spec fn from_spec(code: ClientErrorCode) -> Self {
        code.0
    }
}

impl From<u16> for DisconnectErrorCode {
    fn from(code: u16) -> (c: Self) {
        DisconnectErrorCode(code)
    }
}

impl vstd::std_specs::convert::FromSpecImpl<u16> for DisconnectErrorCode {
    open spec fn obeys_from_spec() -> bool {
        true
    }

    open spec fn from_spec(code: u16) -> Self {
        DisconnectErrorCode(code)
    }
}

impl From<DisconnectErrorCode> for u16 {
    fn from(code: DisconnectErrorCode) -> (c: Self) {
        code.0
    }
}

impl vstd::std_specs::convert::FromSpecImpl<DisconnectErrorCode> for u16 {
    open spec fn obeys_from_spec() -> bool {
        true
    }

    open spec fn from_spec(code: DisconnectErrorCode) -> Self {
        code.0
    }
}

impl protocol::Error {
    /// The protocol error that carries a client error: its code, message and
    /// whether the code is temporary.
    pub fn from_client_error(err: ClientError) -> (e: Self)
        ensures
            e.code == err.code.0 as u32,
            e.message == err.message,
            e.temporary == (err.code.0 == 100 || err.code.0 == 111),
    {
        let temporary = err.code.is_temporary();
        protocol::Error { code: err.code.0 as u32, message: err.message, temporary }
    }

    /// The protocol error for a bare code, with the code's text as message.
    pub fn from_code(code: ClientErrorCode) -> (e: Self)
        ensures
            e.code == code.0 as u32,
            e.message@ == client_code_text(code.0),
            e.temporary == (code.0 == 100 || code.0 == 111),
    {
        let temporary = code.is_temporary();
        protocol::Error { code: code.0 as u32, message: code.to_str(), temporary }
    }
}

/// A client error becomes the protocol error with its code, its message and
/// whether the code is temporary.
impl From<ClientError> for protocol::Error {
    fn from(err: ClientError) -> (e: Self) {
        protocol::Error::from_client_error(err)
    }
}

impl vstd::std_specs::convert::FromSpecImpl<ClientError> for protocol::Error {
    open spec fn obeys_from_spec() -> bool {
        true
    }

    open spec fn from_spec(err: ClientError) -> Self {
        protocol::Error {
            code: err.code.0 as u32,
            message: err.message,
            temporary: err.code.0 == 100 || err.code.0 == 111,
        }
    }
}

/// A bare code becomes the protocol error with the code's text as message.
/// The message is a string made at run time, which no spec value names, so
/// `from_spec` is not claimed; the result is stated by this impl's own
/// `ensures`.
impl From<ClientErrorCode> for protocol::Error {
    fn from(code: ClientErrorCode) -> (e: Self)
        ensures
            e.code == code.0 as u32,
            e.message@ == client_code_text(code.0),
            e.temporary == (code.0 == 100 || code.0 == 111),
    {
        protocol::Error::from_code(code)
    }
}

impl vstd::std_specs::convert::FromSpecImpl<ClientErrorCode> for protocol::Error {
    open spec fn obeys_from_spec() -> bool {
        false
    }

    open spec fn from_spec(code: ClientErrorCode) -> Self {
        protocol::Error {
            code: code.0 as u32,
            message: choose|m: String| m@ == client_code_text(code.0),
            temporary: code.0 == 100 || code.0 == 111,
        }
    }
}

/// Which close codes let the client reconnect: every code below 3000 (the
/// WebSocket codes, such as 1000 for a normal close or 1001 for a server
/// going away) and every temporary disconnect code (3000-3499, 4000-4499)
/// reconnect, as do codes from 5000 up; only the terminal ranges
/// 3500-3999 and 4500-4999 stop the client for good.
pub proof fn law_reconnect_ranges(c: u16)
    ensures
        c < 3000 ==> reconnects_after(c),
        3000 <= c < 3500 ==> reconnects_after(c),
        3500 <= c < 4000 ==> !reconnects_after(c),
        4000 <= c < 4500 ==> reconnects_after(c),
        4500 <= c < 5000 ==> !reconnects_after(c),
        5000 <= c ==> reconnects_after(c),
{
}

} // verus!
