//! Client identifiers and the parameters of a served connection.

use std::time::Duration;
use vstd::prelude::*;
use vstd::arithmetic::power::pow;
use crate::config::{Protocol, duration_from_secs, seconds};

verus! {

/// Lower-case hexadecimal digit of `d` (below sixteen).
pub open spec fn hex_lower(d: nat) -> char {
    if d < 10 {
        ((48 + d) as u8) as char
    } else {
        ((87 + d) as u8) as char
    }
}

/// Nibble `j` of a 128-bit value, counted from the most significant one.
pub open spec fn nibble(v: u128, j: int) -> nat {
    ((v as int / pow(16, (31 - j) as nat)) % 16) as nat
}

/// Number of hyphens that precede position `i` of a hyphenated UUID.
pub open spec fn hyphens_before(i: int) -> int {
    (if i > 8 { 1int } else { 0 }) + (if i > 13 { 1int } else { 0 }) + (if i > 18 { 1int } else {
        0
    }) + (if i > 23 { 1int } else { 0 })
}

/// The hyphenated lower-case form of a UUID whose 128 bits (big-endian)
/// are `v`: 32 hex digits in groups of 8-4-4-4-12.
pub open spec fn uuid_text(v: u128) -> Seq<char> {
    Seq::new(
        36,
        |i: int|
            if i == 8 || i == 13 || i == 18 || i == 23 {
                '-'
            } else {
                hex_lower(nibble(v, i - hyphens_before(i)))
            },
    )
}

/// Whether the 128 bits `v` of a UUID mark it as a random UUID: the
/// version nibble (bits 76 to 79) is 4 and the variant (bits 62 and 63) is
/// the RFC 4122 one, `10` in binary.
pub open spec fn is_random_uuid(v: u128) -> bool {
    &&& (v / 0x1000_0000_0000_0000_0000) % 16 == 4
    &&& (v / 0x4000_0000_0000_0000) % 4 == 2
}

/// `Uuid::new_v4().as_u128()`: the bits of a fresh random (version 4) UUID.
/// The bits come from the random source; whatever they are, `new_v4`
/// masks in the version and variant bits, which is all that is promised.
#[verifier::external_body]
fn random_uuid() -> (v: u128)
    ensures
        is_random_uuid(v),
{
    uuid::Uuid::new_v4().as_u128()
}

/// `Uuid::from_u128(v).as_hyphenated().to_string()`: the hyphenated
/// lower-case text of the UUID with bits `v`.
#[verifier::external_body]
fn hyphenated(v: u128) -> (s: String)
    ensures
        s@ == uuid_text(v),
{
    uuid::Uuid::from_u128(v).as_hyphenated().to_string()
}

/// Identifier of a client connection: a UUID, kept as its 128 bits.
#[derive(Debug, Clone, Copy, PartialEq, Eq, Structural, Hash, PartialOrd, Ord)]
pub struct ClientId(pub u128);

impl ClientId {
    /// A fresh random (version 4) identifier: its bits are random but for
    /// the version and variant, which mark it as a random UUID.
    pub fn new() -> (id: Self)
        ensures
            is_random_uuid(id.0),
    {
        ClientId(random_uuid())
    }

    /// The identifier as a hyphenated UUID string (its `Display` form).
    pub fn to_text(&self) -> (s: String)
        ensures
            s@ == uuid_text(self.0),
    {
        hyphenated(self.0)
    }
}

/// Parameters of a served connection.
#[derive(Debug, Clone, Copy)]
pub struct ServeParams {
    /// Identifier of the connection; a fresh one is made where `None`
    pub client_id: Option<ClientId>,
    /// Wire encoding
    pub encoding: Protocol,
    /// Interval between pings (`None` disables them)
    pub ping_interval: Option<Duration>,
    /// Time to wait for a pong (`None` disables the check)
    pub pong_timeout: Option<Duration>,
}

/// The parameters for `encoding` with the default ping settings: pings every
/// 25 seconds, pongs expected within 10 seconds, no fixed client id.
pub open spec fn default_params(encoding: Protocol) -> ServeParams {
    ServeParams {
        client_id: None,
        encoding,
        ping_interval: Some(duration_from_secs(25)),
        pong_timeout: Some(duration_from_secs(10)),
    }
}

impl ServeParams {
    /// Default parameters with the given encoding.
    pub fn with_encoding(encoding: Protocol) -> (p: Self)
        ensures
            p == default_params(encoding),
    {
        ServeParams {
            client_id: None,
            encoding,
            ping_interval: Some(seconds(25)),
            pong_timeout: Some(seconds(10)),
        }
    }

    /// Default parameters with JSON encoding.
    pub fn json() -> (p: Self)
        ensures
            p == default_params(Protocol::Json),
    {
        Self::with_encoding(Protocol::Json)
    }

    /// Default parameters with Protobuf encoding.
    pub fn protobuf() -> (p: Self)
        ensures
            p == default_params(Protocol::Protobuf),
    {
        Self::with_encoding(Protocol::Protobuf)
    }

    /// Fixes the identifier of the connection.
    pub fn with_client_id(self, client_id: ClientId) -> (p: Self)
        ensures
            p == (ServeParams { client_id: Some(client_id), ..self }),
    {
        ServeParams { client_id: Some(client_id), ..self }
    }

    /// Disables pings and the pong check.
    pub fn without_ping(self) -> (p: Self)
        ensures
            p == (ServeParams { ping_interval: None, pong_timeout: None, ..self }),
    {
        ServeParams { ping_interval: None, pong_timeout: None, ..self }
    }
}

impl Default for ServeParams {
    /// JSON encoding, pings every 25 seconds, pongs within 10 seconds, no
    /// fixed client id.
    fn default() -> (p: Self)
        ensures
            p == default_params(Protocol::Json),
    {
        Self::json()
    }
}

impl From<Protocol> for ServeParams {
    fn from(protocol: Protocol) -> (p: Self) {
        Self::with_encoding(protocol)
    }
}

impl vstd::std_specs::convert::FromSpecImpl<Protocol> for ServeParams {
    open spec fn obeys_from_spec() -> bool {
        true
    }

    open spec fn from_spec(protocol: Protocol) -> Self {
        default_params(protocol)
    }
}

} // verus!
