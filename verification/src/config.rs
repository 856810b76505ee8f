//! Client configuration: protocol encoding, identification and timeouts.

use std::time::Duration;
use vstd::prelude::*;

verus! {

/// Encoding used on the wire.
#[derive(Debug, Clone, Copy, PartialEq, Eq, Structural)]
pub enum Protocol {
    /// JSON encoding, one frame per line of a text message.
    Json,
    /// Protobuf encoding, length-delimited frames in a binary message.
    Protobuf,
}

/// `Duration::from_secs(secs)`: the duration of `secs` whole seconds.
pub uninterp spec fn duration_from_secs(secs: u64) -> Duration;

/// `Duration::from_secs`: builds the duration of `secs` whole seconds.
#[verifier::external_body]
pub fn seconds(secs: u64) -> (d: Duration)
    ensures
        d == duration_from_secs(secs),
{
    Duration::from_secs(secs)
}

/// `Duration` is `Copy`: its `clone` returns the same duration.
pub assume_specification[ <Duration as Clone>::clone ](d: &Duration) -> (r: Duration)
    ensures
        r == *d,
;

/// `Duration::as_secs`: the whole seconds of a duration.
pub uninterp spec fn duration_whole_secs(d: Duration) -> u64;

/// `Duration::as_secs`: the number of whole seconds in `d`; for a duration
/// built from whole seconds, that number.
#[verifier::external_body]
pub fn whole_seconds(d: Duration) -> (secs: u64)
    ensures
        secs == duration_whole_secs(d),
        forall|n: u64| d == duration_from_secs(n) ==> secs == n,
{
    d.as_secs()
}

/// `Duration::as_nanos`: the nanoseconds of a duration.
pub uninterp spec fn duration_nanos(d: Duration) -> u128;

/// `Duration::as_nanos`: the number of nanoseconds in `d`; for a duration
/// built from whole seconds, a thousand million per second.
#[verifier::external_body]
pub fn nanos(d: Duration) -> (ns: u128)
    ensures
        ns == duration_nanos(d),
        forall|n: u64| d == duration_from_secs(n) ==> ns == n * 1_000_000_000,
{
    d.as_nanos()
}

/// A duration as a number of millisecond ticks: a part of a millisecond
/// counts as a whole one, so that only the zero duration is zero ticks;
/// a duration of `u64::MAX` milliseconds or more (such as `Duration::MAX`)
/// counts as `u64::MAX`, which stands for "no time limit".
pub open spec fn timeout_ticks(d: Duration) -> u64 {
    let ms = (duration_nanos(d) + 999_999) / 1_000_000;
    if ms >= u64::MAX {
        u64::MAX
    } else {
        ms as u64
    }
}

/// The ticks of a duration, as `timeout_ticks` counts them.
pub fn ticks(d: Duration) -> (t: u64)
    ensures
        t == timeout_ticks(d),
        (t == 0) == (duration_nanos(d) == 0),
        forall|n: u64| d == duration_from_secs(n) && n * 1000 < u64::MAX ==> t == n * 1000,
{
    let ns = nanos(d);
    proof {
        assert forall|n: u64| d == duration_from_secs(n) implies (ns + 999_999) / 1_000_000 == n * 1000 by {
            assert(ns == n * 1_000_000_000);
            assert((n * 1_000_000_000 + 999_999) / 1_000_000 == n * 1000) by (nonlinear_arith);
        }
    }
    let ms = ns / 1_000_000 + if ns % 1_000_000 == 0 { 0u128 } else { 1u128 };
    assert(ms == (ns + 999_999) / 1_000_000) by (nonlinear_arith)
        requires
            ms == ns / 1_000_000 + if ns % 1_000_000 == 0 { 0int } else { 1int },
    ;
    if ms >= 0xffff_ffff_ffff_ffffu128 {
        u64::MAX
    } else {
        ms as u64
    }
}

/// The name a client reports when none is configured (the package name).
pub open spec fn default_client_name() -> Seq<char> {
    "tokio-centrifuge"@
}

/// Settings of a client connection.
#[derive(Debug, Clone)]
pub struct Config {
    /// Authentication token sent in the connect request
    pub token: String,
    /// Client name sent in the connect request
    pub name: String,
    /// Client version sent in the connect request
    pub version: String,
    /// Wire encoding
    pub protocol: Protocol,
    /// Time a request may wait for its reply
    pub read_timeout: Duration,
}

impl Default for Config {
    /// No token, the package name, no version, JSON, and a read timeout of
    /// five seconds.
    fn default() -> (c: Self)
        ensures
            c.token@ == Seq::<char>::empty(),
            c.name@ == default_client_name(),
            c.version@ == Seq::<char>::empty(),
            c.protocol == Protocol::Json,
            c.read_timeout == duration_from_secs(5),
    {
        Config::new()
    }
}

/// How long to wait before each reconnection attempt; implemented by the
/// users of the client.
pub trait ReconnectStrategy {
    /// The delay before attempt `attempt` (counted from one).
    fn time_before_next_attempt(&self, attempt: u32) -> Duration;
}

/// The delay before a connection attempt: none before the first one
/// (`previous_attempts == 0`); otherwise what the strategy gives for that
/// many previous attempts.
pub fn reconnect_delay<S: ReconnectStrategy + ?Sized>(strategy: &S, previous_attempts: u32) -> (d: Duration)
    ensures
        previous_attempts == 0 ==> d == duration_from_secs(0),
        previous_attempts > 0 ==> call_ensures(S::time_before_next_attempt, (strategy, previous_attempts), d),
{
    if previous_attempts > 0 {
        strategy.time_before_next_attempt(previous_attempts)
    } else {
        seconds(0)
    }
}

impl Config {
    /// The default configuration: no token, the package name, no version,
    /// JSON, and a read timeout of five seconds.
    pub fn new() -> (c: Self)
        ensures
            c.token@ == Seq::<char>::empty(),
            c.name@ == default_client_name(),
            c.version@ == Seq::<char>::empty(),
            c.protocol == Protocol::Json,
            c.read_timeout == duration_from_secs(5),
    {
        Config {
            token: String::new(),
            name: "tokio-centrifuge".to_owned(),
            version: String::new(),
            protocol: Protocol::Json,
            read_timeout: seconds(5),
        }
    }

    /// Sets the authentication token.
    pub fn with_token(self, token: &str) -> (c: Self)
        ensures
            c.token@ == token@,
            c.name == self.name,
            c.version == self.version,
            c.protocol == self.protocol,
            c.read_timeout == self.read_timeout,
    {
        Config { token: token.to_owned(), ..self }
    }

    /// Sets the client name.
    pub fn with_name(self, name: &str) -> (c: Self)
        ensures
            c.name@ == name@,
            c.token == self.token,
            c.version == self.version,
            c.protocol == self.protocol,
            c.read_timeout == self.read_timeout,
    {
        Config { name: name.to_owned(), ..self }
    }

    /// Sets the client version.
    pub fn with_version(self, version: &str) -> (c: Self)
        ensures
            c.version@ == version@,
            c.token == self.token,
            c.name == self.name,
            c.protocol == self.protocol,
            c.read_timeout == self.read_timeout,
    {
        Config { version: version.to_owned(), ..self }
    }

    /// Sets the read timeout.
    pub fn with_read_timeout(self, timeout: Duration) -> (c: Self)
        ensures
            c.read_timeout == timeout,
            c.token == self.token,
            c.name == self.name,
            c.version == self.version,
            c.protocol == self.protocol,
    {
        Config { read_timeout: timeout, ..self }
    }

    /// Selects JSON encoding.
    pub fn use_json(self) -> (c: Self)
        ensures
            c.protocol == Protocol::Json,
            c.token == self.token,
            c.name == self.name,
            c.version == self.version,
            c.read_timeout == self.read_timeout,
    {
        Config { protocol: Protocol::Json, ..self }
    }

    /// Selects Protobuf encoding.
    pub fn use_protobuf(self) -> (c: Self)
        ensures
            c.protocol == Protocol::Protobuf,
            c.token == self.token,
            c.name == self.name,
            c.version == self.version,
            c.read_timeout == self.read_timeout,
    {
        Config { protocol: Protocol::Protobuf, ..self }
    }
}

/// Ticks count milliseconds, a part of one counting as a whole: a duration
/// of `t` ticks lasts more than `t - 1` and at most `t` milliseconds; only
/// the zero duration is zero ticks; and only a duration of more than
/// `u64::MAX - 1` milliseconds is `u64::MAX` ticks.
pub proof fn law_ticks_round_up_to_milliseconds(d: Duration)
    ensures
        duration_nanos(d) == 0 ==> timeout_ticks(d) == 0,
        0 < duration_nanos(d) <= (u64::MAX - 1) * 1_000_000 ==> {
            &&& (timeout_ticks(d) - 1) * 1_000_000 < duration_nanos(d)
            &&& duration_nanos(d) <= timeout_ticks(d) * 1_000_000
        },
        duration_nanos(d) > (u64::MAX - 1) * 1_000_000 ==> timeout_ticks(d) == u64::MAX,
{
    let n = duration_nanos(d);
    let ms = (n + 999_999) / 1_000_000;
    assert(ms * 1_000_000 <= n + 999_999 < ms * 1_000_000 + 1_000_000) by (nonlinear_arith)
        requires
            ms == (n + 999_999) / 1_000_000,
    ;
}

} // verus!
