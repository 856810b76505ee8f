//! Decisions of a server session: what to do with each command a client
//! sends, given the state of the session and the registered routes.
//!
//! The session starts `Initial` and accepts only a connect command; once the
//! connect handler accepted the client it is `Connected` and serves RPC
//! calls, publications and subscriptions.  Running the handlers, timers and
//! the connection itself is up to the caller, which performs the returned
//! actions.

use std::collections::HashMap;
use vstd::prelude::*;
use crate::errors::{ClientError, ClientErrorCode, DisconnectErrorCode, client_code_text};
use crate::protocol::{
    Command, ConnectResult, Error, Publication, PublishResult, Push, PushData, RawReply, Reply,
    RpcResult, SubscribeResult, Unsubscribe, UnsubscribeResult,
};
use crate::config::whole_seconds;
use matchit::Router;
use crate::server::routes::{RouteMatch, ServerRoutes, match_view, route_match, params_view};
use crate::server::types::{ClientId, ServeParams, uuid_text};
use crate::config::duration_whole_secs;

verus! {

/// Most channels a client can be subscribed to at once.
pub const MAX_SUBSCRIPTION_COUNT: usize = 128;

/// Most RPC, publish and subscribe requests a client can have in progress.
pub const MAX_CONCURRENT_REQUESTS: usize = 10;

/// State of a session.
#[derive(Debug, Clone, Copy, PartialEq, Eq, Structural)]
pub enum SessionState {
    /// The client has not been authenticated yet.
    Initial,
    /// The client is authenticated and can send commands.
    Connected,
}

/// What the connect handler learns of a connecting client.
#[derive(Debug, Clone)]
pub struct ConnectContext {
    /// Identifier of the connection
    pub client_id: ClientId,
    /// Name the client reported
    pub client_name: String,
    /// Version the client reported
    pub client_version: String,
    /// Authentication token
    pub token: String,
    /// Additional connection data
    pub data: Vec<u8>,
}

/// What the disconnect handler learns of a client that left.
#[derive(Debug, Clone, Copy)]
pub struct DisconnectContext {
    /// Identifier of the connection
    pub client_id: ClientId,
}

/// What the server answers a connecting client when no connect handler
/// is set: a client that sends a token is refused as having an invalid
/// token (3500); any other is accepted.
pub fn default_connect(ctx: &ConnectContext) -> (r: Result<(), DisconnectErrorCode>)
    ensures
        ctx.token@.len() == 0 ==> r is Ok,
        ctx.token@.len() > 0 ==> (r matches Err(code) && code.0 == 3500),
{
    if !ctx.token.as_str().is_empty() {
        Err(DisconnectErrorCode::invalid_token())
    } else {
        Ok(())
    }
}

/// What the caller of a session has to do next.
#[derive(Debug)]
pub enum SessionAction {
    /// Run the connect handler, then report its outcome with
    /// `ServerSession::finish_connect` for the command `id`.
    Authenticate { id: u32, ctx: ConnectContext },
    /// Send a reply (a push when the id is zero).
    Send(u32, Reply),
    /// Close the connection with a code.
    Close(DisconnectErrorCode),
    /// Run RPC handler `handler`, then answer with
    /// `ServerSession::rpc_finished`.
    CallRpc { id: u32, handler: usize, params: Vec<(String, String)>, data: Vec<u8> },
    /// Run publication handler `handler`, then answer with
    /// `ServerSession::publish_finished`.
    CallPublish { id: u32, handler: usize, params: Vec<(String, String)>, data: Vec<u8> },
    /// Run channel handler `handler` for `channel` and stream what it yields.
    StartSubscription {
        id: u32,
        handler: usize,
        params: Vec<(String, String)>,
        channel: String,
        data: Vec<u8>,
    },
    /// Stop the stream of `cancel` where it is `Some`, then send the reply.
    Unsubscribe { id: u32, cancel: Option<String>, reply: Reply },
}

/// Whether `r` is the error reply for client error code `code`: the code,
/// the code's text, and whether it is temporary.
pub open spec fn is_code_error(r: Reply, code: u16) -> bool {
    &&& r is Error
    &&& r->Error_0.code == code as u32
    &&& r->Error_0.message@ == client_code_text(code)
    &&& r->Error_0.temporary == (code == 100 || code == 111)
}

/// Whether `r` is the error reply that carries the client error `e`.
pub open spec fn is_client_error(r: Reply, e: ClientError) -> bool {
    &&& r is Error
    &&& r->Error_0.code == e.code.0 as u32
    &&& r->Error_0.message@ == e.message@
    &&& r->Error_0.temporary == (e.code.0 == 100 || e.code.0 == 111)
}

/// Views of a list of channel names.
pub open spec fn channel_views(chs: Seq<String>) -> Seq<Seq<char>> {
    chs.map_values(|c: String| c@)
}

/// Whether `a` sends the error reply for client error code `code` to `id`.
pub open spec fn sends_code_error(a: SessionAction, id: u32, code: u16) -> bool {
    match a {
        SessionAction::Send(rid, rep) => rid == id && is_code_error(rep, code),
        _ => false,
    }
}

/// Whether `a` closes the connection with code `code`.
pub open spec fn closes_with(a: SessionAction, code: u16) -> bool {
    match a {
        SessionAction::Close(c) => c.0 == code,
        _ => false,
    }
}

/// Whether `a` runs the route `found` (handler and parameters) for an RPC
/// call `id` with `data`.
pub open spec fn calls_rpc(a: SessionAction, id: u32, found: (usize, Seq<(Seq<char>, Seq<char>)>), data: Vec<u8>) -> bool {
    match a {
        SessionAction::CallRpc { id: rid, handler, params, data: d } => rid == id && handler
            == found.0 && params_view(params@) == found.1 && d == data,
        _ => false,
    }
}

/// Whether `a` runs the route `found` for publication `id` with `data`.
pub open spec fn calls_publish(a: SessionAction, id: u32, found: (usize, Seq<(Seq<char>, Seq<char>)>), data: Vec<u8>) -> bool {
    match a {
        SessionAction::CallPublish { id: rid, handler, params, data: d } => rid == id && handler
            == found.0 && params_view(params@) == found.1 && d == data,
        _ => false,
    }
}

/// Whether `a` starts the route `found` for subscription `id` to
/// `channel` with `data`.
pub open spec fn starts_subscription(a: SessionAction, id: u32, found: (usize, Seq<(Seq<char>, Seq<char>)>), channel: Seq<char>, data: Vec<u8>) -> bool {
    match a {
        SessionAction::StartSubscription { id: rid, handler, params, channel: ch, data: d } => rid
            == id && handler == found.0 && params_view(params@) == found.1 && ch@ == channel && d
            == data,
        _ => false,
    }
}

/// Whether `a` answers unsubscription `id` from `channel`, stopping its
/// stream exactly when the channel was subscribed (`was_subscribed`).
pub open spec fn unsubscribes(a: SessionAction, id: u32, channel: Seq<char>, was_subscribed: bool) -> bool {
    match a {
        SessionAction::Unsubscribe { id: rid, cancel, reply } => rid == id && reply is Unsubscribe
            && (if was_subscribed {
            cancel matches Some(c) && c@ == channel
        } else {
            cancel is None
        }),
        _ => false,
    }
}

/// Whether `a` starts the connect handler for command `id` with what the
/// client sent in `c`.
pub open spec fn authenticates(a: SessionAction, id: u32, client_id: ClientId, c: crate::protocol::ConnectRequest) -> bool {
    match a {
        SessionAction::Authenticate { id: rid, ctx } => rid == id && ctx.client_id == client_id
            && ctx.client_name == c.name && ctx.client_version == c.version && ctx.token == c.token
            && ctx.data == c.data,
        _ => false,
    }
}

/// The decision on command `id` of a session in state `old` (with the
/// given routes): the action `a`, and the subscribed channels after it.
pub open spec fn command_outcome(
    old: ServerSession,
    id: u32,
    command: Command,
    rpc: Router<usize>,
    publ: Router<usize>,
    subs: Router<usize>,
    a: SessionAction,
    channels: Seq<Seq<char>>,
) -> bool {
    if old.state_spec() == SessionState::Initial {
        channels == old.channels() && match command {
            Command::Connect(c) => authenticates(a, id, old.client_id_spec(), c),
            _ => closes_with(a, 3501),
        }
    } else {
        match command {
            Command::Connect(_) => channels == old.channels() && closes_with(a, 3501),
            Command::Rpc(r) => channels == old.channels() && match route_match(rpc, r.method@) {
                None => sends_code_error(a, id, 104),
                Some(found) => calls_rpc(a, id, found, r.data),
            },
            Command::Publish(p) => channels == old.channels() && match route_match(publ, p.channel@) {
                None => sends_code_error(a, id, 102),
                Some(found) => calls_publish(a, id, found, p.data),
            },
            Command::Subscribe(s) => if old.channels().contains(s.channel@) {
                channels == old.channels() && sends_code_error(a, id, 105)
            } else if old.channels().len() >= MAX_SUBSCRIPTION_COUNT {
                channels == old.channels() && sends_code_error(a, id, 106)
            } else {
                match route_match(subs, s.channel@) {
                    None => channels == old.channels() && sends_code_error(a, id, 102),
                    Some(found) => channels == old.channels().push(s.channel@) && starts_subscription(
                        a,
                        id,
                        found,
                        s.channel@,
                        s.data,
                    ),
                }
            },
            Command::Unsubscribe(u) => channels == without(old.channels(), u.channel@) && unsubscribes(a, id, u.channel@, old.channels().contains(u.channel@)),
            _ => channels == old.channels() && sends_code_error(a, id, 108),
        }
    }
}

/// Whether `r` is the connect result for a client with id `client_id` on a
/// connection with parameters `params`.
pub open spec fn is_connect_result(r: ConnectResult, client_id: ClientId, params: ServeParams) -> bool {
    &&& r.client@ == uuid_text(client_id.0)
    &&& r.ping == (match params.ping_interval {
        Some(d) => duration_whole_secs(d) as u32,
        None => 0u32,
    })
    &&& r.pong == params.pong_timeout is Some
    &&& r.version@.len() == 0
    &&& !r.expires
    &&& r.ttl == 0
    &&& r.data@.len() == 0
    &&& r.subs@.len() == 0
    &&& r.session@.len() == 0
    &&& r.node@.len() == 0
}

/// Whether `a` sends the connect result of `client_id` and `params` to `id`.
pub open spec fn sends_connect_result(a: SessionAction, id: u32, client_id: ClientId, params: ServeParams) -> bool {
    match a {
        SessionAction::Send(rid, Reply::Connect(r)) => rid == id && is_connect_result(r, client_id, params),
        _ => false,
    }
}

/// A client session.
pub struct ServerSession {
    params: ServeParams,
    client_id: ClientId,
    state: SessionState,
    subscriptions: Vec<String>,
}

impl ServerSession {
    /// The channels the client is subscribed to.
    pub closed spec fn channels(&self) -> Seq<Seq<char>> {
        channel_views(self.subscriptions@)
    }

    /// The state of the session.
    pub closed spec fn state_spec(&self) -> SessionState {
        self.state
    }

    /// The identifier of the connection.
    pub closed spec fn client_id_spec(&self) -> ClientId {
        self.client_id
    }

    /// The parameters of the connection.
    pub closed spec fn params_spec(&self) -> ServeParams {
        self.params
    }

    /// Well-formedness: no channel twice, at most the channel limit.
    pub open spec fn wf(&self) -> bool {
        &&& self.channels().no_duplicates()
        &&& self.channels().len() <= MAX_SUBSCRIPTION_COUNT
    }

    /// A new session, in the initial state with no subscription.
    pub fn new(params: ServeParams) -> (s: Self)
        requires
            params.client_id is Some,
        ensures
            s.wf(),
            s.state_spec() == SessionState::Initial,
            s.channels() == Seq::<Seq<char>>::empty(),
            s.client_id_spec() == params.client_id->0,
            s.params_spec() == params,
    {
        let client_id = match params.client_id {
            Some(id) => id,
            None => ClientId(0),
        };
        let s = ServerSession { params, client_id, state: SessionState::Initial, subscriptions: Vec::new() };
        assert(s.channels() =~= Seq::<Seq<char>>::empty());
        s
    }

    /// The state of the session.
    pub fn state(&self) -> (st: SessionState)
        ensures
            st == self.state_spec(),
    {
        self.state
    }

    /// The identifier of the connection.
    pub fn client_id(&self) -> (id: ClientId)
        ensures
            id == self.client_id_spec(),
    {
        self.client_id
    }

    /// Whether handling `command` takes one of the permits that bound the
    /// requests in progress: RPC, publish and subscribe commands of a
    /// connected client do.
    pub fn takes_permit(&self, command: &Command) -> (b: bool)
        ensures
            b == (self.state_spec() == SessionState::Connected && (command is Rpc
                || command is Publish || command is Subscribe)),
    {
        match self.state {
            SessionState::Initial => false,
            SessionState::Connected => match command {
                Command::Rpc(_) | Command::Publish(_) | Command::Subscribe(_) => true,
                _ => false,
            },
        }
    }

    fn find_channel(&self, channel: &String) -> (r: Option<usize>)
        ensures
            r matches Some(i) ==> i < self.subscriptions@.len() && self.channels()[i as int]
                == channel@,
            r is None ==> !self.channels().contains(channel@),
    {
        let n = self.subscriptions.len();
        let mut i: usize = 0;
        while i < n
            invariant
                n == self.subscriptions@.len(),
                i <= n,
                forall|j: int| 0 <= j < i ==> self.channels()[j] != channel@,
            decreases n - i,
        {
            if self.subscriptions[i] == *channel {
                return Some(i);
            }
            i = i + 1;
        }
        proof {
            if self.channels().contains(channel@) {
                let j = choose|j: int| 0 <= j < self.channels().len() && self.channels()[j] == channel@;
                assert(self.channels()[j] != channel@);
            }
        }
        None
    }

    /// Decides what to do with command `id` of the client.
    ///
    /// Before authentication only a connect command is accepted (it starts
    /// the connect handler); anything else closes the connection as a bad
    /// request.  Once connected, a second connect closes it too; RPC calls,
    /// publications and subscriptions are routed to their handlers, or
    /// answered with "method not found" / "unknown channel"; a subscription
    /// to a channel already subscribed, or beyond the limit, is refused; an
    /// unsubscription always succeeds; other commands are "not available".
    pub fn process_command(&mut self, id: u32, command: Command, routes: &ServerRoutes) -> (a:
        SessionAction)
        requires
            old(self).wf(),
        ensures
            final(self).wf(),
            final(self).state_spec() == old(self).state_spec(),
            final(self).client_id_spec() == old(self).client_id_spec(),
            final(self).params_spec() == old(self).params_spec(),
            command_outcome(*old(self), id, command, routes.rpc_router(), routes.pub_router(), routes.sub_router(), a, final(self).channels()),
    {
        match self.state {
            SessionState::Initial => match command {
                Command::Connect(c) => SessionAction::Authenticate {
                    id,
                    ctx: ConnectContext {
                        client_id: self.client_id,
                        client_name: c.name,
                        client_version: c.version,
                        token: c.token,
                        data: c.data,
                    },
                },
                _ => SessionAction::Close(DisconnectErrorCode::bad_request()),
            },
            SessionState::Connected => match command {
                Command::Connect(_) => SessionAction::Close(DisconnectErrorCode::bad_request()),
                Command::Rpc(r) => match routes.find_rpc_method(r.method.as_str()) {
                    None => SessionAction::Send(
                        id,
                        Reply::Error(Error::from_code(ClientErrorCode::method_not_found())),
                    ),
                    Some(m) => SessionAction::CallRpc {
                        id,
                        handler: m.handler,
                        params: m.params,
                        data: r.data,
                    },
                },
                Command::Publish(p) => match routes.find_publication(p.channel.as_str()) {
                    None => SessionAction::Send(
                        id,
                        Reply::Error(Error::from_code(ClientErrorCode::unknown_channel())),
                    ),
                    Some(m) => SessionAction::CallPublish {
                        id,
                        handler: m.handler,
                        params: m.params,
                        data: p.data,
                    },
                },
                Command::Subscribe(s) => {
                    if self.find_channel(&s.channel).is_some() {
                        return SessionAction::Send(
                            id,
                            Reply::Error(Error::from_code(ClientErrorCode::already_subscribed())),
                        );
                    }
                    if self.subscriptions.len() >= MAX_SUBSCRIPTION_COUNT {
                        return SessionAction::Send(
                            id,
                            Reply::Error(Error::from_code(ClientErrorCode::limit_exceeded())),
                        );
                    }
                    match routes.find_channel(s.channel.as_str()) {
                        None => SessionAction::Send(
                            id,
                            Reply::Error(Error::from_code(ClientErrorCode::unknown_channel())),
                        ),
                        Some(m) => {
                            let ghost old_subs = self.subscriptions@;
                            self.subscriptions.push(s.channel.clone());
                            proof {
                                assert(self.channels() =~= channel_views(old_subs).push(s.channel@));
                            }
                            SessionAction::StartSubscription {
                                id,
                                handler: m.handler,
                                params: m.params,
                                channel: s.channel,
                                data: s.data,
                            }
                        },
                    }
                },
                Command::Unsubscribe(u) => {
                    let cancel = self.remove_channel(&u.channel);
                    SessionAction::Unsubscribe {
                        id,
                        cancel,
                        reply: Reply::Unsubscribe(UnsubscribeResult {  }),
                    }
                },
                _ => SessionAction::Send(
                    id,
                    Reply::Error(Error::from_code(ClientErrorCode::not_available())),
                ),
            },
        }
    }

    /// Removes `channel` from the subscriptions; returns it where it was there.
    fn remove_channel(&mut self, channel: &String) -> (r: Option<String>)
        requires
            old(self).wf(),
        ensures
            final(self).wf(),
            final(self).channels() == without(old(self).channels(), channel@),
            old(self).channels().contains(channel@) ==> (r matches Some(c) && c@ == channel@),
            !old(self).channels().contains(channel@) ==> r is None,
            final(self).state_spec() == old(self).state_spec(),
            final(self).client_id_spec() == old(self).client_id_spec(),
            final(self).params_spec() == old(self).params_spec(),
    {
        match self.find_channel(channel) {
            None => {
                proof {
                    assert(without(self.channels(), channel@) =~= self.channels())
                        by {
                        lemma_filter_keeps_all(self.channels(), channel@);
                    }
                }
                None
            },
            Some(i) => {
                let ghost old_ch = self.channels();
                let removed = self.subscriptions.remove(i);
                proof {
                    assert(self.channels() =~= old_ch.remove(i as int));
                    lemma_filter_removes_unique(old_ch, i as int, channel@);
                }
                Some(removed)
            },
        }
    }

    /// The outcome of the connect handler for command `id`: an accepted
    /// client is connected and gets the connect result (its id, the ping
    /// interval in whole seconds, and whether pongs are expected); a refused
    /// one is disconnected with the handler's code.
    pub fn finish_connect(&mut self, id: u32, outcome: Result<(), DisconnectErrorCode>) -> (a:
        SessionAction)
        requires
            old(self).wf(),
        ensures
            final(self).wf(),
            final(self).channels() == old(self).channels(),
            final(self).client_id_spec() == old(self).client_id_spec(),
            final(self).params_spec() == old(self).params_spec(),
            match outcome {
                Ok(()) => final(self).state_spec() == SessionState::Connected && sends_connect_result(
                    a,
                    id,
                    old(self).client_id_spec(),
                    old(self).params_spec(),
                ),
                Err(code) => final(self).state_spec() == old(self).state_spec() && a == SessionAction::Close(
                    code,
                ),
            },
    {
        match outcome {
            Ok(()) => {
                self.state = SessionState::Connected;
                let ping: u32 = match self.params.ping_interval {
                    Some(d) => whole_seconds(d) as u32,
                    None => 0,
                };
                let result = ConnectResult {
                    client: self.client_id.to_text(),
                    version: String::new(),
                    expires: false,
                    ttl: 0,
                    data: Vec::new(),
                    subs: HashMap::new(),
                    ping,
                    pong: self.params.pong_timeout.is_some(),
                    session: String::new(),
                    node: String::new(),
                };
                SessionAction::Send(id, Reply::Connect(result))
            },
            Err(code) => SessionAction::Close(code),
        }
    }

    /// The answer to RPC command `id` once its handler finished.
    pub fn rpc_finished(id: u32, result: Result<Vec<u8>, ClientError>) -> (r: (u32, Reply))
        ensures
            r.0 == id,
            match result {
                Ok(data) => (r.1 matches Reply::Rpc(x) && x.data == data),
                Err(e) => is_client_error(r.1, e),
            },
    {
        match result {
            Ok(data) => (id, Reply::Rpc(RpcResult { data })),
            Err(e) => (id, Reply::Error(Error::from_client_error(e))),
        }
    }

    /// The answer to publish command `id` once its handler finished.
    pub fn publish_finished(id: u32, result: Result<(), ClientError>) -> (r: (u32, Reply))
        ensures
            r.0 == id,
            match result {
                Ok(()) => r.1 is Publish,
                Err(e) => is_client_error(r.1, e),
            },
    {
        match result {
            Ok(()) => (id, Reply::Publish(PublishResult {  })),
            Err(e) => (id, Reply::Error(Error::from_client_error(e))),
        }
    }

    /// The answer to subscribe command `id` once its channel handler
    /// produced a stream.
    pub fn subscription_started(id: u32) -> (r: (u32, Reply))
        ensures
            r.0 == id,
            (r.1 matches Reply::Subscribe(x) && !x.expires && x.ttl == 0 && !x.recoverable
                && x.epoch@.len() == 0 && x.publications@.len() == 0 && !x.recovered && x.offset
                == 0 && !x.positioned && x.data@.len() == 0 && !x.was_recovering),
    {
        (
            id,
            Reply::Subscribe(
                SubscribeResult {
                    expires: false,
                    ttl: 0,
                    recoverable: false,
                    epoch: String::new(),
                    publications: Vec::new(),
                    recovered: false,
                    offset: 0,
                    positioned: false,
                    data: Vec::new(),
                    was_recovering: false,
                },
            ),
        )
    }

    /// The channel handler of subscribe command `id` refused: the channel is
    /// no longer subscribed and the error is the answer.
    pub fn subscription_failed(&mut self, id: u32, channel: &String, err: ClientError) -> (r: (
        u32,
        Reply,
    ))
        requires
            old(self).wf(),
        ensures
            final(self).wf(),
            final(self).channels() == without(old(self).channels(), channel@),
            final(self).state_spec() == old(self).state_spec(),
            final(self).client_id_spec() == old(self).client_id_spec(),
            final(self).params_spec() == old(self).params_spec(),
            r.0 == id,
            is_client_error(r.1, err),
    {
        let _ = self.remove_channel(channel);
        (id, Reply::Error(Error::from_client_error(err)))
    }

    /// The push that carries one item of a channel stream.
    pub fn publication(channel: &String, data: Vec<u8>) -> (r: (u32, Reply))
        ensures
            r.0 == 0,
            (r.1 matches Reply::Push(p) && p.channel@ == channel@ && (p.data matches PushData::Publication(
                x,
            ) && x.data == data && x.info is None && x.offset == 0 && x.tags@.len() == 0)),
    {
        (
            0,
            Reply::Push(
                Push {
                    channel: channel.clone(),
                    data: PushData::Publication(
                        Publication { data, info: None, offset: 0, tags: HashMap::new() },
                    ),
                },
            ),
        )
    }

    /// The stream of `channel` ended: the channel is no longer subscribed and
    /// the client is told so with code 2500, "channel closed".
    pub fn subscription_finished(&mut self, channel: &String) -> (r: (u32, Reply))
        requires
            old(self).wf(),
        ensures
            final(self).wf(),
            final(self).channels() == without(old(self).channels(), channel@),
            final(self).state_spec() == old(self).state_spec(),
            final(self).client_id_spec() == old(self).client_id_spec(),
            final(self).params_spec() == old(self).params_spec(),
            r.0 == 0,
            (r.1 matches Reply::Push(p) && p.channel@ == channel@ && (p.data matches PushData::Unsubscribe(
                u,
            ) && u.code == 2500 && u.reason@ == "channel closed"@)),
    {
        let _ = self.remove_channel(channel);
        (
            0,
            Reply::Push(
                Push {
                    channel: channel.clone(),
                    data: PushData::Unsubscribe(
                        Unsubscribe { code: 2500, reason: "channel closed".to_owned() },
                    ),
                },
            ),
        )
    }

    /// The ping to send when the ping timer fires: an empty push to a
    /// connected client, nothing before authentication.
    pub fn ping(&self) -> (r: Option<(u32, Reply)>)
        ensures
            self.state_spec() == SessionState::Connected ==> (r matches Some((id, rep)) && id == 0
                && rep is Empty),
            self.state_spec() == SessionState::Initial ==> r is None,
    {
        match self.state {
            SessionState::Connected => Some((0, Reply::Empty)),
            SessionState::Initial => None,
        }
    }

    /// The code to close with when no pong came in time: a client that never
    /// authenticated is stale (3502), a connected one sent no pong (3012).
    pub fn pong_timeout_code(&self) -> (code: DisconnectErrorCode)
        ensures
            self.state_spec() == SessionState::Initial ==> code.0 == 3502,
            self.state_spec() == SessionState::Connected ==> code.0 == 3012,
    {
        match self.state {
            SessionState::Initial => DisconnectErrorCode::stale(),
            SessionState::Connected => DisconnectErrorCode::no_pong(),
        }
    }

    /// What an incoming command does to the ping timers: a connect before
    /// authentication and an empty command (a pong) restart them; an empty
    /// command is not processed any further.
    pub fn frame_effect(&self, command: &Command) -> (e: FrameEffect)
        ensures
            e.restart_timers == ((self.state_spec() == SessionState::Initial && command is Connect)
                || command is Empty),
            e.process == !(command is Empty),
    {
        let is_empty = match command {
            Command::Empty => true,
            _ => false,
        };
        let is_connect = match command {
            Command::Connect(_) => true,
            _ => false,
        };
        let initial = match self.state {
            SessionState::Initial => true,
            SessionState::Connected => false,
        };
        FrameEffect { restart_timers: (initial && is_connect) || is_empty, process: !is_empty }
    }

    /// What the disconnect handler is told when the session ends: only a
    /// client that was connected is reported.
    pub fn disconnect_context(&self) -> (r: Option<DisconnectContext>)
        ensures
            self.state_spec() == SessionState::Connected ==> (r matches Some(c) && c.client_id
                == self.client_id_spec()),
            self.state_spec() == SessionState::Initial ==> r is None,
    {
        match self.state {
            SessionState::Connected => Some(DisconnectContext { client_id: self.client_id }),
            SessionState::Initial => None,
        }
    }
}

/// What an incoming command does besides being processed.
#[derive(Debug, Clone, Copy, PartialEq, Eq, Structural)]
pub struct FrameEffect {
    /// Restart the ping and pong timers.
    pub restart_timers: bool,
    /// Hand the command to the session.
    pub process: bool,
}

/// The channels other than `channel`.
pub open spec fn without(chs: Seq<Seq<char>>, channel: Seq<char>) -> Seq<Seq<char>> {
    chs.filter(|c: Seq<char>| c != channel)
}

/// Unsubscribing from a channel undoes subscribing to it: the subscribed
/// channels are those before the subscription.
pub proof fn law_unsubscribe_undoes_subscribe(chs: Seq<Seq<char>>, channel: Seq<char>)
    requires
        !chs.contains(channel),
    ensures
        without(chs.push(channel), channel) == chs,
{
    reveal(Seq::filter);
    assert(chs.push(channel).drop_last() =~= chs);
    lemma_filter_keeps_all(chs, channel);
}

/// A connected client that subscribes to a channel it is subscribed to is
/// answered "already subscribed", and its channels stay as they are.
pub proof fn law_subscribe_twice_refused(
    s: ServerSession,
    id: u32,
    req: crate::protocol::SubscribeRequest,
    rpc: Router<usize>,
    publ: Router<usize>,
    subs: Router<usize>,
    a: SessionAction,
    channels: Seq<Seq<char>>,
)
    requires
        s.state_spec() == SessionState::Connected,
        s.channels().contains(req.channel@),
        command_outcome(s, id, Command::Subscribe(req), rpc, publ, subs, a, channels),
    ensures
        sends_code_error(a, id, 105),
        channels == s.channels(),
{
}

/// A client that has not connected yet is disconnected by any command but
/// a connect request.
pub proof fn law_commands_before_connect_close(
    s: ServerSession,
    id: u32,
    command: Command,
    rpc: Router<usize>,
    publ: Router<usize>,
    subs: Router<usize>,
    a: SessionAction,
    channels: Seq<Seq<char>>,
)
    requires
        s.state_spec() == SessionState::Initial,
        !(command is Connect),
        command_outcome(s, id, command, rpc, publ, subs, a, channels),
    ensures
        closes_with(a, 3501),
        channels == s.channels(),
{
}

/// Filtering out a value that does not occur keeps the sequence.
proof fn lemma_filter_keeps_all(s: Seq<Seq<char>>, v: Seq<char>)
    requires
        !s.contains(v),
    ensures
        without(s, v) == s,
    decreases s.len(),
{
    reveal(Seq::filter);
    if s.len() > 0 {
        assert(!s.drop_last().contains(v)) by {
            if s.drop_last().contains(v) {
                let j = choose|j: int| 0 <= j < s.drop_last().len() && s.drop_last()[j] == v;
                assert(s[j] == v);
            }
        }
        lemma_filter_keeps_all(s.drop_last(), v);
        assert(s.last() != v);
        assert(s.drop_last().push(s.last()) =~= s);
    }
}

/// Filtering out a value that occurs once, at `i`, removes index `i`.
proof fn lemma_filter_removes_unique(s: Seq<Seq<char>>, i: int, v: Seq<char>)
    requires
        0 <= i < s.len(),
        s[i] == v,
        s.no_duplicates(),
    ensures
        without(s, v) == s.remove(i),
    decreases s.len(),
{
    reveal(Seq::filter);
    if i == s.len() - 1 {
        assert(!s.drop_last().contains(v)) by {
            if s.drop_last().contains(v) {
                let j = choose|j: int| 0 <= j < s.drop_last().len() && s.drop_last()[j] == v;
                assert(s[j] == v);
            }
        }
        lemma_filter_keeps_all(s.drop_last(), v);
        assert(s.remove(i) =~= s.drop_last());
    } else {
        assert(s.drop_last().no_duplicates());
        lemma_filter_removes_unique(s.drop_last(), i, v);
        assert(s.last() != v);
        assert(s.drop_last().remove(i).push(s.last()) =~= s.remove(i));
    }
}

/// The reply frames of a batch, each with its id, up to the first request
/// to close the connection; and that close code, if any.
pub open spec fn batch_replies(batch: Seq<Result<(u32, Reply), DisconnectErrorCode>>) -> (Seq<
    RawReply,
>, Option<DisconnectErrorCode>)
    decreases batch.len(),
{
    if batch.len() == 0 {
        (seq![], None)
    } else {
        match batch[0] {
            Err(code) => (seq![], Some(code)),
            Ok((id, r)) => {
                let rest = batch_replies(batch.drop_first());
                let raw = crate::protocol::reply_to_raw(r);
                (seq![RawReply { id, ..raw }] + rest.0, rest.1)
            },
        }
    }
}

/// The frame written for a reply: the reply's wire form under its request id.
pub open spec fn reply_frame(id: u32, r: Reply) -> RawReply {
    RawReply { id, ..crate::protocol::reply_to_raw(r) }
}

/// Every reply of a batch is written, in order and under its request id, up
/// to the first close code; that code, if there is one, closes the
/// connection after them.  A batch without a close code writes as many
/// frames as it has replies and closes nothing.
pub proof fn law_batch_writes_every_reply(batch: Seq<Result<(u32, Reply), DisconnectErrorCode>>, j: int)
    requires
        0 <= j <= batch.len(),
        forall|i: int| 0 <= i < j ==> #[trigger] batch[i] is Ok,
        j < batch.len() ==> batch[j] is Err,
    ensures
        batch_replies(batch).0.len() == j,
        forall|i: int|
            0 <= i < j ==> #[trigger] batch_replies(batch).0[i] == reply_frame(batch[i]->Ok_0.0, batch[i]->Ok_0.1),
        batch_replies(batch).1 == (if j < batch.len() {
            Some(batch[j]->Err_0)
        } else {
            None::<DisconnectErrorCode>
        }),
    decreases j,
{
    if j > 0 {
        let rest = batch.drop_first();
        assert forall|i: int| 0 <= i < j - 1 implies #[trigger] rest[i] is Ok by {
            assert(rest[i] == batch[i + 1]);
        }
        if j < batch.len() {
            assert(rest[j - 1] == batch[j]);
        }
        law_batch_writes_every_reply(rest, j - 1);
        let out = batch_replies(batch).0;
        assert forall|i: int| 0 <= i < j implies #[trigger] out[i] == reply_frame(batch[i]->Ok_0.0, batch[i]->Ok_0.1) by {
            if i > 0 {
                assert(rest[i - 1] == batch[i]);
                assert(out[i] == batch_replies(rest).0[i - 1]);
            }
        }
    }
}

/// Splits a batch of outgoing messages into the reply frames to write and
/// the close code that ends the connection after them.
pub fn collect_replies(items: Vec<Result<(u32, Reply), DisconnectErrorCode>>) -> (r: (
    Vec<RawReply>,
    Option<DisconnectErrorCode>,
))
    ensures
        r.0@ == batch_replies(items@).0,
        r.1 == batch_replies(items@).1,
{
    let mut replies: Vec<RawReply> = Vec::new();
    let mut batch = items;
    let ghost all = batch@;
    let mut error: Option<DisconnectErrorCode> = None;
    let ghost mut k: int = 0;
    assert(all.skip(0) =~= all);
    while batch.len() > 0
        invariant
            all == items@,
            0 <= k <= all.len(),
            batch@ =~= all.skip(k),
            error is None,
            replies@ + batch_replies(all.skip(k)).0 == batch_replies(all).0,
            batch_replies(all.skip(k)).1 == batch_replies(all).1,
        decreases batch@.len(),
    {
        let item = batch.remove(0);
        proof {
            assert(all.skip(k)[0] == item);
            assert(all.skip(k).drop_first() =~= all.skip(k + 1));
        }
        match item {
            Ok((id, reply)) => {
                let mut raw = RawReply::from(reply);
                raw.id = id;
                let ghost old_replies = replies@;
                replies.push(raw);
                proof {
                    assert(old_replies.push(raw) + batch_replies(all.skip(k + 1)).0 =~= old_replies
                        + batch_replies(all.skip(k)).0);
                    k = k + 1;
                }
            },
            Err(code) => {
                proof {
                    assert(all.skip(k)[0] == Err::<(u32, Reply), DisconnectErrorCode>(code));
                    assert(batch_replies(all.skip(k)) == (Seq::<RawReply>::empty(), Some(code)));
                    assert(batch_replies(all.skip(k)).0 =~= seq![]);
                    assert(replies@ + seq![] =~= replies@);
                }
                return (replies, Some(code));
            },
        }
    }
    proof {
        assert(all.skip(k).len() == 0);
        assert(replies@ + seq![] =~= replies@);
    }
    (replies, None)
}

/// The code to close with after writing a batch: an encoding failure makes
/// the protocol inappropriate (3506); otherwise the code the batch asked for.
pub fn batch_close_code(requested: Option<DisconnectErrorCode>, encoding_failed: bool) -> (r:
    Option<DisconnectErrorCode>)
    ensures
        encoding_failed ==> (r matches Some(c) && c.0 == 3506),
        !encoding_failed ==> r == requested,
{
    if encoding_failed {
        Some(DisconnectErrorCode::inappropriate_protocol())
    } else {
        requested
    }
}

} // verus!
