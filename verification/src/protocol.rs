//! Messages of the Centrifugo client protocol.
//!
//! `Command`, `Reply` and `Push` are the typed forms used by the client and
//! the server; `RawCommand`, `RawReply` and `RawPush` are the wire forms, in
//! which one optional field per kind is set.  Conversions between the two
//! forms are exact, and a typed value survives the trip through its wire
//! form unchanged.

use std::collections::HashMap;
use vstd::prelude::*;

verus! {

/// A protocol-level error sent in place of a result.
#[derive(Debug, Clone)]
pub struct Error {
    pub code: u32,
    pub message: String,
    pub temporary: bool,
}

/// Information about a client attached to presence and publications.
#[derive(Debug, Clone)]
pub struct ClientInfo {
    pub user: String,
    pub client: String,
    pub conn_info: Vec<u8>,
    pub chan_info: Vec<u8>,
}

/// A message published into a channel.
#[derive(Debug, Clone)]
pub struct Publication {
    pub data: Vec<u8>,
    pub info: Option<ClientInfo>,
    pub offset: u64,
    pub tags: HashMap<String, String>,
}

/// A client joined a channel.
#[derive(Debug, Clone)]
pub struct Join {
    pub info: Option<ClientInfo>,
}

/// A client left a channel.
#[derive(Debug, Clone)]
pub struct Leave {
    pub info: Option<ClientInfo>,
}

/// The server unsubscribed the client from a channel.
#[derive(Debug, Clone)]
pub struct Unsubscribe {
    pub code: u32,
    pub reason: String,
}

/// The server subscribed the client to a channel.
#[derive(Debug, Clone)]
pub struct Subscribe {
    pub recoverable: bool,
    pub epoch: String,
    pub offset: u64,
    pub positioned: bool,
    pub data: Vec<u8>,
}

/// An asynchronous message sent to the client.
#[derive(Debug, Clone)]
pub struct Message {
    pub data: Vec<u8>,
}

/// A connect push (unidirectional transports).
#[derive(Debug, Clone)]
pub struct Connect {
    pub client: String,
    pub version: String,
    pub data: Vec<u8>,
    pub subs: HashMap<String, SubscribeResult>,
    pub expires: bool,
    pub ttl: u32,
    pub ping: u32,
    pub pong: bool,
    pub session: String,
    pub node: String,
}

/// The server is about to close the connection.
#[derive(Debug, Clone)]
pub struct Disconnect {
    pub code: u32,
    pub reason: String,
    pub reconnect: bool,
}

/// The server refreshed the connection.
#[derive(Debug, Clone)]
pub struct Refresh {
    pub expires: bool,
    pub ttl: u32,
}

/// Authentication request, the first command of a connection.
#[derive(Debug, Clone)]
pub struct ConnectRequest {
    pub token: String,
    pub data: Vec<u8>,
    pub subs: HashMap<String, SubscribeRequest>,
    pub name: String,
    pub version: String,
}

/// Successful answer to a connect request.
#[derive(Debug, Clone)]
pub struct ConnectResult {
    pub client: String,
    pub version: String,
    pub expires: bool,
    pub ttl: u32,
    pub data: Vec<u8>,
    pub subs: HashMap<String, SubscribeResult>,
    pub ping: u32,
    pub pong: bool,
    pub session: String,
    pub node: String,
}

/// Request to refresh the connection token.
#[derive(Debug, Clone)]
pub struct RefreshRequest {
    pub token: String,
}

/// Answer to a refresh request.
#[derive(Debug, Clone)]
pub struct RefreshResult {
    pub client: String,
    pub version: String,
    pub expires: bool,
    pub ttl: u32,
}

/// Request to subscribe to a channel.
#[derive(Debug, Clone)]
pub struct SubscribeRequest {
    pub channel: String,
    pub token: String,
    pub recover: bool,
    pub epoch: String,
    pub offset: u64,
    pub data: Vec<u8>,
    pub positioned: bool,
    pub recoverable: bool,
    pub join_leave: bool,
}

/// Answer to a subscribe request.
#[derive(Debug, Clone)]
pub struct SubscribeResult {
    pub expires: bool,
    pub ttl: u32,
    pub recoverable: bool,
    pub epoch: String,
    pub publications: Vec<Publication>,
    pub recovered: bool,
    pub offset: u64,
    pub positioned: bool,
    pub data: Vec<u8>,
    pub was_recovering: bool,
}

/// Request to refresh a subscription token.
#[derive(Debug, Clone)]
pub struct SubRefreshRequest {
    pub channel: String,
    pub token: String,
}

/// Answer to a subscription refresh request.
#[derive(Debug, Clone)]
pub struct SubRefreshResult {
    pub expires: bool,
    pub ttl: u32,
}

/// Request to leave a channel.
#[derive(Debug, Clone)]
pub struct UnsubscribeRequest {
    pub channel: String,
}

/// Answer to an unsubscribe request.
#[derive(Debug, Clone)]
pub struct UnsubscribeResult {
}

/// Request to publish data into a channel.
#[derive(Debug, Clone)]
pub struct PublishRequest {
    pub channel: String,
    pub data: Vec<u8>,
}

/// Answer to a publish request.
#[derive(Debug, Clone)]
pub struct PublishResult {
}

/// Request for the presence of a channel.
#[derive(Debug, Clone)]
pub struct PresenceRequest {
    pub channel: String,
}

/// Clients present in a channel.
#[derive(Debug, Clone)]
pub struct PresenceResult {
    pub presence: HashMap<String, ClientInfo>,
}

/// Request for presence counters of a channel.
#[derive(Debug, Clone)]
pub struct PresenceStatsRequest {
    pub channel: String,
}

/// Presence counters of a channel.
#[derive(Debug, Clone)]
pub struct PresenceStatsResult {
    pub num_clients: u32,
    pub num_users: u32,
}

/// A position in a channel history stream.
#[derive(Debug, Clone)]
pub struct StreamPosition {
    pub offset: u64,
    pub epoch: String,
}

/// Request for the history of a channel.
#[derive(Debug, Clone)]
pub struct HistoryRequest {
    pub channel: String,
    pub limit: i32,
    pub since: Option<StreamPosition>,
    pub reverse: bool,
}

/// Publications from a channel history.
#[derive(Debug, Clone)]
pub struct HistoryResult {
    pub publications: Vec<Publication>,
    pub epoch: String,
    pub offset: u64,
}

/// Application-level ping.
#[derive(Debug, Clone)]
pub struct PingRequest {
}

/// Answer to a ping.
#[derive(Debug, Clone)]
pub struct PingResult {
}

/// Remote procedure call of a named method.
#[derive(Debug, Clone)]
pub struct RpcRequest {
    pub data: Vec<u8>,
    pub method: String,
}

/// Result data of a remote procedure call.
#[derive(Debug, Clone)]
pub struct RpcResult {
    pub data: Vec<u8>,
}

/// Asynchronous message from the client.
#[derive(Debug, Clone)]
pub struct SendRequest {
    pub data: Vec<u8>,
}

/// Client-to-server command.
#[derive(Debug, Clone)]
pub enum Command {
    Connect(ConnectRequest),
    Subscribe(SubscribeRequest),
    Unsubscribe(UnsubscribeRequest),
    Publish(PublishRequest),
    Presence(PresenceRequest),
    PresenceStats(PresenceStatsRequest),
    History(HistoryRequest),
    Ping(PingRequest),
    Send(SendRequest),
    Rpc(RpcRequest),
    Refresh(RefreshRequest),
    SubRefresh(SubRefreshRequest),
    Empty,
}

/// Server-to-client reply (or push, when its id is zero).
#[derive(Debug, Clone)]
pub enum Reply {
    Error(Error),
    Push(Push),
    Connect(ConnectResult),
    Subscribe(SubscribeResult),
    Unsubscribe(UnsubscribeResult),
    Publish(PublishResult),
    Presence(PresenceResult),
    PresenceStats(PresenceStatsResult),
    History(HistoryResult),
    Ping(PingResult),
    Rpc(RpcResult),
    Refresh(RefreshResult),
    SubRefresh(SubRefreshResult),
    Empty,
}

/// Server-initiated message on a channel.
#[derive(Debug, Clone)]
pub struct Push {
    pub channel: String,
    pub data: PushData,
}

/// Kind and content of a push.
#[derive(Debug, Clone)]
pub enum PushData {
    Publication(Publication),
    Join(Join),
    Leave(Leave),
    Unsubscribe(Unsubscribe),
    Message(Message),
    Subscribe(Subscribe),
    Connect(Box<Connect>),
    Disconnect(Disconnect),
    Refresh(Refresh),
    Empty,
}

/// Wire form of a command: its id and one field per kind.
#[derive(Debug, Clone)]
pub struct RawCommand {
    pub id: u32,
    pub connect: Option<ConnectRequest>,
    pub subscribe: Option<SubscribeRequest>,
    pub unsubscribe: Option<UnsubscribeRequest>,
    pub publish: Option<PublishRequest>,
    pub presence: Option<PresenceRequest>,
    pub presence_stats: Option<PresenceStatsRequest>,
    pub history: Option<HistoryRequest>,
    pub ping: Option<PingRequest>,
    pub send: Option<SendRequest>,
    pub rpc: Option<RpcRequest>,
    pub refresh: Option<RefreshRequest>,
    pub sub_refresh: Option<SubRefreshRequest>,
}

/// Wire form of a reply: its id and one field per kind.
#[derive(Debug, Clone)]
pub struct RawReply {
    pub id: u32,
    pub error: Option<Error>,
    pub push: Option<RawPush>,
    pub connect: Option<ConnectResult>,
    pub subscribe: Option<SubscribeResult>,
    pub unsubscribe: Option<UnsubscribeResult>,
    pub publish: Option<PublishResult>,
    pub presence: Option<PresenceResult>,
    pub presence_stats: Option<PresenceStatsResult>,
    pub history: Option<HistoryResult>,
    pub ping: Option<PingResult>,
    pub rpc: Option<RpcResult>,
    pub refresh: Option<RefreshResult>,
    pub sub_refresh: Option<SubRefreshResult>,
}

/// Wire form of a push: its channel and one field per kind.
#[derive(Debug, Clone)]
pub struct RawPush {
    pub channel: String,
    pub publication: Option<Publication>,
    pub join: Option<Join>,
    pub leave: Option<Leave>,
    pub unsubscribe: Option<Unsubscribe>,
    pub message: Option<Message>,
    pub subscribe: Option<Subscribe>,
    pub connect: Option<Connect>,
    pub disconnect: Option<Disconnect>,
    pub refresh: Option<Refresh>,
}

/// Wire form of a push (the specification of `RawPush::from`).
pub open spec fn push_to_raw(p: Push) -> RawPush {
    let e = RawPush { channel: p.channel, publication: None, join: None, leave: None, unsubscribe: None, message: None, subscribe: None, connect: None, disconnect: None, refresh: None };
    match p.data {
        PushData::Publication(v) => RawPush { publication: Some(v), ..e },
        PushData::Join(v) => RawPush { join: Some(v), ..e },
        PushData::Leave(v) => RawPush { leave: Some(v), ..e },
        PushData::Unsubscribe(v) => RawPush { unsubscribe: Some(v), ..e },
        PushData::Message(v) => RawPush { message: Some(v), ..e },
        PushData::Subscribe(v) => RawPush { subscribe: Some(v), ..e },
        PushData::Connect(v) => RawPush { connect: Some(*v), ..e },
        PushData::Disconnect(v) => RawPush { disconnect: Some(v), ..e },
        PushData::Refresh(v) => RawPush { refresh: Some(v), ..e },
        PushData::Empty => e,
    }
}

/// Typed form of a wire push (the specification of `Push::from`).
pub open spec fn push_from_raw(r: RawPush) -> Push {
    let data = if r.publication is Some {
        PushData::Publication(r.publication->0)
    } else if r.join is Some {
        PushData::Join(r.join->0)
    } else if r.leave is Some {
        PushData::Leave(r.leave->0)
    } else if r.unsubscribe is Some {
        PushData::Unsubscribe(r.unsubscribe->0)
    } else if r.message is Some {
        PushData::Message(r.message->0)
    } else if r.subscribe is Some {
        PushData::Subscribe(r.subscribe->0)
    } else if r.connect is Some {
        PushData::Connect(Box::new(r.connect->0))
    } else if r.disconnect is Some {
        PushData::Disconnect(r.disconnect->0)
    } else if r.refresh is Some {
        PushData::Refresh(r.refresh->0)
    } else {
        PushData::Empty
    };
    Push { channel: r.channel, data }
}

/// Wire form of a command (the specification of `RawCommand::from`).
pub open spec fn command_to_raw(c: Command) -> RawCommand {
    let e = RawCommand { id: 0, connect: None, subscribe: None, unsubscribe: None, publish: None, presence: None, presence_stats: None, history: None, ping: None, send: None, rpc: None, refresh: None, sub_refresh: None };
    match c {
        Command::Connect(v) => RawCommand { connect: Some(v), ..e },
        Command::Subscribe(v) => RawCommand { subscribe: Some(v), ..e },
        Command::Unsubscribe(v) => RawCommand { unsubscribe: Some(v), ..e },
        Command::Publish(v) => RawCommand { publish: Some(v), ..e },
        Command::Presence(v) => RawCommand { presence: Some(v), ..e },
        Command::PresenceStats(v) => RawCommand { presence_stats: Some(v), ..e },
        Command::History(v) => RawCommand { history: Some(v), ..e },
        Command::Ping(v) => RawCommand { ping: Some(v), ..e },
        Command::Send(v) => RawCommand { send: Some(v), ..e },
        Command::Rpc(v) => RawCommand { rpc: Some(v), ..e },
        Command::Refresh(v) => RawCommand { refresh: Some(v), ..e },
        Command::SubRefresh(v) => RawCommand { sub_refresh: Some(v), ..e },
        Command::Empty => e,
    }
}

/// Typed form of a wire command: the first field that is set wins
/// (the specification of `Command::from`).
pub open spec fn command_from_raw(r: RawCommand) -> Command {
    if r.connect is Some {
        Command::Connect(r.connect->0)
    } else if r.subscribe is Some {
        Command::Subscribe(r.subscribe->0)
    } else if r.unsubscribe is Some {
        Command::Unsubscribe(r.unsubscribe->0)
    } else if r.publish is Some {
        Command::Publish(r.publish->0)
    } else if r.presence is Some {
        Command::Presence(r.presence->0)
    } else if r.presence_stats is Some {
        Command::PresenceStats(r.presence_stats->0)
    } else if r.history is Some {
        Command::History(r.history->0)
    } else if r.ping is Some {
        Command::Ping(r.ping->0)
    } else if r.send is Some {
        Command::Send(r.send->0)
    } else if r.rpc is Some {
        Command::Rpc(r.rpc->0)
    } else if r.refresh is Some {
        Command::Refresh(r.refresh->0)
    } else if r.sub_refresh is Some {
        Command::SubRefresh(r.sub_refresh->0)
    } else {
        Command::Empty
    }
}

/// Wire form of a reply (the specification of `RawReply::from`).
pub open spec fn reply_to_raw(c: Reply) -> RawReply {
    let e = RawReply { id: 0, error: None, push: None, connect: None, subscribe: None, unsubscribe: None, publish: None, presence: None, presence_stats: None, history: None, ping: None, rpc: None, refresh: None, sub_refresh: None };
    match c {
        Reply::Error(v) => RawReply { error: Some(v), ..e },
        Reply::Push(v) => RawReply { push: Some(push_to_raw(v)), ..e },
        Reply::Connect(v) => RawReply { connect: Some(v), ..e },
        Reply::Subscribe(v) => RawReply { subscribe: Some(v), ..e },
        Reply::Unsubscribe(v) => RawReply { unsubscribe: Some(v), ..e },
        Reply::Publish(v) => RawReply { publish: Some(v), ..e },
        Reply::Presence(v) => RawReply { presence: Some(v), ..e },
        Reply::PresenceStats(v) => RawReply { presence_stats: Some(v), ..e },
        Reply::History(v) => RawReply { history: Some(v), ..e },
        Reply::Ping(v) => RawReply { ping: Some(v), ..e },
        Reply::Rpc(v) => RawReply { rpc: Some(v), ..e },
        Reply::Refresh(v) => RawReply { refresh: Some(v), ..e },
        Reply::SubRefresh(v) => RawReply { sub_refresh: Some(v), ..e },
        Reply::Empty => e,
    }
}

/// Typed form of a wire reply: the first field that is set wins
/// (the specification of `Reply::from`).
pub open spec fn reply_from_raw(r: RawReply) -> Reply {
    if r.error is Some {
        Reply::Error(r.error->0)
    } else if r.push is Some {
        Reply::Push(push_from_raw(r.push->0))
    } else if r.connect is Some {
        Reply::Connect(r.connect->0)
    } else if r.subscribe is Some {
        Reply::Subscribe(r.subscribe->0)
    } else if r.unsubscribe is Some {
        Reply::Unsubscribe(r.unsubscribe->0)
    } else if r.publish is Some {
        Reply::Publish(r.publish->0)
    } else if r.presence is Some {
        Reply::Presence(r.presence->0)
    } else if r.presence_stats is Some {
        Reply::PresenceStats(r.presence_stats->0)
    } else if r.history is Some {
        Reply::History(r.history->0)
    } else if r.ping is Some {
        Reply::Ping(r.ping->0)
    } else if r.rpc is Some {
        Reply::Rpc(r.rpc->0)
    } else if r.refresh is Some {
        Reply::Refresh(r.refresh->0)
    } else if r.sub_refresh is Some {
        Reply::SubRefresh(r.sub_refresh->0)
    } else {
        Reply::Empty
    }
}

/// Number of kind fields that are set in a wire message.
pub open spec fn raw_command_kinds(r: RawCommand) -> nat {
    (if r.connect is Some { 1nat } else { 0nat })
    + (if r.subscribe is Some { 1nat } else { 0nat })
    + (if r.unsubscribe is Some { 1nat } else { 0nat })
    + (if r.publish is Some { 1nat } else { 0nat })
    + (if r.presence is Some { 1nat } else { 0nat })
    + (if r.presence_stats is Some { 1nat } else { 0nat })
    + (if r.history is Some { 1nat } else { 0nat })
    + (if r.ping is Some { 1nat } else { 0nat })
    + (if r.send is Some { 1nat } else { 0nat })
    + (if r.rpc is Some { 1nat } else { 0nat })
    + (if r.refresh is Some { 1nat } else { 0nat })
    + (if r.sub_refresh is Some { 1nat } else { 0nat })
}

/// Number of kind fields that are set in a wire message.
pub open spec fn raw_reply_kinds(r: RawReply) -> nat {
    (if r.error is Some { 1nat } else { 0nat })
    + (if r.push is Some { 1nat } else { 0nat })
    + (if r.connect is Some { 1nat } else { 0nat })
    + (if r.subscribe is Some { 1nat } else { 0nat })
    + (if r.unsubscribe is Some { 1nat } else { 0nat })
    + (if r.publish is Some { 1nat } else { 0nat })
    + (if r.presence is Some { 1nat } else { 0nat })
    + (if r.presence_stats is Some { 1nat } else { 0nat })
    + (if r.history is Some { 1nat } else { 0nat })
    + (if r.ping is Some { 1nat } else { 0nat })
    + (if r.rpc is Some { 1nat } else { 0nat })
    + (if r.refresh is Some { 1nat } else { 0nat })
    + (if r.sub_refresh is Some { 1nat } else { 0nat })
}

/// Number of kind fields that are set in a wire message.
pub open spec fn raw_push_kinds(r: RawPush) -> nat {
    (if r.publication is Some { 1nat } else { 0nat })
    + (if r.join is Some { 1nat } else { 0nat })
    + (if r.leave is Some { 1nat } else { 0nat })
    + (if r.unsubscribe is Some { 1nat } else { 0nat })
    + (if r.message is Some { 1nat } else { 0nat })
    + (if r.subscribe is Some { 1nat } else { 0nat })
    + (if r.connect is Some { 1nat } else { 0nat })
    + (if r.disconnect is Some { 1nat } else { 0nat })
    + (if r.refresh is Some { 1nat } else { 0nat })
}

impl From<Command> for RawCommand {
    fn from(value: Command) -> (r: Self) {
        let mut result = RawCommand { id: 0, connect: None, subscribe: None, unsubscribe: None, publish: None, presence: None, presence_stats: None, history: None, ping: None, send: None, rpc: None, refresh: None, sub_refresh: None };
        match value {
            Command::Connect(v) => {
                result.connect = Some(v);
            }
            Command::Subscribe(v) => {
                result.subscribe = Some(v);
            }
            Command::Unsubscribe(v) => {
                result.unsubscribe = Some(v);
            }
            Command::Publish(v) => {
                result.publish = Some(v);
            }
            Command::Presence(v) => {
                result.presence = Some(v);
            }
            Command::PresenceStats(v) => {
                result.presence_stats = Some(v);
            }
            Command::History(v) => {
                result.history = Some(v);
            }
            Command::Ping(v) => {
                result.ping = Some(v);
            }
            Command::Send(v) => {
                result.send = Some(v);
            }
            Command::Rpc(v) => {
                result.rpc = Some(v);
            }
            Command::Refresh(v) => {
                result.refresh = Some(v);
            }
            Command::SubRefresh(v) => {
                result.sub_refresh = Some(v);
            }
            Command::Empty => {}
        }
        result
    }
}

impl vstd::std_specs::convert::FromSpecImpl<Command> for RawCommand {
    open spec fn obeys_from_spec() -> bool {
        true
    }

    open spec fn from_spec(v: Command) -> Self {
        command_to_raw(v)
    }
}

impl From<RawCommand> for Command {
    fn from(value: RawCommand) -> (r: Self) {
        if let Some(v) = value.connect {
            Command::Connect(v)
        } else if let Some(v) = value.subscribe {
            Command::Subscribe(v)
        } else if let Some(v) = value.unsubscribe {
            Command::Unsubscribe(v)
        } else if let Some(v) = value.publish {
            Command::Publish(v)
        } else if let Some(v) = value.presence {
            Command::Presence(v)
        } else if let Some(v) = value.presence_stats {
            Command::PresenceStats(v)
        } else if let Some(v) = value.history {
            Command::History(v)
        } else if let Some(v) = value.ping {
            Command::Ping(v)
        } else if let Some(v) = value.send {
            Command::Send(v)
        } else if let Some(v) = value.rpc {
            Command::Rpc(v)
        } else if let Some(v) = value.refresh {
            Command::Refresh(v)
        } else if let Some(v) = value.sub_refresh {
            Command::SubRefresh(v)
        } else {
            Command::Empty
        }
    }
}

impl vstd::std_specs::convert::FromSpecImpl<RawCommand> for Command {
    open spec fn obeys_from_spec() -> bool {
        true
    }

    open spec fn from_spec(v: RawCommand) -> Self {
        command_from_raw(v)
    }
}

impl From<Reply> for RawReply {
    fn from(value: Reply) -> (r: Self) {
        let mut result = RawReply { id: 0, error: None, push: None, connect: None, subscribe: None, unsubscribe: None, publish: None, presence: None, presence_stats: None, history: None, ping: None, rpc: None, refresh: None, sub_refresh: None };
        match value {
            Reply::Error(v) => {
                result.error = Some(v);
            }
            Reply::Push(v) => {
                result.push = Some(RawPush::from(v));
            }
            Reply::Connect(v) => {
                result.connect = Some(v);
            }
            Reply::Subscribe(v) => {
                result.subscribe = Some(v);
            }
            Reply::Unsubscribe(v) => {
                result.unsubscribe = Some(v);
            }
            Reply::Publish(v) => {
                result.publish = Some(v);
            }
            Reply::Presence(v) => {
                result.presence = Some(v);
            }
            Reply::PresenceStats(v) => {
                result.presence_stats = Some(v);
            }
            Reply::History(v) => {
                result.history = Some(v);
            }
            Reply::Ping(v) => {
                result.ping = Some(v);
            }
            Reply::Rpc(v) => {
                result.rpc = Some(v);
            }
            Reply::Refresh(v) => {
                result.refresh = Some(v);
            }
            Reply::SubRefresh(v) => {
                result.sub_refresh = Some(v);
            }
            Reply::Empty => {}
        }
        result
    }
}

impl vstd::std_specs::convert::FromSpecImpl<Reply> for RawReply {
    open spec fn obeys_from_spec() -> bool {
        true
    }

    open spec fn from_spec(v: Reply) -> Self {
        reply_to_raw(v)
    }
}

impl From<RawReply> for Reply {
    fn from(value: RawReply) -> (r: Self) {
        if let Some(v) = value.error {
            Reply::Error(v)
        } else if let Some(v) = value.push {
            Reply::Push(Push::from(v))
        } else if let Some(v) = value.connect {
            Reply::Connect(v)
        } else if let Some(v) = value.subscribe {
            Reply::Subscribe(v)
        } else if let Some(v) = value.unsubscribe {
            Reply::Unsubscribe(v)
        } else if let Some(v) = value.publish {
            Reply::Publish(v)
        } else if let Some(v) = value.presence {
            Reply::Presence(v)
        } else if let Some(v) = value.presence_stats {
            Reply::PresenceStats(v)
        } else if let Some(v) = value.history {
            Reply::History(v)
        } else if let Some(v) = value.ping {
            Reply::Ping(v)
        } else if let Some(v) = value.rpc {
            Reply::Rpc(v)
        } else if let Some(v) = value.refresh {
            Reply::Refresh(v)
        } else if let Some(v) = value.sub_refresh {
            Reply::SubRefresh(v)
        } else {
            Reply::Empty
        }
    }
}

impl vstd::std_specs::convert::FromSpecImpl<RawReply> for Reply {
    open spec fn obeys_from_spec() -> bool {
        true
    }

    open spec fn from_spec(v: RawReply) -> Self {
        reply_from_raw(v)
    }
}

impl From<Push> for RawPush {
    fn from(value: Push) -> (r: Self) {
        let mut result = RawPush { channel: value.channel, publication: None, join: None, leave: None, unsubscribe: None, message: None, subscribe: None, connect: None, disconnect: None, refresh: None };
        match value.data {
            PushData::Publication(v) => {
                result.publication = Some(v);
            }
            PushData::Join(v) => {
                result.join = Some(v);
            }
            PushData::Leave(v) => {
                result.leave = Some(v);
            }
            PushData::Unsubscribe(v) => {
                result.unsubscribe = Some(v);
            }
            PushData::Message(v) => {
                result.message = Some(v);
            }
            PushData::Subscribe(v) => {
                result.subscribe = Some(v);
            }
            PushData::Connect(v) => {
                result.connect = Some(*v);
            }
            PushData::Disconnect(v) => {
                result.disconnect = Some(v);
            }
            PushData::Refresh(v) => {
                result.refresh = Some(v);
            }
            PushData::Empty => {}
        }
        result
    }
}

impl vstd::std_specs::convert::FromSpecImpl<Push> for RawPush {
    open spec fn obeys_from_spec() -> bool {
        true
    }

    open spec fn from_spec(v: Push) -> Self {
        push_to_raw(v)
    }
}

impl From<RawPush> for Push {
    fn from(value: RawPush) -> (r: Self) {
        let data = if let Some(v) = value.publication {
            PushData::Publication(v)
        } else if let Some(v) = value.join {
            PushData::Join(v)
        } else if let Some(v) = value.leave {
            PushData::Leave(v)
        } else if let Some(v) = value.unsubscribe {
            PushData::Unsubscribe(v)
        } else if let Some(v) = value.message {
            PushData::Message(v)
        } else if let Some(v) = value.subscribe {
            PushData::Subscribe(v)
        } else if let Some(v) = value.connect {
            PushData::Connect(Box::new(v))
        } else if let Some(v) = value.disconnect {
            PushData::Disconnect(v)
        } else if let Some(v) = value.refresh {
            PushData::Refresh(v)
        } else {
            PushData::Empty
        };
        Push { channel: value.channel, data }
    }
}

impl vstd::std_specs::convert::FromSpecImpl<RawPush> for Push {
    open spec fn obeys_from_spec() -> bool {
        true
    }

    open spec fn from_spec(v: RawPush) -> Self {
        push_from_raw(v)
    }
}

/// A typed push is unchanged by the trip through its wire form.
pub proof fn push_round_trip(p: Push)
    ensures
        push_from_raw(push_to_raw(p)) == p,
{
}

/// A wire push with at most one kind field set is unchanged by the trip
/// through its typed form.
pub proof fn raw_push_round_trip(r: RawPush)
    requires
        raw_push_kinds(r) <= 1,
    ensures
        push_to_raw(push_from_raw(r)) == r,
{
}

/// A typed command is unchanged by the trip through its wire form.
pub proof fn command_round_trip(c: Command)
    ensures
        command_from_raw(command_to_raw(c)) == c,
{
}

/// A wire command with id zero and at most one kind field set is unchanged by
/// the trip through its typed form.
pub proof fn raw_command_round_trip(r: RawCommand)
    requires
        r.id == 0,
        raw_command_kinds(r) <= 1,
    ensures
        command_to_raw(command_from_raw(r)) == r,
{
}

/// A typed reply is unchanged by the trip through its wire form.
pub proof fn reply_round_trip(r: Reply)
    ensures
        reply_from_raw(reply_to_raw(r)) == r,
{
    if let Reply::Push(p) = r {
        push_round_trip(p);
    }
}

/// A wire reply with id zero and at most one kind field set (and, where it
/// holds a push, a push with at most one kind field set) is unchanged by the
/// trip through its typed form.
pub proof fn raw_reply_round_trip(r: RawReply)
    requires
        r.id == 0,
        raw_reply_kinds(r) <= 1,
        r.push matches Some(p) ==> raw_push_kinds(p) <= 1,
    ensures
        reply_to_raw(reply_from_raw(r)) == r,
{
    if let Some(p) = r.push {
        raw_push_round_trip(p);
    }
}

/// In its wire form, a command carries the typed request itself in the
/// field of its kind, under id zero, and no other field is set.
pub proof fn law_command_wire_field(c: Command)
    ensures
        command_to_raw(c).id == 0,
        raw_command_kinds(command_to_raw(c)) == (if c is Empty { 0nat } else { 1nat }),
        c matches Command::Connect(v) ==> command_to_raw(c).connect == Some(v),
        c matches Command::Subscribe(v) ==> command_to_raw(c).subscribe == Some(v),
        c matches Command::Unsubscribe(v) ==> command_to_raw(c).unsubscribe == Some(v),
        c matches Command::Publish(v) ==> command_to_raw(c).publish == Some(v),
        c matches Command::Presence(v) ==> command_to_raw(c).presence == Some(v),
        c matches Command::PresenceStats(v) ==> command_to_raw(c).presence_stats == Some(v),
        c matches Command::History(v) ==> command_to_raw(c).history == Some(v),
        c matches Command::Ping(v) ==> command_to_raw(c).ping == Some(v),
        c matches Command::Send(v) ==> command_to_raw(c).send == Some(v),
        c matches Command::Rpc(v) ==> command_to_raw(c).rpc == Some(v),
        c matches Command::Refresh(v) ==> command_to_raw(c).refresh == Some(v),
        c matches Command::SubRefresh(v) ==> command_to_raw(c).sub_refresh == Some(v),
{
}

/// In its wire form, a reply carries the typed result itself in the field
/// of its kind (a push in its own wire form), under id zero, and no other
/// field is set.
pub proof fn law_reply_wire_field(r: Reply)
    ensures
        reply_to_raw(r).id == 0,
        raw_reply_kinds(reply_to_raw(r)) == (if r is Empty { 0nat } else { 1nat }),
        r matches Reply::Push(p) ==> reply_to_raw(r).push == Some(push_to_raw(p)),
        r matches Reply::Error(v) ==> reply_to_raw(r).error == Some(v),
        r matches Reply::Connect(v) ==> reply_to_raw(r).connect == Some(v),
        r matches Reply::Subscribe(v) ==> reply_to_raw(r).subscribe == Some(v),
        r matches Reply::Unsubscribe(v) ==> reply_to_raw(r).unsubscribe == Some(v),
        r matches Reply::Publish(v) ==> reply_to_raw(r).publish == Some(v),
        r matches Reply::Presence(v) ==> reply_to_raw(r).presence == Some(v),
        r matches Reply::PresenceStats(v) ==> reply_to_raw(r).presence_stats == Some(v),
        r matches Reply::History(v) ==> reply_to_raw(r).history == Some(v),
        r matches Reply::Ping(v) ==> reply_to_raw(r).ping == Some(v),
        r matches Reply::Rpc(v) ==> reply_to_raw(r).rpc == Some(v),
        r matches Reply::Refresh(v) ==> reply_to_raw(r).refresh == Some(v),
        r matches Reply::SubRefresh(v) ==> reply_to_raw(r).sub_refresh == Some(v),
{
}

/// In its wire form, a push keeps its channel and carries its content
/// itself in the field of its kind, and no other field is set.
pub proof fn law_push_wire_field(p: Push)
    ensures
        push_to_raw(p).channel == p.channel,
        raw_push_kinds(push_to_raw(p)) == (if p.data is Empty { 0nat } else { 1nat }),
        p.data matches PushData::Connect(v) ==> push_to_raw(p).connect == Some(*v),
        p.data matches PushData::Publication(v) ==> push_to_raw(p).publication == Some(v),
        p.data matches PushData::Join(v) ==> push_to_raw(p).join == Some(v),
        p.data matches PushData::Leave(v) ==> push_to_raw(p).leave == Some(v),
        p.data matches PushData::Unsubscribe(v) ==> push_to_raw(p).unsubscribe == Some(v),
        p.data matches PushData::Message(v) ==> push_to_raw(p).message == Some(v),
        p.data matches PushData::Subscribe(v) ==> push_to_raw(p).subscribe == Some(v),
        p.data matches PushData::Disconnect(v) ==> push_to_raw(p).disconnect == Some(v),
        p.data matches PushData::Refresh(v) ==> push_to_raw(p).refresh == Some(v),
{
}

/// Read from the wire, a command is the request held in a field of the
/// wire message, of that field's kind; it is empty only when no field is
/// set.
pub proof fn law_command_from_wire_field(r: RawCommand)
    ensures
        (command_from_raw(r) is Empty) == (raw_command_kinds(r) == 0),
        command_from_raw(r) matches Command::Connect(v) ==> r.connect == Some(v),
        command_from_raw(r) matches Command::Subscribe(v) ==> r.subscribe == Some(v),
        command_from_raw(r) matches Command::Unsubscribe(v) ==> r.unsubscribe == Some(v),
        command_from_raw(r) matches Command::Publish(v) ==> r.publish == Some(v),
        command_from_raw(r) matches Command::Presence(v) ==> r.presence == Some(v),
        command_from_raw(r) matches Command::PresenceStats(v) ==> r.presence_stats == Some(v),
        command_from_raw(r) matches Command::History(v) ==> r.history == Some(v),
        command_from_raw(r) matches Command::Ping(v) ==> r.ping == Some(v),
        command_from_raw(r) matches Command::Send(v) ==> r.send == Some(v),
        command_from_raw(r) matches Command::Rpc(v) ==> r.rpc == Some(v),
        command_from_raw(r) matches Command::Refresh(v) ==> r.refresh == Some(v),
        command_from_raw(r) matches Command::SubRefresh(v) ==> r.sub_refresh == Some(v),
{
}

/// Read from the wire, a reply is the result held in a field of the wire
/// message, of that field's kind; it is empty only when no field is set.
pub proof fn law_reply_from_wire_field(r: RawReply)
    ensures
        (reply_from_raw(r) is Empty) == (raw_reply_kinds(r) == 0),
        reply_from_raw(r) matches Reply::Push(p) ==> r.push is Some && p == push_from_raw(r.push->0),
        reply_from_raw(r) matches Reply::Error(v) ==> r.error == Some(v),
        reply_from_raw(r) matches Reply::Connect(v) ==> r.connect == Some(v),
        reply_from_raw(r) matches Reply::Subscribe(v) ==> r.subscribe == Some(v),
        reply_from_raw(r) matches Reply::Unsubscribe(v) ==> r.unsubscribe == Some(v),
        reply_from_raw(r) matches Reply::Publish(v) ==> r.publish == Some(v),
        reply_from_raw(r) matches Reply::Presence(v) ==> r.presence == Some(v),
        reply_from_raw(r) matches Reply::PresenceStats(v) ==> r.presence_stats == Some(v),
        reply_from_raw(r) matches Reply::History(v) ==> r.history == Some(v),
        reply_from_raw(r) matches Reply::Ping(v) ==> r.ping == Some(v),
        reply_from_raw(r) matches Reply::Rpc(v) ==> r.rpc == Some(v),
        reply_from_raw(r) matches Reply::Refresh(v) ==> r.refresh == Some(v),
        reply_from_raw(r) matches Reply::SubRefresh(v) ==> r.sub_refresh == Some(v),
{
}

/// Read from the wire, a push keeps its channel and its content is the one
/// held in a field of the wire message, of that field's kind; it is empty
/// only when no field is set.
pub proof fn law_push_from_wire_field(r: RawPush)
    ensures
        push_from_raw(r).channel == r.channel,
        (push_from_raw(r).data is Empty) == (raw_push_kinds(r) == 0),
        push_from_raw(r).data matches PushData::Connect(v) ==> r.connect == Some(*v),
        push_from_raw(r).data matches PushData::Publication(v) ==> r.publication == Some(v),
        push_from_raw(r).data matches PushData::Join(v) ==> r.join == Some(v),
        push_from_raw(r).data matches PushData::Leave(v) ==> r.leave == Some(v),
        push_from_raw(r).data matches PushData::Unsubscribe(v) ==> r.unsubscribe == Some(v),
        push_from_raw(r).data matches PushData::Message(v) ==> r.message == Some(v),
        push_from_raw(r).data matches PushData::Subscribe(v) ==> r.subscribe == Some(v),
        push_from_raw(r).data matches PushData::Disconnect(v) ==> r.disconnect == Some(v),
        push_from_raw(r).data matches PushData::Refresh(v) ==> r.refresh == Some(v),
{
}

} // verus!
