//! The state machine of a client: connecting, connected, disconnected, and
//! what each step of a connection cycle decides.
//!
//! The runtime around it performs the I/O: it opens the socket, runs the
//! handshake, writes queued requests and reads replies, and calls back into
//! the state machine with what happened.  After each transition it calls
//! the user's callback for the state entered.

use std::collections::HashMap;
use vstd::prelude::*;
use crate::client::types::{
    MessageStore, MessageStoreItem, State, batch_from, expired_part, law_live_request_is_queued, live_part,
};
use crate::client_handler::ReplyError;
use crate::config::{Config, Protocol, ticks, timeout_ticks};
use crate::errors::RemoveSubscriptionError;
use crate::protocol::{Command, ConnectRequest, Publication, PublishRequest, PushData, Reply, RpcRequest};
use crate::subscription::{
    State as SubState, SubscriptionId, SubscriptionInner, Subscriptions, batch_post, key_of,
    new_subscription_post, publication_target_of, publish_post, remove_post, subscribe_finished_post,
    subscribe_post, unsubscribe_post,
};

verus! {

/// The queued form of a request made at `now` under `ticket`, which
/// expires `timeout` ticks later.
pub open spec fn queued(command: Command, ticket: u64, now: u64, timeout: u64) -> MessageStoreItem {
    MessageStoreItem { command, ticket, deadline: (now + timeout) as u64 }
}

/// `ids` lists the subscriptions of `e` that are not unsubscribed, each
/// once.
pub open spec fn active_list(e: Map<u64, SubscriptionInner>, ids: Seq<SubscriptionId>) -> bool {
    &&& forall|i: int| 0 <= i < ids.len() ==> e.contains_key(#[trigger] ids[i].key())
        && e[ids[i].key()].state != SubState::Unsubscribed
    &&& forall|k: u64| e.contains_key(k) && e[k].state != SubState::Unsubscribed
        ==> exists|i: int| 0 <= i < ids.len() && #[trigger] ids[i].key() == k
    &&& forall|i: int, j: int| 0 <= i < j < ids.len() ==> #[trigger] ids[i].key() != #[trigger] ids[j].key()
}

/// Queuing `item` at `now` on the client's queue `o`, giving `n`: the
/// item is queued, the expired requests at the front are dropped and their
/// tickets are the `expired` ones.
pub open spec fn enqueue_post(
    o: MessageStore,
    n: MessageStore,
    item: MessageStoreItem,
    now: u64,
    expired: Seq<u64>,
) -> bool {
    &&& n.timeout() == o.timeout()
    &&& n.requests() == live_part(o.requests().push(item), now)
    &&& expired == expired_part(o.requests().push(item), now)
}

/// The tickets of the requests of a queue, in order.
pub open spec fn tickets_of(q: MessageStore) -> Seq<u64> {
    q.requests().map_values(|r: MessageStoreItem| r.ticket)
}

/// The channel and publication of a reply that pushes a publication.
pub open spec fn pushed_publication(reply: Reply) -> Option<(Seq<char>, Publication)> {
    match reply {
        Reply::Push(push) => match push.data {
            PushData::Publication(p) => Some((push.channel@, p)),
            _ => None,
        },
        _ => None,
    }
}

/// What happens after a connection attempt ends.
#[derive(Debug)]
pub enum CycleStep {
    /// The client left the connecting state meanwhile: the cycle ends, and
    /// the `connect` waiters are not answered.
    Stopped,
    /// The connection is established; the subscriptions listed are to be
    /// subscribed again on it.  The `connect` waiters are answered `Ok`.
    Established(Vec<SubscriptionId>),
    /// The attempt failed and another is made; the `connect` waiters are
    /// answered `Err`.
    Retry,
    /// The attempt failed for good: the client is disconnected, its
    /// queued requests (whose tickets are listed) are dropped, the cycle
    /// ends, and the `connect` waiters are answered `Err`.
    Failed(Vec<u64>),
}

/// What `connect` asks of the runtime.
#[derive(Debug, Clone, Copy, PartialEq, Eq, Structural)]
pub enum ConnectAnswer {
    /// The client started connecting: start a connection cycle, and answer
    /// the caller with its outcome.
    Started,
    /// The client is already connecting: answer the caller with the
    /// outcome of the running cycle.
    Pending,
    /// The client is connected: answer the caller `Ok` at once.
    Done,
}

/// What `connect` asks of the runtime in each state.
pub open spec fn connect_answer(st: State) -> ConnectAnswer {
    match st {
        State::Disconnected => ConnectAnswer::Started,
        State::Connecting => ConnectAnswer::Pending,
        State::Connected => ConnectAnswer::Done,
    }
}

/// How a connection cycle ends.
#[derive(Debug)]
pub enum CycleEnd {
    /// A connected client reconnects: start a new cycle.
    Restart,
    /// The client became disconnected; its queued requests (whose tickets
    /// are listed) are dropped.
    Disconnected(Vec<u64>),
    /// Nothing changes.
    Unchanged,
}

/// The client: its connection state and settings, the queue of requests
/// made on the client, and its subscriptions.
pub struct ClientInner {
    url: String,
    state: State,
    token: String,
    name: String,
    version: String,
    protocol: Protocol,
    read_timeout: u64,
    pub_queue: MessageStore,
    subscriptions: Subscriptions,
}

impl ClientInner {
    pub closed spec fn url(&self) -> Seq<char> {
        self.url@
    }

    pub closed spec fn state(&self) -> State {
        self.state
    }

    pub closed spec fn token(&self) -> Seq<char> {
        self.token@
    }

    pub closed spec fn name(&self) -> Seq<char> {
        self.name@
    }

    pub closed spec fn version(&self) -> Seq<char> {
        self.version@
    }

    pub closed spec fn protocol(&self) -> Protocol {
        self.protocol
    }

    /// Ticks a request may wait for its reply.
    pub closed spec fn read_timeout(&self) -> u64 {
        self.read_timeout
    }

    /// The subscriptions of the client.
    pub closed spec fn subs(&self) -> Subscriptions {
        self.subscriptions
    }

    /// The queue of publications and RPCs made on the client.
    pub closed spec fn pub_queue(&self) -> MessageStore {
        self.pub_queue
    }

    /// The settings, which no transition changes.
    pub open spec fn same_settings(&self, other: &Self) -> bool {
        &&& self.url() == other.url()
        &&& self.token() == other.token()
        &&& self.name() == other.name()
        &&& self.version() == other.version()
        &&& self.protocol() == other.protocol()
        &&& self.read_timeout() == other.read_timeout()
    }

    /// The request queue expires requests after the read timeout; the
    /// subscriptions are well formed.
    pub open spec fn wf(&self) -> bool {
        &&& self.subs().wf()
        &&& self.pub_queue().timeout() == self.read_timeout()
    }

    /// A disconnected client for the server at `url`, configured by
    /// `config`.
    pub fn new(url: &str, config: Config) -> (c: Self)
        ensures
            c.wf(),
            c.state() == State::Disconnected,
            c.url() == url@,
            c.token() == config.token@,
            c.name() == config.name@,
            c.version() == config.version@,
            c.protocol() == config.protocol,
            c.read_timeout() == timeout_ticks(config.read_timeout),
            c.subs().entries() =~= Map::empty(),
            c.pub_queue().requests() =~= Seq::empty(),
    {
        let read_timeout = ticks(config.read_timeout);
        ClientInner {
            url: url.to_owned(),
            state: State::Disconnected,
            token: config.token,
            name: config.name,
            version: config.version,
            protocol: config.protocol,
            read_timeout,
            pub_queue: MessageStore::new(read_timeout),
            subscriptions: Subscriptions::new(),
        }
    }

    /// The current connection state.
    pub fn state_now(&self) -> (st: State)
        ensures
            st == self.state(),
    {
        self.state
    }

    /// The server URL.
    pub fn url_str(&self) -> (u: &str)
        ensures
            u@ == self.url(),
    {
        self.url.as_str()
    }

    /// The wire encoding.
    pub fn protocol_now(&self) -> (p: Protocol)
        ensures
            p == self.protocol(),
    {
        self.protocol
    }

    /// Ticks a request may wait for its reply.
    pub fn read_timeout_now(&self) -> (t: u64)
        ensures
            t == self.read_timeout(),
    {
        self.read_timeout
    }

    /// Replaces the token used by the next connection attempt.
    pub fn set_token(&mut self, token: &str)
        ensures
            final(self).token() == token@,
            final(self).url() == old(self).url(),
            final(self).name() == old(self).name(),
            final(self).version() == old(self).version(),
            final(self).protocol() == old(self).protocol(),
            final(self).read_timeout() == old(self).read_timeout(),
            final(self).state() == old(self).state(),
            final(self).pub_queue() == old(self).pub_queue(),
            final(self).subs() == old(self).subs(),
    {
        self.token = token.to_owned();
    }

    /// Enters the connecting state; the runtime then starts a connection
    /// cycle.
    pub fn move_to_connecting(&mut self)
        requires
            old(self).wf(),
            old(self).state() != State::Connecting,
        ensures
            final(self).wf(),
            final(self).state() == State::Connecting,
            final(self).same_settings(old(self)),
            final(self).subs() == old(self).subs(),
            final(self).pub_queue() == old(self).pub_queue(),
    {
        self.state = State::Connecting;
    }

    /// Enters the connected state, from the connecting state.
    pub fn move_to_connected(&mut self)
        requires
            old(self).wf(),
            old(self).state() == State::Connecting,
        ensures
            final(self).wf(),
            final(self).state() == State::Connected,
            final(self).same_settings(old(self)),
            final(self).subs() == old(self).subs(),
            final(self).pub_queue() == old(self).pub_queue(),
    {
        self.state = State::Connected;
    }

    /// Enters the disconnected state: the queued requests are dropped (their
    /// waiters learn that the request was cancelled); returns their tickets.
    pub fn move_to_disconnected(&mut self) -> (dropped: Vec<u64>)
        requires
            old(self).wf(),
            old(self).state() != State::Disconnected,
        ensures
            final(self).wf(),
            final(self).state() == State::Disconnected,
            final(self).same_settings(old(self)),
            final(self).subs() == old(self).subs(),
            final(self).pub_queue().requests() =~= Seq::empty(),
            dropped@ == tickets_of(old(self).pub_queue()),
    {
        let dropped = self.pub_queue.clear();
        self.state = State::Disconnected;
        dropped
    }

    /// `connect`: a disconnected client starts connecting; a connecting one
    /// goes on, and the caller waits for the running cycle; a connected one
    /// answers the caller at once.
    pub fn connect(&mut self) -> (a: ConnectAnswer)
        requires
            old(self).wf(),
        ensures
            final(self).wf(),
            a == connect_answer(old(self).state()),
            a != ConnectAnswer::Started ==> *final(self) == *old(self),
            a == ConnectAnswer::Started ==> {
                &&& final(self).state() == State::Connecting
                &&& final(self).same_settings(old(self))
                &&& final(self).subs() == old(self).subs()
                &&& final(self).pub_queue() == old(self).pub_queue()
            },
    {
        match self.state {
            State::Disconnected => {
                self.move_to_connecting();
                ConnectAnswer::Started
            },
            State::Connecting => ConnectAnswer::Pending,
            State::Connected => ConnectAnswer::Done,
        }
    }

    /// `disconnect`: a client that is not disconnected becomes disconnected
    /// and its queued requests are dropped (the caller waits for the cycle
    /// to end); a disconnected one answers the caller at once and nothing
    /// changes.
    pub fn disconnect(&mut self) -> (dropped: Option<Vec<u64>>)
        requires
            old(self).wf(),
        ensures
            final(self).wf(),
            dropped is Some == (old(self).state() != State::Disconnected),
            dropped is None ==> *final(self) == *old(self),
            dropped matches Some(t) ==> {
                &&& final(self).state() == State::Disconnected
                &&& final(self).same_settings(old(self))
                &&& final(self).subs() == old(self).subs()
                &&& final(self).pub_queue().requests() =~= Seq::empty()
                &&& t@ == tickets_of(old(self).pub_queue())
            },
    {
        if self.state != State::Disconnected {
            Some(self.move_to_disconnected())
        } else {
            None
        }
    }

    /// A connection attempt of the current cycle ended with `result`: `Ok`
    /// for an established connection, `Err(reconnect)` for a failed one.
    /// A failure that is not retried disconnects the client.
    pub fn attempt_finished(&mut self, result: Result<(), bool>) -> (step: CycleStep)
        requires
            old(self).wf(),
        ensures
            final(self).wf(),
            final(self).same_settings(old(self)),
            final(self).subs() == old(self).subs(),
            old(self).state() != State::Connecting ==> (step is Stopped && *final(self) == *old(self)),
            old(self).state() == State::Connecting && result is Ok ==> {
                &&& final(self).state() == State::Connected
                &&& final(self).pub_queue() == old(self).pub_queue()
                &&& step matches CycleStep::Established(ids) && active_list(old(self).subs().entries(), ids@)
            },
            old(self).state() == State::Connecting && result == Err::<(), bool>(true) ==> (step is Retry
                && *final(self) == *old(self)),
            old(self).state() == State::Connecting && result == Err::<(), bool>(false) ==> {
                &&& final(self).state() == State::Disconnected
                &&& final(self).pub_queue().requests() =~= Seq::empty()
                &&& step matches CycleStep::Failed(t) && t@ == tickets_of(old(self).pub_queue())
            },
    {
        if self.state != State::Connecting {
            return CycleStep::Stopped;
        }
        match result {
            Ok(()) => {
                self.move_to_connected();
                let ids = self.subscriptions.active_ids();
                CycleStep::Established(ids)
            },
            Err(true) => CycleStep::Retry,
            Err(false) => CycleStep::Failed(self.move_to_disconnected()),
        }
    }

    /// The connection cycle ended, with `need_reconnect` telling whether to
    /// connect again.  A connected client that is to reconnect starts a new
    /// cycle; a client that is not to reconnect ends disconnected, its
    /// queued requests dropped.  When not reconnecting, the `disconnect`
    /// waiters are answered.
    pub fn cycle_ended(&mut self, need_reconnect: bool) -> (e: CycleEnd)
        requires
            old(self).wf(),
        ensures
            final(self).wf(),
            final(self).same_settings(old(self)),
            final(self).subs() == old(self).subs(),
            need_reconnect && old(self).state() == State::Connected ==> (e is Restart
                && final(self).state() == State::Connecting && final(self).pub_queue() == old(self).pub_queue()),
            !need_reconnect && old(self).state() != State::Disconnected ==> {
                &&& final(self).state() == State::Disconnected
                &&& final(self).pub_queue().requests() =~= Seq::empty()
                &&& e matches CycleEnd::Disconnected(t) && t@ == tickets_of(old(self).pub_queue())
            },
            (need_reconnect && old(self).state() != State::Connected) || (!need_reconnect
                && old(self).state() == State::Disconnected) ==> (e is Unchanged && *final(self) == *old(self)),
    {
        if need_reconnect {
            if self.state == State::Connected {
                self.move_to_connecting();
                CycleEnd::Restart
            } else {
                CycleEnd::Unchanged
            }
        } else if self.state != State::Disconnected {
            CycleEnd::Disconnected(self.move_to_disconnected())
        } else {
            CycleEnd::Unchanged
        }
    }

    /// Whether a failed attempt to open the socket is to be retried: not
    /// when the client left the connecting state, nor for an invalid URL.
    pub fn connect_failed(&self, invalid_url: bool) -> (reconnect: bool)
        ensures
            reconnect == (self.state() == State::Connecting && !invalid_url),
    {
        self.state == State::Connecting && !invalid_url
    }

    /// The connect request sent in the handshake.
    pub fn connect_command(&self) -> (c: Command)
        ensures
            c matches Command::Connect(req) && req.token@ == self.token() && req.data@.len() == 0
                && req.subs@ =~= Map::empty() && req.name@ == self.name() && req.version@
                == self.version(),
    {
        Command::Connect(
            ConnectRequest {
                token: self.token.clone(),
                data: Vec::new(),
                subs: HashMap::new(),
                name: self.name.clone(),
                version: self.version.clone(),
            },
        )
    }

    /// Queues `command`, made at `now` under `ticket`, on the client's
    /// queue; returns the tickets of the requests that expired meanwhile.
    fn enqueue(&mut self, command: Command, ticket: u64, now: u64) -> (expired: Vec<u64>)
        requires
            old(self).wf(),
            now + old(self).read_timeout() <= u64::MAX,
        ensures
            final(self).wf(),
            final(self).same_settings(old(self)),
            final(self).subs() == old(self).subs(),
            final(self).state() == old(self).state(),
            enqueue_post(old(self).pub_queue(), final(self).pub_queue(), queued(command, ticket, now, old(self).read_timeout()), now, expired@),
    {
        self.pub_queue.send(command, ticket, now)
    }

    /// `publish`: queues a publication of `data` on `channel`, made at
    /// `now`, in whatever state the client is (a disconnected client sends
    /// it once connected); returns the tickets of requests that expired
    /// meanwhile.
    pub fn publish(&mut self, channel: &str, data: Vec<u8>, ticket: u64, now: u64) -> (expired: Vec<u64>)
        requires
            old(self).wf(),
            now + old(self).read_timeout() <= u64::MAX,
        ensures
            final(self).wf(),
            final(self).same_settings(old(self)),
            final(self).subs() == old(self).subs(),
            final(self).state() == old(self).state(),
            exists|req: PublishRequest| req.channel@ == channel@ && req.data == data
                && enqueue_post(old(self).pub_queue(), final(self).pub_queue(), queued(Command::Publish(req), ticket, now, old(self).read_timeout()), now, expired@),
    {
        let req = PublishRequest { channel: channel.to_owned(), data };
        let ghost g = req;
        let r = self.enqueue(Command::Publish(req), ticket, now);
        assert(g.channel@ == channel@);
        r
    }

    /// `rpc`: queues a call of `method` with `data`, made at `now`, in
    /// whatever state the client is; returns the tickets of requests that
    /// expired meanwhile.
    pub fn rpc(&mut self, method: &str, data: Vec<u8>, ticket: u64, now: u64) -> (expired: Vec<u64>)
        requires
            old(self).wf(),
            now + old(self).read_timeout() <= u64::MAX,
        ensures
            final(self).wf(),
            final(self).same_settings(old(self)),
            final(self).subs() == old(self).subs(),
            final(self).state() == old(self).state(),
            exists|req: RpcRequest| req.method@ == method@ && req.data == data
                && enqueue_post(old(self).pub_queue(), final(self).pub_queue(), queued(Command::Rpc(req), ticket, now, old(self).read_timeout()), now, expired@),
    {
        let req = RpcRequest { data, method: method.to_owned() };
        let ghost g = req;
        let r = self.enqueue(Command::Rpc(req), ticket, now);
        assert(g.method@ == method@);
        r
    }

    /// Takes up to `max` live requests from the client's queue, as its
    /// writer does before each write; returns them and the tickets of the
    /// requests that expired on the way.
    pub fn take_publish_batch(&mut self, now: u64, max: usize) -> (r: (Vec<MessageStoreItem>, Vec<u64>))
        requires
            old(self).wf(),
        ensures
            final(self).wf(),
            final(self).same_settings(old(self)),
            final(self).subs() == old(self).subs(),
            final(self).state() == old(self).state(),
            ({
                let b = batch_from(old(self).pub_queue().requests(), now, max as nat);
                &&& final(self).pub_queue().requests() == b.2
                &&& final(self).pub_queue().timeout() == old(self).pub_queue().timeout()
                &&& r.0@ == b.0
                &&& r.1@ == b.1
            }),
    {
        self.pub_queue.take_batch(now, max)
    }

    /// The subscription that receives a reply pushed by the server, with
    /// the publication it carries: only a publication pushed on a channel
    /// whose subscription is subscribed has one.
    pub fn publication_for(&self, reply: Reply) -> (r: Option<(SubscriptionId, Publication)>)
        requires
            self.wf(),
        ensures
            match pushed_publication(reply) {
                Some((channel, p)) => match r {
                    Some((id, q)) => publication_target_of(self.subs().entries(), channel) == Some(
                        id.key(),
                    ) && q == p,
                    None => publication_target_of(self.subs().entries(), channel) is None,
                },
                None => r is None,
            },
    {
        match reply {
            Reply::Push(push) => match push.data {
                PushData::Publication(p) => match self.subscriptions.publication_target(push.channel.as_str()) {
                    Some(id) => Some((id, p)),
                    None => None,
                },
                _ => None,
            },
            _ => None,
        }
    }

    /// The subscriptions, to be read.
    pub fn subscriptions(&self) -> (s: &Subscriptions)
        ensures
            *s == self.subs(),
    {
        &self.subscriptions
    }

    /// `new_subscription`: the subscription to `channel`, made if there is
    /// none; its requests expire after the client's read timeout.
    pub fn new_subscription(&mut self, channel: &str) -> (id: SubscriptionId)
        requires
            old(self).wf(),
            key_of(old(self).subs().entries(), channel@) is None ==> old(self).subs().entries().len() + 2
                < u32::MAX,
        ensures
            final(self).wf(),
            final(self).same_settings(old(self)),
            final(self).state() == old(self).state(),
            final(self).pub_queue() == old(self).pub_queue(),
            new_subscription_post(old(self).subs().entries(), final(self).subs().entries(), channel@, old(self).read_timeout(), id.key()),
    {
        let t = self.read_timeout;
        self.subscriptions.new_subscription(channel, t)
    }

    /// `remove_subscription`: removes an unsubscribed subscription.
    pub fn remove_subscription(&mut self, id: SubscriptionId) -> (r: Result<(), RemoveSubscriptionError>)
        requires
            old(self).wf(),
        ensures
            final(self).wf(),
            final(self).same_settings(old(self)),
            final(self).state() == old(self).state(),
            final(self).pub_queue() == old(self).pub_queue(),
            remove_post(old(self).subs().entries(), final(self).subs().entries(), id.key(), r),
    {
        self.subscriptions.remove_subscription(id)
    }

    /// `Subscription::subscribe`: starts subscribing an unsubscribed
    /// subscription; the runtime then tells the subscription task, if the
    /// client has connected.
    pub fn subscribe(&mut self, id: SubscriptionId) -> (started: bool)
        requires
            old(self).wf(),
        ensures
            final(self).wf(),
            final(self).same_settings(old(self)),
            final(self).state() == old(self).state(),
            final(self).pub_queue() == old(self).pub_queue(),
            subscribe_post(old(self).subs().entries(), final(self).subs().entries(), id.key(), started),
    {
        self.subscriptions.subscribe(id)
    }

    /// `Subscription::unsubscribe`: unsubscribes a subscription that is not
    /// unsubscribed; the runtime then tells the subscription task.
    pub fn unsubscribe(&mut self, id: SubscriptionId) -> (stopped: bool)
        requires
            old(self).wf(),
        ensures
            final(self).wf(),
            final(self).same_settings(old(self)),
            final(self).state() == old(self).state(),
            final(self).pub_queue() == old(self).pub_queue(),
            unsubscribe_post(old(self).subs().entries(), final(self).subs().entries(), id.key(), stopped),
    {
        self.subscriptions.unsubscribe(id)
    }

    /// The server answered the subscribe request of a subscription.
    pub fn subscribe_finished(&mut self, id: SubscriptionId, accepted: bool) -> (found: bool)
        requires
            old(self).wf(),
        ensures
            final(self).wf(),
            final(self).same_settings(old(self)),
            final(self).state() == old(self).state(),
            final(self).pub_queue() == old(self).pub_queue(),
            subscribe_finished_post(old(self).subs().entries(), final(self).subs().entries(), id.key(), accepted, found),
    {
        self.subscriptions.subscribe_finished(id, accepted)
    }

    /// `Subscription::publish`: queues a publication on the subscription's
    /// channel, made at `now`.
    pub fn subscription_publish(&mut self, id: SubscriptionId, data: Vec<u8>, ticket: u64, now: u64) -> (r: Result<Vec<u64>, ReplyError>)
        requires
            old(self).wf(),
            old(self).subs().entries().contains_key(id.key()) ==> now + old(self).subs().entries()[id.key()].read_timeout
                <= u64::MAX,
        ensures
            final(self).wf(),
            final(self).same_settings(old(self)),
            final(self).state() == old(self).state(),
            final(self).pub_queue() == old(self).pub_queue(),
            publish_post(old(self).subs().entries(), final(self).subs().entries(), id.key(), data, ticket, now, r),
    {
        self.subscriptions.publish(id, data, ticket, now)
    }

    /// Takes up to `max` live publications from a subscription's queue.
    pub fn take_subscription_batch(&mut self, id: SubscriptionId, now: u64, max: usize) -> (r: Option<(Vec<MessageStoreItem>, Vec<u64>)>)
        requires
            old(self).wf(),
        ensures
            final(self).wf(),
            final(self).same_settings(old(self)),
            final(self).state() == old(self).state(),
            final(self).pub_queue() == old(self).pub_queue(),
            batch_post(old(self).subs().entries(), final(self).subs().entries(), id.key(), now, max as nat, r),
    {
        self.subscriptions.take_publish_batch(id, now, max)
    }
}

/// A request made before its deadline, in whatever state the client is, is
/// queued (last) until it is written on a connection.
pub proof fn law_requests_queued_until_sent(
    c: ClientInner,
    n: MessageStore,
    item: MessageStoreItem,
    now: u64,
    expired: Seq<u64>,
)
    requires
        c.wf(),
        item.deadline > now,
        enqueue_post(c.pub_queue(), n, item, now, expired),
    ensures
        n.requests().len() > 0,
        n.requests().last() == item,
{
    law_live_request_is_queued(c.pub_queue().requests(), item, now);
}

/// `connect` answers the caller at once only when the client is
/// connected; a connecting client keeps connecting and the caller waits
/// for the running cycle; only a disconnected client starts a cycle.
pub proof fn law_connect_answers_at_once_only_when_connected(st: State)
    ensures
        (connect_answer(st) == ConnectAnswer::Done) == (st == State::Connected),
        (connect_answer(st) == ConnectAnswer::Pending) == (st == State::Connecting),
        (connect_answer(st) == ConnectAnswer::Started) == (st == State::Disconnected),
{
}

} // verus!
