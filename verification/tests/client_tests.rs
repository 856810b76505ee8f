use std::time::Duration;
use tokio_centrifuge::client::handshake::{handshake_outcome, HandshakeOutcome};
use tokio_centrifuge::client::inner::{ClientInner, ConnectAnswer, CycleEnd, CycleStep};
use tokio_centrifuge::client::subscription_handler::{subscribe_accepted, SubscriptionSync, SyncAction};
use tokio_centrifuge::client::types::{MessageStore, State};
use tokio_centrifuge::client_handler::{
    close_reconnects, route_reply, unknown_reply_text, PendingReplies, ReplyError, ReplyRoute, Writer,
};
use tokio_centrifuge::config::{reconnect_delay, ticks, Config, Protocol, ReconnectStrategy};
use tokio_centrifuge::errors::RemoveSubscriptionError;
use tokio_centrifuge::protocol::{
    Command, ConnectResult, Error, Publication, Push, PushData, Reply, RpcRequest,
    SubscribeResult,
};
use tokio_centrifuge::subscription::State as SubState;
use tokio_centrifuge::subscription::Subscriptions;
use std::collections::HashMap;

fn ping() -> Command {
    Command::Rpc(RpcRequest { data: vec![], method: "ping".to_string() })
}

fn client() -> ClientInner {
    let config = Config::new().with_token("tok").with_name("me").with_read_timeout(Duration::from_secs(2));
    ClientInner::new("ws://localhost:8000/connection/websocket", config)
}

fn subscribe_result() -> SubscribeResult {
    SubscribeResult {
        expires: false,
        ttl: 0,
        recoverable: false,
        epoch: String::new(),
        publications: vec![],
        recovered: false,
        offset: 0,
        positioned: false,
        data: vec![],
        was_recovering: false,
    }
}

fn connect_result() -> ConnectResult {
    ConnectResult {
        client: "c".to_string(),
        version: String::new(),
        expires: false,
        ttl: 0,
        data: vec![],
        subs: HashMap::new(),
        ping: 0,
        pong: false,
        session: String::new(),
        node: String::new(),
    }
}

#[test]
fn config_defaults_and_builders() {
    let c = Config::new();
    assert_eq!(c.name, "tokio-centrifuge");
    assert_eq!(c.token, "");
    assert_eq!(c.version, "");
    assert_eq!(c.protocol, Protocol::Json);
    assert_eq!(c.read_timeout, Duration::from_secs(5));
    let c = c.use_protobuf().with_version("2").with_token("t");
    assert_eq!(c.protocol, Protocol::Protobuf);
    assert_eq!(c.version, "2");
    assert_eq!(c.token, "t");
    assert_eq!(c.use_json().protocol, Protocol::Json);
}

#[test]
fn queue_drops_expired_requests_in_order() {
    let mut q = MessageStore::new(10);
    assert!(q.send(ping(), 1, 0).is_empty());
    assert!(q.send(ping(), 2, 5).is_empty());
    let expired = q.send(ping(), 3, 12);
    assert_eq!(expired, vec![1]);
    let (first, expired) = q.get_next(15);
    assert_eq!(first.unwrap().ticket, 3);
    assert_eq!(expired, vec![2]);
    let (none, expired) = q.get_next(15);
    assert!(none.is_none());
    assert!(expired.is_empty());
}

#[test]
fn zero_timeout_queue_expires_at_once() {
    let mut q = MessageStore::new(0);
    assert_eq!(q.send(ping(), 7, 100), vec![7]);
}

#[test]
fn batches_are_capped_and_ordered() {
    let mut q = MessageStore::new(100);
    for t in 0..5u64 {
        q.send(ping(), t, 0);
    }
    let (batch, expired) = q.take_batch(1, 3);
    assert_eq!(batch.iter().map(|i| i.ticket).collect::<Vec<_>>(), vec![0, 1, 2]);
    assert!(expired.is_empty());
    let (batch, _) = q.take_batch(1, 32);
    assert_eq!(batch.iter().map(|i| i.ticket).collect::<Vec<_>>(), vec![3, 4]);
    assert_eq!(batch[0].deadline, 100);
}

#[test]
fn check_expiration_keeps_only_live_items() {
    let mut q = MessageStore::new(5);
    q.send(ping(), 1, 10);
    let (item, _) = q.get_next(10);
    let item = item.unwrap();
    assert_eq!(item.deadline, 15);
    assert!(item.clone().check_expiration(14).is_some());
    assert!(item.check_expiration(15).is_none());
}

#[test]
fn same_channel_gives_same_subscription() {
    let mut subs = Subscriptions::new();
    let a = subs.new_subscription("news", 10);
    let b = subs.new_subscription("news", 20);
    assert_eq!(a.as_u64(), b.as_u64());
    assert_eq!(subs.len(), 1);
    let c = subs.new_subscription("sport", 10);
    assert_ne!(a.as_u64(), c.as_u64());
    assert_eq!(subs.get_subscription("news").unwrap().as_u64(), a.as_u64());
    assert!(subs.get_subscription("weather").is_none());
}

#[test]
fn remove_needs_unsubscribed() {
    let mut subs = Subscriptions::new();
    let a = subs.new_subscription("news", 10);
    assert!(subs.subscribe(a));
    assert_eq!(subs.state(a), SubState::Subscribing);
    assert!(!subs.subscribe(a));
    assert_eq!(subs.remove_subscription(a), Err(RemoveSubscriptionError::NotUnsubscribed));
    assert!(subs.unsubscribe(a));
    assert!(!subs.unsubscribe(a));
    assert_eq!(subs.remove_subscription(a), Ok(()));
    assert!(subs.get_subscription("news").is_none());
    assert_eq!(subs.state(a), SubState::Unsubscribed);
    assert_eq!(subs.remove_subscription(a), Ok(()));
    assert!(!subs.contains(a));
}

#[test]
fn publish_on_subscription_needs_open_queue() {
    let mut subs = Subscriptions::new();
    let a = subs.new_subscription("news", 10);
    assert_eq!(subs.publish(a, vec![1], 1, 0), Err(ReplyError::Closed));
    subs.subscribe(a);
    assert_eq!(subs.publish(a, vec![1], 1, 0), Ok(vec![]));
    let (batch, _) = subs.take_publish_batch(a, 0, 32).unwrap();
    assert_eq!(batch.len(), 1);
    match &batch[0].command {
        Command::Publish(p) => {
            assert_eq!(p.channel, "news");
            assert_eq!(p.data, vec![1]);
        }
        other => panic!("unexpected {:?}", other),
    }
    subs.unsubscribe(a);
    assert!(subs.take_publish_batch(a, 0, 32).is_none());
}

#[test]
fn publications_reach_subscribed_subscriptions_only() {
    let mut subs = Subscriptions::new();
    let a = subs.new_subscription("news", 10);
    assert!(subs.publication_target("news").is_none());
    subs.subscribe(a);
    assert!(subs.publication_target("news").is_none());
    assert!(subs.subscribe_finished(a, true));
    assert_eq!(subs.state(a), SubState::Subscribed);
    assert_eq!(subs.publication_target("news").unwrap().as_u64(), a.as_u64());
    let ids = subs.active_ids();
    assert_eq!(ids.len(), 1);
}

#[test]
fn subscribe_not_accepted_keeps_state() {
    let mut subs = Subscriptions::new();
    let a = subs.new_subscription("news", 10);
    subs.subscribe(a);
    assert!(subs.subscribe_finished(a, false));
    assert_eq!(subs.state(a), SubState::Subscribing);
}

#[test]
fn client_connects_and_disconnects() {
    let mut c = client();
    assert_eq!(c.state_now(), State::Disconnected);
    assert_eq!(c.url_str(), "ws://localhost:8000/connection/websocket");
    assert_eq!(c.read_timeout_now(), 2000);
    assert_eq!(c.connect(), ConnectAnswer::Started);
    assert_eq!(c.state_now(), State::Connecting);
    assert_eq!(c.connect(), ConnectAnswer::Pending);
    assert!(matches!(c.attempt_finished(Err(true)), CycleStep::Retry));
    assert_eq!(c.state_now(), State::Connecting);
    assert!(matches!(c.attempt_finished(Ok(())), CycleStep::Established(ids) if ids.is_empty()));
    assert_eq!(c.state_now(), State::Connected);
    assert_eq!(c.connect(), ConnectAnswer::Done);
    assert_eq!(c.disconnect(), Some(vec![]));
    assert_eq!(c.state_now(), State::Disconnected);
    assert_eq!(c.disconnect(), None);
    assert!(matches!(c.attempt_finished(Ok(())), CycleStep::Stopped));
}

#[test]
fn failed_attempt_disconnects_and_drops_queue() {
    let mut c = client();
    c.connect();
    assert_eq!(c.publish("news", vec![1], 7, 0), Vec::<u64>::new());
    match c.attempt_finished(Err(false)) {
        CycleStep::Failed(dropped) => assert_eq!(dropped, vec![7]),
        _ => panic!("expected a failed cycle"),
    }
    assert_eq!(c.state_now(), State::Disconnected);
    assert!(matches!(c.cycle_ended(false), CycleEnd::Unchanged));
    assert_eq!(c.state_now(), State::Disconnected);
    let (batch, expired) = c.take_publish_batch(0, 32);
    assert!(batch.is_empty() && expired.is_empty());
    assert_eq!(c.connect(), ConnectAnswer::Started);
}

#[test]
fn lost_connection_reconnects_or_disconnects() {
    let mut c = client();
    c.connect();
    c.attempt_finished(Ok(()));
    assert!(matches!(c.cycle_ended(true), CycleEnd::Restart));
    assert_eq!(c.state_now(), State::Connecting);
    c.attempt_finished(Ok(()));
    c.publish("news", vec![1], 4, 0);
    match c.cycle_ended(false) {
        CycleEnd::Disconnected(dropped) => assert_eq!(dropped, vec![4]),
        _ => panic!("expected the client to disconnect"),
    }
    assert_eq!(c.state_now(), State::Disconnected);
}

#[test]
fn cycle_end_while_connecting_without_reconnect_disconnects() {
    let mut c = client();
    c.connect();
    assert!(matches!(c.cycle_ended(false), CycleEnd::Disconnected(d) if d.is_empty()));
    assert_eq!(c.state_now(), State::Disconnected);
    assert!(matches!(c.cycle_ended(true), CycleEnd::Unchanged));
}

#[test]
fn requests_on_disconnected_client_are_queued() {
    let mut c = client();
    assert_eq!(c.publish("news", vec![1], 1, 0), Vec::<u64>::new());
    assert_eq!(c.rpc("m", vec![], 2, 10), Vec::<u64>::new());
    c.connect();
    c.attempt_finished(Ok(()));
    let (batch, expired) = c.take_publish_batch(20, 32);
    assert_eq!(batch.len(), 2);
    assert_eq!(batch[0].ticket, 1);
    assert_eq!(batch[1].ticket, 2);
    assert!(expired.is_empty());
}

#[test]
fn disconnect_drops_queued_requests() {
    let mut c = client();
    c.connect();
    c.publish("news", vec![1], 1, 0);
    c.rpc("m", vec![], 2, 0);
    assert_eq!(c.disconnect(), Some(vec![1, 2]));
    let (batch, _) = c.take_publish_batch(0, 32);
    assert!(batch.is_empty());
}

#[test]
fn requests_are_queued_while_connecting() {
    let mut c = client();
    c.connect();
    assert_eq!(c.publish("news", vec![1], 1, 0), Vec::<u64>::new());
    assert_eq!(c.rpc("m", vec![2], 2, 100), Vec::<u64>::new());
    let (batch, expired) = c.take_publish_batch(100, 32);
    assert_eq!(batch.len(), 2);
    assert_eq!(batch[0].deadline, 2000);
    assert_eq!(batch[1].deadline, 2100);
    assert!(expired.is_empty());
    assert_eq!(c.publish("news", vec![1], 3, 0), Vec::<u64>::new());
    let (batch, expired) = c.take_publish_batch(5000, 32);
    assert!(batch.is_empty());
    assert_eq!(expired, vec![3]);
}

#[test]
fn connect_command_carries_credentials() {
    let c = client();
    match c.connect_command() {
        Command::Connect(req) => {
            assert_eq!(req.token, "tok");
            assert_eq!(req.name, "me");
            assert_eq!(req.version, "");
            assert!(req.subs.is_empty());
            assert!(req.data.is_empty());
        }
        other => panic!("unexpected {:?}", other),
    }
    let mut c = client();
    c.set_token("new");
    assert!(matches!(c.connect_command(), Command::Connect(r) if r.token == "new"));
}

#[test]
fn connect_failure_retries_unless_url_is_invalid() {
    let mut c = client();
    assert!(!c.connect_failed(false));
    c.connect();
    assert!(c.connect_failed(false));
    assert!(!c.connect_failed(true));
}

#[test]
fn resubscribe_list_on_connect() {
    let mut c = client();
    let a = c.new_subscription("news");
    let _b = c.new_subscription("sport");
    assert!(c.subscribe(a));
    c.connect();
    match c.attempt_finished(Ok(())) {
        CycleStep::Established(ids) => {
            assert_eq!(ids.len(), 1);
            assert_eq!(ids[0].as_u64(), a.as_u64());
        }
        other => panic!("unexpected {:?}", other),
    }
}

#[test]
fn publication_dispatch_to_subscribed_channel() {
    let mut c = client();
    let a = c.new_subscription("news");
    c.subscribe(a);
    c.subscribe_finished(a, true);
    let push = Reply::Push(Push {
        channel: "news".to_string(),
        data: PushData::Publication(Publication { data: vec![5], info: None, offset: 1, tags: HashMap::new() }),
    });
    let (id, p) = c.publication_for(push).unwrap();
    assert_eq!(id.as_u64(), a.as_u64());
    assert_eq!(p.data, vec![5]);
    let other = Reply::Push(Push {
        channel: "sport".to_string(),
        data: PushData::Publication(Publication { data: vec![5], info: None, offset: 1, tags: HashMap::new() }),
    });
    assert!(c.publication_for(other).is_none());
    assert!(c.publication_for(Reply::Empty).is_none());
}

#[test]
fn subscription_publish_through_client() {
    let mut c = client();
    let a = c.new_subscription("news");
    assert_eq!(c.subscription_publish(a, vec![1], 1, 0), Err(ReplyError::Closed));
    c.subscribe(a);
    assert_eq!(c.subscription_publish(a, vec![1], 1, 0), Ok(vec![]));
    let (batch, _) = c.take_subscription_batch(a, 0, 32).unwrap();
    assert_eq!(batch.len(), 1);
    assert!(c.unsubscribe(a));
    assert_eq!(c.remove_subscription(a), Ok(()));
}

#[test]
fn handshake_outcomes() {
    assert_eq!(handshake_outcome(Some(Ok(Reply::Connect(connect_result())))), HandshakeOutcome::Established);
    let temp = Error { code: 100, message: "internal".to_string(), temporary: true };
    assert_eq!(handshake_outcome(Some(Ok(Reply::Error(temp)))), HandshakeOutcome::Close(true));
    let perm = Error { code: 101, message: "unauthorized".to_string(), temporary: false };
    assert_eq!(handshake_outcome(Some(Ok(Reply::Error(perm)))), HandshakeOutcome::Close(false));
    assert_eq!(handshake_outcome(Some(Ok(Reply::Empty))), HandshakeOutcome::Close(false));
    assert_eq!(handshake_outcome(Some(Err(ReplyError::Timeout))), HandshakeOutcome::Close(true));
    assert_eq!(handshake_outcome(None), HandshakeOutcome::Close(true));
}

#[test]
fn subscription_sync_sends_subscribe_then_unsubscribe() {
    let mut subs = Subscriptions::new();
    let a = subs.new_subscription("news", 10);
    let mut sync = SubscriptionSync::new();
    assert!(matches!(sync.on_notified(&subs, a), SyncAction::Nothing));
    subs.subscribe(a);
    match sync.on_notified(&subs, a) {
        SyncAction::Subscribe(Command::Subscribe(r)) => {
            assert_eq!(r.channel, "news");
            assert_eq!(r.token, "");
            assert!(!r.recover);
        }
        other => panic!("unexpected {:?}", other),
    }
    assert!(matches!(sync.on_notified(&subs, a), SyncAction::Nothing));
    subs.unsubscribe(a);
    match sync.on_notified(&subs, a) {
        SyncAction::Unsubscribe(Command::Unsubscribe(r)) => assert_eq!(r.channel, "news"),
        other => panic!("unexpected {:?}", other),
    }
    assert!(matches!(sync.on_notified(&subs, a), SyncAction::Nothing));
}

#[test]
fn subscribe_answer_acceptance() {
    assert!(subscribe_accepted(&Some(Ok(Reply::Subscribe(subscribe_result())))));
    assert!(!subscribe_accepted(&Some(Ok(Reply::Empty))));
    assert!(!subscribe_accepted(&Some(Err(ReplyError::Closed))));
    assert!(!subscribe_accepted(&None));
}

#[test]
fn reply_routing() {
    assert_eq!(route_reply(0, &Reply::Empty), ReplyRoute::Ping);
    assert_eq!(route_reply(5, &Reply::Empty), ReplyRoute::Ping);
    assert_eq!(route_reply(0, &Reply::Connect(connect_result())), ReplyRoute::Push);
    assert_eq!(route_reply(9, &Reply::Connect(connect_result())), ReplyRoute::Reply(9));
    assert_eq!(unknown_reply_text(42), "unknown reply id=42");
}

#[test]
fn close_frames_decide_reconnect() {
    assert!(close_reconnects(None));
    assert!(close_reconnects(Some(3000)));
    assert!(!close_reconnects(Some(3501)));
    assert!(!close_reconnects(Some(4501)));
    assert!(close_reconnects(Some(4000)));
}

#[test]
fn request_ids_skip_zero() {
    let mut w = Writer::new();
    assert_eq!(w.next_id(), 1);
    assert_eq!(w.next_id(), 2);
}

#[test]
fn writer_batch_with_zero_timeout_drops_rest() {
    let mut w = Writer::new();
    let batch = vec![(ping(), 1000u64), (ping(), u64::MAX), (ping(), 0u64), (ping(), 1000u64)];
    let plan = w.accept_batch(batch);
    assert_eq!(plan.registered, vec![(1, true), (2, false)]);
    assert!(plan.timed_out);
    assert!(plan.send.is_none());
    let plan = w.accept_batch(vec![(ping(), 5u64)]);
    assert_eq!(plan.registered, vec![(3, true)]);
    assert!(!plan.timed_out);
    let sent = plan.send.unwrap();
    assert_eq!(sent.iter().map(|c| c.id).collect::<Vec<_>>(), vec![1, 2, 3]);
    assert!(sent.iter().all(|c| c.rpc.is_some()));
    let plan = w.accept_batch(vec![]);
    assert!(plan.send.is_none());
}

#[test]
fn pending_reply_is_taken_once() {
    let mut p: PendingReplies<&str> = PendingReplies::new();
    assert_eq!(p.register(1, "first"), None);
    assert_eq!(p.register(2, "second"), None);
    assert_eq!(p.len(), 2);
    assert_eq!(p.take(1), Some("first"));
    assert_eq!(p.take(1), None);
    assert_eq!(p.take(7), None);
    assert_eq!(p.len(), 1);
}

#[test]
fn pending_replies_drain_in_order_at_close() {
    let mut p: PendingReplies<u64> = PendingReplies::new();
    p.register(5, 50);
    p.register(3, 30);
    p.register(9, 90);
    assert_eq!(p.register(3, 31), Some(30));
    assert_eq!(p.take(9), Some(90));
    assert_eq!(p.drain(), vec![50, 31]);
    assert_eq!(p.len(), 0);
    assert_eq!(p.drain(), Vec::<u64>::new());
}

#[test]
fn durations_become_ticks_rounding_parts_up() {
    assert_eq!(ticks(Duration::ZERO), 0);
    assert_eq!(ticks(Duration::from_micros(500)), 1);
    assert_eq!(ticks(Duration::from_micros(1500)), 2);
    assert_eq!(ticks(Duration::from_secs(2)), 2000);
    assert_eq!(ticks(Duration::MAX), u64::MAX);
}

#[test]
fn sub_millisecond_read_timeout_keeps_requests_queued() {
    let config = Config::new().with_read_timeout(Duration::from_micros(500));
    let mut c = ClientInner::new("ws://localhost:8000/connection/websocket", config);
    assert_eq!(c.read_timeout_now(), 1);
    assert_eq!(c.publish("news", vec![1], 1, 0), Vec::<u64>::new());
    let (batch, expired) = c.take_publish_batch(0, 32);
    assert_eq!(batch.len(), 1);
    assert!(expired.is_empty());
}

struct Linear;

impl ReconnectStrategy for Linear {
    fn time_before_next_attempt(&self, attempt: u32) -> Duration {
        Duration::from_millis(100 * attempt as u64)
    }
}

#[test]
fn reconnect_delay_asks_the_strategy_after_the_first_attempt() {
    assert_eq!(reconnect_delay(&Linear, 0), Duration::ZERO);
    assert_eq!(reconnect_delay(&Linear, 1), Duration::from_millis(100));
    assert_eq!(reconnect_delay(&Linear, 3), Duration::from_millis(300));
}
