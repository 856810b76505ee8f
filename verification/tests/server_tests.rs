use std::collections::HashMap;
use std::time::Duration;
use tokio_centrifuge::config::Protocol;
use tokio_centrifuge::errors::{ClientError, DisconnectErrorCode};
use tokio_centrifuge::protocol::{
    Command, ConnectRequest, PingRequest, PublishRequest, Reply, RpcRequest, SubscribeRequest,
    UnsubscribeRequest,
};
use tokio_centrifuge::server::routes::{route_param_count, RouteError, ServerRoutes, MAX_ROUTE_PARAMS};
use tokio_centrifuge::server::session::{
    batch_close_code, collect_replies, ServerSession, SessionAction, SessionState,
};
use tokio_centrifuge::server::types::{ClientId, ServeParams};

fn subscribe(channel: &str) -> Command {
    Command::Subscribe(SubscribeRequest {
        channel: channel.to_string(),
        token: String::new(),
        recover: false,
        epoch: String::new(),
        offset: 0,
        data: vec![],
        positioned: false,
        recoverable: false,
        join_leave: false,
    })
}

fn connect() -> Command {
    Command::Connect(ConnectRequest {
        token: "t0k".to_string(),
        data: vec![1],
        subs: HashMap::new(),
        name: "cli".to_string(),
        version: "1.0".to_string(),
    })
}

fn routes() -> ServerRoutes {
    let mut r = ServerRoutes::new();
    r.add_rpc_method("echo", 0).unwrap();
    r.add_rpc_method("hello/{name}", 1).unwrap();
    r.add_channel("news", 2).unwrap();
    r.on_publication("news", 3).unwrap();
    r
}

fn connected_session() -> ServerSession {
    let params = ServeParams::json().with_client_id(ClientId(0x0123_4567_89ab_cdef_0123_4567_89ab_cdef));
    let mut s = ServerSession::new(params);
    let r = routes();
    match s.process_command(1, connect(), &r) {
        SessionAction::Authenticate { id, ctx } => {
            assert_eq!(id, 1);
            assert_eq!(ctx.token, "t0k");
            assert_eq!(ctx.client_name, "cli");
            assert_eq!(ctx.client_version, "1.0");
            assert_eq!(ctx.data, vec![1]);
        }
        other => panic!("unexpected {:?}", other),
    }
    match s.finish_connect(1, Ok(())) {
        SessionAction::Send(1, Reply::Connect(res)) => {
            assert_eq!(res.client, "01234567-89ab-cdef-0123-456789abcdef");
            assert_eq!(res.ping, 25);
            assert!(res.pong);
        }
        other => panic!("unexpected {:?}", other),
    }
    assert_eq!(s.state(), SessionState::Connected);
    s
}

#[test]
fn serve_params_defaults() {
    let p = ServeParams::json();
    assert_eq!(p.encoding, Protocol::Json);
    assert_eq!(p.ping_interval, Some(Duration::from_secs(25)));
    assert_eq!(p.pong_timeout, Some(Duration::from_secs(10)));
    assert!(p.client_id.is_none());
    let q = ServeParams::protobuf().without_ping();
    assert_eq!(q.encoding, Protocol::Protobuf);
    assert!(q.ping_interval.is_none() && q.pong_timeout.is_none());
    let r: ServeParams = Protocol::Protobuf.into();
    assert_eq!(r.encoding, Protocol::Protobuf);
}

#[test]
fn client_id_text_is_hyphenated_uuid() {
    let id = ClientId(0xffff_0000_0000_0000_0000_0000_0000_0001);
    assert_eq!(id.to_text(), "ffff0000-0000-0000-0000-000000000001");
    assert_ne!(ClientId::new(), ClientId::new());
}

#[test]
fn new_client_ids_are_version_4_uuids() {
    for _ in 0..16 {
        let text = ClientId::new().to_text();
        let chars: Vec<char> = text.chars().collect();
        assert_eq!(chars.len(), 36);
        assert_eq!(chars[14], '4');
        assert!("89ab".contains(chars[19]), "{}", text);
    }
}

#[test]
fn routes_match_static_and_parametric_paths() {
    let r = routes();
    let m = r.find_rpc_method("echo").unwrap();
    assert_eq!(m.handler, 0);
    assert!(m.params.is_empty());
    let m = r.find_rpc_method("hello/world").unwrap();
    assert_eq!(m.handler, 1);
    assert_eq!(m.params, vec![("name".to_string(), "world".to_string())]);
    assert!(r.find_rpc_method("nope").is_none());
    assert_eq!(r.find_channel("news").unwrap().handler, 2);
    assert_eq!(r.find_publication("news").unwrap().handler, 3);
}

#[test]
fn duplicate_route_is_refused() {
    let mut r = routes();
    assert!(matches!(r.add_rpc_method("echo", 9), Err(RouteError::Conflict { .. })));
    assert_eq!(r.find_rpc_method("echo").unwrap().handler, 0);
}

#[test]
fn command_before_connect_closes_as_bad_request() {
    let mut s = ServerSession::new(ServeParams::json().with_client_id(ClientId(1)));
    match s.process_command(1, Command::Ping(PingRequest {}), &routes()) {
        SessionAction::Close(code) => assert_eq!(code.0, 3501),
        other => panic!("unexpected {:?}", other),
    }
    assert_eq!(s.state(), SessionState::Initial);
}

#[test]
fn refused_connect_closes_with_handler_code() {
    let mut s = ServerSession::new(ServeParams::json().with_client_id(ClientId(1)));
    let _ = s.process_command(1, connect(), &routes());
    match s.finish_connect(1, Err(DisconnectErrorCode::invalid_token())) {
        SessionAction::Close(code) => assert_eq!(code.0, 3500),
        other => panic!("unexpected {:?}", other),
    }
    assert_eq!(s.state(), SessionState::Initial);
}

#[test]
fn second_connect_closes() {
    let mut s = connected_session();
    assert!(matches!(s.process_command(2, connect(), &routes()), SessionAction::Close(c) if c.0 == 3501));
}

#[test]
fn rpc_is_routed_with_params() {
    let mut s = connected_session();
    let cmd = Command::Rpc(RpcRequest { data: b"x".to_vec(), method: "hello/bob".to_string() });
    match s.process_command(5, cmd, &routes()) {
        SessionAction::CallRpc { id, handler, params, data } => {
            assert_eq!((id, handler), (5, 1));
            assert_eq!(params, vec![("name".to_string(), "bob".to_string())]);
            assert_eq!(data, b"x".to_vec());
        }
        other => panic!("unexpected {:?}", other),
    }
    let (id, reply) = ServerSession::rpc_finished(5, Ok(b"Hello, bob!".to_vec()));
    assert_eq!(id, 5);
    assert!(matches!(reply, Reply::Rpc(r) if r.data == b"Hello, bob!".to_vec()));
}

#[test]
fn unknown_rpc_method_is_answered_method_not_found() {
    let mut s = connected_session();
    let cmd = Command::Rpc(RpcRequest { data: vec![], method: "missing".to_string() });
    match s.process_command(6, cmd, &routes()) {
        SessionAction::Send(6, Reply::Error(e)) => {
            assert_eq!(e.code, 104);
            assert_eq!(e.message, "method not found");
            assert!(!e.temporary);
        }
        other => panic!("unexpected {:?}", other),
    }
}

#[test]
fn publish_to_unknown_channel_is_answered_unknown_channel() {
    let mut s = connected_session();
    let cmd = Command::Publish(PublishRequest { channel: "other".to_string(), data: vec![] });
    assert!(matches!(s.process_command(7, cmd, &routes()), SessionAction::Send(7, Reply::Error(e)) if e.code == 102));
    let cmd = Command::Publish(PublishRequest { channel: "news".to_string(), data: vec![9] });
    assert!(matches!(s.process_command(8, cmd, &routes()), SessionAction::CallPublish { id: 8, handler: 3, .. }));
    let (_, reply) = ServerSession::publish_finished(8, Err(ClientError::permission_denied("no")));
    assert!(matches!(reply, Reply::Error(e) if e.code == 103 && e.message == "no"));
}

#[test]
fn subscribe_twice_is_already_subscribed_and_unsubscribe_undoes() {
    let mut s = connected_session();
    let r = routes();
    assert!(matches!(
        s.process_command(3, subscribe("news"), &r),
        SessionAction::StartSubscription { id: 3, handler: 2, .. }
    ));
    assert!(matches!(s.process_command(4, subscribe("news"), &r), SessionAction::Send(4, Reply::Error(e)) if e.code == 105));
    match s.process_command(5, Command::Unsubscribe(UnsubscribeRequest { channel: "news".to_string() }), &r) {
        SessionAction::Unsubscribe { id, cancel, reply } => {
            assert_eq!(id, 5);
            assert_eq!(cancel, Some("news".to_string()));
            assert!(matches!(reply, Reply::Unsubscribe(_)));
        }
        other => panic!("unexpected {:?}", other),
    }
    assert!(matches!(s.process_command(6, subscribe("news"), &r), SessionAction::StartSubscription { .. }));
}

#[test]
fn subscribe_to_unknown_channel_and_unsubscribe_unknown() {
    let mut s = connected_session();
    let r = routes();
    assert!(matches!(s.process_command(3, subscribe("weather"), &r), SessionAction::Send(3, Reply::Error(e)) if e.code == 102));
    assert!(matches!(
        s.process_command(4, Command::Unsubscribe(UnsubscribeRequest { channel: "weather".to_string() }), &r),
        SessionAction::Unsubscribe { id: 4, cancel: None, .. }
    ));
}

#[test]
fn other_commands_are_not_available() {
    let mut s = connected_session();
    assert!(matches!(
        s.process_command(9, Command::Ping(PingRequest {}), &routes()),
        SessionAction::Send(9, Reply::Error(e)) if e.code == 108
    ));
}

#[test]
fn ping_pong_and_timers() {
    let s = ServerSession::new(ServeParams::json().with_client_id(ClientId(2)));
    assert!(s.ping().is_none());
    assert_eq!(s.pong_timeout_code().0, 3502);
    assert!(s.frame_effect(&connect()).restart_timers);
    assert!(s.disconnect_context().is_none());
    let c = connected_session();
    assert!(matches!(c.ping(), Some((0, Reply::Empty))));
    assert_eq!(c.pong_timeout_code().0, 3012);
    let e = c.frame_effect(&Command::Empty);
    assert!(e.restart_timers && !e.process);
    let e = c.frame_effect(&connect());
    assert!(!e.restart_timers && e.process);
    assert!(c.disconnect_context().is_some());
    assert!(c.takes_permit(&subscribe("x")));
    assert!(!c.takes_permit(&Command::Empty));
}

#[test]
fn writer_batch_stops_at_close_request() {
    let items = vec![
        Ok((1u32, Reply::Empty)),
        Err(DisconnectErrorCode::shutdown()),
        Ok((2u32, Reply::Empty)),
    ];
    let (replies, code) = collect_replies(items);
    assert_eq!(replies.len(), 1);
    assert_eq!(replies[0].id, 1);
    assert_eq!(code.unwrap().0, 3001);
    assert_eq!(batch_close_code(None, true).unwrap().0, 3506);
    assert!(batch_close_code(None, false).is_none());
}

#[test]
fn route_parameters_are_counted_without_escapes_or_catch_all() {
    assert_eq!(route_param_count("a/{b}/{{c}}/{*d}"), 1);
    assert_eq!(route_param_count("users/{id}/posts/{post}"), 2);
    assert_eq!(route_param_count("static/path"), 0);
}

#[test]
fn routes_with_the_most_parameters_are_accepted() {
    let mut route = String::new();
    for i in 0..MAX_ROUTE_PARAMS {
        route.push_str(&format!("/{{p{}}}", i));
    }
    assert_eq!(route_param_count(&route), 25);
    let mut r = ServerRoutes::new();
    assert_eq!(r.add_rpc_method(&route, 0), Ok(()));
    route.push_str("/{last}");
    assert_eq!(route_param_count(&route), 26);
}
