use tokio_centrifuge::client::errors::{Delivery, RequestError, publish_outcome, rpc_outcome};
use tokio_centrifuge::client_handler::ReplyError;
use tokio_centrifuge::errors::{ClientError, ClientErrorCode, DisconnectErrorCode};
use tokio_centrifuge::protocol::{Error, PublishResult, Reply, RpcResult};

#[test]
fn client_error_codes_have_their_numbers() {
    assert_eq!(ClientErrorCode::internal().0, 100);
    assert_eq!(ClientErrorCode::unauthorized().0, 101);
    assert_eq!(ClientErrorCode::unknown_channel().0, 102);
    assert_eq!(ClientErrorCode::permission_denied().0, 103);
    assert_eq!(ClientErrorCode::method_not_found().0, 104);
    assert_eq!(ClientErrorCode::already_subscribed().0, 105);
    assert_eq!(ClientErrorCode::limit_exceeded().0, 106);
    assert_eq!(ClientErrorCode::bad_request().0, 107);
    assert_eq!(ClientErrorCode::not_available().0, 108);
    assert_eq!(ClientErrorCode::token_expired().0, 109);
    assert_eq!(ClientErrorCode::expired().0, 110);
    assert_eq!(ClientErrorCode::too_many_requests().0, 111);
    assert_eq!(ClientErrorCode::unrecoverable_position().0, 112);
}

#[test]
fn only_internal_and_too_many_requests_are_temporary() {
    for code in 0u16..200 {
        let expected = code == 100 || code == 111;
        assert_eq!(ClientErrorCode(code).is_temporary(), expected, "code {}", code);
    }
}

#[test]
fn client_error_code_texts() {
    assert_eq!(ClientErrorCode::internal().to_str(), "internal server error");
    assert_eq!(ClientErrorCode::method_not_found().to_str(), "method not found");
    assert_eq!(ClientErrorCode::unrecoverable_position().to_str(), "unrecoverable position");
    assert_eq!(ClientErrorCode(42).to_str(), "unknown code 42");
}

#[test]
fn disconnect_codes_have_their_numbers() {
    assert_eq!(DisconnectErrorCode::connection_closed().0, 3000);
    assert_eq!(DisconnectErrorCode::shutdown().0, 3001);
    assert_eq!(DisconnectErrorCode::server_error().0, 3004);
    assert_eq!(DisconnectErrorCode::no_pong().0, 3012);
    assert_eq!(DisconnectErrorCode::invalid_token().0, 3500);
    assert_eq!(DisconnectErrorCode::bad_request().0, 3501);
    assert_eq!(DisconnectErrorCode::stale().0, 3502);
    assert_eq!(DisconnectErrorCode::inappropriate_protocol().0, 3506);
    assert_eq!(DisconnectErrorCode::too_many_errors().0, 3509);
}

#[test]
fn reconnect_decision_by_code_range() {
    assert!(DisconnectErrorCode(3000).should_reconnect());
    assert!(DisconnectErrorCode(3499).should_reconnect());
    assert!(!DisconnectErrorCode(3500).should_reconnect());
    assert!(!DisconnectErrorCode(3999).should_reconnect());
    assert!(DisconnectErrorCode(4000).should_reconnect());
    assert!(DisconnectErrorCode(4499).should_reconnect());
    assert!(!DisconnectErrorCode(4500).should_reconnect());
    assert!(!DisconnectErrorCode(4999).should_reconnect());
    assert!(DisconnectErrorCode(5000).should_reconnect());
}

#[test]
fn disconnect_code_texts() {
    assert_eq!(DisconnectErrorCode::connection_closed().to_str(), "connection closed");
    assert_eq!(DisconnectErrorCode::force_no_reconnect().to_str(), "force disconnect");
    assert_eq!(DisconnectErrorCode(1234).to_str(), "unknown code 1234");
}

#[test]
fn client_error_constructors_keep_message() {
    let e = ClientError::method_not_found("no such method");
    assert_eq!(e.code.0, 104);
    assert_eq!(e.message, "no such method");
    let e = ClientError::from_code(ClientErrorCode::bad_request());
    assert_eq!(e.code.0, 107);
    assert_eq!(e.message, "bad request");
}

#[test]
fn code_conversions_round_trip() {
    let c: ClientErrorCode = 105u16.into();
    assert_eq!(c.0, 105);
    let n: u16 = c.into();
    assert_eq!(n, 105);
    let d: DisconnectErrorCode = 3012u16.into();
    let m: u16 = d.into();
    assert_eq!(m, 3012);
}

#[test]
fn protocol_error_from_client_error() {
    let e = Error::from_client_error(ClientError::too_many_requests("slow down"));
    assert_eq!(e.code, 111);
    assert_eq!(e.message, "slow down");
    assert!(e.temporary);
    let e = Error::from_code(ClientErrorCode::unauthorized());
    assert_eq!(e.code, 101);
    assert_eq!(e.message, "unauthorized");
    assert!(!e.temporary);
}

#[test]
fn publish_outcomes() {
    assert!(publish_outcome(Delivery::Replied(Ok(Reply::Publish(PublishResult {})))).is_ok());
    match publish_outcome(Delivery::Replied(Ok(Reply::Error(Error {
        code: 102,
        message: "unknown channel".to_string(),
        temporary: false,
    })))) {
        Err(RequestError::ErrorResponse(e)) => assert_eq!(e.code, 102),
        other => panic!("unexpected {:?}", other),
    }
    assert!(matches!(
        publish_outcome(Delivery::Replied(Ok(Reply::Empty))),
        Err(RequestError::UnexpectedReply(Reply::Empty))
    ));
    assert!(matches!(
        publish_outcome(Delivery::Replied(Err(ReplyError::Closed))),
        Err(RequestError::ReplyError(ReplyError::Closed))
    ));
    assert!(matches!(publish_outcome(Delivery::Dropped), Err(RequestError::Cancelled)));
    assert!(matches!(publish_outcome(Delivery::DeadlinePassed), Err(RequestError::Timeout)));
}

#[test]
fn rpc_outcomes() {
    let r = rpc_outcome(Delivery::Replied(Ok(Reply::Rpc(RpcResult { data: b"pong".to_vec() }))));
    assert_eq!(r.unwrap(), b"pong".to_vec());
    assert!(matches!(
        rpc_outcome(Delivery::Replied(Ok(Reply::Publish(PublishResult {})))),
        Err(RequestError::UnexpectedReply(_))
    ));
    assert!(matches!(
        rpc_outcome(Delivery::Replied(Err(ReplyError::Timeout))),
        Err(RequestError::ReplyError(ReplyError::Timeout))
    ));
}

#[test]
fn request_error_messages() {
    let e = RequestError::ErrorResponse(Error {
        code: 104,
        message: "method not found".to_string(),
        temporary: false,
    });
    assert_eq!(e.to_str(), "Server error: 104 method not found");
    assert_eq!(RequestError::UnexpectedReply(Reply::Empty).to_str(), "Unexpected reply from server");
    assert_eq!(
        RequestError::ReplyError(ReplyError::InappropriateProtocol).to_str(),
        "Reply processing error: inappropriate protocol"
    );
    assert_eq!(RequestError::Timeout.to_str(), "Request timed out: deadline has elapsed");
    assert_eq!(RequestError::Cancelled.to_str(), "Request was cancelled");
    assert_eq!(ReplyError::Timeout.to_str(), "request timed out");
    assert_eq!(ReplyError::Closed.to_str(), "connection closed");
}

#[test]
fn protocol_error_from_conversions() {
    let e: Error = ClientError::too_many_requests("slow down").into();
    assert_eq!(e.code, 111);
    assert_eq!(e.message, "slow down");
    assert!(e.temporary);
    let e: Error = Error::from(ClientErrorCode::unauthorized());
    assert_eq!(e.code, 101);
    assert_eq!(e.message, "unauthorized");
    assert!(!e.temporary);
    let e: Error = ClientErrorCode::internal().into();
    assert_eq!(e.code, 100);
    assert!(e.temporary);
}
