//! Client side: connection state, request queues and the decisions of a
//! client connection.

pub mod types;
pub mod errors;
pub mod inner;
pub mod handshake;
pub mod subscription_handler;
