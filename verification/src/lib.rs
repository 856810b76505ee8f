//! Verified core of a Centrifugo protocol client and server: error codes,
//! protocol messages, wire framing and the decision logic of client and
//! server sessions.

pub mod text;
pub mod errors;
pub mod protocol;
pub mod framing;
pub mod config;
pub mod server;
pub mod client;
pub mod client_handler;
pub mod subscription;
pub mod events;
