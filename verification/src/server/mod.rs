//! Server side: connection parameters, method and channel routes, and the
//! decisions of a client session.

pub mod types;
pub mod routes;
pub mod session;
