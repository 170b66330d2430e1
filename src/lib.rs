//! Request-dispatch and response-interpretation core of a client for a
//! resource-oriented HTTP API server: error classification, response decoding,
//! watch-stream decoding and connection-upgrade negotiation.
pub mod api_error;
pub mod client;
pub mod discovery;
pub mod error;
pub mod response;
pub mod status;
pub mod text;
pub mod upgrade;
pub mod watch;
