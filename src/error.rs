//! The single error taxonomy that every operation of the client reports.
use vstd::prelude::*;

verus! {

/// Declares `serde_json::Error` so that decode failures can be carried as they came.
#[verifier::external_type_specification]
#[verifier::external_body]
pub struct ExJsonError(serde_json::Error);

/// A failure reported by the API server itself.
#[derive(Clone, Debug, PartialEq, Eq)]
pub struct ErrorResponse {
    /// The status text of the failure.
    pub status: String,
    /// The numeric HTTP code.
    pub code: u16,
    /// A human readable message.
    pub message: String,
    /// A machine readable reason.
    pub reason: String,
}

/// How a read of a streaming body failed.
#[derive(Clone, Copy, Debug, PartialEq, Eq, Structural)]
pub enum IoKind {
    /// The client gave up waiting.
    TimedOut,
    /// The stream ended in the middle of a transfer chunk.
    UnexpectedEof,
    /// Any other input/output failure.
    Other,
}

/// A failed read of a streaming body, with its description.
#[derive(Clone, Debug, PartialEq, Eq)]
pub struct ReadFailure {
    pub kind: IoKind,
    pub message: String,
}

/// Why a connection upgrade did not happen.
#[derive(Clone, Debug, PartialEq, Eq)]
pub enum UpgradeConnectionError {
    /// The server answered with a status other than 101 Switching Protocols.
    ProtocolSwitch(u16),
    /// The `Upgrade: websocket` header is missing from the handshake response.
    MissingUpgradeWebSocketHeader,
    /// The `Connection: Upgrade` header is missing from the handshake response.
    MissingConnectionUpgradeHeader,
    /// The `Sec-WebSocket-Accept` value does not match the key that was sent.
    SecWebSocketAcceptKeyMismatch,
    /// The handshake was accepted but the upgraded stream could not be obtained.
    GetPendingUpgrade(String),
}

/// Every failure of the client.
#[derive(Debug)]
pub enum ClientError {
    /// A structured failure reported by the server.
    Api(ErrorResponse),
    /// The transport failed below the HTTP layer.
    HyperError(String),
    /// A service layer failed without a structured error.
    Service(String),
    /// The request could not be built.
    HttpError(String),
    /// A body was not valid UTF-8.
    FromUtf8,
    /// A body did not have the expected JSON shape; `text` is the body, for diagnostics.
    SerdeError { error: serde_json::Error, text: String },
    /// Reading a streaming body failed.
    ReadEvents(ReadFailure),
    /// A line of a streaming body went past the configured length bound.
    LinesCodecMaxLineLengthExceeded,
    /// The connection upgrade failed.
    UpgradeConnection(UpgradeConnectionError),
}

} // verus!
