//! Negotiation of a bidirectional-streaming connection upgrade.
use vstd::prelude::*;
use vstd::string::StringExecFns;

use crate::error::UpgradeConnectionError;
use crate::text::{eq_ignore_ascii_case, same_text, spec_eq_ignore_ascii_case};

verus! {

/// The status of a response that switches protocols.
pub const SWITCHING_PROTOCOLS: u16 = 101;

/// The value `tungstenite` derives from a handshake key as the expected accept value.
pub uninterp spec fn accept_key_of(key: Seq<char>) -> Seq<char>;

/// A character of the padded standard base64 alphabet.
pub open spec fn is_base64_char(c: char) -> bool {
    ('A' <= c && c <= 'Z') || ('a' <= c && c <= 'z') || ('0' <= c && c <= '9') || c == '+' || c
        == '/' || c == '='
}

/// Relies on `tungstenite::handshake::client::generate_key`: a fresh random key, the
/// padded base64 form of 16 bytes, which is 24 characters of the base64 alphabet.
#[verifier::external_body]
fn generate_key() -> (r: String)
    ensures
        r@.len() == 24,
        forall|i: int| 0 <= i < 24 ==> is_base64_char(#[trigger] r@[i]),
{
    tokio_tungstenite::tungstenite::handshake::client::generate_key()
}

/// Relies on `tungstenite::handshake::derive_accept_key`: the accept value that a
/// server must echo for the key.
#[verifier::external_body]
fn derive_accept_key(key: &str) -> (r: String)
    ensures
        r@ == accept_key_of(key@),
{
    tokio_tungstenite::tungstenite::handshake::derive_accept_key(key.as_bytes())
}

/// The sub-protocols of the stream that this client can speak.
#[derive(Clone, Copy, Debug, PartialEq, Eq, Structural)]
pub enum StreamProtocol {
    /// Version 4 of the channel protocol.
    V4,
    /// Version 5 of the channel protocol, which can signal that a stream is closed.
    V5,
}

impl StreamProtocol {
    /// The name under which the protocol is negotiated.
    pub open spec fn spec_name(self) -> Seq<char> {
        match self {
            StreamProtocol::V4 => "v4.channel.k8s.io"@,
            StreamProtocol::V5 => "v5.channel.k8s.io"@,
        }
    }

    /// The name under which the protocol is negotiated.
    pub fn as_str(&self) -> (r: &'static str)
        ensures
            r@ == self.spec_name(),
    {
        proof {
            reveal_strlit("v4.channel.k8s.io");
            reveal_strlit("v5.channel.k8s.io");
        }
        match self {
            StreamProtocol::V4 => "v4.channel.k8s.io",
            StreamProtocol::V5 => "v5.channel.k8s.io",
        }
    }

    /// Whether the protocol can signal that one direction of the stream is closed.
    pub open spec fn spec_supports_stream_close(self) -> bool {
        self == StreamProtocol::V5
    }

    /// Whether the protocol can signal that one direction of the stream is closed.
    pub fn supports_stream_close(&self) -> (r: bool)
        ensures
            r == self.spec_supports_stream_close(),
    {
        match self {
            StreamProtocol::V4 => false,
            StreamProtocol::V5 => true,
        }
    }
}

/// The value of the sub-protocol header: the supported protocols, most preferred first.
pub open spec fn spec_protocols_header() -> Seq<char> {
    StreamProtocol::V5.spec_name() + ", "@ + StreamProtocol::V4.spec_name()
}

/// Builds the value of the sub-protocol header that the handshake offers.
pub fn protocols_header() -> (r: String)
    ensures
        r@ == spec_protocols_header(),
{
    proof {
        reveal_strlit(", ");
    }
    let v5 = StreamProtocol::V5;
    let v4 = StreamProtocol::V4;
    String::from_str(v5.as_str()).concat(", ").concat(v4.as_str())
}

/// The protocol that a response's sub-protocol header selects: the one it names, or
/// version 4 where it names none that is known.
pub open spec fn spec_protocol_from_header(value: Option<Seq<char>>) -> StreamProtocol {
    match value {
        Some(v) => if v == StreamProtocol::V5.spec_name() {
            StreamProtocol::V5
        } else {
            StreamProtocol::V4
        },
        None => StreamProtocol::V4,
    }
}

/// Selects the protocol from the sub-protocol header of a handshake response.
pub fn protocol_from_header(value: Option<&str>) -> (r: StreamProtocol)
    ensures
        r == spec_protocol_from_header(
            match value {
                Some(v) => Some(v@),
                None => None,
            },
        ),
{
    match value {
        Some(v) => {
            let v5 = StreamProtocol::V5;
            if same_text(v, v5.as_str()) {
                StreamProtocol::V5
            } else {
                StreamProtocol::V4
            }
        },
        None => StreamProtocol::V4,
    }
}

/// The view of an optional header value.
pub open spec fn opt_view(value: Option<&str>) -> Option<Seq<char>> {
    match value {
        Some(v) => Some(v@),
        None => None,
    }
}

/// A header is present and equal to `expected` up to ASCII case.
pub open spec fn header_is(value: Option<Seq<char>>, expected: Seq<char>) -> bool {
    match value {
        Some(v) => spec_eq_ignore_ascii_case(v, expected),
        None => false,
    }
}

/// The outcome of checking a handshake response against the accept value expected.
pub open spec fn spec_handshake(
    status: u16,
    upgrade: Option<Seq<char>>,
    connection: Option<Seq<char>>,
    accept: Option<Seq<char>>,
    protocol: Option<Seq<char>>,
    expected_accept: Seq<char>,
) -> Result<StreamProtocol, UpgradeConnectionError> {
    if status != SWITCHING_PROTOCOLS {
        Err(UpgradeConnectionError::ProtocolSwitch(status))
    } else if !header_is(upgrade, "websocket"@) {
        Err(UpgradeConnectionError::MissingUpgradeWebSocketHeader)
    } else if !header_is(connection, "upgrade"@) {
        Err(UpgradeConnectionError::MissingConnectionUpgradeHeader)
    } else if accept != Some(expected_accept) {
        Err(UpgradeConnectionError::SecWebSocketAcceptKeyMismatch)
    } else {
        Ok(spec_protocol_from_header(protocol))
    }
}

fn header_matches(value: Option<&str>, expected: &str) -> (r: bool)
    ensures
        r == header_is(opt_view(value), expected@),
{
    match value {
        Some(v) => eq_ignore_ascii_case(v, expected),
        None => false,
    }
}

/// Checks a handshake response, given its status and the values of its `Upgrade`,
/// `Connection`, `Sec-WebSocket-Accept` and `Sec-WebSocket-Protocol` headers, against
/// the accept value that the key sent calls for; selects the negotiated protocol.
pub fn verify_handshake(
    status: u16,
    upgrade: Option<&str>,
    connection: Option<&str>,
    accept: Option<&str>,
    protocol: Option<&str>,
    expected_accept: &str,
) -> (r: Result<StreamProtocol, UpgradeConnectionError>)
    ensures
        r == spec_handshake(
            status,
            opt_view(upgrade),
            opt_view(connection),
            opt_view(accept),
            opt_view(protocol),
            expected_accept@,
        ),
{
    proof {
        reveal_strlit("websocket");
        reveal_strlit("upgrade");
    }
    if status != SWITCHING_PROTOCOLS {
        return Err(UpgradeConnectionError::ProtocolSwitch(status));
    }
    if !header_matches(upgrade, "websocket") {
        return Err(UpgradeConnectionError::MissingUpgradeWebSocketHeader);
    }
    if !header_matches(connection, "upgrade") {
        return Err(UpgradeConnectionError::MissingConnectionUpgradeHeader);
    }
    let accepted = match accept {
        Some(a) => same_text(a, expected_accept),
        None => false,
    };
    if !accepted {
        return Err(UpgradeConnectionError::SecWebSocketAcceptKeyMismatch);
    }
    Ok(protocol_from_header(protocol))
}

/// The headers that turn a request into an upgrade handshake with `key`.
pub open spec fn spec_handshake_headers(key: Seq<char>) -> Seq<(Seq<char>, Seq<char>)> {
    seq![
        ("connection"@, "Upgrade"@),
        ("upgrade"@, "websocket"@),
        ("sec-websocket-version"@, "13"@),
        ("sec-websocket-key"@, key),
        ("sec-websocket-protocol"@, spec_protocols_header()),
    ]
}

/// The names and values of a list of headers, as text.
pub open spec fn header_views(h: Seq<(String, String)>) -> Seq<(Seq<char>, Seq<char>)> {
    h.map_values(|p: (String, String)| (p.0@, p.1@))
}

/// The headers, names and values, that turn a request into a handshake with `key`.
pub fn handshake_headers(key: &str) -> (r: Vec<(String, String)>)
    ensures
        header_views(r@) == spec_handshake_headers(key@),
{
    proof {
        reveal_strlit("connection");
        reveal_strlit("Upgrade");
        reveal_strlit("upgrade");
        reveal_strlit("websocket");
        reveal_strlit("sec-websocket-version");
        reveal_strlit("13");
        reveal_strlit("sec-websocket-key");
        reveal_strlit("sec-websocket-protocol");
    }
    let r = vec![
        (String::from_str("connection"), String::from_str("Upgrade")),
        (String::from_str("upgrade"), String::from_str("websocket")),
        (String::from_str("sec-websocket-version"), String::from_str("13")),
        (String::from_str("sec-websocket-key"), String::from_str(key)),
        (String::from_str("sec-websocket-protocol"), protocols_header()),
    ];
    assert(header_views(r@) =~= spec_handshake_headers(key@));
    r
}

/// Draws a fresh handshake key and builds the headers of a handshake with it.
pub fn new_handshake() -> (r: (String, Vec<(String, String)>))
    ensures
        r.0@.len() == 24,
        forall|i: int| 0 <= i < 24 ==> is_base64_char(#[trigger] r.0@[i]),
        header_views(r.1@) == spec_handshake_headers(r.0@),
{
    let key = generate_key();
    let headers = handshake_headers(&key);
    (key, headers)
}

/// Checks a handshake response against the key that the request sent.
pub fn verify_response(
    status: u16,
    upgrade: Option<&str>,
    connection: Option<&str>,
    accept: Option<&str>,
    protocol: Option<&str>,
    key: &str,
) -> (r: Result<StreamProtocol, UpgradeConnectionError>)
    ensures
        r == spec_handshake(
            status,
            opt_view(upgrade),
            opt_view(connection),
            opt_view(accept),
            opt_view(protocol),
            accept_key_of(key@),
        ),
{
    let expected = derive_accept_key(key);
    verify_handshake(status, upgrade, connection, accept, protocol, &expected)
}

/// A negotiated bidirectional stream and the sub-protocol it speaks.
pub struct Connection<S> {
    stream: S,
    protocol: StreamProtocol,
}

impl<S> Connection<S> {
    /// The stream that the connection carries.
    pub closed spec fn spec_stream(&self) -> S {
        self.stream
    }

    /// The sub-protocol that was negotiated.
    pub closed spec fn spec_protocol(&self) -> StreamProtocol {
        self.protocol
    }

    /// Pairs an upgraded stream with the sub-protocol that was negotiated for it.
    pub fn new(stream: S, protocol: StreamProtocol) -> (r: Self)
        ensures
            r.spec_stream() == stream,
            r.spec_protocol() == protocol,
    {
        Connection { stream, protocol }
    }

    /// The sub-protocol that was negotiated.
    pub fn protocol(&self) -> (r: StreamProtocol)
        ensures
            r == self.spec_protocol(),
    {
        self.protocol
    }

    /// Whether the stream supports graceful close signalling.
    pub fn supports_stream_close(&self) -> (r: bool)
        ensures
            r == self.spec_protocol().spec_supports_stream_close(),
    {
        self.protocol.supports_stream_close()
    }

    /// Gives up the connection for the raw stream.
    pub fn into_stream(self) -> (r: S)
        ensures
            r == self.spec_stream(),
    {
        self.stream
    }
}

/// Handshake validation: a response that does not echo the accept value derived from
/// the key fails; one that echoes it but names a sub-protocol that was not offered
/// still succeeds, with the default protocol, which cannot signal a closed stream.
pub proof fn lemma_handshake_validation(
    upgrade: Seq<char>,
    connection: Seq<char>,
    accept: Option<Seq<char>>,
    protocol: Seq<char>,
    key: Seq<char>,
)
    requires
        spec_eq_ignore_ascii_case(upgrade, "websocket"@),
        spec_eq_ignore_ascii_case(connection, "upgrade"@),
    ensures
        accept != Some(accept_key_of(key)) ==> spec_handshake(
            SWITCHING_PROTOCOLS,
            Some(upgrade),
            Some(connection),
            accept,
            Some(protocol),
            accept_key_of(key),
        ) == Err::<StreamProtocol, UpgradeConnectionError>(
            UpgradeConnectionError::SecWebSocketAcceptKeyMismatch,
        ),
        accept == Some(accept_key_of(key)) && protocol != StreamProtocol::V4.spec_name()
            && protocol != StreamProtocol::V5.spec_name() ==> spec_handshake(
            SWITCHING_PROTOCOLS,
            Some(upgrade),
            Some(connection),
            accept,
            Some(protocol),
            accept_key_of(key),
        ) == Ok::<StreamProtocol, UpgradeConnectionError>(StreamProtocol::V4)
            && !StreamProtocol::V4.spec_supports_stream_close(),
{
}

} // verus!
