//! Plain forms of the QUIC control and session frames, and the length rules of their prefaces.

use crate::bytes::read_be;
use crate::error::{RelayError, RelayResult};
use vstd::prelude::*;

verus! {

/// Bytes of an HDQM frame before its payload.
pub const HDQM_HEADER_BYTES: usize = 27;

/// Bytes of an HDQS binding up to and with the session-name length.
pub const HDQS_PREFIX_BYTES: usize = 33;

/// Bytes of the fingerprint and the token that follow the session name of an HDQS binding.
pub const HDQS_AUTHORITY_BYTES: usize = 64;

/// Kinds of HDQM control frames.
#[derive(Debug, Clone, Copy, PartialEq, Eq, Structural)]
pub enum HdqmKind {
    /// Opening frame of a Core connection.
    DeviceHello,
    /// Answer to the opening frame.
    DeviceHelloAck,
    /// Asks for a session authority.
    SessionPrepare,
    /// Grants a session authority.
    SessionPrepareAck,
    /// Asks to activate a prepared session.
    SessionOpen,
    /// Confirms the activation.
    SessionOpened,
    /// Asks to end one session.
    SessionClose,
    /// Confirms the end of one session.
    SessionClosed,
    /// Renews session leases.
    Heartbeat,
    /// Reports a refused operation.
    ErrorResponse,
    /// Fences further session admission.
    GoAway,
    /// Asks for a software update.
    RelayUpdate,
    /// Announces that an update starts.
    RelayUpdateAccepted,
    /// Refuses an update.
    RelayUpdateRejected,
    /// Reports how an update ended.
    RelayUpdateStatus,
}

/// Reasons of a refused session operation.
#[derive(Debug, Clone, Copy, PartialEq, Eq, Structural)]
pub enum HdqsReason {
    /// No further session fits.
    CapacityExhausted,
    /// The upstream socket cannot be reached.
    SocketUnavailable,
    /// The connection is draining.
    ConnectionClosing,
    /// The session or its authority is unknown.
    SessionNotFound,
    /// The presented token is not the granted one.
    TokenMismatch,
    /// The frame is malformed.
    InvalidFrame,
}

/// One control frame as read from the wire.
pub struct HdqmFrame {
    /// Operation of the frame.
    pub kind: HdqmKind,
    /// Correlation identifier chosen by the sender.
    pub request_id: [u8; 16],
    /// Payload bytes.
    pub payload: Vec<u8>,
}

/// Answer to a session operation that names no granted authority.
#[derive(Debug, Clone, Copy, PartialEq, Eq, Structural)]
pub enum HdqsResponse {
    /// The session stream is bound.
    Accepted {
        /// Epoch of the connection.
        connection_epoch: u64,
    },
    /// The operation is refused.
    Rejected {
        /// Why it is refused.
        reason: HdqsReason,
        /// Epoch of the connection.
        connection_epoch: u64,
    },
}

impl HdqsResponse {
    /// Builds a refusal.
    pub fn rejected(reason: HdqsReason, connection_epoch: u64) -> (response: HdqsResponse)
        ensures
            response == (HdqsResponse::Rejected { reason, connection_epoch }),
    {
        HdqsResponse::Rejected { reason, connection_epoch }
    }
}

/// Decoded payload of a SESSION_PREPARE frame.
pub struct SessionPrepareRequest {
    /// Requested session.
    pub session: String,
    /// Fingerprint that the peer expects, or zeroes for any.
    pub expected_fingerprint: [u8; 32],
    /// Configuration generation of the peer.
    pub configuration_generation: u64,
}

/// A session authority as the registry granted it.
pub struct PreparedSession {
    /// Session of the authority.
    pub session: String,
    /// Session fingerprint.
    pub fingerprint: [u8; 32],
    /// Configuration generation of the peer.
    pub configuration_generation: u64,
    /// Startup generation of the Relay.
    pub relay_generation: u64,
    /// Epoch of the connection.
    pub connection_epoch: u64,
    /// Secret that binds the session stream.
    pub token: [u8; 32],
    /// Seconds for which the authority may be opened.
    pub token_ttl_secs: u64,
}

/// The payload length that an HDQM header announces.
pub open spec fn hdqm_payload_len(header: Seq<u8>) -> nat {
    crate::bytes::be_value(header.subrange(23, 27))
}

/// Reads the payload length out of an HDQM header and holds it to `limit`.
pub fn control_payload_len(header: &[u8; 27], limit: usize) -> (length: RelayResult<usize>)
    ensures
        hdqm_payload_len(header@) <= limit ==> length == Ok::<usize, RelayError>(
            hdqm_payload_len(header@) as usize,
        ),
        hdqm_payload_len(header@) > limit ==> length == Err::<usize, RelayError>(
            RelayError::QuicProtocol { reason: "control frame exceeds bound" },
        ),
{
    let announced: u64 = read_be(header, 23, 4);
    if announced > limit as u64 {
        return Err(RelayError::QuicProtocol { reason: "control frame exceeds bound" });
    }
    Ok(announced as usize)
}

/// Reads the session-name length out of an HDQS preface and gives the bytes that still follow.
pub fn hdqs_remainder_len(prefix: &[u8; 33], max_name_bytes: usize) -> (length: RelayResult<usize>)
    ensures
        0 < prefix@[32] <= max_name_bytes ==> length == Ok::<usize, RelayError>(
            (prefix@[32] + HDQS_AUTHORITY_BYTES) as usize,
        ),
        !(0 < prefix@[32] <= max_name_bytes) ==> length == Err::<usize, RelayError>(
            RelayError::QuicProtocol { reason: "HDQS session name length invalid" },
        ),
{
    let name_len: usize = prefix[32] as usize;
    if name_len == 0 || name_len > max_name_bytes {
        return Err(RelayError::QuicProtocol { reason: "HDQS session name length invalid" });
    }
    Ok(name_len + HDQS_AUTHORITY_BYTES)
}

/// The length of a payload stands in the last four bytes of the header, most significant first.
pub proof fn law_payload_length_ends_the_header(header: Seq<u8>)
    requires
        header.len() == 27,
    ensures
        hdqm_payload_len(header) == 16777216 * header[23] + 65536 * header[24] + 256 * header[25]
            + header[26],
{
    let field = header.subrange(23, 27);
    reveal_with_fuel(crate::bytes::be_value, 5);
    assert(field.drop_last().last() == header[25]);
    assert(field.drop_last().drop_last().last() == header[24]);
    assert(field.drop_last().drop_last().drop_last().last() == header[23]);
}

} // verus!
