//! Handling of one typed control frame on an admitted connection.

use crate::bytes::{copy_32, is_all_zero, read_be, same_bytes};
use crate::error::RelayError;
use crate::quic_wire::{
    HdqmFrame, HdqmKind, HdqsReason, HdqsResponse, PreparedSession, SessionPrepareRequest,
};
use crate::random::random_32;
use vstd::prelude::*;

verus! {

/// Bytes of one heartbeat entry: a handle and a token.
pub const HEARTBEAT_ENTRY_BYTES: usize = 34;

/// Most entries of one heartbeat.
pub const MAX_HEARTBEAT_ENTRIES: usize = 64;

/// One lease renewal of a heartbeat.
pub struct HeartbeatEntry {
    /// Handle of the active session.
    pub handle: u16,
    /// Token of the active session.
    pub token: [u8; 32],
}

/// Payload of a control reply before it is written on the wire.
pub enum ReplyBody {
    /// No payload.
    Empty,
    /// One status byte.
    Status(u8),
    /// A session response.
    Response(HdqsResponse),
    /// A granted authority.
    Prepared(PreparedSession),
    /// An activated session.
    Opened {
        /// Handle of the active session.
        handle: u16,
        /// Authority of the active session.
        session: PreparedSession,
    },
}

/// One control reply.
pub struct ControlReply {
    /// Kind of the reply frame.
    pub kind: HdqmKind,
    /// Correlation identifier of the answered frame.
    pub request_id: [u8; 16],
    /// Payload of the reply frame.
    pub body: ReplyBody,
    /// Reported when the payload cannot be encoded.
    pub encoding_failure: &'static str,
}

/// What follows once a reply has been written.
#[derive(Debug, Clone, Copy, PartialEq, Eq, Structural)]
pub enum AfterReply {
    /// The connection stays open for the next frame.
    KeepOpen,
    /// The connection is closed.
    Close,
    /// The announced update runs.
    RunUpdate,
}

/// What has to be done next for one control frame.
pub enum ControlStep {
    /// Reload the allowlist and ask whether the peer may use the Relay.
    CheckAllowlist,
    /// Decode the payload of a SESSION_PREPARE frame.
    DecodePrepare,
    /// Decode the payload of a SESSION_OPEN frame.
    DecodeOpen,
    /// Ask the registry for an authority.
    Prepare {
        /// Requested session.
        session: String,
        /// Fingerprint of the authority.
        fingerprint: [u8; 32],
        /// Configuration generation of the peer.
        configuration_generation: u64,
        /// Secret of the authority.
        token: [u8; 32],
    },
    /// Ask the registry to activate the decoded request.
    Open,
    /// Close one session and cancel its bridge.
    CloseSession {
        /// Handle of the session.
        handle: u16,
    },
    /// Ask the registry to renew every listed lease.
    Renew {
        /// The listed leases.
        entries: Vec<HeartbeatEntry>,
    },
    /// Reload the allowlist and ask whether the peer may update the Relay.
    AuthorizeUpdate,
    /// Write a reply.
    Reply {
        /// The reply.
        reply: ControlReply,
        /// What follows the reply.
        then: AfterReply,
    },
    /// Close the connection without an answer.
    Stop,
    /// End the connection with a failure.
    Fail(RelayError),
}

/// Answer of the allowlist to an admission or update question.
#[derive(Debug, Clone, Copy, PartialEq, Eq)]
pub enum AllowlistAnswer {
    /// The protected allowlist could not be reloaded.
    Unreadable(RelayError),
    /// The peer is not allowed.
    Denied,
    /// The peer is allowed.
    Allowed,
}

/// Answer of the registry to a prepare call.
pub enum PrepareAnswer {
    /// The authority was granted.
    Prepared(PreparedSession),
    /// The authority was refused.
    Refused(RelayError),
}

/// Answer of the registry to an open call.
pub enum OpenAnswer {
    /// The session is active.
    Opened {
        /// Handle of the active session.
        handle: u16,
        /// Authority of the active session.
        session: PreparedSession,
    },
    /// The session was refused.
    Refused(HdqsResponse),
}

/// How an update run ended.
#[derive(Debug, Clone, Copy, PartialEq, Eq, Structural)]
pub enum UpdateAnswer {
    /// The worker did not report.
    WorkerLost,
    /// The update failed.
    Failed,
    /// The update is installed.
    Installed,
}

/// The frame asks for a new session.
pub open spec fn admits_session(kind: HdqmKind) -> bool {
    kind == HdqmKind::SessionPrepare || kind == HdqmKind::SessionOpen
}

/// The step writes `body` as a frame of `kind` in answer to `frame`, and goes on with `then`.
///
/// `failure` is reported if the body cannot be encoded.
pub open spec fn replies(
    step: ControlStep,
    frame: HdqmFrame,
    kind: HdqmKind,
    body: ReplyBody,
    failure: &'static str,
    then: AfterReply,
) -> bool {
    step == (ControlStep::Reply {
        reply: ControlReply {
            kind,
            request_id: frame.request_id,
            body,
            encoding_failure: failure,
        },
        then,
    })
}

/// A refusal of `reason` in answer to `frame`; the connection stays open.
pub open spec fn refuses(
    step: ControlStep,
    frame: HdqmFrame,
    reason: HdqsReason,
    connection_epoch: u64,
    failure: &'static str,
) -> bool {
    replies(
        step,
        frame,
        HdqmKind::ErrorResponse,
        ReplyBody::Response(HdqsResponse::Rejected { reason, connection_epoch }),
        failure,
        AfterReply::KeepOpen,
    )
}

/// A status byte in answer to `frame`.
pub open spec fn reports(
    step: ControlStep,
    frame: HdqmFrame,
    kind: HdqmKind,
    status: u8,
    then: AfterReply,
) -> bool {
    replies(step, frame, kind, ReplyBody::Status(status), "control frame encode failed", then)
}

/// The number of entries that a heartbeat payload announces.
pub open spec fn heartbeat_count(payload: Seq<u8>) -> nat {
    payload[0] as nat
}

/// The payload is a well-formed heartbeat.
pub open spec fn heartbeat_well_formed(payload: Seq<u8>) -> bool {
    &&& payload.len() > 0
    &&& heartbeat_count(payload) <= MAX_HEARTBEAT_ENTRIES
    &&& payload.len() == 1 + heartbeat_count(payload) * HEARTBEAT_ENTRY_BYTES
}

/// The bytes of entry `i` of a heartbeat.
pub open spec fn heartbeat_entry_bytes(payload: Seq<u8>, i: int) -> Seq<u8> {
    payload.subrange(1 + i * HEARTBEAT_ENTRY_BYTES, 1 + (i + 1) * HEARTBEAT_ENTRY_BYTES)
}

/// `entry` is what the 34 bytes of `bytes` say.
pub open spec fn heartbeat_entry_of(entry: HeartbeatEntry, bytes: Seq<u8>) -> bool {
    &&& entry.handle as nat == crate::bytes::be_value(bytes.subrange(0, 2))
    &&& entry.token@ == bytes.subrange(2, 34)
}

/// `entries` are the entries of the heartbeat `payload`, in order.
pub open spec fn heartbeat_entries_of(entries: Seq<HeartbeatEntry>, payload: Seq<u8>) -> bool {
    &&& entries.len() == heartbeat_count(payload)
    &&& forall|i: int|
        0 <= i < entries.len() ==> heartbeat_entry_of(
            #[trigger] entries[i],
            heartbeat_entry_bytes(payload, i),
        )
}

/// Reads the entries of a well-formed heartbeat.
fn read_heartbeat(payload: &[u8]) -> (entries: Vec<HeartbeatEntry>)
    requires
        heartbeat_well_formed(payload@),
    ensures
        heartbeat_entries_of(entries@, payload@),
{
    let count: usize = payload[0] as usize;
    let mut entries: Vec<HeartbeatEntry> = Vec::new();
    let mut index: usize = 0;
    while index < count
        invariant
            heartbeat_well_formed(payload@),
            count == heartbeat_count(payload@),
            index <= count <= MAX_HEARTBEAT_ENTRIES,
            entries@.len() == index,
            forall|i: int|
                0 <= i < index ==> heartbeat_entry_of(
                    #[trigger] entries@[i],
                    heartbeat_entry_bytes(payload@, i),
                ),
        decreases count - index,
    {
        let offset: usize = 1 + index * HEARTBEAT_ENTRY_BYTES;
        let ghost bytes = heartbeat_entry_bytes(payload@, index as int);
        let handle: u16 = read_be(payload, offset, 2) as u16;
        let token = copy_32(payload, offset + 2);
        proof {
            assert(bytes.subrange(0, 2) =~= payload@.subrange(offset as int, offset + 2));
            assert(bytes.subrange(2, 34) =~= payload@.subrange(offset + 2, offset + 34));
            crate::bytes::lemma_be_value_bound(bytes.subrange(0, 2));
            reveal_with_fuel(crate::bytes::radix_pow, 3);
        }
        entries.push(HeartbeatEntry { handle, token });
        index = index + 1;
    }
    entries
}

/// `step` is the first decision on `frame`.
pub open spec fn entered(
    step: ControlStep,
    frame: HdqmFrame,
    accept_new_sessions: bool,
    gated: bool,
    connection_epoch: u64,
    update_enabled: bool,
    update_selector: Seq<char>,
) -> bool {
    &&& !accept_new_sessions && admits_session(frame.kind) ==> refuses(
        step,
        frame,
        HdqsReason::ConnectionClosing,
        connection_epoch,
        "drain rejection encoding failed",
    )
    &&& (accept_new_sessions || !admits_session(frame.kind)) && gated ==> step
        == ControlStep::CheckAllowlist
    &&& (accept_new_sessions || !admits_session(frame.kind)) && !gated ==> dispatched(
        step,
        frame,
        gated,
        update_enabled,
        update_selector,
    )
}

/// First decision on a control frame.
///
/// `accept_new_sessions` is false while the connection drains; `gated` says that an allowlist and
/// a peer fingerprint are both at hand. With no gate the frame is dispatched at once.
pub fn control_entry(
    frame: &HdqmFrame,
    accept_new_sessions: bool,
    gated: bool,
    connection_epoch: u64,
    update_enabled: bool,
    update_selector: &str,
) -> (step: ControlStep)
    ensures
        entered(
            step,
            *frame,
            accept_new_sessions,
            gated,
            connection_epoch,
            update_enabled,
            update_selector@,
        ),
{
    if !accept_new_sessions && (frame.kind == HdqmKind::SessionPrepare || frame.kind
        == HdqmKind::SessionOpen) {
        return refusal(
            frame,
            HdqsReason::ConnectionClosing,
            connection_epoch,
            "drain rejection encoding failed",
        );
    }
    if gated {
        return ControlStep::CheckAllowlist;
    }
    control_dispatch(frame, gated, update_enabled, update_selector)
}

/// `step` is the decision on `frame` once the allowlist gave `answer`.
pub open spec fn admitted(
    step: ControlStep,
    frame: HdqmFrame,
    answer: AllowlistAnswer,
    update_enabled: bool,
    update_selector: Seq<char>,
) -> bool {
    &&& answer matches AllowlistAnswer::Unreadable(error) ==> step == ControlStep::Fail(error)
    &&& answer is Denied ==> step == ControlStep::Fail(RelayError::QuicAuthentication)
    &&& answer is Allowed ==> dispatched(step, frame, true, update_enabled, update_selector)
}

/// Decision on a control frame once the allowlist has answered.
pub fn control_admitted(
    frame: &HdqmFrame,
    answer: AllowlistAnswer,
    update_enabled: bool,
    update_selector: &str,
) -> (step: ControlStep)
    ensures
        admitted(step, *frame, answer, update_enabled, update_selector@),
{
    match answer {
        AllowlistAnswer::Unreadable(error) => ControlStep::Fail(error),
        AllowlistAnswer::Denied => ControlStep::Fail(RelayError::QuicAuthentication),
        AllowlistAnswer::Allowed => control_dispatch(frame, true, update_enabled, update_selector),
    }
}

/// The update request names the one selector that the Relay serves.
pub open spec fn selects_update(payload: Seq<u8>, update_selector: Seq<char>) -> bool {
    payload == vstd::utf8::encode_utf8(update_selector)
}

/// `step` is what an admitted `frame` asks for.
pub open spec fn dispatched(
    step: ControlStep,
    frame: HdqmFrame,
    gated: bool,
    update_enabled: bool,
    update_selector: Seq<char>,
) -> bool {
    match frame.kind {
        HdqmKind::SessionPrepare => step == ControlStep::DecodePrepare,
        HdqmKind::SessionOpen => step == ControlStep::DecodeOpen,
        HdqmKind::SessionClose => if frame.payload@.len() == 2 {
            step matches ControlStep::CloseSession { handle } && handle as nat
                == crate::bytes::be_value(frame.payload@)
        } else {
            step == ControlStep::Fail(
                RelayError::QuicProtocol { reason: "SESSION_CLOSE payload invalid" },
            )
        },
        HdqmKind::Heartbeat => if frame.payload@.len() == 0 {
            step == ControlStep::Fail(
                RelayError::QuicProtocol { reason: "HEARTBEAT payload is empty" },
            )
        } else if !heartbeat_well_formed(frame.payload@) {
            step == ControlStep::Fail(
                RelayError::QuicProtocol { reason: "HEARTBEAT payload is invalid" },
            )
        } else {
            step matches ControlStep::Renew { entries } && heartbeat_entries_of(
                entries@,
                frame.payload@,
            )
        },
        HdqmKind::RelayUpdate => if !update_enabled {
            step == ControlStep::Fail(
                RelayError::QuicProtocol { reason: "Relay update is disabled" },
            )
        } else if !selects_update(frame.payload@, update_selector) {
            reports(step, frame, HdqmKind::RelayUpdateRejected, 1, AfterReply::KeepOpen)
        } else if gated {
            step == ControlStep::AuthorizeUpdate
        } else {
            reports(step, frame, HdqmKind::RelayUpdateRejected, 2, AfterReply::KeepOpen)
        },
        HdqmKind::GoAway => step == ControlStep::Stop,
        _ => step == ControlStep::Fail(
            RelayError::QuicProtocol { reason: "unexpected control frame kind" },
        ),
    }
}

/// Decides what an admitted frame asks for.
fn control_dispatch(
    frame: &HdqmFrame,
    gated: bool,
    update_enabled: bool,
    update_selector: &str,
) -> (step: ControlStep)
    ensures
        dispatched(step, *frame, gated, update_enabled, update_selector@),
{
    match frame.kind {
        HdqmKind::SessionPrepare => ControlStep::DecodePrepare,
        HdqmKind::SessionOpen => ControlStep::DecodeOpen,
        HdqmKind::SessionClose => {
            if frame.payload.len() != 2 {
                return ControlStep::Fail(
                    RelayError::QuicProtocol { reason: "SESSION_CLOSE payload invalid" },
                );
            }
            let handle: u16 = read_be(frame.payload.as_slice(), 0, 2) as u16;
            proof {
                assert(frame.payload@.subrange(0, 2) =~= frame.payload@);
                crate::bytes::lemma_be_value_bound(frame.payload@);
                reveal_with_fuel(crate::bytes::radix_pow, 3);
            }
            ControlStep::CloseSession { handle }
        },
        HdqmKind::Heartbeat => {
            if frame.payload.len() == 0 {
                return ControlStep::Fail(
                    RelayError::QuicProtocol { reason: "HEARTBEAT payload is empty" },
                );
            }
            let count: usize = frame.payload[0] as usize;
            if count > MAX_HEARTBEAT_ENTRIES || frame.payload.len() != 1 + count
                * HEARTBEAT_ENTRY_BYTES {
                return ControlStep::Fail(
                    RelayError::QuicProtocol { reason: "HEARTBEAT payload is invalid" },
                );
            }
            ControlStep::Renew { entries: read_heartbeat(frame.payload.as_slice()) }
        },
        HdqmKind::RelayUpdate => {
            if !update_enabled {
                return ControlStep::Fail(
                    RelayError::QuicProtocol { reason: "Relay update is disabled" },
                );
            }
            if !same_bytes(frame.payload.as_slice(), update_selector.as_bytes()) {
                return status_reply(
                    frame,
                    HdqmKind::RelayUpdateRejected,
                    1,
                    AfterReply::KeepOpen,
                );
            }
            if gated {
                return ControlStep::AuthorizeUpdate;
            }
            status_reply(frame, HdqmKind::RelayUpdateRejected, 2, AfterReply::KeepOpen)
        },
        HdqmKind::GoAway => ControlStep::Stop,
        _ => ControlStep::Fail(
            RelayError::QuicProtocol { reason: "unexpected control frame kind" },
        ),
    }
}

/// `step` asks the registry for what `request` names.
///
/// `drawn` stands in for a fingerprint that the peer leaves open.
pub open spec fn prepares(
    step: ControlStep,
    request: SessionPrepareRequest,
    drawn: [u8; 32],
    token: [u8; 32],
) -> bool {
    step == (ControlStep::Prepare {
        session: request.session,
        fingerprint: if crate::bytes::all_zero(request.expected_fingerprint@) {
            drawn
        } else {
            request.expected_fingerprint
        },
        configuration_generation: request.configuration_generation,
        token,
    })
}

/// Decision on a decoded SESSION_PREPARE payload, with the random values at hand.
pub fn prepare_with(
    request: Option<SessionPrepareRequest>,
    drawn: [u8; 32],
    token: [u8; 32],
) -> (step: ControlStep)
    ensures
        request is None ==> step == ControlStep::Fail(
            RelayError::QuicProtocol { reason: "SESSION_PREPARE payload invalid" },
        ),
        request matches Some(decoded) ==> prepares(step, decoded, drawn, token),
{
    match request {
        None => ControlStep::Fail(
            RelayError::QuicProtocol { reason: "SESSION_PREPARE payload invalid" },
        ),
        Some(decoded) => {
            let fingerprint = if is_all_zero(&decoded.expected_fingerprint) {
                drawn
            } else {
                decoded.expected_fingerprint
            };
            ControlStep::Prepare {
                session: decoded.session,
                fingerprint,
                configuration_generation: decoded.configuration_generation,
                token,
            }
        },
    }
}

/// `step` is a decision on a decoded SESSION_PREPARE payload.
pub open spec fn prepare_decided(
    step: ControlStep,
    request: Option<SessionPrepareRequest>,
) -> bool {
    &&& request is None ==> step == ControlStep::Fail(
        RelayError::QuicProtocol { reason: "SESSION_PREPARE payload invalid" },
    )
    &&& request matches Some(decoded) ==> exists|drawn: [u8; 32], token: [u8; 32]|
        prepares(step, decoded, drawn, token)
}

/// Decision on a decoded SESSION_PREPARE payload; draws the token and, where the peer leaves it
/// open, the fingerprint.
pub fn prepare_decoded(request: Option<SessionPrepareRequest>) -> (step: ControlStep)
    ensures
        prepare_decided(step, request),
{
    let drawn = random_32();
    let token = random_32();
    let step = prepare_with(request, drawn, token);
    assert(request matches Some(decoded) ==> prepares(step, decoded, drawn, token));
    step
}

/// `step` is the decision on the registry's answer to a prepare call.
pub open spec fn prepare_settled(
    step: ControlStep,
    frame: HdqmFrame,
    answer: PrepareAnswer,
    connection_epoch: u64,
) -> bool {
    &&& answer matches PrepareAnswer::Prepared(session) ==> replies(
        step,
        frame,
        HdqmKind::SessionPrepareAck,
        ReplyBody::Prepared(session),
        "SESSION_PREPARE_ACK encoding failed",
        AfterReply::KeepOpen,
    )
    &&& answer matches PrepareAnswer::Refused(error) ==> match error {
        RelayError::ResourceLimit => refuses(
            step,
            frame,
            HdqsReason::CapacityExhausted,
            connection_epoch,
            "SESSION_PREPARE capacity error encoding failed",
        ),
        RelayError::SessionAuthority => refuses(
            step,
            frame,
            HdqsReason::SessionNotFound,
            connection_epoch,
            "SESSION_PREPARE authority error encoding failed",
        ),
        _ => step == ControlStep::Fail(error),
    }
}

/// Decision on the registry's answer to a prepare call.
pub fn prepare_answered(frame: &HdqmFrame, answer: PrepareAnswer, connection_epoch: u64) -> (step:
    ControlStep)
    ensures
        prepare_settled(step, *frame, answer, connection_epoch),
{
    match answer {
        PrepareAnswer::Prepared(session) => ControlStep::Reply {
            reply: ControlReply {
                kind: HdqmKind::SessionPrepareAck,
                request_id: frame.request_id,
                body: ReplyBody::Prepared(session),
                encoding_failure: "SESSION_PREPARE_ACK encoding failed",
            },
            then: AfterReply::KeepOpen,
        },
        PrepareAnswer::Refused(error) => match error {
            RelayError::ResourceLimit => refusal(
                frame,
                HdqsReason::CapacityExhausted,
                connection_epoch,
                "SESSION_PREPARE capacity error encoding failed",
            ),
            RelayError::SessionAuthority => refusal(
                frame,
                HdqsReason::SessionNotFound,
                connection_epoch,
                "SESSION_PREPARE authority error encoding failed",
            ),
            _ => ControlStep::Fail(error),
        },
    }
}

/// `step` is the decision on the outcome of decoding a SESSION_OPEN payload.
pub open spec fn open_decided(
    step: ControlStep,
    decoded: bool,
) -> bool {
    &&& decoded ==> step == ControlStep::Open
    &&& !decoded ==> step == ControlStep::Fail(
        RelayError::QuicProtocol { reason: "SESSION_OPEN payload invalid" },
    )
}

/// Decision on the outcome of decoding a SESSION_OPEN payload.
pub fn open_decoded(decoded: bool) -> (step: ControlStep)
    ensures
        open_decided(step, decoded),
{
    if decoded {
        ControlStep::Open
    } else {
        ControlStep::Fail(RelayError::QuicProtocol { reason: "SESSION_OPEN payload invalid" })
    }
}

/// `step` is the decision on the registry's answer to an open call.
pub open spec fn open_settled(
    step: ControlStep,
    frame: HdqmFrame,
    answer: OpenAnswer,
) -> bool {
    &&& answer matches OpenAnswer::Opened { handle, session } ==> replies(
        step,
        frame,
        HdqmKind::SessionOpened,
        (ReplyBody::Opened { handle, session }),
        "SESSION_OPEN_ACK encoding failed",
        AfterReply::KeepOpen,
    )
    &&& answer matches OpenAnswer::Refused(response) ==> replies(
        step,
        frame,
        HdqmKind::ErrorResponse,
        ReplyBody::Response(response),
        "SESSION_OPEN error encoding failed",
        AfterReply::KeepOpen,
    )
}

/// Decision on the registry's answer to an open call.
pub fn open_answered(frame: &HdqmFrame, answer: OpenAnswer) -> (step: ControlStep)
    ensures
        open_settled(step, *frame, answer),
{
    match answer {
        OpenAnswer::Opened { handle, session } => ControlStep::Reply {
            reply: ControlReply {
                kind: HdqmKind::SessionOpened,
                request_id: frame.request_id,
                body: ReplyBody::Opened { handle, session },
                encoding_failure: "SESSION_OPEN_ACK encoding failed",
            },
            then: AfterReply::KeepOpen,
        },
        OpenAnswer::Refused(response) => ControlStep::Reply {
            reply: ControlReply {
                kind: HdqmKind::ErrorResponse,
                request_id: frame.request_id,
                body: ReplyBody::Response(response),
                encoding_failure: "SESSION_OPEN error encoding failed",
            },
            then: AfterReply::KeepOpen,
        },
    }
}

/// Reply once a session is closed and its bridge is cancelled.
pub fn close_finished(frame: &HdqmFrame) -> (step: ControlStep)
    ensures
        replies(
            step,
            *frame,
            HdqmKind::SessionClosed,
            ReplyBody::Empty,
            "control frame encode failed",
            AfterReply::KeepOpen,
        ),
{
    empty_reply(frame, HdqmKind::SessionClosed)
}

/// `step` is the decision on the registry's answer to a heartbeat.
pub open spec fn renew_settled(
    step: ControlStep,
    frame: HdqmFrame,
    renewed: bool,
    connection_epoch: u64,
) -> bool {
    &&& renewed ==> replies(
        step,
        frame,
        HdqmKind::Heartbeat,
        ReplyBody::Empty,
        "control frame encode failed",
        AfterReply::KeepOpen,
    )
    &&& !renewed ==> refuses(
        step,
        frame,
        HdqsReason::TokenMismatch,
        connection_epoch,
        "HEARTBEAT error encoding failed",
    )
}

/// Decision on the registry's answer to a heartbeat.
pub fn renew_answered(frame: &HdqmFrame, renewed: bool, connection_epoch: u64) -> (step:
    ControlStep)
    ensures
        renew_settled(step, *frame, renewed, connection_epoch),
{
    if !renewed {
        return refusal(
            frame,
            HdqsReason::TokenMismatch,
            connection_epoch,
            "HEARTBEAT error encoding failed",
        );
    }
    empty_reply(frame, HdqmKind::Heartbeat)
}

/// `step` is the decision on the allowlist's answer to an update request.
pub open spec fn update_decided(
    step: ControlStep,
    frame: HdqmFrame,
    answer: AllowlistAnswer,
) -> bool {
    &&& answer matches AllowlistAnswer::Unreadable(error) ==> step == ControlStep::Fail(error)
    &&& answer is Denied ==> reports(
        step,
        frame,
        HdqmKind::RelayUpdateRejected,
        2,
        AfterReply::KeepOpen,
    )
    &&& answer is Allowed ==> reports(
        step,
        frame,
        HdqmKind::RelayUpdateAccepted,
        1,
        AfterReply::RunUpdate,
    )
}

/// Decision on the allowlist's answer to an update request.
pub fn update_authorized(frame: &HdqmFrame, answer: AllowlistAnswer) -> (step: ControlStep)
    ensures
        update_decided(step, *frame, answer),
{
    match answer {
        AllowlistAnswer::Unreadable(error) => ControlStep::Fail(error),
        AllowlistAnswer::Denied => status_reply(
            frame,
            HdqmKind::RelayUpdateRejected,
            2,
            AfterReply::KeepOpen,
        ),
        AllowlistAnswer::Allowed => status_reply(
            frame,
            HdqmKind::RelayUpdateAccepted,
            1,
            AfterReply::RunUpdate,
        ),
    }
}

/// `step` is the decision on how an update run ended.
pub open spec fn update_settled(
    step: ControlStep,
    frame: HdqmFrame,
    answer: UpdateAnswer,
) -> bool {
    &&& answer is WorkerLost ==> step == ControlStep::Fail(
        RelayError::Update {
            operation: "running stable-latest update",
            reason: "update worker task failed",
        },
    )
    &&& answer is Failed ==> reports(
        step,
        frame,
        HdqmKind::RelayUpdateStatus,
        2,
        AfterReply::KeepOpen,
    )
    &&& answer is Installed ==> reports(
        step,
        frame,
        HdqmKind::RelayUpdateStatus,
        1,
        AfterReply::Close,
    )
}

/// Decision on how an update run ended; an installed update closes the connection.
pub fn update_finished(frame: &HdqmFrame, answer: UpdateAnswer) -> (step: ControlStep)
    ensures
        update_settled(step, *frame, answer),
{
    match answer {
        UpdateAnswer::WorkerLost => ControlStep::Fail(
            RelayError::Update {
                operation: "running stable-latest update",
                reason: "update worker task failed",
            },
        ),
        UpdateAnswer::Failed => status_reply(
            frame,
            HdqmKind::RelayUpdateStatus,
            2,
            AfterReply::KeepOpen,
        ),
        UpdateAnswer::Installed => status_reply(
            frame,
            HdqmKind::RelayUpdateStatus,
            1,
            AfterReply::Close,
        ),
    }
}

fn empty_reply(frame: &HdqmFrame, kind: HdqmKind) -> (step: ControlStep)
    ensures
        replies(
            step,
            *frame,
            kind,
            ReplyBody::Empty,
            "control frame encode failed",
            AfterReply::KeepOpen,
        ),
{
    ControlStep::Reply {
        reply: ControlReply {
            kind,
            request_id: frame.request_id,
            body: ReplyBody::Empty,
            encoding_failure: "control frame encode failed",
        },
        then: AfterReply::KeepOpen,
    }
}

fn status_reply(frame: &HdqmFrame, kind: HdqmKind, status: u8, then: AfterReply) -> (step:
    ControlStep)
    ensures
        reports(step, *frame, kind, status, then),
{
    ControlStep::Reply {
        reply: ControlReply {
            kind,
            request_id: frame.request_id,
            body: ReplyBody::Status(status),
            encoding_failure: "control frame encode failed",
        },
        then,
    }
}

fn refusal(
    frame: &HdqmFrame,
    reason: HdqsReason,
    connection_epoch: u64,
    encoding_failure: &'static str,
) -> (step: ControlStep)
    ensures
        refuses(step, *frame, reason, connection_epoch, encoding_failure),
{
    ControlStep::Reply {
        reply: ControlReply {
            kind: HdqmKind::ErrorResponse,
            request_id: frame.request_id,
            body: ReplyBody::Response(HdqsResponse::rejected(reason, connection_epoch)),
            encoding_failure,
        },
        then: AfterReply::KeepOpen,
    }
}

/// What the outside answered to the step before.
pub enum ControlEvent {
    /// The frame was read.
    Arrived,
    /// The allowlist answered the admission question.
    Admission(AllowlistAnswer),
    /// A SESSION_PREPARE payload was decoded.
    PrepareDecoded(Option<SessionPrepareRequest>),
    /// The registry answered a prepare call.
    PrepareAnswered(PrepareAnswer),
    /// A SESSION_OPEN payload was decoded or found malformed.
    OpenDecoded(bool),
    /// The registry answered an open call.
    OpenAnswered(OpenAnswer),
    /// The session is closed.
    Closed,
    /// The registry answered a heartbeat.
    Renewed(bool),
    /// The allowlist answered the update question.
    Authority(AllowlistAnswer),
    /// The announced update ended.
    UpdateEnded(UpdateAnswer),
}

/// The conditions under which one frame is handled.
pub struct ControlContext {
    /// The connection does not drain.
    pub accept_new_sessions: bool,
    /// An allowlist and a peer fingerprint are at hand.
    pub gated: bool,
    /// Epoch of the connection.
    pub connection_epoch: u64,
    /// Updates are configured.
    pub update_enabled: bool,
    /// The one update selector that is served.
    pub update_selector: Seq<char>,
}

/// The first step of the conversation about `frame` is `step`.
pub open spec fn starts(context: ControlContext, frame: HdqmFrame, step: ControlStep) -> bool {
    entered(
        step,
        frame,
        context.accept_new_sessions,
        context.gated,
        context.connection_epoch,
        context.update_enabled,
        context.update_selector,
    )
}

/// `event` answers `before`, and `after` is the decision on it.
pub open spec fn follows(
    context: ControlContext,
    frame: HdqmFrame,
    before: ControlStep,
    event: ControlEvent,
    after: ControlStep,
) -> bool {
    match event {
        ControlEvent::Arrived => false,
        ControlEvent::Admission(answer) => before is CheckAllowlist && admitted(
            after,
            frame,
            answer,
            context.update_enabled,
            context.update_selector,
        ),
        ControlEvent::PrepareDecoded(request) => before is DecodePrepare && prepare_decided(
            after,
            request,
        ),
        ControlEvent::PrepareAnswered(answer) => before is Prepare && prepare_settled(
            after,
            frame,
            answer,
            context.connection_epoch,
        ),
        ControlEvent::OpenDecoded(decoded) => before is DecodeOpen && open_decided(after, decoded),
        ControlEvent::OpenAnswered(answer) => before is Open && open_settled(after, frame, answer),
        ControlEvent::Closed => before is CloseSession && replies(
            after,
            frame,
            HdqmKind::SessionClosed,
            ReplyBody::Empty,
            "control frame encode failed",
            AfterReply::KeepOpen,
        ),
        ControlEvent::Renewed(renewed) => before is Renew && renew_settled(
            after,
            frame,
            renewed,
            context.connection_epoch,
        ),
        ControlEvent::Authority(answer) => before is AuthorizeUpdate && update_decided(
            after,
            frame,
            answer,
        ),
        ControlEvent::UpdateEnded(answer) => announces_update(before) && update_settled(
            after,
            frame,
            answer,
        ),
    }
}

/// The step announces an update that runs next.
pub open spec fn announces_update(step: ControlStep) -> bool {
    step matches ControlStep::Reply { reply, then } && then == AfterReply::RunUpdate
}

/// The number of answers that `step` may still need.
pub open spec fn answers_left(step: ControlStep) -> nat {
    match step {
        ControlStep::CheckAllowlist => 4,
        ControlStep::AuthorizeUpdate => 2,
        ControlStep::DecodePrepare | ControlStep::DecodeOpen => 2,
        ControlStep::Prepare { .. } | ControlStep::Open => 1,
        ControlStep::CloseSession { .. } | ControlStep::Renew { .. } => 1,
        ControlStep::Reply { reply, then } => if then == AfterReply::RunUpdate {
            1
        } else {
            0
        },
        ControlStep::Stop | ControlStep::Fail(_) => 0,
    }
}

/// Step `i` of the conversation is the decision on its event.
pub open spec fn linked(
    context: ControlContext,
    frame: HdqmFrame,
    events: Seq<ControlEvent>,
    steps: Seq<ControlStep>,
    i: int,
) -> bool {
    follows(context, frame, steps[i - 1], events[i], steps[i])
}

/// The conversation about `frame` went through `steps`, `events[i]` leading to `steps[i]`.
pub open spec fn conversation(
    context: ControlContext,
    frame: HdqmFrame,
    events: Seq<ControlEvent>,
    steps: Seq<ControlStep>,
) -> bool {
    &&& steps.len() > 0
    &&& events.len() == steps.len()
    &&& starts(context, frame, steps[0])
    &&& forall|i: int|
        1 <= i < steps.len() ==> #[trigger] linked(context, frame, events, steps, i)
}

/// A conversation with its last step left off is a conversation.
proof fn lemma_conversation_prefix(
    context: ControlContext,
    frame: HdqmFrame,
    events: Seq<ControlEvent>,
    steps: Seq<ControlStep>,
)
    requires
        conversation(context, frame, events, steps),
        steps.len() > 1,
    ensures
        conversation(context, frame, events.drop_last(), steps.drop_last()),
        linked(context, frame, events, steps, steps.len() - 1),
{
    assert forall|i: int| 1 <= i < steps.len() - 1 implies #[trigger] linked(
        context,
        frame,
        events.drop_last(),
        steps.drop_last(),
        i,
    ) by {
        assert(linked(context, frame, events, steps, i));
    }
}

/// Every answer brings the conversation about a frame strictly nearer to its end, so a frame is
/// settled after at most four answers.
pub proof fn law_control_terminates(
    context: ControlContext,
    frame: HdqmFrame,
    events: Seq<ControlEvent>,
    steps: Seq<ControlStep>,
)
    requires
        conversation(context, frame, events, steps),
    ensures
        steps.len() + answers_left(steps.last()) <= 5,
    decreases steps.len(),
{
    let last = steps.len() - 1;
    if last > 0 {
        let before = steps.drop_last();
        lemma_conversation_prefix(context, frame, events, steps);
        law_control_terminates(context, frame, events.drop_last(), before);
    }
}

/// While the connection drains, a request for a new session is refused at once: neither the
/// allowlist nor the registry is asked.
pub proof fn law_drain_admits_no_session(
    context: ControlContext,
    frame: HdqmFrame,
    events: Seq<ControlEvent>,
    steps: Seq<ControlStep>,
)
    requires
        conversation(context, frame, events, steps),
        !context.accept_new_sessions,
    ensures
        forall|i: int| 0 <= i < steps.len() ==> !calls_for_session(#[trigger] steps[i]),
        admits_session(frame.kind) ==> steps.len() == 1 && refuses(
            steps[0],
            frame,
            HdqsReason::ConnectionClosing,
            context.connection_epoch,
            "drain rejection encoding failed",
        ),
{
    if admits_session(frame.kind) {
        if steps.len() > 1 {
            assert(linked(context, frame, events, steps, 1));
        }
    } else {
        lemma_other_frames_admit_no_session(context, frame, events, steps);
    }
}

/// A frame that asks for no session leads to no session call.
proof fn lemma_other_frames_admit_no_session(
    context: ControlContext,
    frame: HdqmFrame,
    events: Seq<ControlEvent>,
    steps: Seq<ControlStep>,
)
    requires
        conversation(context, frame, events, steps),
        !admits_session(frame.kind),
    ensures
        forall|i: int| 0 <= i < steps.len() ==> !calls_for_session(#[trigger] steps[i]),
    decreases steps.len(),
{
    if steps.len() > 1 {
        let before = steps.drop_last();
        lemma_conversation_prefix(context, frame, events, steps);
        lemma_other_frames_admit_no_session(context, frame, events.drop_last(), before);
        assert forall|i: int| 0 <= i < steps.len() implies !calls_for_session(
            #[trigger] steps[i],
        ) by {
            if i < steps.len() - 1 {
                assert(before[i] == steps[i]);
            } else {
                assert(before[i - 1] == steps[i - 1]);
            }
        }
    }
}

/// The step serves a request for a new session.
pub open spec fn calls_for_session(step: ControlStep) -> bool {
    step is DecodePrepare || step is DecodeOpen || step is Prepare || step is Open
}

/// An update runs only where updates are configured, the frame names the served selector, and the
/// allowlist has authorized the peer for it.
pub proof fn law_update_needs_authority(
    context: ControlContext,
    frame: HdqmFrame,
    events: Seq<ControlEvent>,
    steps: Seq<ControlStep>,
    i: int,
)
    requires
        conversation(context, frame, events, steps),
        0 <= i < steps.len(),
        announces_update(steps[i]),
    ensures
        i > 0,
        events[i] == ControlEvent::Authority(AllowlistAnswer::Allowed),
        context.gated,
        context.update_enabled,
        frame.kind == HdqmKind::RelayUpdate,
        selects_update(frame.payload@, context.update_selector),
{
    if i > 0 {
        assert(linked(context, frame, events, steps, i));
        assert(steps[i - 1] is AuthorizeUpdate);
        if i > 1 {
            assert(linked(context, frame, events, steps, i - 1));
            if i > 2 {
                assert(linked(context, frame, events, steps, i - 2));
            }
        }
    }
}

/// With an allowlist at hand, nothing but a drain refusal happens before the allowlist allowed the
/// peer.
pub proof fn law_allowlist_comes_first(
    context: ControlContext,
    frame: HdqmFrame,
    events: Seq<ControlEvent>,
    steps: Seq<ControlStep>,
)
    requires
        conversation(context, frame, events, steps),
        context.gated,
        context.accept_new_sessions || !admits_session(frame.kind),
    ensures
        steps[0] == ControlStep::CheckAllowlist,
        steps.len() > 1 ==> events[1] is Admission,
        steps.len() > 1 && events[1] != ControlEvent::Admission(AllowlistAnswer::Allowed)
            ==> steps[1] is Fail && steps.len() == 2,
{
    if steps.len() > 1 {
        assert(linked(context, frame, events, steps, 1));
        if steps.len() > 2 {
            assert(linked(context, frame, events, steps, 2));
        }
    }
}

/// Every reply repeats the correlation identifier of the frame that it answers.
pub proof fn law_replies_are_correlated(
    context: ControlContext,
    frame: HdqmFrame,
    events: Seq<ControlEvent>,
    steps: Seq<ControlStep>,
    i: int,
)
    requires
        conversation(context, frame, events, steps),
        0 <= i < steps.len(),
    ensures
        steps[i] matches ControlStep::Reply { reply, then } ==> reply.request_id
            == frame.request_id,
{
    if i > 0 {
        assert(linked(context, frame, events, steps, i));
    }
}

/// The payload that lists `entries`.
pub open spec fn heartbeat_payload(entries: Seq<HeartbeatEntry>) -> Seq<u8>
    decreases entries.len(),
{
    if entries.len() == 0 {
        seq![0u8]
    } else {
        let rest = heartbeat_payload(entries.drop_last());
        let entry = entries.last();
        rest.update(0, entries.len() as u8) + crate::bytes::be_bytes(entry.handle as nat, 2)
            + entry.token@
    }
}

/// A payload that lists at most 64 entries is well formed, and reading it gives those entries.
pub proof fn law_heartbeat_lists_entries(entries: Seq<HeartbeatEntry>)
    requires
        entries.len() <= MAX_HEARTBEAT_ENTRIES,
    ensures
        heartbeat_well_formed(heartbeat_payload(entries)),
        heartbeat_entries_of(entries, heartbeat_payload(entries)),
    decreases entries.len(),
{
    if entries.len() > 0 {
        let front = entries.drop_last();
        let rest = heartbeat_payload(front);
        let entry = entries.last();
        let digits = crate::bytes::be_bytes(entry.handle as nat, 2);
        law_heartbeat_lists_entries(front);
        crate::bytes::lemma_be_bytes_len(entry.handle as nat, 2);
        reveal_with_fuel(crate::bytes::radix_pow, 3);
        crate::bytes::lemma_be_value_of_bytes(entry.handle as nat, 2);
        let whole = heartbeat_payload(entries);
        assert(whole.len() == 1 + entries.len() * HEARTBEAT_ENTRY_BYTES);
        assert forall|i: int| 0 <= i < entries.len() implies heartbeat_entry_of(
            #[trigger] entries[i],
            heartbeat_entry_bytes(whole, i),
        ) by {
            if i < front.len() {
                assert(entries[i] == front[i]);
                assert(heartbeat_entry_bytes(whole, i) =~= heartbeat_entry_bytes(rest, i));
            } else {
                let bytes = heartbeat_entry_bytes(whole, i);
                assert(bytes.subrange(0, 2) =~= digits);
                assert(bytes.subrange(2, 34) =~= entry.token@);
            }
        }
    }
}

/// Each kind of frame leads to its own step: a close to the handle that its two bytes name, a
/// heartbeat to the renewal of its entries, an update to its authorization if it is enabled, selected
/// and gated, and an end to a stop. Everything else that is not a request for a session or for an
/// update fails.
pub proof fn law_control_frames_lead_on(
    step: ControlStep,
    frame: HdqmFrame,
    gated: bool,
    update_enabled: bool,
    update_selector: Seq<char>,
)
    requires
        dispatched(step, frame, gated, update_enabled, update_selector),
    ensures
        ({
            let payload = frame.payload@;
            &&& step is DecodePrepare <==> frame.kind == HdqmKind::SessionPrepare
            &&& step is DecodeOpen <==> frame.kind == HdqmKind::SessionOpen
            &&& step is CloseSession <==> frame.kind == HdqmKind::SessionClose && payload.len() == 2
            &&& step matches ControlStep::CloseSession { handle } ==> handle == 256 * payload[0]
                + payload[1]
            &&& step is Renew <==> frame.kind == HdqmKind::Heartbeat && payload.len() > 0
                && payload[0] <= 64 && payload.len() == 1 + 34 * payload[0]
            &&& step is Stop <==> frame.kind == HdqmKind::GoAway
            &&& step is AuthorizeUpdate <==> frame.kind == HdqmKind::RelayUpdate && update_enabled
                && payload == vstd::utf8::encode_utf8(update_selector) && gated
            &&& step is Reply <==> frame.kind == HdqmKind::RelayUpdate && update_enabled && !(payload
                == vstd::utf8::encode_utf8(update_selector) && gated)
            &&& step matches ControlStep::Reply { reply, then } ==> {
                &&& reply.kind == HdqmKind::RelayUpdateRejected
                &&& then == AfterReply::KeepOpen
                &&& reply.body == ReplyBody::Status(
                    if payload == vstd::utf8::encode_utf8(update_selector) {
                        2
                    } else {
                        1
                    },
                )
            }
            &&& !(step is CheckAllowlist) && !(step is Prepare) && !(step is Open)
        }),
{
    reveal_with_fuel(crate::bytes::be_value, 3);
    assert(frame.payload@.len() == 2 ==> frame.payload@.drop_last().last() == frame.payload@[0]);
    if frame.payload@.len() > 0 {
        let count = frame.payload@[0] as int;
        assert(count * HEARTBEAT_ENTRY_BYTES == 34 * count);
    }
}

/// The entries of a heartbeat stand one after the other behind their number, each as the two bytes
/// of its handle and the 32 bytes of its token.
pub proof fn law_heartbeat_entries_are_read_in_order(
    entries: Seq<HeartbeatEntry>,
    payload: Seq<u8>,
    at: int,
)
    requires
        heartbeat_well_formed(payload),
        heartbeat_entries_of(entries, payload),
        0 <= at < entries.len(),
    ensures
        entries.len() == payload[0],
        entries[at].handle == 256 * payload[1 + 34 * at] + payload[2 + 34 * at],
        entries[at].token@ == payload.subrange(3 + 34 * at, 35 + 34 * at),
{
    reveal_with_fuel(crate::bytes::be_value, 3);
    let bytes = heartbeat_entry_bytes(payload, at);
    assert(heartbeat_entry_of(entries[at], bytes));
    assert(34 * at + 34 <= 34 * payload[0]);
    assert(at * HEARTBEAT_ENTRY_BYTES == 34 * at);
    assert((at + 1) * HEARTBEAT_ENTRY_BYTES == 34 * at + 34);
    let handle = bytes.subrange(0, 2);
    assert(handle[0] == payload[1 + 34 * at]);
    assert(handle[1] == payload[2 + 34 * at]);
    assert(handle.drop_last().last() == handle[0]);
    assert(bytes.subrange(2, 34) =~= payload.subrange(3 + 34 * at, 35 + 34 * at));
}

/// A frame on a gated connection is checked against the allowlist unless it asks a draining
/// connection for a session; such a request is refused without a check.
pub proof fn law_frames_are_checked_where_gated(
    context: ControlContext,
    frame: HdqmFrame,
    step: ControlStep,
)
    requires
        starts(context, frame, step),
    ensures
        ({
            let asks = frame.kind == HdqmKind::SessionPrepare || frame.kind
                == HdqmKind::SessionOpen;
            let refused = asks && !context.accept_new_sessions;
            &&& step is CheckAllowlist <==> context.gated && !refused
            &&& refused ==> (step matches ControlStep::Reply { reply, then } && reply.kind
                == HdqmKind::ErrorResponse && then == AfterReply::KeepOpen && reply.body
                == ReplyBody::Response(
                HdqsResponse::Rejected {
                    reason: HdqsReason::ConnectionClosing,
                    connection_epoch: context.connection_epoch,
                },
            ))
            &&& !context.gated ==> !(step is AuthorizeUpdate)
        }),
{
}

/// A frame is served if and only if the allowlist allows its peer. A peer that it does not allow is
/// not authenticated, and an allowlist that cannot be read fails with its cause.
pub proof fn law_denied_peers_are_not_served(
    step: ControlStep,
    frame: HdqmFrame,
    answer: AllowlistAnswer,
    update_enabled: bool,
    update_selector: Seq<char>,
)
    requires
        admitted(step, frame, answer, update_enabled, update_selector),
    ensures
        answer is Denied ==> step == ControlStep::Fail(RelayError::QuicAuthentication),
        answer matches AllowlistAnswer::Unreadable(error) ==> step == ControlStep::Fail(error),
        calls_for_session(step) || step is CloseSession || step is Renew || step is Stop
            || step is AuthorizeUpdate || step is Reply ==> answer is Allowed,
{
}

/// A session is prepared as it was asked for, with a fingerprint of its own only if none was given.
pub proof fn law_sessions_are_prepared_as_asked(
    step: ControlStep,
    request: SessionPrepareRequest,
    drawn: [u8; 32],
    token: [u8; 32],
)
    requires
        prepares(step, request, drawn, token),
    ensures
        step matches ControlStep::Prepare {
            session,
            fingerprint,
            configuration_generation,
            token: given,
        } && {
            &&& session == request.session
            &&& configuration_generation == request.configuration_generation
            &&& given == token
            &&& !crate::bytes::all_zero(request.expected_fingerprint@) ==> fingerprint
                == request.expected_fingerprint
            &&& crate::bytes::all_zero(request.expected_fingerprint@) ==> fingerprint == drawn
        },
{
}

/// What comes of a request for a session is told to the peer: the session itself, or that there is
/// no room or no such session for it. The connection stays open then, and only another failure ends
/// it.
pub proof fn law_session_answers_are_told(
    step: ControlStep,
    frame: HdqmFrame,
    answer: PrepareAnswer,
    connection_epoch: u64,
)
    requires
        prepare_settled(step, frame, answer, connection_epoch),
    ensures
        answer matches PrepareAnswer::Prepared(session) ==> (step matches ControlStep::Reply {
            reply,
            then,
        } && reply.kind == HdqmKind::SessionPrepareAck && reply.body == ReplyBody::Prepared(session)
            && reply.request_id == frame.request_id && then == AfterReply::KeepOpen),
        answer == PrepareAnswer::Refused(RelayError::ResourceLimit) ==> (
        step matches ControlStep::Reply { reply, then } && reply.kind == HdqmKind::ErrorResponse
            && reply.body == ReplyBody::Response(
            HdqsResponse::Rejected { reason: HdqsReason::CapacityExhausted, connection_epoch },
        ) && then == AfterReply::KeepOpen),
        answer == PrepareAnswer::Refused(RelayError::SessionAuthority) ==> (
        step matches ControlStep::Reply { reply, then } && reply.kind == HdqmKind::ErrorResponse
            && reply.body == ReplyBody::Response(
            HdqsResponse::Rejected { reason: HdqsReason::SessionNotFound, connection_epoch },
        ) && then == AfterReply::KeepOpen),
        step is Fail <==> (answer matches PrepareAnswer::Refused(error) && error
            != RelayError::ResourceLimit && error != RelayError::SessionAuthority),
        answer matches PrepareAnswer::Refused(error) ==> (step matches ControlStep::Fail(reported)
            ==> reported == error),
{
}

/// An opened session is told with its handle, a refused one with its refusal; both keep the
/// connection open.
pub proof fn law_open_answers_are_told(step: ControlStep, frame: HdqmFrame, answer: OpenAnswer)
    requires
        open_settled(step, frame, answer),
    ensures
        step matches ControlStep::Reply { reply, then } && {
            &&& then == AfterReply::KeepOpen
            &&& reply.request_id == frame.request_id
            &&& answer is Opened <==> reply.kind == HdqmKind::SessionOpened
            &&& answer matches OpenAnswer::Opened { handle, session } ==> reply.body == (
            ReplyBody::Opened { handle, session })
            &&& answer is Refused <==> reply.kind == HdqmKind::ErrorResponse
            &&& answer matches OpenAnswer::Refused(response) ==> reply.body == ReplyBody::Response(
                response,
            )
        },
{
}

/// A heartbeat is echoed if and only if every lease was renewed; else the peer is told that a token
/// does not match. Neither ends the connection.
pub proof fn law_heartbeats_are_answered(
    step: ControlStep,
    frame: HdqmFrame,
    renewed: bool,
    connection_epoch: u64,
)
    requires
        renew_settled(step, frame, renewed, connection_epoch),
    ensures
        step matches ControlStep::Reply { reply, then } && {
            &&& then == AfterReply::KeepOpen
            &&& reply.request_id == frame.request_id
            &&& renewed <==> reply.kind == HdqmKind::Heartbeat
            &&& renewed ==> reply.body == ReplyBody::Empty
            &&& !renewed ==> reply.kind == HdqmKind::ErrorResponse && reply.body
                == ReplyBody::Response(
                HdqsResponse::Rejected { reason: HdqsReason::TokenMismatch, connection_epoch },
            )
        },
{
}

/// An update runs if and only if its authority is allowed, and its end is told. The connection is
/// closed only after an update was installed.
pub proof fn law_updates_run_when_allowed(
    step: ControlStep,
    frame: HdqmFrame,
    answer: AllowlistAnswer,
    settled: ControlStep,
    ended: UpdateAnswer,
)
    requires
        update_decided(step, frame, answer),
        update_settled(settled, frame, ended),
    ensures
        announces_update(step) <==> answer is Allowed,
        answer is Allowed ==> (step matches ControlStep::Reply { reply, then } && reply.kind
            == HdqmKind::RelayUpdateAccepted && reply.body == ReplyBody::Status(1)),
        answer is Denied ==> (step matches ControlStep::Reply { reply, then } && reply.kind
            == HdqmKind::RelayUpdateRejected && reply.body == ReplyBody::Status(2) && then
            == AfterReply::KeepOpen),
        answer is Unreadable <==> step is Fail,
        ended is WorkerLost <==> settled is Fail,
        ended is Installed <==> (settled matches ControlStep::Reply { reply, then } && then
            == AfterReply::Close),
        ended is Installed ==> (settled matches ControlStep::Reply { reply, then } && reply.kind
            == HdqmKind::RelayUpdateStatus && reply.body == ReplyBody::Status(1)),
        ended is Failed ==> (settled matches ControlStep::Reply { reply, then } && reply.kind
            == HdqmKind::RelayUpdateStatus && reply.body == ReplyBody::Status(2) && then
            == AfterReply::KeepOpen),
{
}

/// A request to open a session is handed on if and only if it was decoded; one that was not fails,
/// and so does a request to prepare one.
pub proof fn law_undecoded_requests_fail(
    open: ControlStep,
    decoded: bool,
    prepare: ControlStep,
    request: Option<SessionPrepareRequest>,
)
    requires
        open_decided(open, decoded),
        prepare_decided(prepare, request),
    ensures
        open == ControlStep::Open <==> decoded,
        open is Fail <==> !decoded,
        prepare is Prepare <==> request is Some,
        prepare is Fail <==> request is None,
{
}

} // verus!
