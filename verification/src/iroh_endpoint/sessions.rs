//! Control operations and session streams of a paired connection.

use crate::bytes::{is_all_zero, read_be, same_bytes};
use crate::iroh_endpoint::exchange::IrohConnectionError;
use crate::iroh_endpoint::hdp::HDP1_MAX_FRAME_BYTES;
use crate::quic_server::control::{OpenAnswer, ReplyBody};
use crate::quic_wire::{
    HdqmFrame, HdqmKind, HdqsReason, HdqsResponse, PreparedSession, SessionPrepareRequest,
    HDQS_AUTHORITY_BYTES,
};
use crate::random::random_32;
use vstd::prelude::*;

verus! {

/// What reaches a paired connection.
pub enum PairedEvent {
    /// The control reader is gone.
    ControlEnded,
    /// The control stream failed or a control frame is malformed.
    ControlFailed,
    /// A control frame was handled; `stop` says that it ends the connection.
    FrameHandled {
        /// The frame ends the connection.
        stop: bool,
    },
    /// Handling a control frame failed.
    FrameFailed(IrohConnectionError),
    /// A session stream arrived.
    StreamOpened,
    /// Accepting a stream failed.
    StreamFailed,
    /// A served session stream ended.
    StreamEnded,
    /// The connection is closed.
    Closed,
}

/// What a paired connection does next.
#[derive(Clone, Copy, Debug, Eq, PartialEq)]
pub enum PairedAction {
    /// Wait for the next event.
    Wait,
    /// Serve the session stream.
    Serve,
    /// Answer the session stream with a refusal.
    Refuse(HdqsResponse),
    /// Cancel every session and end the connection.
    Finish(Result<(), IrohConnectionError>),
}

/// Mathematical value of the session slots.
pub struct SlotsView {
    /// Session streams that are served.
    pub used: usize,
    /// Session streams that may be served at once.
    pub limit: usize,
    /// Epoch of the connection.
    pub connection_epoch: u64,
}

/// Session slots of one paired connection.
pub struct SessionSlots {
    used: usize,
    limit: usize,
    connection_epoch: u64,
}

impl View for SessionSlots {
    type V = SlotsView;

    closed spec fn view(&self) -> SlotsView {
        SlotsView { used: self.used, limit: self.limit, connection_epoch: self.connection_epoch }
    }
}

/// What an event leads to.
pub open spec fn paired_outcome(before: SlotsView, event: PairedEvent) -> (SlotsView, PairedAction) {
    match event {
        PairedEvent::ControlEnded => (before, PairedAction::Finish(Ok(()))),
        PairedEvent::ControlFailed => (
            before,
            PairedAction::Finish(Err(IrohConnectionError::Protocol)),
        ),
        PairedEvent::FrameHandled { stop } => (
            before,
            if stop {
                PairedAction::Finish(Ok(()))
            } else {
                PairedAction::Wait
            },
        ),
        PairedEvent::FrameFailed(error) => (before, PairedAction::Finish(Err(error))),
        PairedEvent::StreamOpened => if before.used < before.limit {
            (SlotsView { used: (before.used + 1) as usize, ..before }, PairedAction::Serve)
        } else {
            (
                before,
                PairedAction::Refuse(
                    HdqsResponse::Rejected {
                        reason: HdqsReason::CapacityExhausted,
                        connection_epoch: before.connection_epoch,
                    },
                ),
            )
        },
        PairedEvent::StreamFailed => (before, PairedAction::Finish(Err(IrohConnectionError::Io))),
        PairedEvent::StreamEnded => (
            SlotsView {
                used: if before.used > 0 {
                    (before.used - 1) as usize
                } else {
                    0
                },
                ..before
            },
            PairedAction::Wait,
        ),
        PairedEvent::Closed => (before, PairedAction::Finish(Ok(()))),
    }
}

impl SessionSlots {
    /// The slots of a connection that was just paired.
    pub fn new(limit: usize, connection_epoch: u64) -> (slots: Self)
        ensures
            slots@ == (SlotsView { used: 0, limit, connection_epoch }),
    {
        SessionSlots { used: 0, limit, connection_epoch }
    }

    /// Decides what an event leads to.
    pub fn on_event(&mut self, event: &PairedEvent) -> (action: PairedAction)
        ensures
            (final(self)@, action) == paired_outcome(old(self)@, *event),
            old(self)@.used <= old(self)@.limit ==> final(self)@.used <= final(self)@.limit,
    {
        match event {
            PairedEvent::ControlEnded => PairedAction::Finish(Ok(())),
            PairedEvent::ControlFailed => PairedAction::Finish(Err(IrohConnectionError::Protocol)),
            PairedEvent::FrameHandled { stop } => if *stop {
                PairedAction::Finish(Ok(()))
            } else {
                PairedAction::Wait
            },
            PairedEvent::FrameFailed(error) => PairedAction::Finish(Err(*error)),
            PairedEvent::StreamOpened => if self.used < self.limit {
                self.used = self.used + 1;
                PairedAction::Serve
            } else {
                PairedAction::Refuse(
                    HdqsResponse::rejected(HdqsReason::CapacityExhausted, self.connection_epoch),
                )
            },
            PairedEvent::StreamFailed => PairedAction::Finish(Err(IrohConnectionError::Io)),
            PairedEvent::StreamEnded => {
                if self.used > 0 {
                    self.used = self.used - 1;
                }
                PairedAction::Wait
            },
            PairedEvent::Closed => PairedAction::Finish(Ok(())),
        }
    }
}

/// The slots after a sequence of events.
pub open spec fn slots_after(start: SlotsView, events: Seq<PairedEvent>) -> SlotsView
    decreases events.len(),
{
    if events.len() == 0 {
        start
    } else {
        paired_outcome(slots_after(start, events.drop_last()), events.last()).0
    }
}

/// A connection never serves more session streams at once than its limit, whatever arrives.
pub proof fn law_session_streams_are_bounded(start: SlotsView, events: Seq<PairedEvent>)
    requires
        start.used <= start.limit,
    ensures
        slots_after(start, events).used <= start.limit,
        slots_after(start, events).limit == start.limit,
    decreases events.len(),
{
    if events.len() > 0 {
        law_session_streams_are_bounded(start, events.drop_last());
    }
}

/// A stream beyond the limit is refused alone: the connection goes on and the served streams stay.
pub proof fn law_full_connection_refuses_only_the_stream(before: SlotsView)
    requires
        before.used >= before.limit,
    ensures
        paired_outcome(before, PairedEvent::StreamOpened).0 == before,
        paired_outcome(before, PairedEvent::StreamOpened).1 is Refuse,
{
}

/// One reply on the control stream.
pub struct HdqmReply {
    /// Kind of the reply frame.
    pub kind: HdqmKind,
    /// Correlation identifier of the answered frame.
    pub request_id: [u8; 16],
    /// Payload of the reply frame.
    pub body: ReplyBody,
}

/// What has to be done next for one control frame.
pub enum HdqmStep {
    /// Decode the payload of a SESSION_PREPARE frame.
    DecodePrepare,
    /// Decode the payload of a SESSION_OPEN frame.
    DecodeOpen,
    /// Reap expired authorities and ask the registry for this one.
    Prepare {
        /// Requested session.
        session: String,
        /// Fingerprint of the authority.
        fingerprint: [u8; 32],
        /// Configuration generation of the peer.
        configuration_generation: u64,
        /// Secret of the authority.
        token: [u8; 32],
    },
    /// Ask the registry to activate the decoded request.
    Open,
    /// Close one session and cancel its bridge.
    CloseSession {
        /// Handle of the session.
        handle: u16,
    },
    /// Write a reply and go on.
    Reply(HdqmReply),
    /// End the connection.
    Stop,
    /// End the connection with a failure.
    Fail(IrohConnectionError),
}

/// The step answers `frame` with `body` as a frame of `kind`.
pub open spec fn answers(step: HdqmStep, frame: HdqmFrame, kind: HdqmKind, body: ReplyBody) -> bool {
    step == HdqmStep::Reply(HdqmReply { kind, request_id: frame.request_id, body })
}

/// `step` is the decision on a control frame.
pub open spec fn frame_dispatched(step: HdqmStep, frame: HdqmFrame) -> bool {
    match frame.kind {
        HdqmKind::SessionPrepare => step == HdqmStep::DecodePrepare,
        HdqmKind::SessionOpen => step == HdqmStep::DecodeOpen,
        HdqmKind::SessionClose => if frame.payload@.len() == 2 {
            step matches HdqmStep::CloseSession { handle } && handle == crate::bytes::be_value(
                frame.payload@,
            )
        } else {
            step == HdqmStep::Fail(IrohConnectionError::Protocol)
        },
        HdqmKind::Heartbeat => answers(step, frame, HdqmKind::Heartbeat, ReplyBody::Empty),
        HdqmKind::GoAway => step == HdqmStep::Stop,
        _ => answers(step, frame, HdqmKind::ErrorResponse, ReplyBody::Empty),
    }
}

/// Decides on one control frame of a paired peer.
pub fn handle_hdqm_frame(frame: &HdqmFrame) -> (step: HdqmStep)
    ensures
        frame_dispatched(step, *frame),
{
    match frame.kind {
        HdqmKind::SessionPrepare => HdqmStep::DecodePrepare,
        HdqmKind::SessionOpen => HdqmStep::DecodeOpen,
        HdqmKind::SessionClose => {
            if frame.payload.len() != 2 {
                return HdqmStep::Fail(IrohConnectionError::Protocol);
            }
            let value: u64 = read_be(frame.payload.as_slice(), 0, 2);
            proof {
                assert(frame.payload@.subrange(0, 2) =~= frame.payload@);
                crate::bytes::lemma_be_value_bound(frame.payload@);
                reveal_with_fuel(crate::bytes::radix_pow, 3);
            }
            HdqmStep::CloseSession { handle: value as u16 }
        },
        HdqmKind::Heartbeat => HdqmStep::Reply(
            HdqmReply {
                kind: HdqmKind::Heartbeat,
                request_id: frame.request_id,
                body: ReplyBody::Empty,
            },
        ),
        HdqmKind::GoAway => HdqmStep::Stop,
        _ => HdqmStep::Reply(
            HdqmReply {
                kind: HdqmKind::ErrorResponse,
                request_id: frame.request_id,
                body: ReplyBody::Empty,
            },
        ),
    }
}

/// `step` asks the registry for what `request` names, with `drawn` for a fingerprint that the peer
/// leaves open.
pub open spec fn prepares(
    step: HdqmStep,
    request: SessionPrepareRequest,
    drawn: [u8; 32],
    token: [u8; 32],
) -> bool {
    step == (HdqmStep::Prepare {
        session: request.session,
        fingerprint: if crate::bytes::all_zero(request.expected_fingerprint@) {
            drawn
        } else {
            request.expected_fingerprint
        },
        configuration_generation: request.configuration_generation,
        token,
    })
}

/// Decision on a decoded SESSION_PREPARE payload, with the random values at hand.
pub fn prepare_with(
    request: Option<SessionPrepareRequest>,
    drawn: [u8; 32],
    token: [u8; 32],
) -> (step: HdqmStep)
    ensures
        request is None ==> step == HdqmStep::Fail(IrohConnectionError::Protocol),
        request matches Some(decoded) ==> prepares(step, decoded, drawn, token),
{
    match request {
        None => HdqmStep::Fail(IrohConnectionError::Protocol),
        Some(decoded) => {
            let fingerprint = if is_all_zero(&decoded.expected_fingerprint) {
                drawn
            } else {
                decoded.expected_fingerprint
            };
            HdqmStep::Prepare {
                session: decoded.session,
                fingerprint,
                configuration_generation: decoded.configuration_generation,
                token,
            }
        },
    }
}

/// Decision on a decoded SESSION_PREPARE payload; draws the token and, where the peer leaves it
/// open, the fingerprint.
pub fn prepare_decoded(request: Option<SessionPrepareRequest>) -> (step: HdqmStep)
    ensures
        request is None ==> step == HdqmStep::Fail(IrohConnectionError::Protocol),
        request matches Some(decoded) ==> exists|drawn: [u8; 32], token: [u8; 32]|
            prepares(step, decoded, drawn, token),
{
    let drawn = random_32();
    let token = random_32();
    let step = prepare_with(request, drawn, token);
    assert(request matches Some(decoded) ==> prepares(step, decoded, drawn, token));
    step
}

/// Decision on the registry's answer to a prepare call; `None` says that it refused.
pub fn prepare_answered(frame: &HdqmFrame, granted: Option<PreparedSession>) -> (step: HdqmStep)
    ensures
        match granted {
            Some(session) => answers(
                step,
                *frame,
                HdqmKind::SessionPrepareAck,
                ReplyBody::Prepared(session),
            ),
            None => step == HdqmStep::Fail(IrohConnectionError::Protocol),
        },
{
    match granted {
        Some(session) => HdqmStep::Reply(
            HdqmReply {
                kind: HdqmKind::SessionPrepareAck,
                request_id: frame.request_id,
                body: ReplyBody::Prepared(session),
            },
        ),
        None => HdqmStep::Fail(IrohConnectionError::Protocol),
    }
}

/// The step after a request to open a session.
pub open spec fn opened_step(decoded: bool) -> HdqmStep {
    if decoded {
        HdqmStep::Open
    } else {
        HdqmStep::Fail(IrohConnectionError::Protocol)
    }
}

/// Decision on the outcome of decoding a SESSION_OPEN payload.
pub fn open_decoded(decoded: bool) -> (step: HdqmStep)
    ensures
        step == (if decoded {
            HdqmStep::Open
        } else {
            HdqmStep::Fail(IrohConnectionError::Protocol)
        }),
        step == opened_step(decoded),
{
    if decoded {
        HdqmStep::Open
    } else {
        HdqmStep::Fail(IrohConnectionError::Protocol)
    }
}

/// Decision on the registry's answer to an open call.
pub fn open_answered(frame: &HdqmFrame, answer: OpenAnswer) -> (step: HdqmStep)
    ensures
        match answer {
            OpenAnswer::Opened { handle, session } => answers(
                step,
                *frame,
                HdqmKind::SessionOpened,
                (ReplyBody::Opened { handle, session }),
            ),
            OpenAnswer::Refused(response) => answers(
                step,
                *frame,
                HdqmKind::ErrorResponse,
                ReplyBody::Response(response),
            ),
        },
{
    match answer {
        OpenAnswer::Opened { handle, session } => HdqmStep::Reply(
            HdqmReply {
                kind: HdqmKind::SessionOpened,
                request_id: frame.request_id,
                body: ReplyBody::Opened { handle, session },
            },
        ),
        OpenAnswer::Refused(response) => HdqmStep::Reply(
            HdqmReply {
                kind: HdqmKind::ErrorResponse,
                request_id: frame.request_id,
                body: ReplyBody::Response(response),
            },
        ),
    }
}

/// Decision once a session was closed.
pub fn close_finished(frame: &HdqmFrame) -> (step: HdqmStep)
    ensures
        answers(step, *frame, HdqmKind::SessionClosed, ReplyBody::Empty),
{
    HdqmStep::Reply(
        HdqmReply {
            kind: HdqmKind::SessionClosed,
            request_id: frame.request_id,
            body: ReplyBody::Empty,
        },
    )
}

/// What comes of writing a frame.
pub open spec fn write_result(encoded: Option<usize>, written: bool) -> Result<
    (),
    IrohConnectionError,
> {
    if !(encoded matches Some(len) && len <= HDP1_MAX_FRAME_BYTES) {
        Err(IrohConnectionError::Protocol)
    } else if written {
        Ok(())
    } else {
        Err(IrohConnectionError::Io)
    }
}

/// Decides whether a frame may be written: `encoded` is its length, if it can be encoded, and
/// `written` the outcome of writing it.
pub fn frame_written(encoded: Option<usize>, written: bool) -> (result: Result<
    (),
    IrohConnectionError,
>)
    ensures
        match result {
            Ok(_) => encoded matches Some(len) && len <= HDP1_MAX_FRAME_BYTES && written,
            Err(IrohConnectionError::Protocol) => !(encoded matches Some(len) && len
                <= HDP1_MAX_FRAME_BYTES),
            Err(error) => error == IrohConnectionError::Io && (encoded matches Some(len) && len
                <= HDP1_MAX_FRAME_BYTES) && !written,
        },
        result == write_result(encoded, written),
{
    match encoded {
        None => Err(IrohConnectionError::Protocol),
        Some(len) => if len > HDP1_MAX_FRAME_BYTES {
            Err(IrohConnectionError::Protocol)
        } else if written {
            Ok(())
        } else {
            Err(IrohConnectionError::Io)
        },
    }
}

/// How many bytes follow the prefix of a binding.
pub open spec fn tail_length(prefix: Seq<u8>, magic: Seq<u8>, max_name_bytes: usize) -> Result<
    usize,
    IrohConnectionError,
> {
    if prefix.subrange(0, 4) == magic && 0 < prefix[32] <= max_name_bytes {
        Ok((prefix[32] + HDQS_AUTHORITY_BYTES) as usize)
    } else {
        Err(IrohConnectionError::Protocol)
    }
}

/// Reads the session-name length out of an HDQS preface and gives the bytes that still follow.
pub fn hdqs_tail_len(prefix: &[u8; 33], magic: &[u8; 4], max_name_bytes: usize) -> (length: Result<
    usize,
    IrohConnectionError,
>)
    ensures
        length == (if prefix@.subrange(0, 4) == magic@ && 0 < prefix@[32] <= max_name_bytes {
            Ok::<usize, IrohConnectionError>((prefix@[32] + HDQS_AUTHORITY_BYTES) as usize)
        } else {
            Err(IrohConnectionError::Protocol)
        }),
        length == tail_length(prefix@, magic@, max_name_bytes),
{
    if !same_bytes(vstd::slice::slice_subrange(prefix.as_slice(), 0, 4), magic) {
        return Err(IrohConnectionError::Protocol);
    }
    let name_len: usize = prefix[32] as usize;
    if name_len == 0 || name_len > max_name_bytes {
        return Err(IrohConnectionError::Protocol);
    }
    Ok(name_len + HDQS_AUTHORITY_BYTES)
}

/// What has to be done next on a session stream.
#[derive(Clone, Copy, Debug, Eq, PartialEq, Structural)]
pub enum SessionStep {
    /// Ask the registry to accept the binding.
    Bind,
    /// Validate the upstream socket and connect to it.
    Connect,
    /// Enter the stream for cancellation.
    Register,
    /// Write the acceptance.
    Accept,
    /// Run the bridge until it ends or is cancelled.
    Bridge,
    /// Write a refusal and finish the stream, after releasing the binding if `release` is set.
    Refuse {
        /// The refusal.
        response: HdqsResponse,
        /// The binding is released first.
        release: bool,
    },
    /// Release the binding, remove the cancellation entry and end the stream.
    Finish,
    /// End the stream with a failure, after releasing the binding if `unbind` is set.
    Fail {
        /// The failure.
        error: IrohConnectionError,
        /// The binding is released first.
        unbind: bool,
    },
}

/// How reading a binding ended.
#[derive(Clone, Copy, Debug, Eq, PartialEq, Structural)]
pub enum BindingOutcome {
    /// The deadline passed.
    TimedOut,
    /// The stream failed or the binding is malformed.
    Malformed,
    /// A binding came.
    Read,
}

/// What the outside answers on a session stream.
pub struct SessionAnswers {
    /// How reading the binding ended.
    pub binding: BindingOutcome,
    /// Answer of the registry.
    pub response: HdqsResponse,
    /// A connector is configured, its socket is the expected one and accepts the connection.
    pub connected: bool,
    /// Epoch of the connection.
    pub connection_epoch: u64,
    /// The handle is already entered for cancellation.
    pub duplicate: bool,
    /// Outcome of writing the acceptance.
    pub written: Result<(), IrohConnectionError>,
}

/// The decision that follows `step`.
pub open spec fn session_next(step: SessionStep, answers: SessionAnswers) -> SessionStep {
    match step {
        SessionStep::Bind => match answers.response {
            HdqsResponse::Accepted { .. } => SessionStep::Connect,
            HdqsResponse::Rejected { .. } => SessionStep::Refuse {
                response: answers.response,
                release: false,
            },
        },
        SessionStep::Connect => if answers.connected {
            SessionStep::Register
        } else {
            SessionStep::Refuse {
                response: HdqsResponse::Rejected {
                    reason: HdqsReason::SocketUnavailable,
                    connection_epoch: answers.connection_epoch,
                },
                release: true,
            }
        },
        SessionStep::Register => if answers.duplicate {
            SessionStep::Fail { error: IrohConnectionError::Protocol, unbind: true }
        } else {
            SessionStep::Accept
        },
        SessionStep::Accept => match answers.written {
            Ok(_) => SessionStep::Bridge,
            Err(error) => SessionStep::Fail { error, unbind: false },
        },
        SessionStep::Bridge => SessionStep::Finish,
        done => done,
    }
}

/// The decision on a binding.
pub open spec fn session_first(binding: BindingOutcome) -> SessionStep {
    match binding {
        BindingOutcome::TimedOut => SessionStep::Fail {
            error: IrohConnectionError::Timeout,
            unbind: false,
        },
        BindingOutcome::Malformed => SessionStep::Fail {
            error: IrohConnectionError::Protocol,
            unbind: false,
        },
        BindingOutcome::Read => SessionStep::Bind,
    }
}

/// Decides how a session stream starts.
pub fn session_start(binding: BindingOutcome) -> (step: SessionStep)
    ensures
        step == session_first(binding),
{
    match binding {
        BindingOutcome::TimedOut => SessionStep::Fail {
            error: IrohConnectionError::Timeout,
            unbind: false,
        },
        BindingOutcome::Malformed => SessionStep::Fail {
            error: IrohConnectionError::Protocol,
            unbind: false,
        },
        BindingOutcome::Read => SessionStep::Bind,
    }
}

/// Decides how a session stream goes on once `step` was done; `answers` holds what came of it.
pub fn run_session_stream(step: SessionStep, answers: &SessionAnswers) -> (next: SessionStep)
    ensures
        next == session_next(step, *answers),
{
    match step {
        SessionStep::Bind => match answers.response {
            HdqsResponse::Accepted { .. } => SessionStep::Connect,
            HdqsResponse::Rejected { .. } => SessionStep::Refuse {
                response: answers.response,
                release: false,
            },
        },
        SessionStep::Connect => if answers.connected {
            SessionStep::Register
        } else {
            SessionStep::Refuse {
                response: HdqsResponse::rejected(
                    HdqsReason::SocketUnavailable,
                    answers.connection_epoch,
                ),
                release: true,
            }
        },
        SessionStep::Register => if answers.duplicate {
            SessionStep::Fail { error: IrohConnectionError::Protocol, unbind: true }
        } else {
            SessionStep::Accept
        },
        SessionStep::Accept => match answers.written {
            Ok(_) => SessionStep::Bridge,
            Err(error) => SessionStep::Fail { error, unbind: false },
        },
        SessionStep::Bridge => SessionStep::Finish,
        done => done,
    }
}

/// How a session stream comes to rest when the outside answers like this throughout.
pub open spec fn session_outcome(answers: SessionAnswers) -> SessionStep {
    let bind = session_next(session_first(answers.binding), answers);
    let connect = session_next(bind, answers);
    let register = session_next(connect, answers);
    let accept = session_next(register, answers);
    session_next(accept, answers)
}

/// A stream runs its bridge exactly if the registry accepted its binding, the upstream socket was
/// validated and connected, its handle was free and the acceptance was written. A socket that
/// cannot be reached releases the binding.
pub proof fn law_bridge_needs_authority(answers: SessionAnswers)
    ensures
        session_outcome(answers) == SessionStep::Finish <==> {
            &&& answers.binding == BindingOutcome::Read
            &&& answers.response is Accepted
            &&& answers.connected
            &&& !answers.duplicate
            &&& answers.written is Ok
        },
        answers.binding == BindingOutcome::Read && answers.response is Accepted
            && !answers.connected ==> session_outcome(answers) == (SessionStep::Refuse {
            response: HdqsResponse::Rejected {
                reason: HdqsReason::SocketUnavailable,
                connection_epoch: answers.connection_epoch,
            },
            release: true,
        }),
{
}

/// A refused binding is answered as the registry answered it, and no authority is released.
pub proof fn law_refused_binding_is_answered(answers: SessionAnswers)
    requires
        answers.binding == BindingOutcome::Read,
        answers.response is Rejected,
    ensures
        session_outcome(answers) == (SessionStep::Refuse {
            response: answers.response,
            release: false,
        }),
{
}

/// The number of streams that a run has served.
pub open spec fn streams_served(start: SlotsView, events: Seq<PairedEvent>) -> nat
    decreases events.len(),
{
    if events.len() == 0 {
        0
    } else {
        let earlier = events.drop_last();
        streams_served(start, earlier) + if paired_outcome(
            slots_after(start, earlier),
            events.last(),
        ).1 is Serve {
            1nat
        } else {
            0nat
        }
    }
}

/// The number of streams that ended.
pub open spec fn streams_ended(events: Seq<PairedEvent>) -> nat
    decreases events.len(),
{
    if events.len() == 0 {
        0
    } else {
        streams_ended(events.drop_last()) + if events.last() is StreamEnded {
            1nat
        } else {
            0nat
        }
    }
}

/// At no point more streams have ended than were served.
pub open spec fn ends_are_served(start: SlotsView, events: Seq<PairedEvent>) -> bool {
    forall|n: int|
        0 <= n <= events.len() ==> streams_ended(#[trigger] events.take(n)) <= streams_served(
            start,
            events.take(n),
        )
}

/// A slot is used by each stream from its start to its own end: the used slots are the streams that
/// were served and have not ended, and those are never more than the limit.
pub proof fn law_each_stream_uses_one_slot(
    limit: usize,
    connection_epoch: u64,
    events: Seq<PairedEvent>,
)
    requires
        ends_are_served(SlotsView { used: 0, limit, connection_epoch }, events),
    ensures
        ({
            let start = SlotsView { used: 0, limit, connection_epoch };
            &&& slots_after(start, events).used + streams_ended(events) == streams_served(
                start,
                events,
            )
            &&& streams_served(start, events) - streams_ended(events) <= limit
            &&& slots_after(start, events).limit == limit
            &&& slots_after(start, events).connection_epoch == connection_epoch
        }),
    decreases events.len(),
{
    let start = SlotsView { used: 0, limit, connection_epoch };
    if events.len() > 0 {
        let earlier = events.drop_last();
        assert forall|n: int| 0 <= n <= earlier.len() implies streams_ended(
            #[trigger] earlier.take(n),
        ) <= streams_served(start, earlier.take(n)) by {
            assert(earlier.take(n) =~= events.take(n));
        }
        law_each_stream_uses_one_slot(limit, connection_epoch, earlier);
        assert(events.take(events.len() as int) =~= events);
        assert(streams_ended(events.take(events.len() as int)) <= streams_served(
            start,
            events.take(events.len() as int),
        ));
    }
}

/// A stream is served exactly while fewer streams than the limit are, and any other stream is refused
/// for want of capacity under the epoch of the connection. Only the start of a served stream takes a
/// slot, and only the end of one gives it back.
pub proof fn law_streams_are_served_while_slots_are_free(before: SlotsView, event: PairedEvent)
    ensures
        ({
            let (after, action) = paired_outcome(before, event);
            &&& action is Serve <==> event is StreamOpened && before.used < before.limit
            &&& action is Refuse <==> event is StreamOpened && before.used >= before.limit
            &&& action is Refuse ==> action == PairedAction::Refuse(
                HdqsResponse::Rejected {
                    reason: HdqsReason::CapacityExhausted,
                    connection_epoch: before.connection_epoch,
                },
            )
            &&& action is Serve ==> after.used == before.used + 1
            &&& event is StreamEnded && before.used > 0 ==> after.used == before.used - 1
            &&& !(action is Serve) && !(event is StreamEnded) ==> after.used == before.used
            &&& after.limit == before.limit
            &&& after.connection_epoch == before.connection_epoch
        }),
{
}

/// What ends a paired connection: the end or the failure of its control stream, a frame that says so or
/// that fails, a failure to accept streams, and its close. Neither a stream that comes nor one that ends
/// does, and a failure is reported as it is.
pub proof fn law_only_control_ends_the_connection(before: SlotsView, event: PairedEvent)
    ensures
        ({
            let action = paired_outcome(before, event).1;
            &&& action is Finish <==> (event is ControlEnded || event is ControlFailed
                || event is FrameFailed || event is StreamFailed || event is Closed || (
            event matches PairedEvent::FrameHandled { stop } && stop))
            &&& event is ControlEnded || event is Closed || event is FrameHandled ==> !(action
                matches PairedAction::Finish(Err(_)))
            &&& event is ControlFailed ==> action == PairedAction::Finish(
                Err(IrohConnectionError::Protocol),
            )
            &&& event is StreamFailed ==> action == PairedAction::Finish(
                Err(IrohConnectionError::Io),
            )
            &&& event matches PairedEvent::FrameFailed(error) ==> action == PairedAction::Finish(
                Err(error),
            )
            &&& event is StreamEnded ==> action == PairedAction::Wait
            &&& event == (PairedEvent::FrameHandled { stop: false }) ==> action
                == PairedAction::Wait
        }),
{
}

/// Every control frame has one decision: session frames are decoded or closed, a heartbeat is echoed,
/// a farewell ends the connection, and any other frame is answered with an error. A reply carries the
/// identifier of its frame.
pub proof fn law_control_frames_are_dispatched(step: HdqmStep, frame: HdqmFrame)
    requires
        frame_dispatched(step, frame),
    ensures
        step is DecodePrepare <==> frame.kind == HdqmKind::SessionPrepare,
        step is DecodeOpen <==> frame.kind == HdqmKind::SessionOpen,
        step is CloseSession <==> frame.kind == HdqmKind::SessionClose && frame.payload@.len() == 2,
        step matches HdqmStep::CloseSession { handle } ==> handle == frame.payload@[0] * 256
            + frame.payload@[1],
        step is Fail <==> frame.kind == HdqmKind::SessionClose && frame.payload@.len() != 2,
        step is Stop <==> frame.kind == HdqmKind::GoAway,
        step matches HdqmStep::Reply(reply) ==> {
            &&& reply.request_id == frame.request_id
            &&& reply.body == ReplyBody::Empty
            &&& frame.kind == HdqmKind::Heartbeat ==> reply.kind == HdqmKind::Heartbeat
            &&& frame.kind != HdqmKind::Heartbeat ==> reply.kind == HdqmKind::ErrorResponse
        },
        step is Reply <==> frame.kind != HdqmKind::SessionPrepare && frame.kind
            != HdqmKind::SessionOpen && frame.kind != HdqmKind::SessionClose && frame.kind
            != HdqmKind::GoAway,
{
    reveal_with_fuel(crate::bytes::be_value, 3);
    if frame.payload@.len() == 2 {
        let payload = frame.payload@;
        assert(payload.drop_last().drop_last() =~= Seq::empty());
        assert(payload.drop_last().last() == payload[0]);
    }
}

/// What is asked of the registry is what the peer named: its session, its generation and its
/// fingerprint, and a drawn fingerprint exactly where the peer left it open.
pub proof fn law_prepared_request_is_the_named_one(
    step: HdqmStep,
    request: SessionPrepareRequest,
    drawn: [u8; 32],
    token: [u8; 32],
)
    requires
        prepares(step, request, drawn, token),
    ensures
        step matches HdqmStep::Prepare {
            session,
            fingerprint,
            configuration_generation,
            token: granted,
        } && {
            &&& session == request.session
            &&& configuration_generation == request.configuration_generation
            &&& granted == token
            &&& (exists|i: int| 0 <= i < 32 && #[trigger] request.expected_fingerprint@[i] != 0)
                ==> fingerprint == request.expected_fingerprint
            &&& (forall|i: int| 0 <= i < 32 ==> #[trigger] request.expected_fingerprint@[i] == 0)
                ==> fingerprint == drawn
        },
{
}

/// A reply carries the identifier of the frame that it answers, and its kind and payload.
pub proof fn law_reply_answers_its_frame(
    step: HdqmStep,
    frame: HdqmFrame,
    kind: HdqmKind,
    body: ReplyBody,
)
    requires
        answers(step, frame, kind, body),
    ensures
        step matches HdqmStep::Reply(reply) && reply.request_id == frame.request_id && reply.kind
            == kind && reply.body == body,
{
}

/// How each session stream ends: without a binding it fails and releases nothing; with a handle that is
/// taken it fails and is released; with an acceptance that cannot be written it fails as the write
/// did.
pub proof fn law_session_failures_are_told_apart(answers: SessionAnswers)
    ensures
        answers.binding == BindingOutcome::TimedOut ==> session_outcome(answers) == (
        SessionStep::Fail { error: IrohConnectionError::Timeout, unbind: false }),
        answers.binding == BindingOutcome::Malformed ==> session_outcome(answers) == (
        SessionStep::Fail { error: IrohConnectionError::Protocol, unbind: false }),
        answers.binding == BindingOutcome::Read && answers.response is Accepted
            && answers.connected && answers.duplicate ==> session_outcome(answers) == (
        SessionStep::Fail { error: IrohConnectionError::Protocol, unbind: true }),
        answers.binding == BindingOutcome::Read && answers.response is Accepted
            && answers.connected && !answers.duplicate ==> (answers.written matches Err(failure)
            ==> session_outcome(answers) == (SessionStep::Fail { error: failure, unbind: false })),
{
}

/// The steps of a session stream come in their order: none is left out, and the outside is asked only
/// for what the step before allows.
pub proof fn law_session_steps_are_in_order(step: SessionStep, answers: SessionAnswers)
    ensures
        ({
            let next = session_next(step, answers);
            &&& next is Connect <==> step is Bind
                && answers.response is Accepted
            &&& next is Register <==> step is Connect && answers.connected
            &&& next is Accept <==> step is Register && !answers.duplicate
            &&& next is Bridge <==> step is Accept && answers.written is Ok
            &&& step is Bridge ==> next is Finish
            &&& step is Finish || step is Refuse || step is Fail ==> next == step
            &&& !(next is Bind)
        }),
{
}

/// A session stream is bound if and only if its binding was read; one that came too late is told apart
/// from one that is malformed, and nothing has to be unbound for either.
pub proof fn law_sessions_start_with_a_binding(binding: BindingOutcome)
    ensures
        session_first(binding) == SessionStep::Bind <==> binding == BindingOutcome::Read,
        binding == BindingOutcome::TimedOut ==> session_first(binding) == (SessionStep::Fail {
            error: IrohConnectionError::Timeout,
            unbind: false,
        }),
        binding == BindingOutcome::Malformed ==> session_first(binding) == (SessionStep::Fail {
            error: IrohConnectionError::Protocol,
            unbind: false,
        }),
{
}

/// A refused session is told its refusal, and is released if and only if it had been bound: by the
/// registry nothing was bound, by a missing socket it was. A session that is there already has to be
/// unbound, one whose acceptance could not be written does not.
pub proof fn law_refused_sessions_are_released(step: SessionStep, answers: SessionAnswers)
    ensures
        step is Bind && answers.response is Rejected ==> session_next(step, answers) == (
        SessionStep::Refuse { response: answers.response, release: false }),
        step is Connect && !answers.connected ==> session_next(step, answers) == (
        SessionStep::Refuse {
            response: HdqsResponse::Rejected {
                reason: HdqsReason::SocketUnavailable,
                connection_epoch: answers.connection_epoch,
            },
            release: true,
        }),
        step is Register && answers.duplicate ==> session_next(step, answers) == (
        SessionStep::Fail { error: IrohConnectionError::Protocol, unbind: true }),
        step is Accept ==> (answers.written matches Err(error) ==> session_next(step, answers) == (
        SessionStep::Fail { error, unbind: false })),
{
}

/// A frame is written if and only if it could be encoded within its bound and the stream took it; only
/// the stream fails with a failure of the host.
pub proof fn law_frames_are_written_within_their_bound(encoded: Option<usize>, written: bool)
    ensures
        write_result(encoded, written) is Ok <==> (encoded matches Some(len) && len <= 65536)
            && written,
        write_result(encoded, written) == Err::<(), IrohConnectionError>(
            IrohConnectionError::Protocol,
        ) <==> !(encoded matches Some(len) && len <= 65536),
        write_result(encoded, written) is Err && (encoded matches Some(len) && len <= 65536)
            ==> write_result(encoded, written) == Err::<(), IrohConnectionError>(
            IrohConnectionError::Io,
        ),
        opened_step(true) == HdqmStep::Open,
        opened_step(false) == HdqmStep::Fail(IrohConnectionError::Protocol),
{
}

/// A binding is read on if and only if it starts with its letters and names a session of an allowed
/// length; what follows is the name and 64 bytes of authority.
pub proof fn law_bindings_announce_their_name(
    prefix: Seq<u8>,
    magic: Seq<u8>,
    max_name_bytes: usize,
)
    requires
        prefix.len() == 33,
    ensures
        tail_length(prefix, magic, max_name_bytes) is Ok <==> prefix.subrange(0, 4) == magic && 1
            <= prefix[32] <= max_name_bytes,
        tail_length(prefix, magic, max_name_bytes) matches Ok(length) ==> length == prefix[32] + 64,
{
}

} // verus!
