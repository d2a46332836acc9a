//! The pairing exchange on the control stream of one connection.

use crate::iroh_endpoint::hdp::{HdpFrame, HdpKind};
use crate::iroh_endpoint::pairing::IrohRelayState;
use crate::iroh_endpoint::workspace::PAIRING_CHALLENGE_TTL;
use vstd::prelude::*;

verus! {

/// Failures that end a connection.
#[derive(Clone, Copy, Debug, Eq, PartialEq, Structural)]
pub enum IrohConnectionError {
    /// A bounded control or session read or write failed.
    Io,
    /// A control or session frame failed validation.
    Protocol,
    /// A control operation exceeded its deadline.
    Timeout,
}

/// What has to be done next in a pairing exchange.
pub enum ExchangeStep {
    /// Send PAIRING_REJECTED with this reason and read the next frame.
    Reject {
        /// Reason on the wire.
        reason: u8,
    },
    /// Send PAIRING_REJECTED with this reason and close the connection.
    RejectAndClose {
        /// Reason on the wire.
        code: u8,
        /// Reason given when the connection is closed.
        closing: &'static str,
    },
    /// Ask the verifier to begin a challenge.
    BeginChallenge,
    /// Ask the verifier about a code.
    VerifyCode {
        /// The code.
        digits: [u8; 6],
    },
    /// Send PAIRING_ACCEPTED and CONNECTION_READY, and serve sessions.
    Accept,
    /// End the connection.
    End,
}

/// Mathematical value of a step.
#[verifier::ext_equal]
pub enum StepView {
    /// Reject and go on.
    Reject(u8),
    /// Reject and close.
    RejectAndClose(u8, &'static str),
    /// Begin a challenge.
    BeginChallenge,
    /// Verify a code.
    VerifyCode(Seq<u8>),
    /// Serve sessions.
    Accept,
    /// End the connection.
    End,
}

impl View for ExchangeStep {
    type V = StepView;

    open spec fn view(&self) -> StepView {
        match self {
            ExchangeStep::Reject { reason } => StepView::Reject(*reason),
            ExchangeStep::RejectAndClose { code, closing } => StepView::RejectAndClose(
                *code,
                *closing,
            ),
            ExchangeStep::BeginChallenge => StepView::BeginChallenge,
            ExchangeStep::VerifyCode { digits } => StepView::VerifyCode(digits@),
            ExchangeStep::Accept => StepView::Accept,
            ExchangeStep::End => StepView::End,
        }
    }
}

/// Mathematical value of an exchange.
pub struct ExchangeView {
    /// The peer is paired.
    pub paired: bool,
    /// PAIRING_START was taken.
    pub started: bool,
    /// End of the wait for a code, in nanoseconds of the monotonic clock.
    pub deadline: Option<u64>,
}

/// An exchange, the admission state and the next step.
pub struct ExchangeOutcome {
    /// The exchange.
    pub exchange: ExchangeView,
    /// The admission state.
    pub relay: crate::iroh_endpoint::pairing::RelayStateView,
    /// The next step.
    pub step: StepView,
}

/// The bytes are six decimal digits.
pub open spec fn is_code(payload: Seq<u8>) -> bool {
    payload.len() == 6 && forall|i: int| 0 <= i < 6 ==> 48 <= #[trigger] payload[i] <= 57
}

/// What a frame leads to.
pub open spec fn frame_outcome(
    exchange: ExchangeView,
    relay: crate::iroh_endpoint::pairing::RelayStateView,
    peer: Seq<u8>,
    frame: crate::iroh_endpoint::hdp::HdpFrameView,
    now: u64,
) -> ExchangeOutcome {
    let unchanged = ExchangeOutcome { exchange, relay, step: StepView::Reject(5) };
    match frame.kind {
        HdpKind::PairingStart => if exchange.started || frame.payload.len() > 0 {
            unchanged
        } else if exchange.paired {
            ExchangeOutcome {
                exchange: ExchangeView { started: true, ..exchange },
                step: StepView::Accept,
                ..unchanged
            }
        } else {
            let (reserved, granted) = crate::iroh_endpoint::pairing::challenge_reserved(
                relay,
                peer,
                now,
            );
            ExchangeOutcome {
                relay: reserved,
                step: if granted {
                    StepView::BeginChallenge
                } else {
                    StepView::Reject(3)
                },
                ..unchanged
            }
        },
        HdpKind::PairingSubmit => if !exchange.started {
            ExchangeOutcome {
                step: StepView::RejectAndClose(5, "pairing start missing"),
                ..unchanged
            }
        } else if is_code(frame.payload) {
            ExchangeOutcome { step: StepView::VerifyCode(frame.payload), ..unchanged }
        } else {
            let (recorded, may_continue) = crate::iroh_endpoint::pairing::failure_recorded(
                relay,
                peer,
                now,
            );
            ExchangeOutcome {
                relay: recorded,
                step: if may_continue {
                    StepView::Reject(2)
                } else {
                    StepView::RejectAndClose(4, "pairing budget exhausted")
                },
                ..unchanged
            }
        },
        HdpKind::GoAway => ExchangeOutcome { step: StepView::End, ..unchanged },
        HdpKind::PairingAccepted
        | HdpKind::PairingRejected
        | HdpKind::ConnectionReady => unchanged,
    }
}

/// What the verifier's answer to a challenge leads to.
pub open spec fn begun_outcome(exchange: ExchangeView, begun: bool, now: u64) -> (
    ExchangeView,
    StepView,
) {
    if begun && now + PAIRING_CHALLENGE_TTL <= u64::MAX {
        (
            ExchangeView {
                started: true,
                deadline: Some((now + PAIRING_CHALLENGE_TTL) as u64),
                ..exchange
            },
            StepView::Reject(1),
        )
    } else {
        (exchange, StepView::Reject(3))
    }
}

/// What the verifier's answer to a code leads to.
pub open spec fn verified_outcome(
    exchange: ExchangeView,
    relay: crate::iroh_endpoint::pairing::RelayStateView,
    peer: Seq<u8>,
    accepted: bool,
    now: u64,
) -> ExchangeOutcome {
    if accepted {
        let (paired, marked) = crate::iroh_endpoint::pairing::marked_paired(relay, peer, now);
        if marked {
            ExchangeOutcome {
                exchange: ExchangeView { paired: true, ..exchange },
                relay: paired,
                step: StepView::Accept,
            }
        } else {
            ExchangeOutcome {
                exchange,
                relay: paired,
                step: StepView::RejectAndClose(4, "pairing capacity"),
            }
        }
    } else {
        let (recorded, may_continue) = crate::iroh_endpoint::pairing::failure_recorded(
            relay,
            peer,
            now,
        );
        ExchangeOutcome {
            exchange,
            relay: recorded,
            step: if may_continue {
                StepView::Reject(3)
            } else {
                StepView::RejectAndClose(4, "pairing budget exhausted")
            },
        }
    }
}

/// The state of a pairing exchange.
pub struct PairingExchange {
    paired: bool,
    started: bool,
    deadline: Option<u64>,
}

impl View for PairingExchange {
    type V = ExchangeView;

    closed spec fn view(&self) -> ExchangeView {
        ExchangeView { paired: self.paired, started: self.started, deadline: self.deadline }
    }
}

fn read_code(payload: &[u8]) -> (code: Option<[u8; 6]>)
    ensures
        match code {
            Some(digits) => is_code(payload@) && digits@ == payload@,
            None => !is_code(payload@),
        },
{
    if payload.len() != 6 {
        return None;
    }
    let mut digits: [u8; 6] = [0u8;6];
    let mut i: usize = 0;
    while i < 6
        invariant
            payload@.len() == 6,
            i <= 6,
            forall|j: int| 0 <= j < i ==> 48 <= #[trigger] payload@[j] <= 57,
            forall|j: int| 0 <= j < i ==> digits@[j] == payload@[j],
        decreases 6 - i,
    {
        let digit: u8 = payload[i];
        if digit < 48 || digit > 57 {
            assert(!(48 <= payload@[i as int] <= 57));
            return None;
        }
        digits[i] = digit;
        i = i + 1;
    }
    assert(digits@ =~= payload@);
    Some(digits)
}

/// How long the next frame is waited for.
pub open spec fn frame_wait(exchange: ExchangeView, now: u64, control_timeout: u64) -> u64 {
    match exchange.deadline {
        Some(deadline) => if now < deadline {
            (deadline - now) as u64
        } else {
            0
        },
        None => control_timeout,
    }
}

impl PairingExchange {
    /// The exchange of a connection whose control stream was just accepted.
    pub fn start(relay: &IrohRelayState, peer: &[u8; 32]) -> (exchange: Self)
        requires
            relay.wf(),
        ensures
            exchange@ == (ExchangeView {
                paired: relay@.is_paired(peer@),
                started: false,
                deadline: None,
            }),
    {
        PairingExchange { paired: relay.is_paired(peer), started: false, deadline: None }
    }

    /// How long to wait for the next frame, in nanoseconds: the human's time while a code is
    /// awaited, and the control timeout otherwise.
    pub fn read_timeout(&self, now: u64, control_timeout: u64) -> (nanos: u64)
        ensures
            nanos == (match self@.deadline {
                None => control_timeout as int,
                Some(deadline) => if deadline > now {
                    deadline - now
                } else {
                    0
                },
            }),
            nanos == frame_wait(self@, now, control_timeout),
    {
        match self.deadline {
            None => control_timeout,
            Some(deadline) => deadline.saturating_sub(now),
        }
    }

    /// Decides on a frame of the peer.
    pub fn on_frame(
        &mut self,
        relay: &mut IrohRelayState,
        peer: [u8; 32],
        frame: &HdpFrame,
        now: u64,
    ) -> (step: ExchangeStep)
        requires
            old(relay).wf(),
        ensures
            final(relay).wf(),
            (ExchangeOutcome { exchange: final(self)@, relay: final(relay)@, step: step@ })
                == frame_outcome(old(self)@, old(relay)@, peer@, frame@, now),
    {
        match frame.kind() {
            HdpKind::PairingStart => {
                if self.started || frame.payload_len() > 0 {
                    return ExchangeStep::Reject { reason: 5 };
                }
                if self.paired {
                    self.started = true;
                    return ExchangeStep::Accept;
                }
                if relay.reserve_pairing_challenge(peer, now) {
                    ExchangeStep::BeginChallenge
                } else {
                    ExchangeStep::Reject { reason: 3 }
                }
            },
            HdpKind::PairingSubmit => {
                if !self.started {
                    return ExchangeStep::RejectAndClose {
                        code: 5,
                        closing: "pairing start missing",
                    };
                }
                match read_code(frame.payload()) {
                    Some(digits) => ExchangeStep::VerifyCode { digits },
                    None => {
                        if relay.record_pairing_failure(peer, now) {
                            ExchangeStep::Reject { reason: 2 }
                        } else {
                            ExchangeStep::RejectAndClose {
                                code: 4,
                                closing: "pairing budget exhausted",
                            }
                        }
                    },
                }
            },
            HdpKind::GoAway => ExchangeStep::End,
            HdpKind::PairingAccepted
            | HdpKind::PairingRejected
            | HdpKind::ConnectionReady => ExchangeStep::Reject { reason: 5 },
        }
    }

    /// Decides on the verifier's answer to a challenge; no answer in time counts as a refusal.
    pub fn on_begun(&mut self, begun: bool, now: u64) -> (step: ExchangeStep)
        ensures
            (final(self)@, step@) == begun_outcome(old(self)@, begun, now),
    {
        if begun {
            if let Some(deadline) = now.checked_add(PAIRING_CHALLENGE_TTL) {
                self.deadline = Some(deadline);
                self.started = true;
                return ExchangeStep::Reject { reason: 1 };
            }
        }
        ExchangeStep::Reject { reason: 3 }
    }

    /// Decides on the verifier's answer to a code; no answer in time counts as a refusal.
    pub fn on_verified(
        &mut self,
        relay: &mut IrohRelayState,
        peer: [u8; 32],
        accepted: bool,
        now: u64,
    ) -> (step: ExchangeStep)
        requires
            old(relay).wf(),
        ensures
            final(relay).wf(),
            (ExchangeOutcome { exchange: final(self)@, relay: final(relay)@, step: step@ })
                == verified_outcome(old(self)@, old(relay)@, peer@, accepted, now),
    {
        if accepted {
            if relay.mark_paired(peer, now) {
                self.paired = true;
                ExchangeStep::Accept
            } else {
                ExchangeStep::RejectAndClose { code: 4, closing: "pairing capacity" }
            }
        } else if relay.record_pairing_failure(peer, now) {
            ExchangeStep::Reject { reason: 3 }
        } else {
            ExchangeStep::RejectAndClose { code: 4, closing: "pairing budget exhausted" }
        }
    }
}

/// The failure of waiting for a frame or a stream.
pub fn wait_failure(timed_out: bool, otherwise: IrohConnectionError) -> (error: IrohConnectionError)
    ensures
        error == (if timed_out {
            IrohConnectionError::Timeout
        } else {
            otherwise
        }),
{
    if timed_out {
        IrohConnectionError::Timeout
    } else {
        otherwise
    }
}

/// What comes from outside during an exchange.
pub enum ExchangeEvent {
    /// A frame of the peer.
    Frame(crate::iroh_endpoint::hdp::HdpFrameView, u64),
    /// The verifier's answer to a challenge.
    Begun(bool, u64),
    /// The verifier's answer to a code.
    Verified(bool, u64),
}

/// An exchange under way.
pub struct ExchangeRun {
    /// The exchange.
    pub exchange: ExchangeView,
    /// The admission state.
    pub relay: crate::iroh_endpoint::pairing::RelayStateView,
    /// The step that was decided last, if any.
    pub step: Option<StepView>,
}

/// The run that starts on a fresh control stream.
pub open spec fn fresh_run(
    relay: crate::iroh_endpoint::pairing::RelayStateView,
    peer: Seq<u8>,
) -> ExchangeRun {
    ExchangeRun {
        exchange: ExchangeView { paired: relay.is_paired(peer), started: false, deadline: None },
        relay,
        step: None,
    }
}

/// The event answers the step that was decided last.
pub open spec fn awaited(run: ExchangeRun, event: ExchangeEvent) -> bool {
    match event {
        ExchangeEvent::Frame(_, _) => run.step is None || run.step->Some_0 is Reject,
        ExchangeEvent::Begun(_, _) => run.step == Some(StepView::BeginChallenge),
        ExchangeEvent::Verified(_, _) => run.step is Some && run.step->Some_0 is VerifyCode,
    }
}

/// The run after an event.
pub open spec fn advanced(run: ExchangeRun, peer: Seq<u8>, event: ExchangeEvent) -> ExchangeRun {
    match event {
        ExchangeEvent::Frame(frame, now) => {
            let outcome = frame_outcome(run.exchange, run.relay, peer, frame, now);
            ExchangeRun {
                exchange: outcome.exchange,
                relay: outcome.relay,
                step: Some(outcome.step),
            }
        },
        ExchangeEvent::Begun(begun, now) => {
            let (exchange, step) = begun_outcome(run.exchange, begun, now);
            ExchangeRun { exchange, relay: run.relay, step: Some(step) }
        },
        ExchangeEvent::Verified(accepted, now) => {
            let outcome = verified_outcome(run.exchange, run.relay, peer, accepted, now);
            ExchangeRun {
                exchange: outcome.exchange,
                relay: outcome.relay,
                step: Some(outcome.step),
            }
        },
    }
}

/// The run after a sequence of events.
pub open spec fn run_of(start: ExchangeRun, peer: Seq<u8>, events: Seq<ExchangeEvent>) -> ExchangeRun
    decreases events.len(),
{
    if events.len() == 0 {
        start
    } else {
        advanced(run_of(start, peer, events.drop_last()), peer, events.last())
    }
}

/// Every event answers the step before it.
pub open spec fn run_proper(start: ExchangeRun, peer: Seq<u8>, events: Seq<ExchangeEvent>) -> bool
    decreases events.len(),
{
    events.len() == 0 || (run_proper(start, peer, events.drop_last()) && awaited(
        run_of(start, peer, events.drop_last()),
        events.last(),
    ))
}

/// Some event says that the verifier began a challenge.
pub open spec fn challenged(events: Seq<ExchangeEvent>) -> bool {
    exists|i: int|
        0 <= i < events.len() && ((#[trigger] events[i]) matches ExchangeEvent::Begun(true, _))
}

/// Sessions are served only to a paired peer: it was paired before, or a challenge was begun for it
/// in this exchange and the verifier accepted its code. The admission state then holds the peer as
/// paired.
pub proof fn law_sessions_need_pairing(
    relay: crate::iroh_endpoint::pairing::RelayStateView,
    peer: Seq<u8>,
    events: Seq<ExchangeEvent>,
)
    requires
        run_proper(fresh_run(relay, peer), peer, events),
        run_of(fresh_run(relay, peer), peer, events).step == Some(StepView::Accept),
    ensures
        run_of(fresh_run(relay, peer), peer, events).relay.is_paired(peer),
        !relay.is_paired(peer) ==> challenged(events) && (events.last() matches
            ExchangeEvent::Verified(true, _)),
{
    lemma_run(relay, peer, events);
}

proof fn lemma_run(
    relay: crate::iroh_endpoint::pairing::RelayStateView,
    peer: Seq<u8>,
    events: Seq<ExchangeEvent>,
)
    requires
        run_proper(fresh_run(relay, peer), peer, events),
    ensures
        ({
            let run = run_of(fresh_run(relay, peer), peer, events);
            &&& run.exchange.paired ==> run.relay.is_paired(peer)
            &&& relay.is_paired(peer) ==> run.exchange.paired
            &&& !relay.is_paired(peer) && run.exchange.started ==> challenged(events)
            &&& !relay.is_paired(peer) && run.exchange.paired ==> run.step == Some(
                StepView::Accept,
            )
            &&& run.step == Some(StepView::Accept) ==> {
                &&& events.len() > 0
                &&& run.exchange.paired
                &&& !relay.is_paired(peer) ==> challenged(events) && (events.last() matches
                    ExchangeEvent::Verified(true, _))
            }
            &&& run.step is Some && run.step->Some_0 is VerifyCode ==> run.exchange.started
        }),
    decreases events.len(),
{
    if events.len() > 0 {
        let earlier = events.drop_last();
        lemma_run(relay, peer, earlier);
        if challenged(earlier) {
            let i = choose|i: int|
                0 <= i < earlier.len() && ((#[trigger] earlier[i]) matches ExchangeEvent::Begun(
                    true,
                    _,
                ));
            assert(events[i] == earlier[i]);
        }
        assert(events[events.len() - 1] == events.last());
    }
}

/// A code that is submitted before a pairing was started is refused and ends the exchange: nothing
/// is verified or recorded, and no further frame is read.
pub proof fn law_submission_needs_a_start(
    run: ExchangeRun,
    peer: Seq<u8>,
    frame: crate::iroh_endpoint::hdp::HdpFrameView,
    now: u64,
    next: ExchangeEvent,
)
    requires
        !run.exchange.started,
        frame.kind == HdpKind::PairingSubmit,
    ensures
        ({
            let after = advanced(run, peer, ExchangeEvent::Frame(frame, now));
            &&& after.step matches Some(StepView::RejectAndClose(code, _)) && code == 5
            &&& after.exchange == run.exchange
            &&& after.relay == run.relay
            &&& !awaited(after, next)
        }),
{
}

/// The verifier is asked only about six decimal digits, and only after a challenge was begun.
pub proof fn law_only_codes_are_verified(
    relay: crate::iroh_endpoint::pairing::RelayStateView,
    peer: Seq<u8>,
    events: Seq<ExchangeEvent>,
    code: Seq<u8>,
)
    requires
        run_proper(fresh_run(relay, peer), peer, events),
        run_of(fresh_run(relay, peer), peer, events).step == Some(StepView::VerifyCode(code)),
    ensures
        is_code(code),
        !relay.is_paired(peer) ==> challenged(events),
{
    lemma_run(relay, peer, events);
}

/// A pairing code is six decimal digits.
pub proof fn law_codes_are_six_digits(payload: Seq<u8>)
    ensures
        is_code(payload) <==> payload.len() == 6 && '0' as u8 <= payload[0] <= '9' as u8
            && '0' as u8 <= payload[1] <= '9' as u8 && '0' as u8 <= payload[2] <= '9' as u8
            && '0' as u8 <= payload[3] <= '9' as u8 && '0' as u8 <= payload[4] <= '9' as u8
            && '0' as u8 <= payload[5] <= '9' as u8,
{
}

/// A start is answered with acceptance for a paired peer, and with a new challenge for another if
/// and only if one may be opened for it. A second start, or one with a payload, is refused and
/// changes nothing.
pub proof fn law_start_opens_or_accepts(
    exchange: ExchangeView,
    relay: crate::iroh_endpoint::pairing::RelayStateView,
    peer: Seq<u8>,
    payload: Seq<u8>,
    now: u64,
)
    ensures
        ({
            let frame = crate::iroh_endpoint::hdp::HdpFrameView {
                kind: HdpKind::PairingStart,
                payload,
            };
            let outcome = frame_outcome(exchange, relay, peer, frame, now);
            let fresh = !exchange.started && payload.len() == 0;
            let known = relay.pairings.contains_key(peer);
            let was = relay.pairings[peer];
            &&& outcome.step == StepView::Accept <==> fresh && exchange.paired
            &&& outcome.step == StepView::BeginChallenge <==> fresh && !exchange.paired && if known {
                !was.paired && (was.challenge_count < 3 || now - was.challenge_window_started
                    >= 60_000_000_000)
            } else {
                relay.pairings.dom().len() < relay.max_connections
            }
            &&& !fresh ==> outcome.step == StepView::Reject(5) && outcome.relay == relay
                && outcome.exchange == exchange
            &&& fresh && !exchange.paired ==> outcome.exchange == exchange
            &&& fresh && !exchange.paired && outcome.step != StepView::BeginChallenge ==> outcome.step
                == StepView::Reject(3)
            &&& fresh && exchange.paired ==> outcome.relay == relay && outcome.exchange.started
                && outcome.exchange.paired && outcome.exchange.deadline == exchange.deadline
            &&& outcome.step == StepView::BeginChallenge && known ==> outcome.relay.pairings[peer].failed_attempts
                == 0
        }),
{
}

/// A code is handed on to be verified if and only if the exchange has started and the payload is a
/// code; that changes nothing yet. Another payload counts as one failed attempt.
pub proof fn law_submissions_are_verified_or_counted(
    exchange: ExchangeView,
    relay: crate::iroh_endpoint::pairing::RelayStateView,
    peer: Seq<u8>,
    payload: Seq<u8>,
    now: u64,
)
    ensures
        ({
            let frame = crate::iroh_endpoint::hdp::HdpFrameView {
                kind: HdpKind::PairingSubmit,
                payload,
            };
            let outcome = frame_outcome(exchange, relay, peer, frame, now);
            let known = relay.pairings.contains_key(peer);
            let was = relay.pairings[peer];
            &&& outcome.exchange == exchange
            &&& outcome.step is VerifyCode <==> exchange.started && is_code(payload)
            &&& outcome.step is VerifyCode ==> outcome.step == StepView::VerifyCode(payload)
                && outcome.relay == relay
            &&& exchange.started && !is_code(payload) && known ==> {
                &&& outcome.step == (if was.failed_attempts < 4 {
                    StepView::Reject(2)
                } else {
                    StepView::RejectAndClose(4, "pairing budget exhausted")
                })
                &&& outcome.relay.pairings[peer].failed_attempts == if was.failed_attempts < 5 {
                    was.failed_attempts + 1
                } else {
                    was.failed_attempts as int
                }
                &&& outcome.relay.pairings[peer].paired == was.paired
            }
        }),
{
}

/// A frame pairs nobody, leaves the exchange of a peer as paired as it was, and touches no record of
/// another peer. A frame that is neither a start nor a submission changes nothing at all: an end is
/// followed, and every other one is refused.
pub proof fn law_frames_pair_nobody(
    exchange: ExchangeView,
    relay: crate::iroh_endpoint::pairing::RelayStateView,
    peer: Seq<u8>,
    frame: crate::iroh_endpoint::hdp::HdpFrameView,
    now: u64,
    other: Seq<u8>,
)
    ensures
        ({
            let outcome = frame_outcome(exchange, relay, peer, frame, now);
            &&& outcome.exchange.paired == exchange.paired
            &&& outcome.exchange.deadline == exchange.deadline
            &&& outcome.relay.is_paired(other) == relay.is_paired(other)
            &&& outcome.relay.active == relay.active
            &&& other != peer && relay.pairings.contains_key(other)
                ==> outcome.relay.pairings.contains_key(other) && outcome.relay.pairings[other]
                == relay.pairings[other]
            &&& other != peer && !relay.pairings.contains_key(other)
                ==> !outcome.relay.pairings.contains_key(other)
            &&& frame.kind != HdpKind::PairingStart && frame.kind != HdpKind::PairingSubmit ==> {
                &&& outcome.exchange == exchange
                &&& outcome.relay == relay
                &&& outcome.step == (if frame.kind == HdpKind::GoAway {
                    StepView::End
                } else {
                    StepView::Reject(5)
                })
            }
        }),
{
}

/// A challenge that was opened starts the exchange and ends 300 seconds later. One that was not
/// leaves the exchange as it was.
pub proof fn law_challenges_last_five_minutes(exchange: ExchangeView, begun: bool, now: u64)
    ensures
        ({
            let (after, step) = begun_outcome(exchange, begun, now);
            let opened = begun && now + 300 * 1000000000 <= u64::MAX;
            &&& after.paired == exchange.paired
            &&& opened ==> after.started && (after.deadline matches Some(deadline) && deadline
                == now + 300 * 1000000000) && step == StepView::Reject(1)
            &&& !opened ==> after == exchange && step == StepView::Reject(3)
        }),
{
}

/// A peer is accepted if and only if its code was right and there is room for its record; it is
/// paired then, and nobody else is. A wrong code pairs nobody and counts as one failed attempt.
pub proof fn law_right_codes_pair_their_peer(
    exchange: ExchangeView,
    relay: crate::iroh_endpoint::pairing::RelayStateView,
    peer: Seq<u8>,
    accepted: bool,
    now: u64,
    other: Seq<u8>,
)
    ensures
        ({
            let outcome = verified_outcome(exchange, relay, peer, accepted, now);
            let known = relay.pairings.contains_key(peer);
            let was = relay.pairings[peer];
            &&& outcome.step == StepView::Accept <==> accepted && (known
                || relay.pairings.dom().len() < relay.max_connections)
            &&& outcome.step == StepView::Accept ==> outcome.relay.is_paired(peer)
                && outcome.exchange.paired
            &&& outcome.step != StepView::Accept ==> outcome.exchange == exchange
                && outcome.relay.is_paired(peer) == relay.is_paired(peer)
            &&& outcome.exchange.started == exchange.started
            &&& outcome.exchange.deadline == exchange.deadline
            &&& other != peer ==> outcome.relay.is_paired(other) == relay.is_paired(other)
            &&& other != peer && relay.pairings.contains_key(other) ==> outcome.relay.pairings[other]
                == relay.pairings[other]
            &&& accepted && outcome.step != StepView::Accept ==> outcome.step
                == StepView::RejectAndClose(4, "pairing capacity") && outcome.relay == relay
            &&& !accepted && known ==> {
                &&& outcome.step == (if was.failed_attempts < 4 {
                    StepView::Reject(3)
                } else {
                    StepView::RejectAndClose(4, "pairing budget exhausted")
                })
                &&& was.failed_attempts < 5 ==> outcome.relay.pairings[peer].failed_attempts
                    == was.failed_attempts + 1
            }
        }),
{
}

/// A frame is waited for until the challenge ends, where one was opened, and for the control timeout
/// otherwise.
pub proof fn law_frames_are_awaited_until_the_challenge_ends(
    exchange: ExchangeView,
    now: u64,
    control_timeout: u64,
)
    ensures
        exchange.deadline is None ==> frame_wait(exchange, now, control_timeout) == control_timeout,
        exchange.deadline matches Some(deadline) ==> {
            &&& now <= deadline ==> now + frame_wait(exchange, now, control_timeout) == deadline
            &&& deadline <= now ==> frame_wait(exchange, now, control_timeout) == 0
        },
{
}

} // verus!
