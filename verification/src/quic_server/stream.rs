//! One session stream: binding, upstream connection and bridge.

use crate::error::{RelayError, RelayResult};
use crate::quic_server::bootstrap::WriteOutcome;
use crate::quic_wire::{HdqsReason, HdqsResponse};
use vstd::prelude::*;

verus! {

/// Which authority a refusal releases.
#[derive(Debug, Clone, Copy, PartialEq, Eq, Structural)]
pub enum ReleaseScope {
    /// The named authority, if no stream is bound to it.
    Unbound,
    /// The named authority, which this stream is bound to.
    Bound,
}

/// What has to be done next on a session stream.
#[derive(Debug, Clone, Copy, PartialEq, Eq)]
pub enum StreamStep {
    /// Ask the registry to bind the stream.
    Bind,
    /// Write a refusal, then close the whole connection.
    RejectConnection {
        /// The refusal.
        response: HdqsResponse,
        /// Reason given when the connection is closed.
        close: &'static str,
    },
    /// Release an authority, write a refusal and end the stream.
    Reject {
        /// The refusal.
        response: HdqsResponse,
        /// Which authority is released.
        scope: ReleaseScope,
        /// The cancellation entry is removed afterwards.
        unregister: bool,
    },
    /// Enter the stream for cancellation, then ask whether its authority is still owned.
    Register,
    /// Connect to the upstream socket.
    Connect,
    /// Write the acceptance.
    Accept(HdqsResponse),
    /// Ask whether the authority is still owned.
    CheckOwned,
    /// Start the bridge.
    Bridge,
    /// Let the bridge run on.
    Wait,
    /// Remove the cancellation entry, release the handle and end the stream.
    Finish(RelayResult<()>),
    /// End the stream with a failure.
    Fail(RelayError),
}

/// The decision on the binding preface.
pub open spec fn binding_step(read: bool, connection_epoch: u64) -> StreamStep {
    if read {
        StreamStep::Bind
    } else {
        StreamStep::RejectConnection {
            response: HdqsResponse::Rejected {
                reason: HdqsReason::InvalidFrame,
                connection_epoch,
            },
            close: "invalid HDQS binding",
        }
    }
}

/// Decision on the binding preface; `read` says that a well-formed one came in time.
pub fn binding_read(read: bool, connection_epoch: u64) -> (step: StreamStep)
    ensures
        step == binding_step(read, connection_epoch),
{
    if read {
        StreamStep::Bind
    } else {
        StreamStep::RejectConnection {
            response: HdqsResponse::rejected(HdqsReason::InvalidFrame, connection_epoch),
            close: "invalid HDQS binding",
        }
    }
}

/// The decision on the registry's answer to a binding.
pub open spec fn bound_step(response: HdqsResponse) -> StreamStep {
    match response {
        HdqsResponse::Rejected { .. } => StreamStep::Reject {
            response,
            scope: ReleaseScope::Unbound,
            unregister: false,
        },
        HdqsResponse::Accepted { .. } => StreamStep::Register,
    }
}

/// Decision on the registry's answer to a binding.
pub fn binding_answered(response: HdqsResponse) -> (step: StreamStep)
    ensures
        step == bound_step(response),
{
    match response {
        HdqsResponse::Rejected { .. } => StreamStep::Reject {
            response,
            scope: ReleaseScope::Unbound,
            unregister: false,
        },
        HdqsResponse::Accepted { .. } => StreamStep::Register,
    }
}

/// The decision once the stream is registered.
pub open spec fn registered_step(owned: bool) -> StreamStep {
    if owned {
        StreamStep::Connect
    } else {
        StreamStep::Finish(Ok(()))
    }
}

/// Decision once the stream is registered; `owned` says that its authority was not lost meanwhile.
pub fn registered(owned: bool) -> (step: StreamStep)
    ensures
        step == registered_step(owned),
{
    if owned {
        StreamStep::Connect
    } else {
        StreamStep::Finish(Ok(()))
    }
}

/// How connecting to the upstream socket ended.
#[derive(Debug, Clone, Copy, PartialEq, Eq, Structural)]
pub enum ConnectOutcome {
    /// The stream was cancelled.
    Cancelled,
    /// The socket is not the expected one, refused or did not answer in time.
    Unavailable,
    /// The socket is connected.
    Connected,
}

/// The decision on connecting to the upstream socket.
pub open spec fn connected_step(outcome: ConnectOutcome, connection_epoch: u64) -> StreamStep {
    match outcome {
        ConnectOutcome::Cancelled => StreamStep::Finish(Ok(())),
        ConnectOutcome::Unavailable => StreamStep::Reject {
            response: HdqsResponse::Rejected {
                reason: HdqsReason::SocketUnavailable,
                connection_epoch,
            },
            scope: ReleaseScope::Bound,
            unregister: true,
        },
        ConnectOutcome::Connected => StreamStep::Accept(
            HdqsResponse::Accepted { connection_epoch },
        ),
    }
}

/// Decision on connecting to the upstream socket.
pub fn upstream_connected(outcome: ConnectOutcome, connection_epoch: u64) -> (step: StreamStep)
    ensures
        step == connected_step(outcome, connection_epoch),
{
    match outcome {
        ConnectOutcome::Cancelled => StreamStep::Finish(Ok(())),
        ConnectOutcome::Unavailable => StreamStep::Reject {
            response: HdqsResponse::rejected(HdqsReason::SocketUnavailable, connection_epoch),
            scope: ReleaseScope::Bound,
            unregister: true,
        },
        ConnectOutcome::Connected => StreamStep::Accept(HdqsResponse::Accepted { connection_epoch }),
    }
}

/// How writing the acceptance ended.
#[derive(Debug, Clone, Copy, PartialEq, Eq, Structural)]
pub enum AcceptOutcome {
    /// The acceptance could not be encoded.
    Unencodable,
    /// The stream was cancelled.
    Cancelled,
    /// The stream failed.
    Failed,
    /// The acceptance is written.
    Written,
}

/// The decision on writing the acceptance.
pub open spec fn accepted_step(outcome: AcceptOutcome) -> StreamStep {
    match outcome {
        AcceptOutcome::Unencodable => StreamStep::Fail(
            RelayError::QuicProtocol { reason: "HDQS acceptance encoding failed" },
        ),
        AcceptOutcome::Cancelled => StreamStep::Finish(Ok(())),
        AcceptOutcome::Failed => StreamStep::Finish(
            Err(RelayError::QuicProtocol { reason: "writing HDQS acceptance" }),
        ),
        AcceptOutcome::Written => StreamStep::CheckOwned,
    }
}

/// Decision on writing the acceptance.
pub fn acceptance_written(outcome: AcceptOutcome) -> (step: StreamStep)
    ensures
        step == accepted_step(outcome),
{
    match outcome {
        AcceptOutcome::Unencodable => StreamStep::Fail(
            RelayError::QuicProtocol { reason: "HDQS acceptance encoding failed" },
        ),
        AcceptOutcome::Cancelled => StreamStep::Finish(Ok(())),
        AcceptOutcome::Failed => StreamStep::Finish(
            Err(RelayError::QuicProtocol { reason: "writing HDQS acceptance" }),
        ),
        AcceptOutcome::Written => StreamStep::CheckOwned,
    }
}

/// The decision once the acceptance is written.
pub open spec fn owned_step(owned: bool, limits: RelayResult<()>) -> StreamStep {
    if !owned {
        StreamStep::Finish(Ok(()))
    } else {
        match limits {
            Ok(_) => StreamStep::Bridge,
            Err(error) => StreamStep::Fail(error),
        }
    }
}

/// Decision once the acceptance is written: `owned` says that the authority was not lost while
/// the acceptance was in flight, `limits` is the outcome of configuring the bridge.
pub fn acceptance_owned(owned: bool, limits: RelayResult<()>) -> (step: StreamStep)
    ensures
        step == owned_step(owned, limits),
{
    if !owned {
        return StreamStep::Finish(Ok(()));
    }
    match limits {
        Ok(_) => StreamStep::Bridge,
        Err(error) => StreamStep::Fail(error),
    }
}

/// What happened while the bridge runs.
#[derive(Debug, Clone, Copy, PartialEq, Eq, Structural)]
pub enum BridgeEvent {
    /// The bridge ended.
    Ended,
    /// The stream was cancelled.
    Cancelled,
    /// The lease tick came; the flag says that the authority is still owned.
    Tick(bool),
}

/// The decision on what happened while the bridge runs.
pub open spec fn bridge_step(event: BridgeEvent) -> StreamStep {
    if event == BridgeEvent::Tick(true) {
        StreamStep::Wait
    } else {
        StreamStep::Finish(Ok(()))
    }
}

/// Decision on what happened while the bridge runs: forwarding stops within one tick of losing
/// the authority.
pub fn bridge_event(event: BridgeEvent) -> (step: StreamStep)
    ensures
        step == bridge_step(event),
{
    match event {
        BridgeEvent::Tick(true) => StreamStep::Wait,
        _ => StreamStep::Finish(Ok(())),
    }
}

/// The result of a stream that was refused.
pub fn reject_session_outcome(written: WriteOutcome, finished: bool) -> (result: RelayResult<()>)
    ensures
        match result {
            Ok(_) => written == WriteOutcome::Written && finished,
            Err(error) => error == (match written {
                WriteOutcome::TimedOut => RelayError::QuicHandshake {
                    reason: "HDQS rejection write timeout",
                },
                WriteOutcome::Failed => RelayError::QuicProtocol {
                    reason: "writing HDQS rejection",
                },
                WriteOutcome::Written => RelayError::QuicProtocol {
                    reason: "finishing HDQS rejection",
                },
            }) && !(written == WriteOutcome::Written && finished),
        },
{
    match written {
        WriteOutcome::TimedOut => Err(
            RelayError::QuicHandshake { reason: "HDQS rejection write timeout" },
        ),
        WriteOutcome::Failed => Err(RelayError::QuicProtocol { reason: "writing HDQS rejection" }),
        WriteOutcome::Written => {
            if finished {
                Ok(())
            } else {
                Err(RelayError::QuicProtocol { reason: "finishing HDQS rejection" })
            }
        },
    }
}

/// The result of a stream whose binding was malformed.
pub fn reject_invalid_outcome(written: WriteOutcome, finished: bool) -> (result: RelayResult<()>)
    ensures
        match result {
            Ok(_) => written == WriteOutcome::Written && finished,
            Err(error) => error == (match written {
                WriteOutcome::TimedOut => RelayError::QuicHandshake {
                    reason: "invalid HDQS rejection write timeout",
                },
                WriteOutcome::Failed => RelayError::QuicProtocol {
                    reason: "writing invalid HDQS rejection",
                },
                WriteOutcome::Written => RelayError::QuicProtocol {
                    reason: "finishing invalid HDQS rejection",
                },
            }) && !(written == WriteOutcome::Written && finished),
        },
{
    match written {
        WriteOutcome::TimedOut => Err(
            RelayError::QuicHandshake { reason: "invalid HDQS rejection write timeout" },
        ),
        WriteOutcome::Failed => Err(
            RelayError::QuicProtocol { reason: "writing invalid HDQS rejection" },
        ),
        WriteOutcome::Written => {
            if finished {
                Ok(())
            } else {
                Err(RelayError::QuicProtocol { reason: "finishing invalid HDQS rejection" })
            }
        },
    }
}

/// What the outside answers on one session stream.
pub struct StreamAnswers {
    /// A well-formed binding came in time.
    pub read: bool,
    /// Epoch of the connection.
    pub connection_epoch: u64,
    /// Answer of the registry to the binding.
    pub bound: HdqsResponse,
    /// The authority was owned when the stream was registered.
    pub owned_at_start: bool,
    /// How connecting ended.
    pub connect: ConnectOutcome,
    /// How writing the acceptance ended.
    pub accept: AcceptOutcome,
    /// The authority was owned after the acceptance.
    pub owned_after_accept: bool,
    /// The bridge could be configured.
    pub limits: RelayResult<()>,
}

/// The decision that follows `step`, given what the outside answers; a step that needs no further
/// answer stands.
pub open spec fn next_step(step: StreamStep, answers: StreamAnswers) -> StreamStep {
    match step {
        StreamStep::Bind => bound_step(answers.bound),
        StreamStep::Register => registered_step(answers.owned_at_start),
        StreamStep::Connect => connected_step(answers.connect, answers.connection_epoch),
        StreamStep::Accept(_) => accepted_step(answers.accept),
        StreamStep::CheckOwned => owned_step(answers.owned_after_accept, answers.limits),
        _ => step,
    }
}

/// Where a stream comes to rest: the bridge, or the step that ends it.
pub open spec fn stream_outcome(answers: StreamAnswers) -> StreamStep {
    let first = binding_step(answers.read, answers.connection_epoch);
    let second = next_step(first, answers);
    let third = next_step(second, answers);
    let fourth = next_step(third, answers);
    let fifth = next_step(fourth, answers);
    next_step(fifth, answers)
}

/// Every stream comes to rest within five answers.
pub proof fn law_stream_comes_to_rest(answers: StreamAnswers)
    ensures
        next_step(stream_outcome(answers), answers) == stream_outcome(answers),
{
}

/// Bytes are forwarded only on a bound stream whose upstream is connected, whose acceptance the
/// peer was sent, and whose authority is owned before the connection and after the acceptance.
pub proof fn law_forwarding_needs_authority(answers: StreamAnswers)
    ensures
        stream_outcome(answers) is Bridge ==> {
            &&& answers.read
            &&& answers.bound is Accepted
            &&& answers.owned_at_start
            &&& answers.connect == ConnectOutcome::Connected
            &&& answers.accept == AcceptOutcome::Written
            &&& answers.owned_after_accept
        },
{
}

/// A stream that was registered leaves through a step that removes its registration, unless its
/// acceptance cannot be encoded or its bridge cannot be configured.
pub proof fn law_registered_stream_is_unregistered(answers: StreamAnswers)
    requires
        answers.read,
        answers.bound is Accepted,
        answers.accept != AcceptOutcome::Unencodable,
        answers.limits is Ok,
    ensures
        match stream_outcome(answers) {
            StreamStep::Bridge => true,
            StreamStep::Finish(_) => true,
            StreamStep::Reject { response, scope, unregister } => unregister,
            _ => false,
        },
{
}

/// A refused stream that was never bound releases no authority that another stream is bound to.
pub proof fn law_unbound_refusal_spares_siblings(answers: StreamAnswers)
    requires
        answers.bound is Rejected,
    ensures
        stream_outcome(answers) matches StreamStep::Reject { response, scope, unregister }
            ==> scope == ReleaseScope::Unbound,
{
}

/// Bytes are forwarded if and only if the binding was read and accepted, the stream is owned before
/// and after the socket was reached and the acceptance written, and its limits are valid.
pub proof fn law_streams_are_bridged_when_all_holds(answers: StreamAnswers)
    ensures
        stream_outcome(answers) == StreamStep::Bridge <==> {
            &&& answers.read
            &&& answers.bound is Accepted
            &&& answers.owned_at_start
            &&& answers.connect == ConnectOutcome::Connected
            &&& answers.accept == AcceptOutcome::Written
            &&& answers.owned_after_accept
            &&& answers.limits is Ok
        },
{
}

/// A stream whose binding cannot be read closes its connection; one whose binding is refused hands
/// that refusal back and was never registered; one whose socket is unavailable says so and is
/// unregistered. Each answer carries the epoch of the connection.
pub proof fn law_stream_refusals_are_told_apart(answers: StreamAnswers)
    ensures
        ({
            let outcome = stream_outcome(answers);
            &&& outcome is RejectConnection <==> !answers.read
            &&& !answers.read ==> outcome == (StreamStep::RejectConnection {
                response: HdqsResponse::Rejected {
                    reason: HdqsReason::InvalidFrame,
                    connection_epoch: answers.connection_epoch,
                },
                close: "invalid HDQS binding",
            })
            &&& answers.read && answers.bound is Rejected ==> outcome == (StreamStep::Reject {
                response: answers.bound,
                scope: ReleaseScope::Unbound,
                unregister: false,
            })
            &&& answers.read && answers.bound is Accepted && answers.owned_at_start
                && answers.connect == ConnectOutcome::Unavailable ==> outcome == (
            StreamStep::Reject {
                response: HdqsResponse::Rejected {
                    reason: HdqsReason::SocketUnavailable,
                    connection_epoch: answers.connection_epoch,
                },
                scope: ReleaseScope::Bound,
                unregister: true,
            })
            &&& outcome is Reject ==> answers.read && (answers.bound is Rejected || answers.connect
                == ConnectOutcome::Unavailable)
        }),
{
}

/// A stream that lost its owner or was cancelled ends without a failure. It fails if and only if its
/// acceptance cannot be encoded or its limits are not valid, and ends with an error only if writing
/// the acceptance failed.
pub proof fn law_stream_ends_are_told_apart(answers: StreamAnswers)
    requires
        answers.read,
        answers.bound is Accepted,
    ensures
        ({
            let outcome = stream_outcome(answers);
            let reached = answers.owned_at_start && answers.connect == ConnectOutcome::Connected;
            &&& !answers.owned_at_start ==> outcome == StreamStep::Finish(Ok(()))
            &&& answers.owned_at_start && answers.connect == ConnectOutcome::Cancelled ==> outcome
                == StreamStep::Finish(Ok(()))
            &&& reached && answers.accept == AcceptOutcome::Cancelled ==> outcome
                == StreamStep::Finish(Ok(()))
            &&& reached && answers.accept == AcceptOutcome::Failed ==> outcome
                == StreamStep::Finish(
                Err(RelayError::QuicProtocol { reason: "writing HDQS acceptance" }),
            )
            &&& reached && answers.accept == AcceptOutcome::Written && !answers.owned_after_accept
                ==> outcome == StreamStep::Finish(Ok(()))
            &&& outcome is Fail <==> reached && (answers.accept == AcceptOutcome::Unencodable || (
            answers.accept == AcceptOutcome::Written && answers.owned_after_accept
                && answers.limits is Err))
            &&& reached && answers.accept == AcceptOutcome::Written && answers.owned_after_accept
                && answers.limits is Err ==> outcome == StreamStep::Fail(answers.limits->Err_0)
        }),
{
}

/// The acceptance carries the epoch of the connection, and is sent only once the socket was reached.
pub proof fn law_acceptance_names_its_epoch(outcome: ConnectOutcome, connection_epoch: u64)
    ensures
        connected_step(outcome, connection_epoch) is Accept <==> outcome
            == ConnectOutcome::Connected,
        connected_step(outcome, connection_epoch) matches StreamStep::Accept(response) ==> response
            == (HdqsResponse::Accepted { connection_epoch }),
{
}

/// A bridged stream goes on exactly while a tick still finds it owned; its end, a cancellation and a
/// lost owner all finish it without a failure.
pub proof fn law_bridge_lasts_while_owned(event: BridgeEvent)
    ensures
        bridge_step(event) == StreamStep::Wait <==> event == BridgeEvent::Tick(true),
        event is Ended || event is Cancelled || event == BridgeEvent::Tick(false) ==> bridge_step(
            event,
        ) == StreamStep::Finish(Ok(())),
{
}

} // verus!
