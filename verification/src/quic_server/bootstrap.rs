//! The server-authenticated bootstrap conversation of a first Core.

use crate::error::{RelayError, RelayResult};
use vstd::prelude::*;

verus! {

/// Kinds of HDB1 frames.
#[derive(Debug, Clone, Copy, PartialEq, Eq, Structural)]
pub enum Hdb1Kind {
    /// Asks for a challenge.
    Start,
    /// Submits the code of a challenge.
    Submit,
    /// Asks for the result of a submission whose answer was lost.
    Reconcile,
    /// Carries a challenge.
    Challenge,
    /// Carries an issued Core certificate.
    CoreIssued,
    /// Carries a reconciled result.
    Result,
    /// Refuses a request.
    Rejected,
}

/// Why the bootstrap authority refuses an operation.
#[derive(Debug, Clone, Copy, PartialEq, Eq, Structural)]
pub enum BootstrapRuntimeError {
    /// A field is malformed.
    InvalidField,
    /// The request does not match the authority.
    AuthorityMismatch,
    /// The workspace that shows the code is not available.
    WorkspaceUnavailable,
    /// Protected state could not be written.
    PersistenceFailed,
    /// No further attempt fits.
    CapacityExhausted,
    /// The peer started too many attempts.
    PeerRateLimited,
    /// An attempt is already active.
    AlreadyActive,
    /// The attempt has expired.
    Expired,
    /// The code is wrong.
    CodeMismatch,
    /// Too many codes were tried.
    CodeRateLimited,
    /// The attempt is unknown.
    NotFound,
}

/// The rejection code that stands for an error on the wire.
pub open spec fn rejection_code(error: BootstrapRuntimeError) -> u16 {
    match error {
        BootstrapRuntimeError::InvalidField => 1,
        BootstrapRuntimeError::CapacityExhausted | BootstrapRuntimeError::PeerRateLimited => 2,
        BootstrapRuntimeError::AlreadyActive => 3,
        BootstrapRuntimeError::AuthorityMismatch | BootstrapRuntimeError::NotFound => 4,
        BootstrapRuntimeError::WorkspaceUnavailable | BootstrapRuntimeError::PersistenceFailed => 5,
        BootstrapRuntimeError::CodeRateLimited => 6,
        BootstrapRuntimeError::Expired => 7,
        BootstrapRuntimeError::CodeMismatch => 8,
    }
}

/// Maps an error of the bootstrap authority to its rejection code.
pub fn bootstrap_rejection_code(error: BootstrapRuntimeError) -> (code: u16)
    ensures
        code == rejection_code(error),
        1 <= code <= 8,
{
    match error {
        BootstrapRuntimeError::InvalidField => 1,
        BootstrapRuntimeError::AuthorityMismatch => 4,
        BootstrapRuntimeError::WorkspaceUnavailable => 5,
        BootstrapRuntimeError::PersistenceFailed => 5,
        BootstrapRuntimeError::CapacityExhausted => 2,
        BootstrapRuntimeError::PeerRateLimited => 2,
        BootstrapRuntimeError::AlreadyActive => 3,
        BootstrapRuntimeError::Expired => 7,
        BootstrapRuntimeError::CodeMismatch => 8,
        BootstrapRuntimeError::CodeRateLimited => 6,
        BootstrapRuntimeError::NotFound => 4,
    }
}

/// One challenge of the bootstrap authority.
#[derive(Clone, Copy)]
pub struct BootstrapChallenge {
    /// Identity of the attempt.
    pub bootstrap_id: [u8; 32],
    /// The challenge.
    pub challenge: [u8; 32],
    /// Deadline of the attempt.
    pub expires_at_epoch_seconds: u64,
}

/// A Core certificate that the bootstrap authority issued.
pub struct IssuedCore {
    /// Identity of the approval.
    pub approval_id: [u8; 32],
    /// Identity of the Core.
    pub core_identity: [u8; 32],
    /// Public certificate chain.
    pub certificate_chain: Vec<Vec<u8>>,
    /// End of validity.
    pub not_after_epoch_seconds: u64,
}

/// How the peer came to the response that ends the conversation.
#[derive(Debug, Clone, Copy, PartialEq, Eq, Structural)]
pub enum BootstrapExchange {
    /// The first frame submitted the code of an earlier challenge.
    Resumed,
    /// The code of a challenge of this connection was submitted.
    Fresh,
    /// A lost result was asked for.
    Reconcile,
}

/// Response that ends the conversation.
pub enum BootstrapResponse {
    /// An issued certificate.
    CoreIssued(IssuedCore),
    /// A reconciled certificate.
    Result(IssuedCore),
    /// A refusal.
    Rejected {
        /// Code of the refusal.
        code: u16,
    },
}

/// What has to be done next on a bootstrap connection.
pub enum BootstrapStep {
    /// Accept the stream and read the first frame.
    ReadFirstFrame,
    /// Decode a RECONCILE payload.
    DecodeReconcile,
    /// Ask the authority for a lost result.
    Reconcile,
    /// Decode a START payload.
    DecodeStart,
    /// Ask the authority for a challenge.
    Start,
    /// Write a challenge.
    SendChallenge(BootstrapChallenge),
    /// Read the frame that follows a challenge.
    ReadSubmit,
    /// Decode a SUBMIT payload.
    DecodeSubmit(BootstrapExchange),
    /// Ask the authority to check the submitted code.
    Submit(BootstrapExchange),
    /// Write the response that ends the conversation.
    Respond {
        /// The response.
        response: BootstrapResponse,
        /// How the peer came to it.
        exchange: BootstrapExchange,
        /// Reported when the response cannot be encoded.
        encoding_failure: &'static str,
    },
    /// Try to write a refusal, then close the connection.
    RejectAndClose {
        /// Code of the refusal.
        code: u16,
        /// Reason given when the connection is closed.
        closing: &'static str,
    },
    /// End the conversation well.
    End {
        /// Wait until the peer has read the stream.
        await_peer: bool,
        /// Reason given when the connection is closed.
        close: Option<&'static str>,
    },
    /// End the connection with a failure.
    Fail(RelayError),
}

/// How writing a frame ended.
#[derive(Debug, Clone, Copy, PartialEq, Eq, Structural)]
pub enum WriteOutcome {
    /// The deadline passed.
    TimedOut,
    /// The stream failed.
    Failed,
    /// The frame is written.
    Written,
}

/// The first step of a bootstrap.
pub open spec fn entry_step(
    runtime_available: bool,
    handshake_free: bool,
    connection_free: bool,
) -> BootstrapStep {
    if runtime_available && handshake_free && connection_free {
        BootstrapStep::ReadFirstFrame
    } else if !runtime_available {
        BootstrapStep::Fail(RelayError::QuicProtocol { reason: "bootstrap runtime is unavailable" })
    } else {
        BootstrapStep::Fail(RelayError::ResourceLimit)
    }
}

/// Decides whether a bootstrap connection is served.
pub fn bootstrap_entry(runtime_available: bool, handshake_free: bool, connection_free: bool)
    -> (step: BootstrapStep)
    ensures
        step == (if !runtime_available {
            BootstrapStep::Fail(
                RelayError::QuicProtocol { reason: "bootstrap runtime is unavailable" },
            )
        } else if !handshake_free || !connection_free {
            BootstrapStep::Fail(RelayError::ResourceLimit)
        } else {
            BootstrapStep::ReadFirstFrame
        }),
        step == entry_step(runtime_available, handshake_free, connection_free),
{
    if !runtime_available {
        return BootstrapStep::Fail(
            RelayError::QuicProtocol { reason: "bootstrap runtime is unavailable" },
        );
    }
    if !handshake_free {
        return BootstrapStep::Fail(RelayError::ResourceLimit);
    }
    if !connection_free {
        return BootstrapStep::Fail(RelayError::ResourceLimit);
    }
    BootstrapStep::ReadFirstFrame
}

/// The failure of accepting the stream of a bootstrap connection.
pub fn bootstrap_stream_failure(timed_out: bool) -> (error: RelayError)
    ensures
        error == (RelayError::QuicHandshake {
            reason: if timed_out {
                "bootstrap stream timeout"
            } else {
                "bootstrap stream unavailable"
            },
        }),
{
    if timed_out {
        RelayError::QuicHandshake { reason: "bootstrap stream timeout" }
    } else {
        RelayError::QuicHandshake { reason: "bootstrap stream unavailable" }
    }
}

/// The decision on the first frame; `None` says that no well-formed frame came in time.
pub open spec fn opened(kind: Option<Hdb1Kind>) -> BootstrapStep {
    match kind {
        None => BootstrapStep::RejectAndClose { code: 1, closing: "bootstrap frame invalid" },
        Some(Hdb1Kind::Submit) => BootstrapStep::DecodeSubmit(BootstrapExchange::Resumed),
        Some(Hdb1Kind::Reconcile) => BootstrapStep::DecodeReconcile,
        Some(_) => BootstrapStep::DecodeStart,
    }
}

/// Decision on the first frame.
pub fn first_frame(kind: Option<Hdb1Kind>) -> (step: BootstrapStep)
    ensures
        step == opened(kind),
{
    match kind {
        None => BootstrapStep::RejectAndClose { code: 1, closing: "bootstrap frame invalid" },
        Some(Hdb1Kind::Submit) => BootstrapStep::DecodeSubmit(BootstrapExchange::Resumed),
        Some(Hdb1Kind::Reconcile) => BootstrapStep::DecodeReconcile,
        Some(_) => BootstrapStep::DecodeStart,
    }
}

/// The decision on the outcome of decoding a RECONCILE payload.
pub open spec fn reconcile_step(decoded: bool) -> BootstrapStep {
    if decoded {
        BootstrapStep::Reconcile
    } else {
        BootstrapStep::RejectAndClose { code: 1, closing: "bootstrap reconcile invalid" }
    }
}

/// Decision on the outcome of decoding a RECONCILE payload.
pub fn reconcile_decoded(decoded: bool) -> (step: BootstrapStep)
    ensures
        step == reconcile_step(decoded),
{
    if decoded {
        BootstrapStep::Reconcile
    } else {
        BootstrapStep::RejectAndClose { code: 1, closing: "bootstrap reconcile invalid" }
    }
}

/// The decision on the authority's answer to a reconciliation.
pub open spec fn reconciled(answer: Result<IssuedCore, BootstrapRuntimeError>) -> BootstrapStep {
    match answer {
        Ok(issued) => BootstrapStep::Respond {
            response: BootstrapResponse::Result(issued),
            exchange: BootstrapExchange::Reconcile,
            encoding_failure: "bootstrap reconcile result is invalid",
        },
        Err(error) => BootstrapStep::Respond {
            response: BootstrapResponse::Rejected { code: rejection_code(error) },
            exchange: BootstrapExchange::Reconcile,
            encoding_failure: "bootstrap reconcile rejection is invalid",
        },
    }
}

/// Decision on the authority's answer to a reconciliation.
pub fn reconcile_answered(answer: Result<IssuedCore, BootstrapRuntimeError>) -> (step:
    BootstrapStep)
    ensures
        step == reconciled(answer),
{
    match answer {
        Ok(issued) => BootstrapStep::Respond {
            response: BootstrapResponse::Result(issued),
            exchange: BootstrapExchange::Reconcile,
            encoding_failure: "bootstrap reconcile result is invalid",
        },
        Err(error) => BootstrapStep::Respond {
            response: BootstrapResponse::Rejected { code: bootstrap_rejection_code(error) },
            exchange: BootstrapExchange::Reconcile,
            encoding_failure: "bootstrap reconcile rejection is invalid",
        },
    }
}

/// The decision on the outcome of decoding a START payload.
pub open spec fn start_step(decoded: bool) -> BootstrapStep {
    if decoded {
        BootstrapStep::Start
    } else {
        BootstrapStep::RejectAndClose { code: 1, closing: "bootstrap order invalid" }
    }
}

/// Decision on the outcome of decoding a START payload; any other frame does not decode as one.
pub fn start_decoded(decoded: bool) -> (step: BootstrapStep)
    ensures
        step == start_step(decoded),
{
    if decoded {
        BootstrapStep::Start
    } else {
        BootstrapStep::RejectAndClose { code: 1, closing: "bootstrap order invalid" }
    }
}

/// The decision on the authority's answer to a START.
pub open spec fn challenge_step(answer: Result<BootstrapChallenge, BootstrapRuntimeError>) -> BootstrapStep {
    match answer {
        Ok(challenge) => BootstrapStep::SendChallenge(challenge),
        Err(error) => BootstrapStep::RejectAndClose {
            code: rejection_code(error),
            closing: "bootstrap rejected",
        },
    }
}

/// Decision on the authority's answer to a START.
pub fn start_answered(answer: Result<BootstrapChallenge, BootstrapRuntimeError>) -> (step:
    BootstrapStep)
    ensures
        step == challenge_step(answer),
{
    match answer {
        Ok(challenge) => BootstrapStep::SendChallenge(challenge),
        Err(error) => BootstrapStep::RejectAndClose {
            code: bootstrap_rejection_code(error),
            closing: "bootstrap rejected",
        },
    }
}

/// The decision on writing a challenge.
pub open spec fn challenge_written_step(outcome: WriteOutcome) -> BootstrapStep {
    match outcome {
        WriteOutcome::TimedOut => BootstrapStep::Fail(
            RelayError::QuicHandshake { reason: "bootstrap challenge write timeout" },
        ),
        WriteOutcome::Failed => BootstrapStep::Fail(
            RelayError::QuicProtocol { reason: "bootstrap challenge write failed" },
        ),
        WriteOutcome::Written => BootstrapStep::ReadSubmit,
    }
}

/// Decision on writing a challenge.
pub fn challenge_written(outcome: WriteOutcome) -> (step: BootstrapStep)
    ensures
        step == challenge_written_step(outcome),
{
    match outcome {
        WriteOutcome::TimedOut => BootstrapStep::Fail(
            RelayError::QuicHandshake { reason: "bootstrap challenge write timeout" },
        ),
        WriteOutcome::Failed => BootstrapStep::Fail(
            RelayError::QuicProtocol { reason: "bootstrap challenge write failed" },
        ),
        WriteOutcome::Written => BootstrapStep::ReadSubmit,
    }
}

/// The decision on the frame that follows a challenge.
pub open spec fn second_step(read: bool) -> BootstrapStep {
    if read {
        BootstrapStep::DecodeSubmit(BootstrapExchange::Fresh)
    } else {
        BootstrapStep::End { await_peer: false, close: Some("bootstrap submit missing") }
    }
}

/// Decision on the frame that follows a challenge; `read` says that a frame came in time.
pub fn second_frame(read: bool) -> (step: BootstrapStep)
    ensures
        step == second_step(read),
{
    if read {
        BootstrapStep::DecodeSubmit(BootstrapExchange::Fresh)
    } else {
        BootstrapStep::End { await_peer: false, close: Some("bootstrap submit missing") }
    }
}

/// The decision on the outcome of decoding a SUBMIT payload.
pub open spec fn submit_step(decoded: bool, exchange: BootstrapExchange) -> BootstrapStep {
    if decoded {
        BootstrapStep::Submit(exchange)
    } else {
        BootstrapStep::Respond {
            response: BootstrapResponse::Rejected { code: 1 },
            exchange,
            encoding_failure: "HDB1 rejection is invalid",
        }
    }
}

/// Decision on the outcome of decoding a SUBMIT payload; any other frame does not decode as one.
pub fn submit_decoded(decoded: bool, exchange: BootstrapExchange) -> (step: BootstrapStep)
    ensures
        step == submit_step(decoded, exchange),
{
    if decoded {
        BootstrapStep::Submit(exchange)
    } else {
        BootstrapStep::Respond {
            response: BootstrapResponse::Rejected { code: 1 },
            exchange,
            encoding_failure: "HDB1 rejection is invalid",
        }
    }
}

/// The decision on the authority's answer to a submitted code.
pub open spec fn submitted(
    answer: Result<IssuedCore, BootstrapRuntimeError>,
    exchange: BootstrapExchange,
) -> BootstrapStep {
    match answer {
        Ok(issued) => BootstrapStep::Respond {
            response: BootstrapResponse::CoreIssued(issued),
            exchange,
            encoding_failure: "bootstrap issuance response is invalid",
        },
        Err(error) => BootstrapStep::Respond {
            response: BootstrapResponse::Rejected { code: rejection_code(error) },
            exchange,
            encoding_failure: "bootstrap rejection encoding failed",
        },
    }
}

/// Decision on the authority's answer to a submitted code.
pub fn submit_answered(
    answer: Result<IssuedCore, BootstrapRuntimeError>,
    exchange: BootstrapExchange,
) -> (step: BootstrapStep)
    ensures
        step == submitted(answer, exchange),
{
    match answer {
        Ok(issued) => BootstrapStep::Respond {
            response: BootstrapResponse::CoreIssued(issued),
            exchange,
            encoding_failure: "bootstrap issuance response is invalid",
        },
        Err(error) => BootstrapStep::Respond {
            response: BootstrapResponse::Rejected { code: bootstrap_rejection_code(error) },
            exchange,
            encoding_failure: "bootstrap rejection encoding failed",
        },
    }
}

/// The failure of writing a response.
pub open spec fn response_failure(exchange: BootstrapExchange, timed_out: bool) -> RelayError {
    if timed_out {
        RelayError::QuicHandshake {
            reason: match exchange {
                BootstrapExchange::Resumed => "bootstrap resumed response timeout",
                BootstrapExchange::Fresh => "bootstrap response write timeout",
                BootstrapExchange::Reconcile => "bootstrap reconcile response timeout",
            },
        }
    } else {
        RelayError::QuicProtocol {
            reason: match exchange {
                BootstrapExchange::Resumed => "bootstrap resumed response failed",
                BootstrapExchange::Fresh => "bootstrap response write failed",
                BootstrapExchange::Reconcile => "bootstrap reconcile response failed",
            },
        }
    }
}

/// Decision on writing the response that ends the conversation; a written response is followed by
/// finishing the stream.
pub fn response_written(exchange: BootstrapExchange, outcome: WriteOutcome) -> (finish: RelayResult<
    (),
>)
    ensures
        match finish {
            Ok(_) => outcome == WriteOutcome::Written,
            Err(error) => outcome != WriteOutcome::Written && error == response_failure(
                exchange,
                outcome == WriteOutcome::TimedOut,
            ),
        },
{
    match outcome {
        WriteOutcome::Written => Ok(()),
        WriteOutcome::TimedOut => Err(
            RelayError::QuicHandshake {
                reason: match exchange {
                    BootstrapExchange::Resumed => "bootstrap resumed response timeout",
                    BootstrapExchange::Fresh => "bootstrap response write timeout",
                    BootstrapExchange::Reconcile => "bootstrap reconcile response timeout",
                },
            },
        ),
        WriteOutcome::Failed => Err(
            RelayError::QuicProtocol {
                reason: match exchange {
                    BootstrapExchange::Resumed => "bootstrap resumed response failed",
                    BootstrapExchange::Fresh => "bootstrap response write failed",
                    BootstrapExchange::Reconcile => "bootstrap reconcile response failed",
                },
            },
        ),
    }
}

/// What follows once the stream of a response was finished, or could not be.
pub open spec fn finished_step(exchange: BootstrapExchange, finished: bool) -> BootstrapStep {
    if finished {
        BootstrapStep::End {
            await_peer: exchange != BootstrapExchange::Reconcile,
            close: match exchange {
                BootstrapExchange::Resumed => None,
                BootstrapExchange::Fresh => Some("bootstrap terminal"),
                BootstrapExchange::Reconcile => Some("bootstrap reconcile terminal"),
            },
        }
    } else {
        BootstrapStep::Fail(
            RelayError::QuicProtocol {
                reason: match exchange {
                    BootstrapExchange::Resumed => "finishing resumed bootstrap stream",
                    BootstrapExchange::Fresh => "finishing bootstrap stream",
                    BootstrapExchange::Reconcile => "finishing bootstrap reconcile stream",
                },
            },
        )
    }
}

/// Decision on finishing the stream after the response.
pub fn response_finished(exchange: BootstrapExchange, finished: bool) -> (step: BootstrapStep)
    ensures
        step == (match (exchange, finished) {
            (BootstrapExchange::Resumed, true) => BootstrapStep::End {
                await_peer: true,
                close: None,
            },
            (BootstrapExchange::Fresh, true) => BootstrapStep::End {
                await_peer: true,
                close: Some("bootstrap terminal"),
            },
            (BootstrapExchange::Reconcile, true) => BootstrapStep::End {
                await_peer: false,
                close: Some("bootstrap reconcile terminal"),
            },
            (BootstrapExchange::Resumed, false) => BootstrapStep::Fail(
                RelayError::QuicProtocol { reason: "finishing resumed bootstrap stream" },
            ),
            (BootstrapExchange::Fresh, false) => BootstrapStep::Fail(
                RelayError::QuicProtocol { reason: "finishing bootstrap stream" },
            ),
            (BootstrapExchange::Reconcile, false) => BootstrapStep::Fail(
                RelayError::QuicProtocol { reason: "finishing bootstrap reconcile stream" },
            ),
        }),
        step == finished_step(exchange, finished),
{
    if !finished {
        return BootstrapStep::Fail(
            RelayError::QuicProtocol {
                reason: match exchange {
                    BootstrapExchange::Resumed => "finishing resumed bootstrap stream",
                    BootstrapExchange::Fresh => "finishing bootstrap stream",
                    BootstrapExchange::Reconcile => "finishing bootstrap reconcile stream",
                },
            },
        );
    }
    match exchange {
        BootstrapExchange::Resumed => BootstrapStep::End { await_peer: true, close: None },
        BootstrapExchange::Fresh => BootstrapStep::End {
            await_peer: true,
            close: Some("bootstrap terminal"),
        },
        BootstrapExchange::Reconcile => BootstrapStep::End {
            await_peer: false,
            close: Some("bootstrap reconcile terminal"),
        },
    }
}

/// What is left until the deadline.
pub open spec fn time_left(deadline: u64, now: u64) -> u64 {
    if now < deadline {
        (deadline - now) as u64
    } else {
        0
    }
}

/// The time that is left until `deadline`, in the unit of the arguments.
pub fn remaining_bootstrap_time(deadline: u64, now: u64) -> (left: u64)
    ensures
        left == (if deadline > now {
            (deadline - now) as u64
        } else {
            0
        }),
        left == time_left(deadline, now),
{
    deadline.saturating_sub(now)
}

/// The time for one operation: no more than it may take, and no more than is left.
pub open spec fn bounded_time(deadline: u64, now: u64, operation: u64) -> u64 {
    if time_left(deadline, now) < operation {
        time_left(deadline, now)
    } else {
        operation
    }
}

/// The time that one operation may take: its own bound, and no more than is left of the
/// connection.
pub fn bounded_bootstrap_timeout(deadline: u64, now: u64, operation: u64) -> (bound: u64)
    ensures
        bound == (if deadline <= now {
            0
        } else if deadline - now < operation {
            (deadline - now) as u64
        } else {
            operation
        }),
        bound == bounded_time(deadline, now, operation),
{
    let left: u64 = remaining_bootstrap_time(deadline, now);
    if left < operation {
        left
    } else {
        operation
    }
}

/// The step hands a certificate to the peer.
pub open spec fn hands_out_certificate(step: BootstrapStep) -> bool {
    step matches BootstrapStep::Respond { response, exchange, encoding_failure } && (
    response is CoreIssued || response is Result)
}

/// The answers of the bootstrap authority to every question of one connection.
pub struct BootstrapAnswers {
    /// Kind of the first frame, if one came.
    pub first: Option<Hdb1Kind>,
    /// The payload of the first frame decodes as its kind.
    pub first_decodes: bool,
    /// Answer to a reconciliation.
    pub reconcile: Result<IssuedCore, BootstrapRuntimeError>,
    /// Answer to a START.
    pub start: Result<BootstrapChallenge, BootstrapRuntimeError>,
    /// A second frame came in time.
    pub second: bool,
    /// The second frame decodes as a SUBMIT.
    pub second_decodes: bool,
    /// Answer to the submitted code.
    pub submit: Result<IssuedCore, BootstrapRuntimeError>,
}

/// The decision that follows `step`, given what the outside answers and with every challenge
/// written; a step that needs no further answer stands.
pub open spec fn next_step(step: BootstrapStep, answers: BootstrapAnswers) -> BootstrapStep {
    match step {
        BootstrapStep::ReadFirstFrame => opened(answers.first),
        BootstrapStep::DecodeReconcile => reconcile_step(answers.first_decodes),
        BootstrapStep::Reconcile => reconciled(answers.reconcile),
        BootstrapStep::DecodeStart => start_step(answers.first_decodes),
        BootstrapStep::Start => challenge_step(answers.start),
        BootstrapStep::SendChallenge(_) => challenge_written_step(WriteOutcome::Written),
        BootstrapStep::ReadSubmit => second_step(answers.second),
        BootstrapStep::DecodeSubmit(exchange) => submit_step(
            if exchange == BootstrapExchange::Fresh {
                answers.second_decodes
            } else {
                answers.first_decodes
            },
            exchange,
        ),
        BootstrapStep::Submit(exchange) => submitted(answers.submit, exchange),
        _ => step,
    }
}

/// The last decision before the conversation ends, when every challenge is written.
pub open spec fn bootstrap_outcome(answers: BootstrapAnswers) -> BootstrapStep {
    let a = next_step(BootstrapStep::ReadFirstFrame, answers);
    let b = next_step(a, answers);
    let c = next_step(b, answers);
    let d = next_step(c, answers);
    let e = next_step(d, answers);
    let f = next_step(e, answers);
    let g = next_step(f, answers);
    next_step(g, answers)
}

/// Every conversation ends within eight answers.
pub proof fn law_bootstrap_terminates(answers: BootstrapAnswers)
    ensures
        next_step(bootstrap_outcome(answers), answers) == bootstrap_outcome(answers),
        bootstrap_outcome(answers) is Respond || bootstrap_outcome(answers) is RejectAndClose
            || bootstrap_outcome(answers) is End,
{
}

/// A certificate leaves the Relay only if the authority accepted a submitted code or found the
/// result of one.
pub proof fn law_certificate_needs_authority(answers: BootstrapAnswers)
    requires
        hands_out_certificate(bootstrap_outcome(answers)),
    ensures
        answers.first == Some(Hdb1Kind::Reconcile) ==> answers.reconcile is Ok,
        answers.first != Some(Hdb1Kind::Reconcile) ==> answers.submit is Ok,
        answers.first is Some,
{
}

/// Every refusal on the wire carries a nonzero code.
pub proof fn law_refusals_have_a_code(answers: BootstrapAnswers)
    ensures
        bootstrap_outcome(answers) matches BootstrapStep::RejectAndClose { code, closing } ==> code
            > 0,
        bootstrap_outcome(answers) matches BootstrapStep::Respond {
            response: BootstrapResponse::Rejected { code },
            exchange,
            encoding_failure,
        } ==> code > 0,
{
}

/// A certificate is handed out if and only if the request was decoded and granted: a submission at
/// once, a submission after a challenge, or a question after an earlier grant. It is the one that was
/// granted.
pub proof fn law_certificates_are_handed_out_when_granted(answers: BootstrapAnswers)
    ensures
        ({
            let outcome = bootstrap_outcome(answers);
            let resumed = answers.first == Some(Hdb1Kind::Submit) && answers.first_decodes
                && answers.submit is Ok;
            let asked = answers.first == Some(Hdb1Kind::Reconcile) && answers.first_decodes
                && answers.reconcile is Ok;
            let fresh = answers.first is Some && answers.first != Some(Hdb1Kind::Submit)
                && answers.first != Some(Hdb1Kind::Reconcile) && answers.first_decodes
                && answers.start is Ok && answers.second && answers.second_decodes
                && answers.submit is Ok;
            &&& hands_out_certificate(outcome) <==> resumed || asked || fresh
            &&& resumed || fresh ==> (outcome matches BootstrapStep::Respond { response, .. }
                && response == BootstrapResponse::CoreIssued(answers.submit->Ok_0))
            &&& asked ==> (outcome matches BootstrapStep::Respond { response, .. } && response
                == BootstrapResponse::Result(answers.reconcile->Ok_0))
        }),
{
}

/// A frame that cannot be read or decoded is refused with the first code. A refusal by the runtime
/// is handed on with the code of its cause, in the answer to the exchange that it belongs to.
pub proof fn law_bootstrap_refusals_are_told_apart(answers: BootstrapAnswers)
    ensures
        ({
            let outcome = bootstrap_outcome(answers);
            let opens = answers.first is Some && answers.first != Some(Hdb1Kind::Submit)
                && answers.first != Some(Hdb1Kind::Reconcile);
            &&& answers.first is None ==> (outcome matches BootstrapStep::RejectAndClose {
                code,
                ..
            } && code == 1)
            &&& answers.first == Some(Hdb1Kind::Reconcile) && !answers.first_decodes ==> (
            outcome matches BootstrapStep::RejectAndClose { code, .. } && code == 1)
            &&& opens && !answers.first_decodes ==> (outcome matches BootstrapStep::RejectAndClose {
                code,
                ..
            } && code == 1)
            &&& opens && answers.first_decodes && answers.start is Err ==> (
            outcome matches BootstrapStep::RejectAndClose { code, .. } && code == rejection_code(
                answers.start->Err_0,
            ))
            &&& opens && answers.first_decodes && answers.start is Ok && !answers.second ==> (
            outcome matches BootstrapStep::End { await_peer, close } && !await_peer && close
                is Some)
            &&& answers.first == Some(Hdb1Kind::Submit) && !answers.first_decodes ==> (
            outcome matches BootstrapStep::Respond { response, exchange, .. } && response == (
            BootstrapResponse::Rejected { code: 1 }) && exchange == BootstrapExchange::Resumed)
            &&& answers.first == Some(Hdb1Kind::Submit) && answers.first_decodes
                && answers.submit is Err ==> (outcome matches BootstrapStep::Respond {
                response,
                exchange,
                ..
            } && response == (BootstrapResponse::Rejected {
                code: rejection_code(answers.submit->Err_0),
            }) && exchange == BootstrapExchange::Resumed)
            &&& answers.first == Some(Hdb1Kind::Reconcile) && answers.first_decodes
                && answers.reconcile is Err ==> (outcome matches BootstrapStep::Respond {
                response,
                exchange,
                ..
            } && response == (BootstrapResponse::Rejected {
                code: rejection_code(answers.reconcile->Err_0),
            }) && exchange == BootstrapExchange::Reconcile)
            &&& opens && answers.first_decodes && answers.start is Ok && answers.second
                && !answers.second_decodes ==> (outcome matches BootstrapStep::Respond {
                response,
                exchange,
                ..
            } && response == (BootstrapResponse::Rejected { code: 1 }) && exchange
                == BootstrapExchange::Fresh)
        }),
{
}

/// The codes of refusals are one to eight. Two causes have the same code only where a peer is not to
/// tell them apart: too many bootstraps in all or of the peer, an unknown one or one of another
/// authority, and a workspace or a store that cannot be used.
pub proof fn law_refusal_codes_are_told_apart(
    error: BootstrapRuntimeError,
    other: BootstrapRuntimeError,
)
    ensures
        1 <= rejection_code(error) <= 8,
        rejection_code(error) == 1 <==> error is InvalidField,
        rejection_code(error) == 2 <==> error is CapacityExhausted || error is PeerRateLimited,
        rejection_code(error) == 3 <==> error is AlreadyActive,
        rejection_code(error) == 4 <==> error is AuthorityMismatch || error is NotFound,
        rejection_code(error) == 5 <==> error is WorkspaceUnavailable || error is PersistenceFailed,
        rejection_code(error) == 6 <==> error is CodeRateLimited,
        rejection_code(error) == 7 <==> error is Expired,
        rejection_code(error) == 8 <==> error is CodeMismatch,
{
}

/// The challenge that is sent is the one that was made, and a submission is awaited if and only if
/// it was written.
pub proof fn law_challenges_are_sent_as_made(
    answer: Result<BootstrapChallenge, BootstrapRuntimeError>,
    outcome: WriteOutcome,
)
    ensures
        challenge_step(answer) is SendChallenge <==> answer is Ok,
        answer matches Ok(challenge) ==> challenge_step(answer) == BootstrapStep::SendChallenge(
            challenge,
        ),
        challenge_written_step(outcome) == BootstrapStep::ReadSubmit <==> outcome
            == WriteOutcome::Written,
        outcome == WriteOutcome::TimedOut ==> challenge_written_step(outcome)
            == BootstrapStep::Fail(
            RelayError::QuicHandshake { reason: "bootstrap challenge write timeout" },
        ),
        outcome == WriteOutcome::Failed ==> challenge_written_step(outcome) == BootstrapStep::Fail(
            RelayError::QuicProtocol { reason: "bootstrap challenge write failed" },
        ),
{
}

/// A response that timed out fails the handshake, one that could not be written the protocol; the
/// failure names the exchange.
pub proof fn law_response_failures_name_their_exchange(exchange: BootstrapExchange, timed_out: bool)
    ensures
        timed_out <==> response_failure(exchange, timed_out) is QuicHandshake,
        !timed_out <==> response_failure(exchange, timed_out) is QuicProtocol,
        timed_out && exchange == BootstrapExchange::Fresh ==> response_failure(exchange, timed_out)
            == (RelayError::QuicHandshake { reason: "bootstrap response write timeout" }),
        timed_out && exchange == BootstrapExchange::Resumed ==> response_failure(
            exchange,
            timed_out,
        ) == (RelayError::QuicHandshake { reason: "bootstrap resumed response timeout" }),
        timed_out && exchange == BootstrapExchange::Reconcile ==> response_failure(
            exchange,
            timed_out,
        ) == (RelayError::QuicHandshake { reason: "bootstrap reconcile response timeout" }),
{
}

/// A bootstrap starts if and only if its runtime is there and both of its quotas have room; a missing
/// runtime is told first.
pub proof fn law_bootstraps_start_where_there_is_room(
    runtime_available: bool,
    handshake_free: bool,
    connection_free: bool,
)
    ensures
        entry_step(runtime_available, handshake_free, connection_free)
            == BootstrapStep::ReadFirstFrame <==> runtime_available && handshake_free
            && connection_free,
        runtime_available && !(handshake_free && connection_free) ==> entry_step(
            runtime_available,
            handshake_free,
            connection_free,
        ) == BootstrapStep::Fail(RelayError::ResourceLimit),
        !runtime_available ==> entry_step(runtime_available, handshake_free, connection_free)
            == BootstrapStep::Fail(
            RelayError::QuicProtocol { reason: "bootstrap runtime is unavailable" },
        ),
{
}

/// An operation never runs past the deadline of its bootstrap nor longer than it may, and it gets all
/// of the smaller of the two.
pub proof fn law_operations_end_by_the_deadline(deadline: u64, now: u64, operation: u64)
    ensures
        now <= deadline ==> now + time_left(deadline, now) == deadline,
        deadline <= now ==> time_left(deadline, now) == 0 && bounded_time(deadline, now, operation)
            == 0,
        bounded_time(deadline, now, operation) <= operation,
        bounded_time(deadline, now, operation) <= time_left(deadline, now),
        bounded_time(deadline, now, operation) == operation || bounded_time(
            deadline,
            now,
            operation,
        ) == time_left(deadline, now),
{
}

/// A finished response ends the bootstrap, and waits for the peer unless it answered a question. Only
/// a resumed one leaves the connection open. One that could not be finished fails.
pub proof fn law_finished_responses_end_the_bootstrap(exchange: BootstrapExchange, finished: bool)
    ensures
        finished <==> finished_step(exchange, finished) is End,
        !finished <==> finished_step(exchange, finished) is Fail,
        finished_step(exchange, finished) matches BootstrapStep::End { await_peer, close } ==> {
            &&& await_peer <==> exchange != BootstrapExchange::Reconcile
            &&& close is None <==> exchange == BootstrapExchange::Resumed
        },
{
}

} // verus!
