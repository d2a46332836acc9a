//! The challenge-first enrollment conversation and its version-two reconciliation.

use crate::bytes::{read_be, same_bytes};
use crate::enrollment::{AllowlistState, EnrollmentError};
use crate::error::{RelayError, RelayResult};
use crate::issuance::{
    IssuanceBeginResult, IssuanceResultKey, IssuanceResultRecord, IssuanceResultStatus,
};
use crate::pki::copy_chain;
use vstd::prelude::*;

verus! {

/// Bytes of an enrollment frame before its payload.
pub const ENROLLMENT_HEADER_BYTES: usize = 11;

/// Why an enrollment request is refused on the wire.
#[derive(Debug, Clone, Copy, PartialEq, Eq, Structural)]
pub enum EnrollmentWireError {
    /// A frame exceeds its bound.
    FrameTooLarge,
    /// A bounded resource is exhausted.
    ResourceLimit,
    /// A frame came out of order.
    InvalidOrder,
    /// The authorization does not hold.
    AuthorizationRejected,
    /// Protected state could not be written.
    PersistenceFailed,
    /// A frame is malformed.
    InvalidFrame,
}

/// The failure that a wire error stands for.
pub open spec fn wire_failure(error: EnrollmentWireError) -> RelayError {
    match error {
        EnrollmentWireError::FrameTooLarge => RelayError::QuicProtocol {
            reason: "enrollment frame exceeds bound",
        },
        EnrollmentWireError::ResourceLimit => RelayError::ResourceLimit,
        EnrollmentWireError::InvalidOrder => RelayError::QuicProtocol {
            reason: "enrollment operation order is invalid",
        },
        EnrollmentWireError::AuthorizationRejected => RelayError::QuicAuthentication,
        EnrollmentWireError::PersistenceFailed => RelayError::ConfigurationRead,
        EnrollmentWireError::InvalidFrame => RelayError::QuicProtocol {
            reason: "enrollment frame is invalid",
        },
    }
}

/// Maps a wire error to the failure that it stands for.
pub fn map_enrollment_wire_error(error: EnrollmentWireError) -> (mapped: RelayError)
    ensures
        mapped == wire_failure(error),
{
    match error {
        EnrollmentWireError::FrameTooLarge => RelayError::QuicProtocol {
            reason: "enrollment frame exceeds bound",
        },
        EnrollmentWireError::ResourceLimit => RelayError::ResourceLimit,
        EnrollmentWireError::InvalidOrder => RelayError::QuicProtocol {
            reason: "enrollment operation order is invalid",
        },
        EnrollmentWireError::AuthorizationRejected => RelayError::QuicAuthentication,
        EnrollmentWireError::PersistenceFailed => RelayError::ConfigurationRead,
        EnrollmentWireError::InvalidFrame => RelayError::QuicProtocol {
            reason: "enrollment frame is invalid",
        },
    }
}

/// The wire error that a failure of the issuance store is answered with.
pub open spec fn issuance_refusal(error: RelayError) -> EnrollmentWireError {
    match error {
        RelayError::ResourceLimit => EnrollmentWireError::ResourceLimit,
        RelayError::QuicProtocol { .. } => EnrollmentWireError::AuthorizationRejected,
        _ => EnrollmentWireError::PersistenceFailed,
    }
}

/// Maps a failure of the issuance store to a wire error.
pub fn map_issuance_error(error: &RelayError) -> (mapped: EnrollmentWireError)
    ensures
        mapped == issuance_refusal(*error),
{
    match error {
        RelayError::ResourceLimit => EnrollmentWireError::ResourceLimit,
        RelayError::QuicProtocol { .. } => EnrollmentWireError::AuthorizationRejected,
        _ => EnrollmentWireError::PersistenceFailed,
    }
}

/// Versions of an enrollment request.
#[derive(Debug, Clone, Copy, PartialEq, Eq, Structural)]
pub enum EnrollmentVersion {
    /// Challenge, submission and issuance.
    One,
    /// Reconciliation of a lost response.
    Two,
}

/// Reads the payload length out of an enrollment header and holds it to `max_bytes`.
pub fn enrollment_payload_len(header: &[u8; 11], max_bytes: usize) -> (length: RelayResult<usize>)
    ensures
        ({
            let announced = crate::bytes::be_value(header@.subrange(7, 11));
            match length {
                Ok(bytes) => announced <= max_bytes && bytes == announced,
                Err(error) => announced > max_bytes && error == RelayError::ResourceLimit,
            }
        }),
{
    let announced: u64 = read_be(header, 7, 4);
    if announced > max_bytes as u64 {
        return Err(RelayError::ResourceLimit);
    }
    Ok(announced as usize)
}

/// Reads the version out of an enrollment header whose magic must be `magic`.
pub fn read_versioned_enrollment_frame(header: &[u8; 11], magic: &[u8; 4]) -> (version: RelayResult<
    EnrollmentVersion,
>)
    ensures
        ({
            let number = crate::bytes::be_value(header@.subrange(4, 6));
            version == (if header@.subrange(0, 4) != magic@ {
                Err::<EnrollmentVersion, RelayError>(
                    RelayError::QuicProtocol { reason: "enrollment frame magic is invalid" },
                )
            } else if number == 1 {
                Ok(EnrollmentVersion::One)
            } else if number == 2 {
                Ok(EnrollmentVersion::Two)
            } else {
                Err(
                    RelayError::QuicProtocol { reason: "enrollment frame version is unsupported" },
                )
            })
        }),
{
    let prefix = vstd::slice::slice_subrange(header.as_slice(), 0, 4);
    if !same_bytes(prefix, magic) {
        return Err(RelayError::QuicProtocol { reason: "enrollment frame magic is invalid" });
    }
    let number: u64 = read_be(header, 4, 2);
    if number == 1 {
        Ok(EnrollmentVersion::One)
    } else if number == 2 {
        Ok(EnrollmentVersion::Two)
    } else {
        Err(RelayError::QuicProtocol { reason: "enrollment frame version is unsupported" })
    }
}

/// The deadline of a challenge that is made at `now`.
pub open spec fn deadline_of(now: Option<u64>, ttl_secs: u64) -> RelayResult<u64> {
    match now {
        None => Err::<u64, RelayError>(
            RelayError::QuicHandshake { reason: "enrollment clock unavailable" },
        ),
        Some(seconds) => if seconds + ttl_secs > u64::MAX {
            Err(RelayError::QuicHandshake { reason: "enrollment challenge expiry overflow" })
        } else {
            Ok((seconds + ttl_secs) as u64)
        },
    }
}

/// Computes the deadline of a challenge that is made at `now`.
pub fn challenge_deadline(now: Option<u64>, ttl_secs: u64) -> (deadline: RelayResult<u64>)
    ensures
        deadline == deadline_of(now, ttl_secs),
{
    match now {
        None => Err(RelayError::QuicHandshake { reason: "enrollment clock unavailable" }),
        Some(seconds) => match seconds.checked_add(ttl_secs) {
            Some(deadline) => Ok(deadline),
            None => Err(
                RelayError::QuicHandshake { reason: "enrollment challenge expiry overflow" },
            ),
        },
    }
}

/// What has to be done next in an enrollment conversation.
pub enum EnrollmentStep {
    /// Open the stream of the conversation.
    OpenStream,
    /// Send a fresh challenge that holds until `expires_at`.
    SendChallenge {
        /// Deadline of the challenge.
        expires_at: u64,
    },
    /// Read the request that follows the challenge.
    ReadRequest,
    /// Decode the SUBMIT payload.
    DecodeSubmit,
    /// Run the reconciliation conversation.
    Reconcile,
    /// Check the fields of the submission.
    CheckFields,
    /// Begin the binding in the issuance store.
    Begin {
        /// The binding.
        key: IssuanceResultKey,
    },
    /// Answer with an existing terminal record.
    SendRecord,
    /// Sign a certificate of this allowlist generation.
    Sign {
        /// Generation of the allowlist entry.
        next_generation: u64,
    },
    /// Attach the signed material to the binding.
    Attach,
    /// Enroll the certificate on the allowlist.
    Enroll,
    /// Compare with the entry that the allowlist already holds.
    CompareEntry,
    /// Mark the binding issued.
    MarkIssued {
        /// Generation that the allowlist committed.
        committed_generation: u64,
    },
    /// Write the issued certificate and close the connection.
    SendIssued,
    /// Write a refusal, after marking the binding rejected if `record` is set.
    Reject {
        /// The refusal.
        error: EnrollmentWireError,
        /// The binding is marked rejected with the same error first.
        record: bool,
    },
    /// Write the refusal that stands for an enrollment error.
    RejectFor(EnrollmentError),
    /// Close the stream without an answer, so that the Core reconciles.
    FinishUnknown,
    /// End the connection with a failure.
    Fail(RelayError),
}

/// A refusal that leaves the binding as it is.
pub open spec fn refuses(error: EnrollmentWireError) -> EnrollmentStep {
    EnrollmentStep::Reject { error, record: false }
}

fn refuse(error: EnrollmentWireError) -> (step: EnrollmentStep)
    ensures
        step == refuses(error),
{
    EnrollmentStep::Reject { error, record: false }
}

/// Decides whether an enrollment connection is served.
pub fn enrollment_entry(handshake_free: bool, connection_free: bool) -> (step: EnrollmentStep)
    ensures
        step == (if handshake_free && connection_free {
            EnrollmentStep::OpenStream
        } else {
            EnrollmentStep::Fail(RelayError::ResourceLimit)
        }),
{
    if handshake_free && connection_free {
        EnrollmentStep::OpenStream
    } else {
        EnrollmentStep::Fail(RelayError::ResourceLimit)
    }
}

/// How opening the stream ended.
pub enum OpenOutcome {
    /// The deadline passed.
    TimedOut,
    /// The connection failed.
    Failed,
    /// The stream is open.
    Open,
}

/// The decision once the stream was asked for.
pub open spec fn opened_step(outcome: OpenOutcome, now: Option<u64>, ttl_secs: u64) -> EnrollmentStep {
    match outcome {
        OpenOutcome::TimedOut => EnrollmentStep::Fail(
            RelayError::QuicHandshake { reason: "enrollment control stream timeout" },
        ),
        OpenOutcome::Failed => EnrollmentStep::Fail(
            RelayError::QuicHandshake { reason: "enrollment control stream unavailable" },
        ),
        OpenOutcome::Open => match deadline_of(now, ttl_secs) {
            Ok(expires_at) => EnrollmentStep::SendChallenge { expires_at },
            Err(error) => EnrollmentStep::Fail(error),
        },
    }
}

/// Decision once the stream was asked for.
///
/// The challenge is sent first, so neither side waits for a frame that the other cannot send yet.
pub fn stream_opened(outcome: &OpenOutcome, now: Option<u64>, ttl_secs: u64) -> (step:
    EnrollmentStep)
    ensures
        step == opened_step(*outcome, now, ttl_secs),
{
    match outcome {
        OpenOutcome::TimedOut => EnrollmentStep::Fail(
            RelayError::QuicHandshake { reason: "enrollment control stream timeout" },
        ),
        OpenOutcome::Failed => EnrollmentStep::Fail(
            RelayError::QuicHandshake { reason: "enrollment control stream unavailable" },
        ),
        OpenOutcome::Open => match challenge_deadline(now, ttl_secs) {
            Ok(expires_at) => EnrollmentStep::SendChallenge { expires_at },
            Err(error) => EnrollmentStep::Fail(error),
        },
    }
}

/// How writing an enrollment frame ended.
pub enum FrameOutcome {
    /// The frame cannot be encoded.
    Unencodable(EnrollmentWireError),
    /// The frame cannot be written.
    Failed(EnrollmentWireError),
    /// The deadline passed.
    TimedOut,
    /// The frame is written.
    Written,
}

/// The decision on writing the challenge.
pub open spec fn challenge_step(outcome: FrameOutcome) -> EnrollmentStep {
    match outcome {
        FrameOutcome::Unencodable(error) | FrameOutcome::Failed(error) => EnrollmentStep::Fail(wire_failure(error)),
        FrameOutcome::TimedOut => EnrollmentStep::Fail(
            RelayError::QuicHandshake { reason: "enrollment challenge write timeout" },
        ),
        FrameOutcome::Written => EnrollmentStep::ReadRequest,
    }
}

/// Decision on writing the challenge.
pub fn challenge_written(outcome: &FrameOutcome) -> (step: EnrollmentStep)
    ensures
        step == challenge_step(*outcome),
{
    match outcome {
        FrameOutcome::Unencodable(error) | FrameOutcome::Failed(error) => EnrollmentStep::Fail(map_enrollment_wire_error(*error)),
        FrameOutcome::TimedOut => EnrollmentStep::Fail(
            RelayError::QuicHandshake { reason: "enrollment challenge write timeout" },
        ),
        FrameOutcome::Written => EnrollmentStep::ReadRequest,
    }
}

/// Final answers of an enrollment conversation.
#[derive(Debug, Clone, Copy, PartialEq, Eq, Structural)]
pub enum FinalAnswer {
    /// A certificate that was just issued.
    Issued,
    /// The certificate of an existing record.
    RepeatedIssued,
    /// The refusal of an existing record.
    RepeatedRejected,
    /// A refusal.
    Rejection,
    /// Nothing.
    Unknown,
}

/// The outcome of writing a final answer; a refusal that cannot be written is passed over.
pub open spec fn answer_outcome(answer: FinalAnswer, outcome: FrameOutcome) -> RelayResult<()> {
    match (answer, outcome) {
        (FinalAnswer::Unknown, _) | (_, FrameOutcome::Written) => Ok(()),
        (_, FrameOutcome::Unencodable(error)) => Err(wire_failure(error)),
        (FinalAnswer::Rejection, _) => Ok(()),
        (_, FrameOutcome::Failed(error)) => Err(wire_failure(error)),
        (FinalAnswer::Issued, FrameOutcome::TimedOut) => Err(
            RelayError::QuicHandshake { reason: "enrollment response write timeout" },
        ),
        (FinalAnswer::RepeatedIssued, FrameOutcome::TimedOut) => Err(
            RelayError::QuicHandshake { reason: "reconciled issuance response write timeout" },
        ),
        (FinalAnswer::RepeatedRejected, FrameOutcome::TimedOut) => Err(
            RelayError::QuicHandshake { reason: "reconciled rejection response write timeout" },
        ),
    }
}

/// Decides how the conversation goes on once a final answer was written.
pub fn answer_written(answer: FinalAnswer, outcome: &FrameOutcome) -> (written: RelayResult<()>)
    ensures
        match written {
            Ok(_) => answer_outcome(answer, *outcome) is Ok,
            Err(error) => answer_outcome(answer, *outcome) is Err && error == answer_outcome(
                answer,
                *outcome,
            )->Err_0,
        },
{
    match (answer, outcome) {
        (FinalAnswer::Unknown, _) | (_, FrameOutcome::Written) => Ok(()),
        (_, FrameOutcome::Unencodable(error)) => Err(map_enrollment_wire_error(*error)),
        (FinalAnswer::Rejection, _) => Ok(()),
        (_, FrameOutcome::Failed(error)) => Err(map_enrollment_wire_error(*error)),
        (FinalAnswer::Issued, FrameOutcome::TimedOut) => Err(
            RelayError::QuicHandshake { reason: "enrollment response write timeout" },
        ),
        (FinalAnswer::RepeatedIssued, FrameOutcome::TimedOut) => Err(
            RelayError::QuicHandshake { reason: "reconciled issuance response write timeout" },
        ),
        (FinalAnswer::RepeatedRejected, FrameOutcome::TimedOut) => Err(
            RelayError::QuicHandshake { reason: "reconciled rejection response write timeout" },
        ),
    }
}

/// The failure of finishing the stream after a final answer.
pub fn finish_failure(answer: FinalAnswer) -> (error: RelayError)
    ensures
        error == (RelayError::QuicProtocol {
            reason: match answer {
                FinalAnswer::Issued => "finishing enrollment connection",
                FinalAnswer::RepeatedIssued => "finishing reconciled enrollment connection",
                FinalAnswer::RepeatedRejected => "finishing reconciled rejection connection",
                FinalAnswer::Rejection => "finishing enrollment rejection",
                FinalAnswer::Unknown => "finishing unresolved enrollment connection",
            },
        }),
{
    match answer {
        FinalAnswer::Issued => RelayError::QuicProtocol {
            reason: "finishing enrollment connection",
        },
        FinalAnswer::RepeatedIssued => RelayError::QuicProtocol {
            reason: "finishing reconciled enrollment connection",
        },
        FinalAnswer::RepeatedRejected => RelayError::QuicProtocol {
            reason: "finishing reconciled rejection connection",
        },
        FinalAnswer::Rejection => RelayError::QuicProtocol {
            reason: "finishing enrollment rejection",
        },
        FinalAnswer::Unknown => RelayError::QuicProtocol {
            reason: "finishing unresolved enrollment connection",
        },
    }
}

/// How reading the request ended.
pub enum RequestOutcome {
    /// The deadline passed.
    TimedOut,
    /// The frame is malformed.
    Malformed,
    /// A frame of this version came.
    Frame(EnrollmentVersion),
}

/// The decision on the request that follows the challenge.
pub open spec fn request_step(outcome: RequestOutcome) -> EnrollmentStep {
    match outcome {
        RequestOutcome::TimedOut => refuses(EnrollmentWireError::ResourceLimit),
        RequestOutcome::Malformed => refuses(EnrollmentWireError::InvalidFrame),
        RequestOutcome::Frame(EnrollmentVersion::One) => EnrollmentStep::DecodeSubmit,
        RequestOutcome::Frame(EnrollmentVersion::Two) => EnrollmentStep::Reconcile,
    }
}

/// Decision on the request that follows the challenge.
pub fn request_read(outcome: &RequestOutcome) -> (step: EnrollmentStep)
    ensures
        step == request_step(*outcome),
{
    match outcome {
        RequestOutcome::TimedOut => refuse(EnrollmentWireError::ResourceLimit),
        RequestOutcome::Malformed => refuse(EnrollmentWireError::InvalidFrame),
        RequestOutcome::Frame(EnrollmentVersion::One) => EnrollmentStep::DecodeSubmit,
        RequestOutcome::Frame(EnrollmentVersion::Two) => EnrollmentStep::Reconcile,
    }
}

/// What a submission states about itself.
pub struct SubmittedTerms {
    /// Bytes of the signing request.
    pub csr_len: usize,
    /// Challenge that it answers.
    pub challenge: [u8; 32],
    /// Deadline that it states.
    pub expires_at_epoch_seconds: u64,
    /// Core that it names.
    pub core_identity: [u8; 32],
}

/// The submission keeps to the challenge, its deadline, the size bound and the authenticated Core.
pub open spec fn terms_kept(
    terms: SubmittedTerms,
    max_csr_bytes: usize,
    challenge: Seq<u8>,
    expires_at: u64,
    core_identity: Seq<u8>,
    now: u64,
) -> bool {
    &&& terms.csr_len <= max_csr_bytes
    &&& terms.challenge@ == challenge
    &&& now <= expires_at
    &&& now <= terms.expires_at_epoch_seconds <= expires_at
    &&& terms.core_identity@ == core_identity
}

/// The decision on a decoded submission.
pub open spec fn submission_step(decoded: Result<&SubmittedTerms, EnrollmentWireError>,
    max_csr_bytes: usize,
    challenge: Seq<u8>,
    expires_at: u64,
    core_identity: Seq<u8>,
    now: Option<u64>,
) -> EnrollmentStep {
    match (decoded, now) {
        (Err(error), _) => refuses(error),
        (Ok(_), None) => EnrollmentStep::Fail(
            RelayError::QuicHandshake { reason: "enrollment clock unavailable" },
        ),
        (Ok(terms), Some(seconds)) => if terms_kept(
            *terms,
            max_csr_bytes,
            challenge,
            expires_at,
            core_identity,
            seconds,
        ) {
            EnrollmentStep::CheckFields
        } else {
            refuses(EnrollmentWireError::AuthorizationRejected)
        },
    }
}

/// Decision on a decoded submission; `Err` says why the payload does not decode.
pub fn submission_decoded(
    decoded: Result<&SubmittedTerms, EnrollmentWireError>,
    max_csr_bytes: usize,
    challenge: &[u8; 32],
    expires_at: u64,
    core_identity: &[u8; 32],
    now: Option<u64>,
) -> (step: EnrollmentStep)
    ensures
        step == submission_step(decoded, max_csr_bytes, challenge@, expires_at, core_identity@, now),
{
    let terms = match decoded {
        Ok(inner) => inner,
        Err(error) => {
            return refuse(error);
        },
    };
    let seconds: u64 = match now {
        Some(value) => value,
        None => {
            return EnrollmentStep::Fail(
                RelayError::QuicHandshake { reason: "enrollment clock unavailable" },
            );
        },
    };
    if terms.csr_len > max_csr_bytes || !same_bytes(&terms.challenge, challenge) || seconds
        > expires_at || terms.expires_at_epoch_seconds < seconds || terms.expires_at_epoch_seconds
        > expires_at || !same_bytes(&terms.core_identity, core_identity) {
        return refuse(EnrollmentWireError::AuthorizationRejected);
    }
    EnrollmentStep::CheckFields
}

/// `step` is the decision once the fields of a submission were checked.
///
/// `fields` is the first failure of its fields, `bound` says that the authorization covers the
/// signing request.
pub open spec fn fields_settled(
    step: EnrollmentStep,
    fields: Result<(), EnrollmentError>,
    bound: bool,
    store_open: bool,
    authorization_id: Seq<u8>,
    csr_digest: Seq<u8>,
) -> bool {
    let wanted = crate::issuance::KeyView { authorization_id, csr_digest };
    match fields {
        Err(error) => step == EnrollmentStep::RejectFor(error),
        Ok(_) => if !bound {
            step == refuses(EnrollmentWireError::AuthorizationRejected)
        } else if !store_open {
            step == refuses(EnrollmentWireError::PersistenceFailed)
        } else if !crate::issuance::key_valid(wanted) {
            step == refuses(EnrollmentWireError::AuthorizationRejected)
        } else {
            step matches EnrollmentStep::Begin { key } && key@ == wanted
        },
    }
}

/// Decision once the fields of a submission were checked.
pub fn fields_checked(
    fields: Result<(), EnrollmentError>,
    bound: bool,
    store_open: bool,
    authorization_id: [u8; 16],
    csr_digest: [u8; 32],
) -> (step: EnrollmentStep)
    ensures
        fields_settled(step, fields, bound, store_open, authorization_id@, csr_digest@),
{
    if let Err(error) = fields {
        return EnrollmentStep::RejectFor(error);
    }
    if !bound {
        return refuse(EnrollmentWireError::AuthorizationRejected);
    }
    if !store_open {
        return refuse(EnrollmentWireError::PersistenceFailed);
    }
    match IssuanceResultKey::new(authorization_id, csr_digest) {
        Ok(key) => EnrollmentStep::Begin { key },
        Err(_) => refuse(EnrollmentWireError::AuthorizationRejected),
    }
}

/// The decision once the store was asked to begin the binding.
pub open spec fn begun_step(
    begun: RelayResult<IssuanceBeginResult>,
    allowlist_open: bool,
    owner_known: bool,
    generation: u64,
) -> EnrollmentStep {
    match begun {
        Err(error) => refuses(issuance_refusal(error)),
        Ok(IssuanceBeginResult::Existing(record)) => if record@.status
            == IssuanceResultStatus::Pending {
            EnrollmentStep::FinishUnknown
        } else {
            EnrollmentStep::SendRecord
        },
        Ok(IssuanceBeginResult::Created(_)) => if !allowlist_open {
            refuses(EnrollmentWireError::PersistenceFailed)
        } else if !owner_known {
            EnrollmentStep::Fail(RelayError::QuicAuthentication)
        } else if generation == u64::MAX {
            EnrollmentStep::Fail(
                RelayError::ListenerStartup { reason: "allowlist generation overflow" },
            )
        } else {
            EnrollmentStep::Sign { next_generation: (generation + 1) as u64 }
        },
    }
}

/// Decision once the store was asked to begin the binding.
///
/// A duplicate submission never leads to another certificate: a terminal record is repeated, and
/// a pending one is left for reconciliation. `generation` is that of the allowlist.
pub fn enrollment_begun(
    begun: &RelayResult<IssuanceBeginResult>,
    allowlist_open: bool,
    owner_known: bool,
    generation: u64,
) -> (step: EnrollmentStep)
    ensures
        step == begun_step(*begun, allowlist_open, owner_known, generation),
{
    match begun {
        Err(error) => refuse(map_issuance_error(error)),
        Ok(IssuanceBeginResult::Existing(record)) => match record.status() {
            IssuanceResultStatus::Pending => EnrollmentStep::FinishUnknown,
            _ => EnrollmentStep::SendRecord,
        },
        Ok(IssuanceBeginResult::Created(_)) => {
            if !allowlist_open {
                return refuse(EnrollmentWireError::PersistenceFailed);
            }
            if !owner_known {
                return EnrollmentStep::Fail(RelayError::QuicAuthentication);
            }
            match generation.checked_add(1) {
                Some(next_generation) => EnrollmentStep::Sign { next_generation },
                None => EnrollmentStep::Fail(
                    RelayError::ListenerStartup { reason: "allowlist generation overflow" },
                ),
            }
        },
    }
}

/// A certificate is signed only for a binding that the store has just created.
pub proof fn law_duplicate_submission_is_not_signed(
    begun: RelayResult<IssuanceBeginResult>,
    allowlist_open: bool,
    owner_known: bool,
    generation: u64,
)
    requires
        begun_step(begun, allowlist_open, owner_known, generation) is Sign,
    ensures
        begun matches Ok(IssuanceBeginResult::Created(_)),
{
}

/// The decision once a certificate was asked for and described.
pub open spec fn signed_step(signed: Result<(), EnrollmentError>) -> EnrollmentStep {
    match signed {
        Ok(_) => EnrollmentStep::Attach,
        Err(error) => EnrollmentStep::RejectFor(error),
    }
}

/// Decision once a certificate was asked for and described for the allowlist.
pub fn enrollment_signed(signed: Result<(), EnrollmentError>) -> (step: EnrollmentStep)
    ensures
        step == signed_step(signed),
{
    match signed {
        Ok(_) => EnrollmentStep::Attach,
        Err(error) => EnrollmentStep::RejectFor(error),
    }
}

/// The decision once the material was attached.
pub open spec fn attached_step(attached: bool) -> EnrollmentStep {
    if attached {
        EnrollmentStep::Enroll
    } else {
        refuses(EnrollmentWireError::PersistenceFailed)
    }
}

/// Decision once the material was attached.
pub fn enrollment_attached(attached: bool) -> (step: EnrollmentStep)
    ensures
        step == attached_step(attached),
{
    if attached {
        EnrollmentStep::Enroll
    } else {
        refuse(EnrollmentWireError::PersistenceFailed)
    }
}

/// The decision once the allowlist was asked to enroll.
pub open spec fn enrolled_step(committed: Result<u64, EnrollmentError>) -> EnrollmentStep {
    match committed {
        Ok(committed_generation) => EnrollmentStep::MarkIssued { committed_generation },
        Err(EnrollmentError::DuplicateEnrollment) => EnrollmentStep::CompareEntry,
        Err(_) => EnrollmentStep::FinishUnknown,
    }
}

/// Decision once the allowlist was asked to enroll.
pub fn enrollment_enrolled(committed: Result<u64, EnrollmentError>) -> (step: EnrollmentStep)
    ensures
        step == enrolled_step(committed),
{
    match committed {
        Ok(committed_generation) => EnrollmentStep::MarkIssued { committed_generation },
        Err(EnrollmentError::DuplicateEnrollment) => EnrollmentStep::CompareEntry,
        Err(_) => EnrollmentStep::FinishUnknown,
    }
}

/// State, leaf digest and generation of an allowlist entry.
pub struct EntryFacts {
    /// State of the App.
    pub state: AllowlistState,
    /// Digest of the leaf.
    pub fingerprint: [u8; 32],
    /// Generation of the entry.
    pub generation: u64,
}

/// The entry is active with this leaf.
pub open spec fn entry_active(entry: EntryFacts, fingerprint: Seq<u8>) -> bool {
    entry.state == AllowlistState::Active && entry.fingerprint@ == fingerprint
}

/// The decision on the entry that the allowlist already holds.
pub open spec fn compared_step(named: bool, entry: Option<&EntryFacts>, fingerprint: Seq<u8>) -> EnrollmentStep {
    if !named {
        EnrollmentStep::Fail(
            RelayError::QuicProtocol { reason: "issued App identity is invalid" },
        )
    } else {
        match entry {
            Some(facts) => if entry_active(*facts, fingerprint) {
                EnrollmentStep::MarkIssued { committed_generation: facts.generation }
            } else {
                EnrollmentStep::Reject {
                    error: EnrollmentWireError::AuthorizationRejected,
                    record: true,
                }
            },
            None => EnrollmentStep::Reject {
                error: EnrollmentWireError::AuthorizationRejected,
                record: true,
            },
        }
    }
}

/// Decision on the entry that the allowlist already holds; `named` says that the App can be
/// looked up.
pub fn entry_compared(named: bool, entry: Option<&EntryFacts>, fingerprint: &[u8; 32]) -> (step:
    EnrollmentStep)
    ensures
        step == compared_step(named, entry, fingerprint@),
{
    if !named {
        return EnrollmentStep::Fail(
            RelayError::QuicProtocol { reason: "issued App identity is invalid" },
        );
    }
    if let Some(facts) = entry {
        if facts.state == AllowlistState::Active && same_bytes(&facts.fingerprint, fingerprint) {
            return EnrollmentStep::MarkIssued { committed_generation: facts.generation };
        }
    }
    EnrollmentStep::Reject { error: EnrollmentWireError::AuthorizationRejected, record: true }
}

/// The decision once the binding was marked issued.
pub open spec fn marked_step(marked: bool) -> EnrollmentStep {
    if marked {
        EnrollmentStep::SendIssued
    } else {
        EnrollmentStep::FinishUnknown
    }
}

/// Decision once the binding was marked issued.
pub fn enrollment_marked(marked: bool) -> (step: EnrollmentStep)
    ensures
        step == marked_step(marked),
{
    if marked {
        EnrollmentStep::SendIssued
    } else {
        EnrollmentStep::FinishUnknown
    }
}

/// What repeating a stored record writes.
pub enum RecordReply {
    /// An issued certificate.
    Issued {
        /// Public certificate chain.
        certificate_chain: Vec<Vec<u8>>,
        /// Digest of the leaf.
        fingerprint: [u8; 32],
        /// Allowlist generation.
        allowlist_generation: u64,
        /// End of validity.
        not_after_epoch_seconds: u64,
    },
    /// The refusal of the stored code.
    Rejected(u16),
    /// A refusal because the record is incomplete.
    Incomplete(EnrollmentWireError),
    /// Nothing: the outcome is unresolved.
    Unknown,
    /// A failure of the connection.
    Fail(RelayError),
}

/// `reply` is what repeating `record` writes.
pub open spec fn repeats(reply: RecordReply, record: crate::issuance::RecordView) -> bool {
    match record.status {
        IssuanceResultStatus::Issued => match (
            record.fingerprint,
            record.allowlist_generation,
            record.not_after_epoch_seconds,
        ) {
            (Some(digest), Some(generation), Some(not_after)) => reply matches RecordReply::Issued {
                certificate_chain,
                fingerprint,
                allowlist_generation,
                not_after_epoch_seconds,
            } && {
                &&& crate::issuance::chain_view(certificate_chain@) == record.certificate_chain
                &&& fingerprint@ == digest
                &&& allowlist_generation == generation
                &&& not_after_epoch_seconds == not_after
            },
            _ => reply == RecordReply::Incomplete(EnrollmentWireError::PersistenceFailed),
        },
        IssuanceResultStatus::Rejected => reply == (match record.rejection_code {
            Some(code) => RecordReply::Rejected(code),
            None => RecordReply::Fail(RelayError::ConfigurationRead),
        }),
        IssuanceResultStatus::Pending => reply == RecordReply::Unknown,
    }
}

/// Decides what repeating a stored record writes.
pub fn send_reconciled_record(record: &IssuanceResultRecord) -> (reply: RecordReply)
    ensures
        repeats(reply, record@),
{
    match record.status() {
        IssuanceResultStatus::Issued => {
            let (Some(fingerprint), Some(allowlist_generation), Some(not_after_epoch_seconds)) = (
                record.fingerprint(),
                record.allowlist_generation(),
                record.not_after_epoch_seconds(),
            ) else {
                return RecordReply::Incomplete(EnrollmentWireError::PersistenceFailed);
            };
            let certificate_chain = copy_chain(record.certificate_chain());
            assert(crate::issuance::chain_view(certificate_chain@) =~= record@.certificate_chain);
            RecordReply::Issued {
                certificate_chain,
                fingerprint,
                allowlist_generation,
                not_after_epoch_seconds,
            }
        },
        IssuanceResultStatus::Rejected => match record.rejection_code() {
            Some(code) => RecordReply::Rejected(code),
            None => RecordReply::Fail(RelayError::ConfigurationRead),
        },
        IssuanceResultStatus::Pending => RecordReply::Unknown,
    }
}

/// The lookup that a reconciliation leads to, or why it fails.
pub open spec fn lookup_settled(
    lookup: RelayResult<(IssuanceResultKey, u64)>,
    request: Option<([u8; 16], [u8; 32])>,
    now: Option<u64>,
    store_open: bool,
) -> bool {
    match request {
        None => lookup matches Err(error) && error == (RelayError::QuicProtocol {
            reason: "reconciliation request is invalid",
        }),
        Some((authorization_id, csr_digest)) => {
            let wanted = crate::issuance::KeyView {
                authorization_id: authorization_id@,
                csr_digest: csr_digest@,
            };
            if !crate::issuance::key_valid(wanted) {
                lookup matches Err(error) && error == (RelayError::QuicProtocol {
                    reason: "reconciliation binding is invalid",
                })
            } else if now is None {
                lookup matches Err(error) && error == (RelayError::QuicHandshake {
                    reason: "enrollment clock unavailable",
                })
            } else if !store_open {
                lookup matches Err(error) && error == RelayError::ConfigurationRead
            } else {
                lookup matches Ok(found) && found.0@ == wanted && Some(found.1) == now
            }
        },
    }
}

/// Decides what a reconciliation looks up; `None` says that the request does not decode.
pub fn reconciliation_lookup(
    request: Option<([u8; 16], [u8; 32])>,
    now: Option<u64>,
    store_open: bool,
) -> (lookup: RelayResult<(IssuanceResultKey, u64)>)
    ensures
        lookup_settled(lookup, request, now, store_open),
{
    let (authorization_id, csr_digest) = match request {
        Some(binding) => binding,
        None => {
            return Err(RelayError::QuicProtocol { reason: "reconciliation request is invalid" });
        },
    };
    let key = match IssuanceResultKey::new(authorization_id, csr_digest) {
        Ok(binding) => binding,
        Err(_) => {
            return Err(RelayError::QuicProtocol { reason: "reconciliation binding is invalid" });
        },
    };
    match now {
        None => Err(RelayError::QuicHandshake { reason: "enrollment clock unavailable" }),
        Some(seconds) => if store_open {
            Ok((key, seconds))
        } else {
            Err(RelayError::ConfigurationRead)
        },
    }
}

/// The record is pending with complete public material.
pub open spec fn awaits_completion(record: crate::issuance::RecordView) -> bool {
    &&& record.status == IssuanceResultStatus::Pending
    &&& record.certificate_chain.len() > 0
    &&& record.fingerprint is Some
    &&& record.allowlist_generation is Some
    &&& record.not_after_epoch_seconds is Some
}

/// The allowlist entry is active with the leaf and the generation of the record.
pub open spec fn completes(record: crate::issuance::RecordView, entry: EntryFacts) -> bool {
    &&& entry_active(entry, record.fingerprint->Some_0)
    &&& Some(entry.generation) == record.allowlist_generation
}

/// Whether a reconciled record has to be marked issued before it is answered.
pub open spec fn completion(
    record: crate::issuance::RecordView,
    named: bool,
    entry: RelayResult<Option<EntryFacts>>,
) -> RelayResult<bool> {
    if !awaits_completion(record) {
        Ok(false)
    } else if !named {
        Err(RelayError::ConfigurationRead)
    } else {
        match entry {
            Err(error) => Err(error),
            Ok(None) => Ok(false),
            Ok(Some(facts)) => Ok(completes(record, facts)),
        }
    }
}

/// Tells whether a reconciled record has to be marked issued before it is answered.
///
/// `named` says that the App of the record can be looked up, `entry` what the reloaded allowlist
/// holds of it.
pub fn serve_reconciliation_frame(
    record: &IssuanceResultRecord,
    named: bool,
    entry: &RelayResult<Option<EntryFacts>>,
) -> (complete: RelayResult<bool>)
    ensures
        complete == completion(record@, named, *entry),
{
    if record.status() != IssuanceResultStatus::Pending || record.certificate_chain().len() == 0 {
        return Ok(false);
    }
    let (Some(fingerprint), Some(generation), Some(_)) = (
        record.fingerprint(),
        record.allowlist_generation(),
        record.not_after_epoch_seconds(),
    ) else {
        return Ok(false);
    };
    if !named {
        return Err(RelayError::ConfigurationRead);
    }
    match entry {
        Err(error) => Err(*error),
        Ok(None) => Ok(false),
        Ok(Some(facts)) => Ok(
            facts.state == AllowlistState::Active && same_bytes(&facts.fingerprint, &fingerprint)
                && facts.generation == generation,
        ),
    }
}

/// How answering a reconciliation ended.
#[derive(Debug, Clone, Copy, PartialEq, Eq, Structural)]
pub enum ReconciliationOutcome {
    /// The answer is not consistent.
    Invalid,
    /// The answer exceeds the frame bound.
    Oversized,
    /// The deadline passed.
    TimedOut,
    /// The stream failed.
    Failed,
    /// The stream could not be finished.
    Unfinished,
    /// The answer is written.
    Written,
}

/// The failure that an unanswered reconciliation ends with, if any.
pub fn reconciliation_written(outcome: ReconciliationOutcome) -> (failure: Option<RelayError>)
    ensures
        failure == (match outcome {
            ReconciliationOutcome::Invalid => Some(
                RelayError::QuicProtocol { reason: "reconciliation result is invalid" },
            ),
            ReconciliationOutcome::Oversized => Some(
                RelayError::QuicProtocol { reason: "reconciliation result exceeds bounds" },
            ),
            ReconciliationOutcome::TimedOut => Some(
                RelayError::QuicHandshake { reason: "reconciliation response write timeout" },
            ),
            ReconciliationOutcome::Failed => Some(
                RelayError::QuicProtocol { reason: "reconciliation response write failed" },
            ),
            ReconciliationOutcome::Unfinished => Some(
                RelayError::QuicProtocol { reason: "finishing reconciliation connection" },
            ),
            ReconciliationOutcome::Written => None,
        }),
{
    match outcome {
        ReconciliationOutcome::Invalid => Some(
            RelayError::QuicProtocol { reason: "reconciliation result is invalid" },
        ),
        ReconciliationOutcome::Oversized => Some(
            RelayError::QuicProtocol { reason: "reconciliation result exceeds bounds" },
        ),
        ReconciliationOutcome::TimedOut => Some(
            RelayError::QuicHandshake { reason: "reconciliation response write timeout" },
        ),
        ReconciliationOutcome::Failed => Some(
            RelayError::QuicProtocol { reason: "reconciliation response write failed" },
        ),
        ReconciliationOutcome::Unfinished => Some(
            RelayError::QuicProtocol { reason: "finishing reconciliation connection" },
        ),
        ReconciliationOutcome::Written => None,
    }
}

/// Answer to a reconciliation.
pub enum ReconciliationResult {
    /// The outcome is unresolved.
    Pending,
    /// A certificate was issued.
    Issued {
        /// Public certificate chain.
        certificate_chain: Vec<Vec<u8>>,
        /// Digest of the leaf.
        fingerprint: [u8; 32],
        /// Allowlist generation.
        allowlist_generation: u64,
        /// End of validity.
        not_after_epoch_seconds: u64,
    },
    /// The request was refused with the code of the record.
    Rejected {
        /// Code of the record.
        code: Option<u16>,
    },
    /// No record of the request is retained.
    Unknown,
}

/// Status of an answer to a reconciliation on the wire.
#[derive(Debug, Clone, Copy, PartialEq, Eq, Structural)]
pub enum ReconciliationStatus {
    /// The outcome is unresolved.
    Pending,
    /// A certificate was issued.
    Issued,
    /// The request was refused.
    Rejected,
}

/// Why an answer to a reconciliation is a refusal on the wire.
#[derive(Debug, Clone, Copy, PartialEq, Eq, Structural)]
pub enum ReconciliationRefusal {
    /// With the code that the record holds.
    Recorded(Option<u16>),
    /// With the code of an enrollment error.
    Wire(EnrollmentWireError),
}

impl ReconciliationResult {
    /// The status on the wire; without a record the request counts as refused.
    pub fn status(&self) -> (status: ReconciliationStatus)
        ensures
            status == (match self {
                ReconciliationResult::Pending => ReconciliationStatus::Pending,
                ReconciliationResult::Issued { .. } => ReconciliationStatus::Issued,
                ReconciliationResult::Rejected { .. } => ReconciliationStatus::Rejected,
                ReconciliationResult::Unknown => ReconciliationStatus::Rejected,
            }),
    {
        match self {
            ReconciliationResult::Pending => ReconciliationStatus::Pending,
            ReconciliationResult::Issued { .. } => ReconciliationStatus::Issued,
            ReconciliationResult::Rejected { .. } => ReconciliationStatus::Rejected,
            ReconciliationResult::Unknown => ReconciliationStatus::Rejected,
        }
    }

    /// The refusal on the wire, if it is one; without a record it is that of an authorization.
    pub fn refusal(&self) -> (refusal: Option<ReconciliationRefusal>)
        ensures
            refusal == (match self {
                ReconciliationResult::Rejected { code } => Some(
                    ReconciliationRefusal::Recorded(*code),
                ),
                ReconciliationResult::Unknown => Some(
                    ReconciliationRefusal::Wire(EnrollmentWireError::AuthorizationRejected),
                ),
                _ => None,
            }),
    {
        match self {
            ReconciliationResult::Rejected { code } => Some(ReconciliationRefusal::Recorded(*code)),
            ReconciliationResult::Unknown => Some(
                ReconciliationRefusal::Wire(EnrollmentWireError::AuthorizationRejected),
            ),
            ReconciliationResult::Pending | ReconciliationResult::Issued { .. } => None,
        }
    }
}

/// `payload` is the answer that `record` stands for.
pub open spec fn reconciles(
    payload: RelayResult<ReconciliationResult>,
    record: Option<crate::issuance::RecordView>,
) -> bool {
    match record {
        None => payload matches Ok(ReconciliationResult::Unknown),
        Some(found) => match found.status {
            IssuanceResultStatus::Pending => payload matches Ok(ReconciliationResult::Pending),
            IssuanceResultStatus::Rejected => payload matches Ok(
                ReconciliationResult::Rejected { code },
            ) && code == found.rejection_code,
            IssuanceResultStatus::Issued => match (
                found.fingerprint,
                found.allowlist_generation,
                found.not_after_epoch_seconds,
            ) {
                (Some(digest), Some(generation), Some(not_after)) => payload matches Ok(
                    ReconciliationResult::Issued {
                        certificate_chain,
                        fingerprint,
                        allowlist_generation,
                        not_after_epoch_seconds,
                    },
                ) && {
                    &&& crate::issuance::chain_view(certificate_chain@) == found.certificate_chain
                    &&& fingerprint@ == digest
                    &&& allowlist_generation == generation
                    &&& not_after_epoch_seconds == not_after
                },
                _ => payload matches Err(error) && error == RelayError::ConfigurationRead,
            },
        },
    }
}

/// Turns a record into the answer to its reconciliation.
pub fn reconciliation_payload(record: Option<&IssuanceResultRecord>) -> (payload: RelayResult<
    ReconciliationResult,
>)
    ensures
        reconciles(
            payload,
            match record {
                Some(found) => Some(found@),
                None => None,
            },
        ),
{
    let found = match record {
        Some(inner) => inner,
        None => {
            return Ok(ReconciliationResult::Unknown);
        },
    };
    match found.status() {
        IssuanceResultStatus::Pending => Ok(ReconciliationResult::Pending),
        IssuanceResultStatus::Rejected => Ok(
            ReconciliationResult::Rejected { code: found.rejection_code() },
        ),
        IssuanceResultStatus::Issued => {
            let (Some(fingerprint), Some(allowlist_generation), Some(not_after_epoch_seconds)) = (
                found.fingerprint(),
                found.allowlist_generation(),
                found.not_after_epoch_seconds(),
            ) else {
                return Err(RelayError::ConfigurationRead);
            };
            let certificate_chain = copy_chain(found.certificate_chain());
            assert(crate::issuance::chain_view(certificate_chain@) =~= found@.certificate_chain);
            Ok(
                ReconciliationResult::Issued {
                    certificate_chain,
                    fingerprint,
                    allowlist_generation,
                    not_after_epoch_seconds,
                },
            )
        },
    }
}

/// A valid record is always repeated and reconciled without a failure of the connection, and an
/// issued one with its own certificate.
pub proof fn law_valid_record_is_answered(
    record: crate::issuance::RecordView,
    reply: RecordReply,
    payload: RelayResult<ReconciliationResult>,
)
    requires
        crate::issuance::record_check(record, true) is Ok,
        repeats(reply, record),
        reconciles(payload, Some(record)),
    ensures
        !(reply is Fail) && !(reply is Incomplete),
        payload is Ok,
        record.status == IssuanceResultStatus::Issued ==> reply is Issued
            && payload->Ok_0 is Issued,
        record.status == IssuanceResultStatus::Rejected ==> reply == RecordReply::Rejected(
            record.rejection_code->Some_0,
        ),
{
}

/// What the outside answers in an enrollment conversation.
pub struct EnrollmentAnswers {
    /// How opening the stream ended.
    pub opened: OpenOutcome,
    /// The clock, in seconds since the epoch.
    pub now: Option<u64>,
    /// Seconds that a challenge holds.
    pub challenge_ttl_secs: u64,
    /// How writing the challenge ended.
    pub challenge_written: FrameOutcome,
    /// How reading the request ended.
    pub request: RequestOutcome,
    /// The submission, or why it does not decode.
    pub decoded: Result<SubmittedTerms, EnrollmentWireError>,
    /// Bound on the signing request.
    pub max_csr_bytes: usize,
    /// Challenge of the conversation.
    pub challenge: [u8; 32],
    /// Deadline of the challenge.
    pub expires_at: u64,
    /// Identity of the authenticated Core.
    pub core_identity: [u8; 32],
    /// First failure of the fields of the submission.
    pub fields: Result<(), EnrollmentError>,
    /// The authorization covers the signing request.
    pub bound: bool,
    /// The issuance store is open.
    pub store_open: bool,
    /// Authorization that the submission names.
    pub authorization_id: [u8; 16],
    /// Digest of the signing request.
    pub csr_digest: [u8; 32],
    /// Answer of the issuance store.
    pub begun: RelayResult<IssuanceBeginResult>,
    /// The allowlist is open.
    pub allowlist_open: bool,
    /// The owner of the process is known.
    pub owner_known: bool,
    /// Generation of the allowlist.
    pub generation: u64,
    /// Outcome of signing.
    pub signed: Result<(), EnrollmentError>,
    /// The material was attached.
    pub attached: bool,
    /// Answer of the allowlist.
    pub committed: Result<u64, EnrollmentError>,
    /// The App can be looked up.
    pub named: bool,
    /// Entry that the allowlist already holds.
    pub entry: Option<EntryFacts>,
    /// Digest of the signed leaf.
    pub fingerprint: [u8; 32],
    /// The binding was marked issued.
    pub marked: bool,
}

/// `after` is the decision that follows `before`.
pub open spec fn enrollment_follows(
    before: EnrollmentStep,
    answers: EnrollmentAnswers,
    after: EnrollmentStep,
) -> bool {
    match before {
        EnrollmentStep::OpenStream => after == opened_step(
            answers.opened,
            answers.now,
            answers.challenge_ttl_secs,
        ),
        EnrollmentStep::SendChallenge { .. } => after == challenge_step(answers.challenge_written),
        EnrollmentStep::ReadRequest => after == request_step(answers.request),
        EnrollmentStep::DecodeSubmit => after == submission_step(
            match answers.decoded {
                Ok(terms) => Ok(&terms),
                Err(error) => Err(error),
            },
            answers.max_csr_bytes,
            answers.challenge@,
            answers.expires_at,
            answers.core_identity@,
            answers.now,
        ),
        EnrollmentStep::CheckFields => fields_settled(
            after,
            answers.fields,
            answers.bound,
            answers.store_open,
            answers.authorization_id@,
            answers.csr_digest@,
        ),
        EnrollmentStep::Begin { .. } => after == begun_step(
            answers.begun,
            answers.allowlist_open,
            answers.owner_known,
            answers.generation,
        ),
        EnrollmentStep::Sign { .. } => after == signed_step(answers.signed),
        EnrollmentStep::Attach => after == attached_step(answers.attached),
        EnrollmentStep::Enroll => after == enrolled_step(answers.committed),
        EnrollmentStep::CompareEntry => after == compared_step(
            answers.named,
            match answers.entry {
                Some(facts) => Some(&facts),
                None => None,
            },
            answers.fingerprint@,
        ),
        EnrollmentStep::MarkIssued { .. } => after == marked_step(answers.marked),
        _ => false,
    }
}

/// The number of answers that an enrollment conversation may still need after `step`.
pub open spec fn enrollment_answers_left(step: EnrollmentStep) -> nat {
    match step {
        EnrollmentStep::OpenStream => 11,
        EnrollmentStep::SendChallenge { .. } => 10,
        EnrollmentStep::ReadRequest => 9,
        EnrollmentStep::DecodeSubmit => 8,
        EnrollmentStep::CheckFields => 7,
        EnrollmentStep::Begin { .. } => 6,
        EnrollmentStep::Sign { .. } => 5,
        EnrollmentStep::Attach => 4,
        EnrollmentStep::Enroll => 3,
        EnrollmentStep::CompareEntry => 2,
        EnrollmentStep::MarkIssued { .. } => 1,
        _ => 0,
    }
}

/// Every answer brings an enrollment conversation strictly nearer to its end.
pub proof fn law_submission_terminates(
    before: EnrollmentStep,
    answers: EnrollmentAnswers,
    after: EnrollmentStep,
)
    requires
        enrollment_follows(before, answers, after),
    ensures
        enrollment_answers_left(after) < enrollment_answers_left(before),
{
}

/// The fields of a submission are looked at only if it keeps to the challenge, its deadline and
/// the authenticated Core.
pub proof fn law_submission_keeps_its_terms(answers: EnrollmentAnswers, after: EnrollmentStep)
    requires
        enrollment_follows(EnrollmentStep::DecodeSubmit, answers, after),
        after is CheckFields,
    ensures
        answers.decoded is Ok,
        answers.now is Some,
        terms_kept(
            answers.decoded->Ok_0,
            answers.max_csr_bytes,
            answers.challenge@,
            answers.expires_at,
            answers.core_identity@,
            answers.now->Some_0,
        ),
{
}

/// An issued answer is sent only after the allowlist holds the leaf and the store has marked the
/// binding issued.
pub proof fn law_issued_answer_is_committed(
    first: EnrollmentStep,
    second: EnrollmentStep,
    third: EnrollmentStep,
    earlier: EnrollmentAnswers,
    later: EnrollmentAnswers,
)
    requires
        enrollment_follows(first, earlier, second),
        enrollment_follows(second, later, third),
        third is SendIssued,
    ensures
        later.marked,
        (first is Enroll && earlier.committed is Ok) || (first is CompareEntry
            && earlier.entry is Some && entry_active(
            earlier.entry->Some_0,
            earlier.fingerprint@,
        )),
{
}

/// A submission is checked on if and only if it was decoded, the clock is known, and it keeps its
/// terms: a request within the bound, the challenge of this exchange, a deadline that is neither
/// past nor later than the one that was set, and the Core of this connection.
pub proof fn law_submissions_keep_every_term(
    decoded: Result<&SubmittedTerms, EnrollmentWireError>,
    max_csr_bytes: usize,
    challenge: Seq<u8>,
    expires_at: u64,
    core_identity: Seq<u8>,
    now: Option<u64>,
)
    ensures
        ({
            let step = submission_step(
                decoded,
                max_csr_bytes,
                challenge,
                expires_at,
                core_identity,
                now,
            );
            &&& step == EnrollmentStep::CheckFields <==> (match (decoded, now) {
                (Ok(terms), Some(seconds)) => {
                    &&& terms.csr_len <= max_csr_bytes
                    &&& terms.challenge@ == challenge
                    &&& seconds <= terms.expires_at_epoch_seconds
                    &&& terms.expires_at_epoch_seconds <= expires_at
                    &&& terms.core_identity@ == core_identity
                },
                _ => false,
            })
            &&& decoded matches Err(error) ==> step == (EnrollmentStep::Reject {
                error,
                record: false,
            })
            &&& decoded is Ok && now is None ==> step is Fail
            &&& decoded is Ok && now is Some && step != EnrollmentStep::CheckFields ==> step == (
            EnrollmentStep::Reject {
                error: EnrollmentWireError::AuthorizationRejected,
                record: false,
            })
        }),
{
}

/// A result is begun for exactly the authorization and the digest that were submitted, and only if
/// the fields are valid, the request is bound to its authorization, and the store is open.
pub proof fn law_bindings_are_begun_as_submitted(
    step: EnrollmentStep,
    fields: Result<(), EnrollmentError>,
    bound: bool,
    store_open: bool,
    authorization_id: Seq<u8>,
    csr_digest: Seq<u8>,
)
    requires
        fields_settled(step, fields, bound, store_open, authorization_id, csr_digest),
    ensures
        step is Begin <==> fields is Ok && bound && store_open && !crate::bytes::all_zero(
            authorization_id,
        ) && !crate::bytes::all_zero(csr_digest),
        step matches EnrollmentStep::Begin { key } ==> key@.authorization_id == authorization_id
            && key@.csr_digest == csr_digest,
        fields matches Err(error) ==> step == EnrollmentStep::RejectFor(error),
        fields is Ok && !bound ==> step == (EnrollmentStep::Reject {
            error: EnrollmentWireError::AuthorizationRejected,
            record: false,
        }),
        fields is Ok && bound && !store_open ==> step == (EnrollmentStep::Reject {
            error: EnrollmentWireError::PersistenceFailed,
            record: false,
        }),
{
}

/// A certificate is signed if and only if the result was created by this submission, the allowlist
/// is open with a known owner, and its generation can be raised by one, to which the certificate is
/// signed. A result that exists is repeated if it is settled, and left open if it is pending.
pub proof fn law_new_results_are_signed(
    begun: RelayResult<IssuanceBeginResult>,
    allowlist_open: bool,
    owner_known: bool,
    generation: u64,
)
    ensures
        ({
            let step = begun_step(begun, allowlist_open, owner_known, generation);
            &&& step is Sign <==> (begun matches Ok(IssuanceBeginResult::Created(_)))
                && allowlist_open && owner_known && generation < u64::MAX
            &&& step matches EnrollmentStep::Sign { next_generation } ==> next_generation
                == generation + 1
            &&& begun matches Ok(IssuanceBeginResult::Existing(record)) ==> step == (
            if record@.status == IssuanceResultStatus::Pending {
                EnrollmentStep::FinishUnknown
            } else {
                EnrollmentStep::SendRecord
            })
            &&& begun matches Ok(IssuanceBeginResult::Created(_)) ==> {
                &&& !allowlist_open ==> step == (EnrollmentStep::Reject {
                    error: EnrollmentWireError::PersistenceFailed,
                    record: false,
                })
                &&& allowlist_open && !owner_known ==> step == EnrollmentStep::Fail(
                    RelayError::QuicAuthentication,
                )
                &&& allowlist_open && owner_known && generation == u64::MAX ==> step is Fail
            }
            &&& begun matches Err(error) ==> (step matches EnrollmentStep::Reject {
                error: told,
                record,
            } && !record && (error == RelayError::ResourceLimit <==> told
                == EnrollmentWireError::ResourceLimit) && (error is QuicProtocol <==> told
                == EnrollmentWireError::AuthorizationRejected))
        }),
{
}

/// A result is marked issued if and only if the allowlist took the App at that generation, or holds
/// it already as active with the same certificate. An App that is there with another certificate or
/// not active is rejected for good.
pub proof fn law_enrolled_apps_are_marked(
    committed: Result<u64, EnrollmentError>,
    named: bool,
    entry: Option<&EntryFacts>,
    fingerprint: Seq<u8>,
)
    ensures
        enrolled_step(committed) is MarkIssued <==> committed is Ok,
        committed matches Ok(generation) ==> enrolled_step(committed) == (
        EnrollmentStep::MarkIssued { committed_generation: generation }),
        enrolled_step(committed) == EnrollmentStep::CompareEntry <==> committed == Err::<
            u64,
            EnrollmentError,
        >(EnrollmentError::DuplicateEnrollment),
        committed is Err && committed != Err::<u64, EnrollmentError>(
            EnrollmentError::DuplicateEnrollment,
        ) ==> enrolled_step(committed) == EnrollmentStep::FinishUnknown,
        ({
            let step = compared_step(named, entry, fingerprint);
            let same = entry matches Some(facts) && facts.state == AllowlistState::Active
                && facts.fingerprint@ == fingerprint;
            &&& step is MarkIssued <==> named && same
            &&& step matches EnrollmentStep::MarkIssued { committed_generation } ==> (
            entry matches Some(facts) && committed_generation == facts.generation)
            &&& named && !same ==> step == (EnrollmentStep::Reject {
                error: EnrollmentWireError::AuthorizationRejected,
                record: true,
            })
            &&& !named ==> step is Fail
        }),
{
}

/// Each step that does not succeed ends the submission: a refused signature with its cause, a record
/// or an allowlist that cannot be written as such, and a result that could not be marked as unknown.
pub proof fn law_failed_steps_end_the_submission(
    signed: Result<(), EnrollmentError>,
    attached: bool,
    marked: bool,
)
    ensures
        signed_step(signed) == EnrollmentStep::Attach <==> signed is Ok,
        signed matches Err(error) ==> signed_step(signed) == EnrollmentStep::RejectFor(error),
        attached_step(attached) == EnrollmentStep::Enroll <==> attached,
        !attached ==> attached_step(attached) == (EnrollmentStep::Reject {
            error: EnrollmentWireError::PersistenceFailed,
            record: false,
        }),
        marked_step(marked) == EnrollmentStep::SendIssued <==> marked,
        !marked ==> marked_step(marked) == EnrollmentStep::FinishUnknown,
{
}

/// A challenge is sent if and only if the stream is open and its deadline can be told; it ends the
/// configured seconds from now. A request is read if and only if it was written.
pub proof fn law_challenges_end_after_their_time(
    opened: OpenOutcome,
    now: Option<u64>,
    ttl_secs: u64,
    written: FrameOutcome,
)
    ensures
        opened_step(opened, now, ttl_secs) is SendChallenge <==> opened == OpenOutcome::Open && (
        now matches Some(seconds) && seconds + ttl_secs <= u64::MAX),
        opened_step(opened, now, ttl_secs) matches EnrollmentStep::SendChallenge { expires_at }
            ==> (now matches Some(seconds) && expires_at == seconds + ttl_secs),
        opened_step(opened, now, ttl_secs) is SendChallenge || opened_step(opened, now, ttl_secs)
            is Fail,
        challenge_step(written) == EnrollmentStep::ReadRequest <==> written
            == FrameOutcome::Written,
        written != FrameOutcome::Written ==> challenge_step(written) is Fail,
        written == FrameOutcome::TimedOut ==> challenge_step(written) == EnrollmentStep::Fail(
            RelayError::QuicHandshake { reason: "enrollment challenge write timeout" },
        ),
{
}

/// A request of the first version is a submission, one of the second a question; one that is late or
/// malformed is refused.
pub proof fn law_requests_are_told_apart(outcome: RequestOutcome)
    ensures
        request_step(outcome) == EnrollmentStep::DecodeSubmit <==> outcome == RequestOutcome::Frame(
            EnrollmentVersion::One,
        ),
        request_step(outcome) == EnrollmentStep::Reconcile <==> outcome == RequestOutcome::Frame(
            EnrollmentVersion::Two,
        ),
        outcome == RequestOutcome::TimedOut ==> request_step(outcome) == (EnrollmentStep::Reject {
            error: EnrollmentWireError::ResourceLimit,
            record: false,
        }),
        outcome == RequestOutcome::Malformed ==> request_step(outcome) == (EnrollmentStep::Reject {
            error: EnrollmentWireError::InvalidFrame,
            record: false,
        }),
{
}

/// An answer that was written succeeds, and so does one of which the peer is to learn nothing. A
/// rejection that cannot be written is let go; every other answer that is not written fails.
pub proof fn law_unwritten_answers_fail(answer: FinalAnswer, outcome: FrameOutcome)
    ensures
        answer_outcome(answer, outcome) is Ok <==> answer == FinalAnswer::Unknown || outcome
            == FrameOutcome::Written || (answer == FinalAnswer::Rejection && !(
        outcome is Unencodable)),
        answer_outcome(answer, outcome) is Err && outcome == FrameOutcome::TimedOut ==> (
        answer_outcome(answer, outcome) matches Err(error) && error is QuicHandshake),
        answer_outcome(answer, outcome) is Err ==> (outcome matches FrameOutcome::Failed(error)
            ==> answer_outcome(answer, outcome) == Err::<(), RelayError>(wire_failure(error))),
        answer_outcome(answer, outcome) is Err ==> (outcome matches FrameOutcome::Unencodable(error)
            ==> answer_outcome(answer, outcome) == Err::<(), RelayError>(wire_failure(error))),
{
}

/// Failures on the wire and of the store keep their cause: only an exhausted resource is told as one,
/// only a refused authorization as a failed authentication, and only a failed store as unreadable.
pub proof fn law_failures_keep_their_cause(error: EnrollmentWireError, refusal: RelayError)
    ensures
        wire_failure(error) == RelayError::ResourceLimit <==> error
            == EnrollmentWireError::ResourceLimit,
        wire_failure(error) == RelayError::QuicAuthentication <==> error
            == EnrollmentWireError::AuthorizationRejected,
        wire_failure(error) == RelayError::ConfigurationRead <==> error
            == EnrollmentWireError::PersistenceFailed,
        wire_failure(error) is QuicProtocol <==> error == EnrollmentWireError::FrameTooLarge
            || error == EnrollmentWireError::InvalidOrder || error
            == EnrollmentWireError::InvalidFrame,
        issuance_refusal(refusal) == EnrollmentWireError::ResourceLimit <==> refusal
            == RelayError::ResourceLimit,
        issuance_refusal(refusal) == EnrollmentWireError::AuthorizationRejected <==> refusal
            is QuicProtocol,
        issuance_refusal(refusal) == EnrollmentWireError::PersistenceFailed <==> refusal
            != RelayError::ResourceLimit && !(refusal is QuicProtocol),
{
}

/// A settled record is repeated as it was recorded, and a pending one is answered with nothing.
pub proof fn law_records_are_repeated_as_recorded(
    reply: RecordReply,
    record: crate::issuance::RecordView,
)
    requires
        repeats(reply, record),
    ensures
        record.status == IssuanceResultStatus::Pending <==> reply is Unknown,
        reply matches RecordReply::Issued {
            certificate_chain,
            fingerprint,
            allowlist_generation,
            not_after_epoch_seconds,
        } ==> {
            &&& record.status == IssuanceResultStatus::Issued
            &&& crate::issuance::chain_view(certificate_chain@) == record.certificate_chain
            &&& Some(fingerprint@) == record.fingerprint
            &&& Some(allowlist_generation) == record.allowlist_generation
            &&& Some(not_after_epoch_seconds) == record.not_after_epoch_seconds
        },
        reply matches RecordReply::Rejected(code) ==> record.status
            == IssuanceResultStatus::Rejected && record.rejection_code == Some(code),
        record.status == IssuanceResultStatus::Issued && record.fingerprint is Some
            && record.allowlist_generation is Some && record.not_after_epoch_seconds is Some
            ==> reply is Issued,
        record.status == IssuanceResultStatus::Rejected && record.rejection_code is Some
            ==> reply is Rejected,
{
}

/// A question is answered with the state of its record, an issued one with exactly its material, and
/// with nothing where there is no record.
pub proof fn law_questions_are_answered_from_the_record(
    payload: RelayResult<ReconciliationResult>,
    record: Option<crate::issuance::RecordView>,
)
    requires
        reconciles(payload, record),
    ensures
        record is None <==> payload == Ok::<ReconciliationResult, RelayError>(
            ReconciliationResult::Unknown,
        ),
        record matches Some(found) ==> {
            &&& found.status == IssuanceResultStatus::Pending <==> payload == Ok::<
                ReconciliationResult,
                RelayError,
            >(ReconciliationResult::Pending)
            &&& found.status == IssuanceResultStatus::Rejected <==> payload == Ok::<
                ReconciliationResult,
                RelayError,
            >(ReconciliationResult::Rejected { code: found.rejection_code })
            &&& payload matches Ok(
                ReconciliationResult::Issued {
                    certificate_chain,
                    fingerprint,
                    allowlist_generation,
                    not_after_epoch_seconds,
                },
            ) ==> {
                &&& found.status == IssuanceResultStatus::Issued
                &&& crate::issuance::chain_view(certificate_chain@) == found.certificate_chain
                &&& Some(fingerprint@) == found.fingerprint
                &&& Some(allowlist_generation) == found.allowlist_generation
                &&& Some(not_after_epoch_seconds) == found.not_after_epoch_seconds
            }
            &&& payload is Err <==> found.status == IssuanceResultStatus::Issued && (
            found.fingerprint is None || found.allowlist_generation is None
                || found.not_after_epoch_seconds is None)
        },
{
}

/// A record is looked up for exactly the binding that was asked for, at the time of the clock, and
/// only if the request was read, the binding is usable, the clock is known and the store is open.
pub proof fn law_questions_are_looked_up_as_asked(
    lookup: RelayResult<(IssuanceResultKey, u64)>,
    request: Option<([u8; 16], [u8; 32])>,
    now: Option<u64>,
    store_open: bool,
)
    requires
        lookup_settled(lookup, request, now, store_open),
    ensures
        lookup is Ok <==> (request matches Some(asked) && !crate::bytes::all_zero(asked.0@)
            && !crate::bytes::all_zero(asked.1@)) && now is Some && store_open,
        lookup matches Ok(found) ==> (request matches Some(asked) && found.0@.authorization_id
            == asked.0@ && found.0@.csr_digest == asked.1@) && now == Some(found.1),
        request is Some && now is Some && !store_open ==> (lookup matches Err(error) && (error
            == RelayError::ConfigurationRead || error is QuicProtocol)),
{
}

/// A pending record is completed if and only if it carries all of its material and the allowlist
/// holds its App as active with the same certificate at the same generation.
pub proof fn law_pending_records_are_completed_by_the_allowlist(
    record: crate::issuance::RecordView,
    named: bool,
    entry: RelayResult<Option<EntryFacts>>,
)
    ensures
        ({
            let whole = record.status == IssuanceResultStatus::Pending
                && record.certificate_chain.len() > 0 && record.fingerprint is Some
                && record.allowlist_generation is Some && record.not_after_epoch_seconds is Some;
            &&& completion(record, named, entry) == Ok::<bool, RelayError>(true) <==> whole && named
                && (entry matches Ok(Some(facts)) && facts.state == AllowlistState::Active && Some(
                facts.fingerprint@,
            ) == record.fingerprint && Some(facts.generation) == record.allowlist_generation)
            &&& completion(record, named, entry) is Err <==> whole && (!named || entry is Err)
            &&& whole && !named ==> completion(record, named, entry) == Err::<bool, RelayError>(
                RelayError::ConfigurationRead,
            )
            &&& whole && named ==> (entry matches Err(error) ==> completion(record, named, entry)
                == Err::<bool, RelayError>(error))
        }),
{
}

} // verus!
