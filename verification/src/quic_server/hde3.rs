//! The Core enrollment conversation: approval, issuance, confirmation and reconciliation.

use crate::bytes::same_bytes;
use crate::enrollment::AllowlistState;
use crate::error::{RelayError, RelayResult};
use crate::issuance::{
    IssuanceBeginResult, IssuanceResultKey, IssuanceResultRecord, IssuanceResultStatus,
};
use crate::pki::{app_id_from_csr, copy_chain, IssuedCertificate};
use crate::quic_server::bootstrap::{
    bootstrap_rejection_code, BootstrapRuntimeError, WriteOutcome,
};
use crate::quic_server::trust::{
    certificate_identity_digest, decode_hex_digest, hde3_authorization_id, hde3_issuance_key,
    public_chain_digest,
};
use vstd::prelude::*;

verus! {

/// Seconds for which an issuance authorization of an approval lasts.
pub const APPROVAL_AUTHORIZATION_SECS: u64 = 300;

/// Kinds of HDE3 frames.
#[derive(Debug, Clone, Copy, PartialEq, Eq, Structural)]
pub enum Hde3Kind {
    /// Submits the code of an approval with the App's signing request.
    ApprovalSubmit,
    /// Submits the signing request of the first App.
    FirstAppSubmit,
    /// Asks for an approval challenge.
    ApprovalStart,
    /// Carries an approval challenge.
    ApprovalChallenge,
    /// Confirms that issued material was persisted.
    ConfirmPersisted,
    /// Asks for the result of a request whose answer was lost.
    Reconcile,
    /// Asks for a renewal.
    Renew,
    /// Carries a result.
    Result,
    /// Refuses a request.
    Rejected,
}

/// A result on its way to the Core.
pub enum Hde3Result {
    /// A certificate was issued.
    Issued {
        /// Identity of the approval.
        approval_id: [u8; 32],
        /// Identity of the App.
        app_identity: [u8; 32],
        /// Public certificate chain.
        certificate_chain: Vec<Vec<u8>>,
        /// Digest of the leaf.
        fingerprint: [u8; 32],
        /// Digest of the chain.
        chain_digest: [u8; 32],
        /// End of validity.
        not_after_epoch_seconds: u64,
        /// Configuration generation of the request.
        configuration_generation: u64,
        /// The App has persisted its material.
        active: bool,
    },
    /// The outcome is unresolved.
    Pending {
        /// Identity of the approval.
        approval_id: [u8; 32],
    },
    /// The request was refused for good.
    Rejected {
        /// Identity of the approval.
        approval_id: [u8; 32],
        /// Code of the refusal.
        code: u16,
    },
}

/// Contents of a result.
#[verifier::ext_equal]
pub enum ResultView {
    /// A certificate was issued.
    Issued {
        /// Identity of the approval.
        approval_id: Seq<u8>,
        /// Identity of the App.
        app_identity: Seq<u8>,
        /// Public certificate chain.
        certificate_chain: Seq<Seq<u8>>,
        /// Digest of the leaf.
        fingerprint: Seq<u8>,
        /// Digest of the chain.
        chain_digest: Seq<u8>,
        /// End of validity.
        not_after_epoch_seconds: u64,
        /// Configuration generation of the request.
        configuration_generation: u64,
        /// The App has persisted its material.
        active: bool,
    },
    /// The outcome is unresolved.
    Pending {
        /// Identity of the approval.
        approval_id: Seq<u8>,
    },
    /// The request was refused for good.
    Rejected {
        /// Identity of the approval.
        approval_id: Seq<u8>,
        /// Code of the refusal.
        code: u16,
    },
}

impl View for Hde3Result {
    type V = ResultView;

    open spec fn view(&self) -> ResultView {
        match self {
            Hde3Result::Issued {
                approval_id,
                app_identity,
                certificate_chain,
                fingerprint,
                chain_digest,
                not_after_epoch_seconds,
                configuration_generation,
                active,
            } => ResultView::Issued {
                approval_id: approval_id@,
                app_identity: app_identity@,
                certificate_chain: crate::issuance::chain_view(certificate_chain@),
                fingerprint: fingerprint@,
                chain_digest: chain_digest@,
                not_after_epoch_seconds: *not_after_epoch_seconds,
                configuration_generation: *configuration_generation,
                active: *active,
            },
            Hde3Result::Pending { approval_id } => ResultView::Pending { approval_id: approval_id@ },
            Hde3Result::Rejected { approval_id, code } => ResultView::Rejected {
                approval_id: approval_id@,
                code: *code,
            },
        }
    }
}

/// A result, or the code with which the request is refused.
pub type Hde3Answer = Result<Hde3Result, u16>;

/// The contents of an answer.
pub open spec fn answer_view(answer: Hde3Answer) -> Result<ResultView, u16> {
    match answer {
        Ok(result) => Ok(result@),
        Err(code) => Err(code),
    }
}

/// The result that an issued record stands for, or the code with which it is refused.
///
/// `recorded` is the configuration generation that is stored with the record, `asked` the one
/// that the request names.
pub open spec fn record_result(
    record: crate::issuance::RecordView,
    approval_id: Seq<u8>,
    recorded: Option<u64>,
    asked: Option<u64>,
    active: bool,
) -> Result<ResultView, u16> {
    match (record.fingerprint, recorded) {
        (None, _) => Err(5),
        (_, None) => Err(5),
        (Some(fingerprint), Some(generation)) => if asked is Some && asked != recorded {
            Err(4)
        } else {
            match (
                record.not_after_epoch_seconds,
                crate::quic_server::trust::chain_identity(record.certificate_chain),
            ) {
                (Some(not_after), Some(identity)) => Ok(
                    ResultView::Issued {
                        approval_id,
                        app_identity: identity,
                        certificate_chain: record.certificate_chain,
                        fingerprint,
                        chain_digest: crate::quic_server::trust::chain_digest_of(
                            record.certificate_chain,
                        ),
                        not_after_epoch_seconds: not_after,
                        configuration_generation: generation,
                        active,
                    },
                ),
                _ => Err(5),
            }
        },
    }
}

/// Turns an issued record into the result that it stands for.
pub fn issuance_record_payload(
    record: &IssuanceResultRecord,
    approval_id: [u8; 32],
    recorded: Option<u64>,
    asked: Option<u64>,
    active: bool,
) -> (answer: Hde3Answer)
    ensures
        answer_view(answer) == record_result(record@, approval_id@, recorded, asked, active),
{
    let fingerprint = match record.fingerprint() {
        Some(digest) => digest,
        None => {
            return Err(5);
        },
    };
    let configuration_generation: u64 = match recorded {
        Some(generation) => generation,
        None => {
            return Err(5);
        },
    };
    if let Some(generation) = asked {
        if generation != configuration_generation {
            return Err(4);
        }
    }
    let not_after_epoch_seconds: u64 = match record.not_after_epoch_seconds() {
        Some(seconds) => seconds,
        None => {
            return Err(5);
        },
    };
    let chain = record.certificate_chain();
    let app_identity = match certificate_identity_digest(chain) {
        Some(digest) => digest,
        None => {
            return Err(5);
        },
    };
    let certificate_chain = copy_chain(chain);
    assert(crate::issuance::chain_view(certificate_chain@) =~= record@.certificate_chain);
    Ok(
        Hde3Result::Issued {
            approval_id,
            app_identity,
            certificate_chain,
            fingerprint,
            chain_digest: public_chain_digest(chain),
            not_after_epoch_seconds,
            configuration_generation,
            active,
        },
    )
}

/// The answer that an existing record stands for.
pub open spec fn existing_answer(
    record: crate::issuance::RecordView,
    approval_id: Seq<u8>,
    recorded: Option<u64>,
    asked: Option<u64>,
) -> Result<ResultView, u16> {
    match record.status {
        IssuanceResultStatus::Issued => record_result(record, approval_id, recorded, asked, false),
        IssuanceResultStatus::Pending => Ok(ResultView::Pending { approval_id }),
        IssuanceResultStatus::Rejected => Ok(
            ResultView::Rejected {
                approval_id,
                code: match record.rejection_code {
                    Some(code) => code,
                    None => 4,
                },
            },
        ),
    }
}

/// Turns an existing record into the answer that it stands for; nothing is issued again.
fn answer_existing(
    record: &IssuanceResultRecord,
    approval_id: [u8; 32],
    recorded: Option<u64>,
    asked: Option<u64>,
) -> (answer: Hde3Answer)
    ensures
        answer_view(answer) == existing_answer(record@, approval_id@, recorded, asked),
{
    match record.status() {
        IssuanceResultStatus::Issued => issuance_record_payload(
            record,
            approval_id,
            recorded,
            asked,
            false,
        ),
        IssuanceResultStatus::Pending => Ok(Hde3Result::Pending { approval_id }),
        IssuanceResultStatus::Rejected => {
            let code: u16 = match record.rejection_code() {
                Some(value) => value,
                None => 4,
            };
            Ok(Hde3Result::Rejected { approval_id, code })
        },
    }
}

/// Answers a reconciliation from the record of its binding, if there is one.
pub fn reconcile_hde3_record(
    record: Option<&IssuanceResultRecord>,
    approval_id: [u8; 32],
    recorded: Option<u64>,
) -> (answer: Hde3Answer)
    ensures
        answer_view(answer) == (match record {
            None => Err::<ResultView, u16>(4),
            Some(found) => existing_answer(found@, approval_id@, recorded, None),
        }),
{
    match record {
        None => Err(4),
        Some(found) => answer_existing(found, approval_id, recorded, None),
    }
}

/// What has to be done next to issue or resume one App certificate.
pub enum IssueStep {
    /// Ask whether the name that the signing request asks for is one that an App may have.
    CheckName {
        /// The binding.
        key: IssuanceResultKey,
        /// Name that the signing request asks for.
        app_id: String,
        /// Deadline of the authorization.
        expires_at: u64,
    },
    /// Begin the binding in the issuance store.
    Begin {
        /// The binding.
        key: IssuanceResultKey,
        /// Name that the signing request asks for.
        app_id: String,
        /// Deadline of the authorization.
        expires_at: u64,
    },
    /// Sign a certificate of this allowlist generation.
    Sign {
        /// Generation of the allowlist entry.
        next_generation: u64,
    },
    /// Attach the signed material to the binding.
    Attach {
        /// Generation of the allowlist entry.
        next_generation: u64,
    },
    /// Enroll the certificate on the allowlist as pending.
    Enroll,
    /// Mark the binding issued.
    MarkIssued {
        /// Generation that the allowlist committed.
        committed_generation: u64,
    },
    /// Answer the Core.
    Answer(Hde3Answer),
    /// End the connection with a failure.
    Fail(RelayError),
}

/// The first decision on an issuance.
///
/// `store_open` says that the issuance store is at hand, `now` is the clock.
pub open spec fn issue_begins(
    step: IssueStep,
    store_open: bool,
    now: Option<u64>,
    approval_id: Seq<u8>,
    csr: Seq<u8>,
    csr_digest: Seq<u8>,
) -> bool {
    if !store_open || now is None {
        step == IssueStep::Fail(RelayError::ConfigurationRead)
    } else {
        match crate::pki::csr_identity(csr) {
            Err(_) => step == IssueStep::Answer(Err(4)),
            Ok(name) => step matches IssueStep::CheckName { key, app_id, expires_at } && key@
                == (crate::issuance::KeyView {
                authorization_id: crate::quic_server::trust::authorization_id_of(approval_id),
                csr_digest,
            }) && app_id@ == name && expires_at == (if now->Some_0 + APPROVAL_AUTHORIZATION_SECS
                > u64::MAX {
                u64::MAX
            } else {
                (now->Some_0 + APPROVAL_AUTHORIZATION_SECS) as u64
            }),
        }
    }
}

/// First decision on an issuance: derives the binding and reads the name of the signing request.
pub fn issue_hde3_app(
    store_open: bool,
    now: Option<u64>,
    approval_id: &[u8; 32],
    csr: &[u8],
    csr_digest: [u8; 32],
) -> (step: IssueStep)
    requires
        !crate::bytes::all_zero(csr_digest@),
    ensures
        issue_begins(step, store_open, now, approval_id@, csr@, csr_digest@),
{
    let key = hde3_issuance_key(approval_id, csr_digest);
    if !store_open {
        return IssueStep::Fail(RelayError::ConfigurationRead);
    }
    let seconds: u64 = match now {
        Some(value) => value,
        None => {
            return IssueStep::Fail(RelayError::ConfigurationRead);
        },
    };
    match app_id_from_csr(csr) {
        Err(_) => IssueStep::Answer(Err(4)),
        Ok(app_id) => IssueStep::CheckName {
            key,
            app_id,
            expires_at: seconds.saturating_add(APPROVAL_AUTHORIZATION_SECS),
        },
    }
}

/// The decision once it is known whether an App may have the requested name.
pub open spec fn named_step(
    key: IssuanceResultKey,
    app_id: String,
    expires_at: u64,
    accepted: bool,
) -> IssueStep {
    if accepted {
        IssueStep::Begin { key, app_id, expires_at }
    } else {
        IssueStep::Answer(Err(4))
    }
}

/// Decision once it is known whether an App may have the requested name.
pub fn issue_named(
    key: IssuanceResultKey,
    app_id: String,
    expires_at: u64,
    accepted: bool,
) -> (step: IssueStep)
    ensures
        step == named_step(key, app_id, expires_at, accepted),
{
    if accepted {
        IssueStep::Begin { key, app_id, expires_at }
    } else {
        IssueStep::Answer(Err(4))
    }
}

/// `step` is the decision once the store was asked to begin the binding.
pub open spec fn begin_settled(
    step: IssueStep,
    begun: RelayResult<IssuanceBeginResult>,
    approval_id: Seq<u8>,
    recorded: Option<u64>,
    configuration_generation: u64,
    generation: Option<u64>,
) -> bool {
    match begun {
        Err(_) => step == IssueStep::Answer(Err(5)),
        Ok(IssuanceBeginResult::Existing(record)) => step matches IssueStep::Answer(answer)
            && answer_view(answer) == existing_answer(
            record@,
            approval_id,
            recorded,
            Some(configuration_generation),
        ),
        Ok(IssuanceBeginResult::Created(_)) => step == (match generation {
            None => IssueStep::Fail(RelayError::ConfigurationRead),
            Some(current) => if current == u64::MAX {
                IssueStep::Fail(RelayError::ResourceLimit)
            } else {
                IssueStep::Sign { next_generation: (current + 1) as u64 }
            },
        }),
    }
}

/// Decision once the store was asked to begin the binding.
///
/// `recorded` is the configuration generation that is stored with an existing record;
/// `generation` is that of the allowlist, if one is open.
pub fn issue_begun(
    begun: &RelayResult<IssuanceBeginResult>,
    approval_id: [u8; 32],
    recorded: Option<u64>,
    configuration_generation: u64,
    generation: Option<u64>,
) -> (step: IssueStep)
    ensures
        begin_settled(
            step,
            *begun,
            approval_id@,
            recorded,
            configuration_generation,
            generation,
        ),
{
    match begun {
        Err(_) => IssueStep::Answer(Err(5)),
        Ok(IssuanceBeginResult::Existing(record)) => IssueStep::Answer(
            answer_existing(record, approval_id, recorded, Some(configuration_generation)),
        ),
        Ok(IssuanceBeginResult::Created(_)) => match generation {
            None => IssueStep::Fail(RelayError::ConfigurationRead),
            Some(current) => match current.checked_add(1) {
                None => IssueStep::Fail(RelayError::ResourceLimit),
                Some(next_generation) => IssueStep::Sign { next_generation },
            },
        },
    }
}

/// The decision once a certificate was asked for.
pub open spec fn signed_step(signed: bool, described: bool, next_generation: u64) -> IssueStep {
    if !signed {
        IssueStep::Answer(Err(4))
    } else if !described {
        IssueStep::Fail(RelayError::ConfigurationRead)
    } else {
        IssueStep::Attach { next_generation }
    }
}

/// Decision once a certificate was asked for; `signed` says that one was signed, `described` that
/// its metadata can be enrolled.
pub fn issue_signed(signed: bool, described: bool, next_generation: u64) -> (step: IssueStep)
    ensures
        step == signed_step(signed, described, next_generation),
{
    if !signed {
        return IssueStep::Answer(Err(4));
    }
    if !described {
        return IssueStep::Fail(RelayError::ConfigurationRead);
    }
    IssueStep::Attach { next_generation }
}

/// The decision once the material was attached.
pub open spec fn attached_step(attached: bool) -> IssueStep {
    if attached {
        IssueStep::Enroll
    } else {
        IssueStep::Fail(RelayError::ConfigurationRead)
    }
}

/// Decision once the material was attached.
pub fn issue_attached(attached: bool) -> (step: IssueStep)
    ensures
        step == attached_step(attached),
{
    if attached {
        IssueStep::Enroll
    } else {
        IssueStep::Fail(RelayError::ConfigurationRead)
    }
}

/// The decision once the allowlist was asked to enroll.
pub open spec fn enrolled_step(committed: Option<u64>) -> IssueStep {
    match committed {
        Some(committed_generation) => IssueStep::MarkIssued { committed_generation },
        None => IssueStep::Answer(Err(5)),
    }
}

/// Decision once the allowlist was asked to enroll; `None` says that it refused.
pub fn issue_enrolled(committed: Option<u64>) -> (step: IssueStep)
    ensures
        step == enrolled_step(committed),
{
    match committed {
        Some(committed_generation) => IssueStep::MarkIssued { committed_generation },
        None => IssueStep::Answer(Err(5)),
    }
}

/// The result that carries a certificate which was just issued; it is not yet active.
pub open spec fn issued_result(
    issued: crate::pki::IssuedView,
    approval_id: Seq<u8>,
    configuration_generation: u64,
) -> ResultView {
    ResultView::Issued {
        approval_id,
        app_identity: issued.app_identity,
        certificate_chain: crate::issuance::chain_view(issued.certificate_chain),
        fingerprint: issued.fingerprint,
        chain_digest: crate::quic_server::trust::chain_digest_of(
            crate::issuance::chain_view(issued.certificate_chain),
        ),
        not_after_epoch_seconds: issued.not_after_epoch_seconds,
        configuration_generation,
        active: false,
    }
}

/// `step` is the decision once the store was asked to mark the binding issued.
pub open spec fn issue_settled(
    step: IssueStep,
    marked: bool,
    issued: crate::pki::IssuedView,
    approval_id: Seq<u8>,
    configuration_generation: u64,
) -> bool {
    if marked {
        step matches IssueStep::Answer(answer) && answer_view(answer) == Ok::<ResultView, u16>(
            issued_result(issued, approval_id, configuration_generation),
        )
    } else {
        step == IssueStep::Answer(Err(5))
    }
}

/// Decision once the binding was marked issued: the answer carries the certificate, not yet
/// active.
pub fn issue_finished(
    marked: bool,
    issued: &IssuedCertificate,
    approval_id: [u8; 32],
    configuration_generation: u64,
) -> (step: IssueStep)
    ensures
        issue_settled(step, marked, issued@, approval_id@, configuration_generation),
{
    if !marked {
        return IssueStep::Answer(Err(5));
    }
    let certificate_chain = issued.certificate_chain();
    assert(crate::issuance::chain_view(certificate_chain@) =~= crate::issuance::chain_view(
        issued@.certificate_chain,
    ));
    let chain_digest = public_chain_digest(&certificate_chain);
    IssueStep::Answer(
        Ok(
            Hde3Result::Issued {
                approval_id,
                app_identity: issued.app_identity(),
                certificate_chain,
                fingerprint: issued.fingerprint(),
                chain_digest,
                not_after_epoch_seconds: issued.not_after_epoch_seconds(),
                configuration_generation,
                active: false,
            },
        ),
    )
}

/// What the outside answers in the course of one issuance.
pub struct IssueAnswers {
    /// An App may have the requested name.
    pub accepted: bool,
    /// Answer of the store to beginning the binding.
    pub begun: RelayResult<IssuanceBeginResult>,
    /// Configuration generation that is stored with an existing record.
    pub recorded: Option<u64>,
    /// Configuration generation of the request.
    pub configuration_generation: u64,
    /// Generation of the allowlist, if one is open.
    pub generation: Option<u64>,
    /// A certificate was signed.
    pub signed: bool,
    /// The metadata of the certificate can be enrolled.
    pub described: bool,
    /// The store attached the certificate.
    pub attached: bool,
    /// Generation that the allowlist committed.
    pub committed: Option<u64>,
    /// The store marked the binding issued.
    pub marked: bool,
    /// The signed certificate.
    pub issued: crate::pki::IssuedView,
}

/// `after` is the decision that follows `before` in the issuance of an approval.
pub open spec fn issue_follows(
    before: IssueStep,
    answers: IssueAnswers,
    approval_id: Seq<u8>,
    after: IssueStep,
) -> bool {
    match before {
        IssueStep::CheckName { key, app_id, expires_at } => after == named_step(
            key,
            app_id,
            expires_at,
            answers.accepted,
        ),
        IssueStep::Begin { .. } => begin_settled(
            after,
            answers.begun,
            approval_id,
            answers.recorded,
            answers.configuration_generation,
            answers.generation,
        ),
        IssueStep::Sign { next_generation } => after == signed_step(
            answers.signed,
            answers.described,
            next_generation,
        ),
        IssueStep::Attach { .. } => after == attached_step(answers.attached),
        IssueStep::Enroll => after == enrolled_step(answers.committed),
        IssueStep::MarkIssued { .. } => issue_settled(
            after,
            answers.marked,
            answers.issued,
            approval_id,
            answers.configuration_generation,
        ),
        _ => false,
    }
}

/// The number of answers that an issuance may still need after `step`.
pub open spec fn issue_answers_left(step: IssueStep) -> nat {
    match step {
        IssueStep::CheckName { .. } => 6,
        IssueStep::Begin { .. } => 5,
        IssueStep::Sign { .. } => 4,
        IssueStep::Attach { .. } => 3,
        IssueStep::Enroll => 2,
        IssueStep::MarkIssued { .. } => 1,
        IssueStep::Answer(_) | IssueStep::Fail(_) => 0,
    }
}

/// Every answer brings an issuance strictly nearer to its end.
pub proof fn law_issuance_terminates(
    before: IssueStep,
    answers: IssueAnswers,
    approval_id: Seq<u8>,
    after: IssueStep,
)
    requires
        issue_follows(before, answers, approval_id, after),
    ensures
        issue_answers_left(after) < issue_answers_left(before),
{
}

/// A certificate reaches the Core only once it is durable: it is signed for a new binding, then
/// attached to it, then enrolled, then marked issued, each only if the one before succeeded. The
/// one other certificate that an issuance answers with is that of an issued record.
pub proof fn law_issued_certificate_is_durable(
    before: IssueStep,
    answers: IssueAnswers,
    approval_id: Seq<u8>,
    after: IssueStep,
)
    requires
        issue_follows(before, answers, approval_id, after),
    ensures
        after is Begin ==> before is CheckName && answers.accepted,
        after is Sign ==> before is Begin && answers.begun matches Ok(
            IssuanceBeginResult::Created(_),
        ),
        after is Attach ==> before is Sign && answers.signed && answers.described,
        after is Enroll ==> before is Attach && answers.attached,
        after is MarkIssued ==> before is Enroll && answers.committed == Some(
            after->committed_generation,
        ),
        after matches IssueStep::Answer(Ok(Hde3Result::Issued { .. })) ==> {
            ||| before is MarkIssued && answers.marked
            ||| before is Begin && (answers.begun matches Ok(IssuanceBeginResult::Existing(record))
                && record@.status == IssuanceResultStatus::Issued)
        },
{
}

/// Digests that a confirmation names.
pub struct Confirmation {
    /// Identity of the App.
    pub app_identity: [u8; 32],
    /// Digest of the leaf.
    pub fingerprint: [u8; 32],
    /// Digest of the chain.
    pub chain_digest: [u8; 32],
}

/// Decodes the digests of a confirmation, in the order identity, fingerprint, chain.
pub fn confirmation_digests(app_identity: &str, fingerprint: &str, chain_digest: &str)
    -> (confirmation: RelayResult<Confirmation>)
    ensures
        ({
            let identity = crate::quic_server::trust::hex_digest(app_identity@);
            let leaf = crate::quic_server::trust::hex_digest(fingerprint@);
            let chain = crate::quic_server::trust::hex_digest(chain_digest@);
            match confirmation {
                Ok(digests) => identity == Ok::<Seq<u8>, RelayError>(digests.app_identity@) && leaf
                    == Ok::<Seq<u8>, RelayError>(digests.fingerprint@) && chain == Ok::<
                    Seq<u8>,
                    RelayError,
                >(digests.chain_digest@),
                Err(error) => if identity is Err {
                    identity->Err_0 == error
                } else if leaf is Err {
                    leaf->Err_0 == error
                } else {
                    chain is Err && chain->Err_0 == error
                },
            }
        }),
{
    let app_identity = match decode_hex_digest(app_identity) {
        Ok(digest) => digest,
        Err(error) => {
            return Err(error);
        },
    };
    let fingerprint = match decode_hex_digest(fingerprint) {
        Ok(digest) => digest,
        Err(error) => {
            return Err(error);
        },
    };
    let chain_digest = match decode_hex_digest(chain_digest) {
        Ok(digest) => digest,
        Err(error) => {
            return Err(error);
        },
    };
    Ok(Confirmation { app_identity, fingerprint, chain_digest })
}

/// The result that a confirmation of the record leads to, or the code with which it is refused.
pub open spec fn confirmed(
    record: crate::issuance::RecordView,
    app_identity: Seq<u8>,
    fingerprint: Seq<u8>,
    chain_digest: Seq<u8>,
    approval_id: Seq<u8>,
    recorded: Option<u64>,
    configuration_generation: u64,
) -> Result<ResultView, u16> {
    if record.fingerprint is None {
        Err(5)
    } else if crate::quic_server::trust::chain_identity(record.certificate_chain) != Some(
        app_identity,
    ) || record.fingerprint != Some(fingerprint) || crate::quic_server::trust::chain_digest_of(
        record.certificate_chain,
    ) != chain_digest {
        Err(4)
    } else {
        record_result(record, approval_id, recorded, Some(configuration_generation), true)
    }
}

/// Holds a confirmation against the record of its approval.
pub fn confirm_hde3_persisted(
    record: &IssuanceResultRecord,
    confirmation: &Confirmation,
    approval_id: [u8; 32],
    recorded: Option<u64>,
    configuration_generation: u64,
) -> (answer: Hde3Answer)
    ensures
        answer_view(answer) == confirmed(
            record@,
            confirmation.app_identity@,
            confirmation.fingerprint@,
            confirmation.chain_digest@,
            approval_id@,
            recorded,
            configuration_generation,
        ),
{
    let own = match record.fingerprint() {
        Some(digest) => digest,
        None => {
            return Err(5);
        },
    };
    let chain = record.certificate_chain();
    let same_identity = match certificate_identity_digest(chain) {
        Some(identity) => same_bytes(&identity, &confirmation.app_identity),
        None => false,
    };
    let chain_digest = public_chain_digest(chain);
    if !same_identity || !same_bytes(&own, &confirmation.fingerprint) || !same_bytes(
        &chain_digest,
        &confirmation.chain_digest,
    ) {
        return Err(4);
    }
    issuance_record_payload(record, approval_id, recorded, Some(configuration_generation), true)
}

/// The code with which the authority's word on the first App refuses a confirmation.
pub open spec fn first_app_refusal(answer: Result<(), BootstrapRuntimeError>) -> Option<u16> {
    match answer {
        Ok(_) => None,
        Err(error) => if error == BootstrapRuntimeError::NotFound {
            None
        } else {
            Some(5)
        },
    }
}

/// Decides whether the authority's word on the first App lets a confirmation go on: a first App
/// that it does not know is another App.
pub fn first_app_confirmed(answer: Result<(), BootstrapRuntimeError>) -> (refusal: Option<u16>)
    ensures
        refusal == first_app_refusal(answer),
{
    match answer {
        Ok(_) => None,
        Err(BootstrapRuntimeError::NotFound) => None,
        Err(_) => Some(5),
    }
}

/// What a confirmation has to do with the allowlist entry of its App.
#[derive(Debug, Clone, Copy, PartialEq, Eq, Structural)]
pub enum ActivationStep {
    /// Activate the entry, then answer.
    Activate,
    /// Answer; the entry is active.
    Done,
    /// Refuse with a code.
    Refuse(u16),
}

/// The decision on the allowlist entry of a confirmed App.
pub open spec fn activation_step(
    entry: Option<(AllowlistState, [u8; 32])>,
    fingerprint: Seq<u8>,
) -> ActivationStep {
    match entry {
        None => ActivationStep::Refuse(5),
        Some((state, own)) => if own@ != fingerprint {
            ActivationStep::Refuse(4)
        } else {
            match state {
                AllowlistState::Pending => ActivationStep::Activate,
                AllowlistState::Active => ActivationStep::Done,
                AllowlistState::Revoked => ActivationStep::Refuse(4),
            }
        },
    }
}

/// Decides on the allowlist entry of a confirmed App, given by its state and fingerprint.
pub fn activation(entry: Option<(AllowlistState, [u8; 32])>, fingerprint: &[u8; 32]) -> (step:
    ActivationStep)
    ensures
        step == activation_step(entry, fingerprint@),
{
    match entry {
        None => ActivationStep::Refuse(5),
        Some((state, own)) => {
            if !same_bytes(&own, fingerprint) {
                return ActivationStep::Refuse(4);
            }
            match state {
                AllowlistState::Pending => ActivationStep::Activate,
                AllowlistState::Active => ActivationStep::Done,
                AllowlistState::Revoked => ActivationStep::Refuse(4),
            }
        },
    }
}

/// What has to be done next to confirm persisted material.
pub enum ConfirmStep {
    /// Look up the issuance of this authorization at this time.
    Find {
        /// Identifier of the authorization.
        authorization_id: [u8; 16],
        /// Seconds since the epoch.
        now: u64,
    },
    /// Tell the authority that the App of an approval is confirmed.
    ConfirmFirstApp(Hde3Result),
    /// Reload the allowlist and look up the entry of the App.
    LookUpEntry(Hde3Result),
    /// Activate the entry of the App.
    Activate(Hde3Result),
    /// Answer the Core.
    Answer(Hde3Answer),
    /// End the connection with a failure.
    Fail(RelayError),
}

/// `step` is the first decision on a well-formed confirmation.
pub open spec fn confirmation_begins(
    step: ConfirmStep,
    approval_id: Option<[u8; 32]>,
    digests: RelayResult<Confirmation>,
    store_open: bool,
    now: Option<u64>,
) -> bool {
    match (approval_id, digests) {
        (None, _) => step == ConfirmStep::Fail(
            RelayError::QuicProtocol { reason: "HDE3 confirmation approval is invalid" },
        ),
        (Some(_), Err(error)) => step == ConfirmStep::Fail(error),
        (Some(id), Ok(_)) => if !store_open || now is None {
            step == ConfirmStep::Fail(RelayError::ConfigurationRead)
        } else {
            step matches ConfirmStep::Find { authorization_id, now: at } && authorization_id@
                == crate::quic_server::trust::authorization_id_of(id@) && Some(at) == now
        },
    }
}

/// First decision on a well-formed confirmation: `approval_id` is the approval that it names, if
/// it can be read, and `digests` are those that it names.
pub fn confirm_entry(
    approval_id: Option<[u8; 32]>,
    digests: &RelayResult<Confirmation>,
    store_open: bool,
    now: Option<u64>,
) -> (step: ConfirmStep)
    ensures
        confirmation_begins(step, approval_id, *digests, store_open, now),
{
    let id = match approval_id {
        Some(named) => named,
        None => {
            return ConfirmStep::Fail(
                RelayError::QuicProtocol { reason: "HDE3 confirmation approval is invalid" },
            );
        },
    };
    if let Err(error) = digests {
        return ConfirmStep::Fail(*error);
    }
    if !store_open {
        return ConfirmStep::Fail(RelayError::ConfigurationRead);
    }
    match now {
        None => ConfirmStep::Fail(RelayError::ConfigurationRead),
        Some(seconds) => ConfirmStep::Find {
            authorization_id: hde3_authorization_id(&id),
            now: seconds,
        },
    }
}

/// What a confirmation is held against: the record of its authorization and the configuration
/// generation that is stored with it.
pub struct FoundIssuance<'a> {
    /// The record.
    pub record: &'a IssuanceResultRecord,
    /// The stored configuration generation.
    pub recorded: Option<u64>,
    /// An App may have the name of the record.
    pub name_accepted: bool,
}

/// `step` is the decision once the issuance was looked up.
pub open spec fn found_settled(
    step: ConfirmStep,
    found: RelayResult<Option<FoundIssuance>>,
    confirmation: Confirmation,
    approval_id: Seq<u8>,
    configuration_generation: u64,
) -> bool {
    match found {
        Err(error) => step == ConfirmStep::Fail(error),
        Ok(None) => step == ConfirmStep::Fail(RelayError::ConfigurationRead),
        Ok(Some(issuance)) => match confirmed(
            issuance.record@,
            confirmation.app_identity@,
            confirmation.fingerprint@,
            confirmation.chain_digest@,
            approval_id,
            issuance.recorded,
            configuration_generation,
        ) {
            Err(code) => step == ConfirmStep::Answer(Err(code)),
            Ok(result) => if issuance.name_accepted {
                step matches ConfirmStep::ConfirmFirstApp(carried) && carried@ == result
            } else {
                step == ConfirmStep::Fail(
                    RelayError::QuicProtocol {
                        reason: "HDE3 confirmation App identity is invalid",
                    },
                )
            },
        },
    }
}

/// Decision once the issuance was looked up.
pub fn confirm_found(
    found: &RelayResult<Option<FoundIssuance>>,
    confirmation: &Confirmation,
    approval_id: [u8; 32],
    configuration_generation: u64,
) -> (step: ConfirmStep)
    ensures
        found_settled(step, *found, *confirmation, approval_id@, configuration_generation),
{
    match found {
        Err(error) => ConfirmStep::Fail(*error),
        Ok(None) => ConfirmStep::Fail(RelayError::ConfigurationRead),
        Ok(Some(issuance)) => match confirm_hde3_persisted(
            issuance.record,
            confirmation,
            approval_id,
            issuance.recorded,
            configuration_generation,
        ) {
            Err(code) => ConfirmStep::Answer(Err(code)),
            Ok(result) => {
                if issuance.name_accepted {
                    ConfirmStep::ConfirmFirstApp(result)
                } else {
                    ConfirmStep::Fail(
                        RelayError::QuicProtocol {
                            reason: "HDE3 confirmation App identity is invalid",
                        },
                    )
                }
            },
        },
    }
}

/// The decision on the authority's word on a confirmed App.
pub open spec fn first_app_confirm_step(
    result: Hde3Result,
    answer: Result<(), BootstrapRuntimeError>,
) -> ConfirmStep {
    match first_app_refusal(answer) {
        Some(code) => ConfirmStep::Answer(Err(code)),
        None => ConfirmStep::LookUpEntry(result),
    }
}

/// Decision on the authority's word on a confirmed App.
pub fn confirm_authorized(result: Hde3Result, answer: Result<(), BootstrapRuntimeError>) -> (step:
    ConfirmStep)
    ensures
        step == first_app_confirm_step(result, answer),
{
    match first_app_confirmed(answer) {
        Some(code) => ConfirmStep::Answer(Err(code)),
        None => ConfirmStep::LookUpEntry(result),
    }
}

/// The decision on the allowlist entry of a confirmed App.
pub open spec fn entry_step(
    result: Hde3Result,
    entry: RelayResult<Option<(AllowlistState, [u8; 32])>>,
    fingerprint: Seq<u8>,
) -> ConfirmStep {
    match entry {
        Err(error) => ConfirmStep::Fail(error),
        Ok(found) => match activation_step(found, fingerprint) {
            ActivationStep::Activate => ConfirmStep::Activate(result),
            ActivationStep::Done => ConfirmStep::Answer(Ok(result)),
            ActivationStep::Refuse(code) => ConfirmStep::Answer(Err(code)),
        },
    }
}

/// Decision on the allowlist entry of a confirmed App; an error says that the allowlist could not
/// be read.
pub fn confirm_entry_found(
    result: Hde3Result,
    entry: RelayResult<Option<(AllowlistState, [u8; 32])>>,
    fingerprint: &[u8; 32],
) -> (step: ConfirmStep)
    ensures
        step == entry_step(result, entry, fingerprint@),
{
    match entry {
        Err(error) => ConfirmStep::Fail(error),
        Ok(found) => match activation(found, fingerprint) {
            ActivationStep::Activate => ConfirmStep::Activate(result),
            ActivationStep::Done => ConfirmStep::Answer(Ok(result)),
            ActivationStep::Refuse(code) => ConfirmStep::Answer(Err(code)),
        },
    }
}

/// The decision once the allowlist was asked to activate the App.
pub open spec fn activated_step(result: Hde3Result, activated: bool) -> ConfirmStep {
    if activated {
        ConfirmStep::Answer(Ok(result))
    } else {
        ConfirmStep::Fail(RelayError::ConfigurationRead)
    }
}

/// Decision once the allowlist was asked to activate the App.
pub fn confirm_activated(result: Hde3Result, activated: bool) -> (step: ConfirmStep)
    ensures
        step == activated_step(result, activated),
{
    if activated {
        ConfirmStep::Answer(Ok(result))
    } else {
        ConfirmStep::Fail(RelayError::ConfigurationRead)
    }
}

/// What a confirmation asks for and what the outside answers to it.
pub struct ConfirmAnswers<'a> {
    /// Digests that the confirmation names.
    pub confirmation: Confirmation,
    /// Approval that the confirmation names.
    pub approval_id: [u8; 32],
    /// Configuration generation that the confirmation names.
    pub configuration_generation: u64,
    /// The issuance that was found.
    pub found: RelayResult<Option<FoundIssuance<'a>>>,
    /// Word of the authority on the App.
    pub authorized: Result<(), BootstrapRuntimeError>,
    /// Allowlist entry of the App.
    pub entry: RelayResult<Option<(AllowlistState, [u8; 32])>>,
    /// The entry was activated.
    pub activated: bool,
}

/// `after` is the decision that follows `before` on a confirmation.
pub open spec fn confirm_follows(
    before: ConfirmStep,
    answers: ConfirmAnswers,
    after: ConfirmStep,
) -> bool {
    match before {
        ConfirmStep::Find { .. } => found_settled(
            after,
            answers.found,
            answers.confirmation,
            answers.approval_id@,
            answers.configuration_generation,
        ),
        ConfirmStep::ConfirmFirstApp(result) => after == first_app_confirm_step(
            result,
            answers.authorized,
        ),
        ConfirmStep::LookUpEntry(result) => after == entry_step(
            result,
            answers.entry,
            answers.confirmation.fingerprint@,
        ),
        ConfirmStep::Activate(result) => after == activated_step(result, answers.activated),
        _ => false,
    }
}

/// The number of answers that a confirmation may still need after `step`.
pub open spec fn confirm_answers_left(step: ConfirmStep) -> nat {
    match step {
        ConfirmStep::Find { .. } => 4,
        ConfirmStep::ConfirmFirstApp(_) => 3,
        ConfirmStep::LookUpEntry(_) => 2,
        ConfirmStep::Activate(_) => 1,
        ConfirmStep::Answer(_) | ConfirmStep::Fail(_) => 0,
    }
}

/// Every answer brings a confirmation strictly nearer to its end.
pub proof fn law_confirmation_terminates(
    before: ConfirmStep,
    answers: ConfirmAnswers,
    after: ConfirmStep,
)
    requires
        confirm_follows(before, answers, after),
    ensures
        confirm_answers_left(after) < confirm_answers_left(before),
{
}

/// The decisions on one confirmation went through `steps`, from the lookup on.
pub open spec fn confirm_path(steps: Seq<ConfirmStep>, answers: ConfirmAnswers) -> bool {
    &&& steps.len() > 0
    &&& steps[0] is Find
    &&& forall|i: int|
        1 <= i < steps.len() ==> confirm_follows(steps[i - 1], answers, #[trigger] steps[i])
}

/// The confirmation names the digests of the stored certificate, the authority does not object,
/// and the allowlist holds an entry of the same fingerprint in this state.
pub open spec fn confirmation_holds(answers: ConfirmAnswers, state: AllowlistState) -> bool {
    match (answers.found, answers.entry) {
        (Ok(Some(issuance)), Ok(Some((own_state, own)))) => {
            &&& confirmed(
                issuance.record@,
                answers.confirmation.app_identity@,
                answers.confirmation.fingerprint@,
                answers.confirmation.chain_digest@,
                answers.approval_id@,
                issuance.recorded,
                answers.configuration_generation,
            ) is Ok
            &&& issuance.name_accepted
            &&& first_app_refusal(answers.authorized) is None
            &&& own_state == state
            &&& own@ == answers.confirmation.fingerprint@
        },
        _ => false,
    }
}

/// An App is activated only if its confirmation names the digests of the stored certificate, the
/// authority does not object, and the allowlist holds a pending entry of the same fingerprint. A
/// confirmation succeeds only if the App was active or has just been activated: that of a revoked
/// App never does.
pub proof fn law_activation_needs_confirmation(steps: Seq<ConfirmStep>, answers: ConfirmAnswers)
    requires
        confirm_path(steps, answers),
    ensures
        steps.last() is Activate ==> confirmation_holds(answers, AllowlistState::Pending),
        steps.last() matches ConfirmStep::Answer(Ok(_)) ==> {
            ||| confirmation_holds(answers, AllowlistState::Active)
            ||| confirmation_holds(answers, AllowlistState::Pending) && answers.activated
        },
{
    if steps.len() > 1 {
        assert(confirm_follows(steps[0], answers, steps[1]));
        if steps.len() > 2 {
            assert(confirm_follows(steps[1], answers, steps[2]));
            if steps.len() > 3 {
                assert(confirm_follows(steps[2], answers, steps[3]));
                if steps.len() > 4 {
                    assert(confirm_follows(steps[3], answers, steps[4]));
                    if steps.len() > 5 {
                        assert(confirm_follows(steps[4], answers, steps[5]));
                    }
                }
            }
        }
    }
}

/// What the authority or the store has to be asked next, or how the conversation goes on.
pub enum Hde3Step {
    /// Accept the stream and read the first frame.
    ReadFirstFrame,
    /// Decode the payload of the first frame.
    Decode(Hde3Kind),
    /// Submit the decoded code and signing request to the authority.
    SubmitApproval {
        /// Identity of the approval.
        approval_id: [u8; 32],
    },
    /// Ask the authority to accept the first App.
    AuthorizeFirstApp {
        /// Identity of the approval.
        approval_id: [u8; 32],
    },
    /// Ask the authority for an approval challenge.
    StartApproval {
        /// Digest of the Core's binding.
        core_binding_digest: [u8; 32],
    },
    /// Write a challenge, then read the submission.
    SendChallenge,
    /// Read the submission that follows a challenge.
    ReadSubmit,
    /// Issue or resume the certificate of an approved signing request.
    Issue,
    /// Confirm persisted material.
    Confirm,
    /// Look up a lost result.
    Reconcile {
        /// The binding of the lost request.
        key: IssuanceResultKey,
    },
    /// Refuse, and end or finish the conversation.
    Reject {
        /// Approval that the refusal names.
        approval: Option<[u8; 32]>,
        /// Code of the refusal.
        code: u16,
        /// A failure to write the refusal is ignored.
        best_effort: bool,
        /// The stream is finished and the connection closed afterwards.
        finish: bool,
    },
    /// End the conversation without an answer.
    Return,
    /// End the connection with a failure.
    Fail(RelayError),
}

/// A refusal after which the conversation ends at once.
pub open spec fn refuses(approval_id: Option<[u8; 32]>, code: u16) -> Hde3Step {
    Hde3Step::Reject { approval: approval_id, code, best_effort: false, finish: false }
}

fn refuse(approval_id: Option<[u8; 32]>, code: u16) -> (step: Hde3Step)
    ensures
        step == refuses(approval_id, code),
{
    Hde3Step::Reject { approval: approval_id, code, best_effort: false, finish: false }
}

/// The first step of an enrollment.
pub open spec fn entered_step(
    authority_available: bool,
    handshake_free: bool,
    connection_free: bool,
) -> Hde3Step {
    if authority_available && handshake_free && connection_free {
        Hde3Step::ReadFirstFrame
    } else if !authority_available {
        Hde3Step::Fail(RelayError::QuicProtocol { reason: "enrollment authority is unavailable" })
    } else {
        Hde3Step::Fail(RelayError::ResourceLimit)
    }
}

/// Decides whether an enrollment connection is served.
pub fn hde3_entry(authority_available: bool, handshake_free: bool, connection_free: bool) -> (step:
    Hde3Step)
    ensures
        step == (if !authority_available {
            Hde3Step::Fail(
                RelayError::QuicProtocol { reason: "enrollment authority is unavailable" },
            )
        } else if !handshake_free || !connection_free {
            Hde3Step::Fail(RelayError::ResourceLimit)
        } else {
            Hde3Step::ReadFirstFrame
        }),
        step == entered_step(authority_available, handshake_free, connection_free),
{
    if !authority_available {
        return Hde3Step::Fail(
            RelayError::QuicProtocol { reason: "enrollment authority is unavailable" },
        );
    }
    if !handshake_free {
        return Hde3Step::Fail(RelayError::ResourceLimit);
    }
    if !connection_free {
        return Hde3Step::Fail(RelayError::ResourceLimit);
    }
    Hde3Step::ReadFirstFrame
}

/// The failure of accepting the stream of an enrollment connection.
pub fn hde3_stream_failure(timed_out: bool) -> (error: RelayError)
    ensures
        error == (RelayError::QuicHandshake {
            reason: if timed_out {
                "HDE3 stream timeout"
            } else {
                "HDE3 stream unavailable"
            },
        }),
{
    if timed_out {
        RelayError::QuicHandshake { reason: "HDE3 stream timeout" }
    } else {
        RelayError::QuicHandshake { reason: "HDE3 stream unavailable" }
    }
}

/// The kinds of frames that open an enrollment conversation.
pub open spec fn opens_conversation(kind: Hde3Kind) -> bool {
    kind == Hde3Kind::ApprovalSubmit || kind == Hde3Kind::FirstAppSubmit || kind
        == Hde3Kind::ApprovalStart || kind == Hde3Kind::ConfirmPersisted || kind
        == Hde3Kind::Reconcile
}

/// The decision on the first frame.
pub open spec fn first_step(kind: Option<Hde3Kind>) -> Hde3Step {
    match kind {
        None => Hde3Step::Reject {
            approval: None,
            code: 1,
            best_effort: true,
            finish: false,
        },
        Some(opening) => if opens_conversation(opening) {
            Hde3Step::Decode(opening)
        } else {
            Hde3Step::Reject { approval: None, code: 3, best_effort: false, finish: true }
        },
    }
}

/// Decision on the first frame; `None` says that no well-formed frame came in time.
pub fn hde3_first_frame(kind: Option<Hde3Kind>) -> (step: Hde3Step)
    ensures
        step == first_step(kind),
{
    match kind {
        None => Hde3Step::Reject { approval: None, code: 1, best_effort: true, finish: false },
        Some(Hde3Kind::ApprovalSubmit) => Hde3Step::Decode(Hde3Kind::ApprovalSubmit),
        Some(Hde3Kind::FirstAppSubmit) => Hde3Step::Decode(Hde3Kind::FirstAppSubmit),
        Some(Hde3Kind::ApprovalStart) => Hde3Step::Decode(Hde3Kind::ApprovalStart),
        Some(Hde3Kind::ConfirmPersisted) => Hde3Step::Decode(Hde3Kind::ConfirmPersisted),
        Some(Hde3Kind::Reconcile) => Hde3Step::Decode(Hde3Kind::Reconcile),
        Some(_) => Hde3Step::Reject {
            approval: None,
            code: 3,
            best_effort: false,
            finish: true,
        },
    }
}

/// The decision on an APPROVAL_SUBMIT that opens the conversation.
pub open spec fn approval_submit_step(approval_id: Option<[u8; 32]>) -> Hde3Step {
    match approval_id {
        Some(id) => Hde3Step::SubmitApproval { approval_id: id },
        None => refuses(None, 1),
    }
}

/// Decision on a decoded APPROVAL_SUBMIT that opens the conversation.
pub fn approval_submit_decoded(approval_id: Option<[u8; 32]>) -> (step: Hde3Step)
    ensures
        step == approval_submit_step(approval_id),
{
    match approval_id {
        Some(id) => Hde3Step::SubmitApproval { approval_id: id },
        None => refuse(None, 1),
    }
}

/// The decision on the authority's answer to a submitted approval.
pub open spec fn approval_step(approval_id: [u8; 32], answer: Result<(), BootstrapRuntimeError>) -> Hde3Step {
    match answer {
        Ok(_) => Hde3Step::Issue,
        Err(error) => refuses(
            Some(approval_id),
            crate::quic_server::bootstrap::rejection_code(error),
        ),
    }
}

/// Decision on the authority's answer to a submitted approval.
pub fn approval_answered(approval_id: [u8; 32], answer: Result<(), BootstrapRuntimeError>) -> (step:
    Hde3Step)
    ensures
        step == approval_step(approval_id, answer),
{
    match answer {
        Ok(_) => Hde3Step::Issue,
        Err(error) => refuse(Some(approval_id), bootstrap_rejection_code(error)),
    }
}

/// The decision on a FIRST_APP_SUBMIT.
pub open spec fn first_app_step(approval_id: Option<[u8; 32]>) -> Hde3Step {
    match approval_id {
        Some(id) => Hde3Step::AuthorizeFirstApp { approval_id: id },
        None => refuses(None, 1),
    }
}

/// Decision on a decoded FIRST_APP_SUBMIT.
pub fn first_app_decoded(approval_id: Option<[u8; 32]>) -> (step: Hde3Step)
    ensures
        step == first_app_step(approval_id),
{
    match approval_id {
        Some(id) => Hde3Step::AuthorizeFirstApp { approval_id: id },
        None => refuse(None, 1),
    }
}

/// The decision on the authority's answer about the first App.
pub open spec fn first_app_settled(approval_id: [u8; 32], authorized: bool) -> Hde3Step {
    if authorized {
        Hde3Step::Issue
    } else {
        refuses(Some(approval_id), 4)
    }
}

/// Decision on the authority's answer about the first App.
pub fn first_app_answered(approval_id: [u8; 32], authorized: bool) -> (step: Hde3Step)
    ensures
        step == first_app_settled(approval_id, authorized),
{
    if authorized {
        Hde3Step::Issue
    } else {
        refuse(Some(approval_id), 4)
    }
}

/// `step` is the decision on an APPROVAL_START.
pub open spec fn start_settled(
    step: Hde3Step,
    well_formed: bool,
    digest_present: bool,
    core_binding_digest: Seq<char>,
) -> bool {
    if !well_formed {
        step == refuses(None, 1)
    } else if !digest_present {
        step == Hde3Step::Fail(
            RelayError::QuicProtocol { reason: "HDE3 approval digest is invalid" },
        )
    } else {
        match crate::quic_server::trust::hex_digest(core_binding_digest) {
            Err(error) => step == Hde3Step::Fail(error),
            Ok(digest) => step matches Hde3Step::StartApproval { core_binding_digest: bytes }
                && bytes@ == digest,
        }
    }
}

/// Decision on a decoded APPROVAL_START: `well_formed` says that the payload decodes and is
/// consistent, `digest_present` that its signing request digest can be read.
pub fn approval_start_decoded(
    well_formed: bool,
    digest_present: bool,
    core_binding_digest: &str,
) -> (step: Hde3Step)
    ensures
        start_settled(step, well_formed, digest_present, core_binding_digest@),
{
    if !well_formed {
        return refuse(None, 1);
    }
    if !digest_present {
        return Hde3Step::Fail(
            RelayError::QuicProtocol { reason: "HDE3 approval digest is invalid" },
        );
    }
    match decode_hex_digest(core_binding_digest) {
        Err(error) => Hde3Step::Fail(error),
        Ok(digest) => Hde3Step::StartApproval { core_binding_digest: digest },
    }
}

/// The decision on the authority's answer to an APPROVAL_START.
pub open spec fn started_step(answer: Result<(), BootstrapRuntimeError>) -> Hde3Step {
    match answer {
        Ok(_) => Hde3Step::SendChallenge,
        Err(error) => refuses(None, crate::quic_server::bootstrap::rejection_code(error)),
    }
}

/// Decision on the authority's answer to an APPROVAL_START.
pub fn approval_started(answer: Result<(), BootstrapRuntimeError>) -> (step: Hde3Step)
    ensures
        step == started_step(answer),
{
    match answer {
        Ok(_) => Hde3Step::SendChallenge,
        Err(error) => refuse(None, bootstrap_rejection_code(error)),
    }
}

/// The decision on writing an approval challenge.
pub open spec fn challenge_written_step(outcome: WriteOutcome) -> Hde3Step {
    match outcome {
        WriteOutcome::TimedOut => Hde3Step::Fail(
            RelayError::QuicHandshake { reason: "HDE3 challenge write timeout" },
        ),
        WriteOutcome::Failed => Hde3Step::Fail(
            RelayError::QuicProtocol { reason: "HDE3 challenge write failed" },
        ),
        WriteOutcome::Written => Hde3Step::ReadSubmit,
    }
}

/// Decision on writing an approval challenge.
pub fn approval_challenge_written(outcome: WriteOutcome) -> (step: Hde3Step)
    ensures
        step == challenge_written_step(outcome),
{
    match outcome {
        WriteOutcome::TimedOut => Hde3Step::Fail(
            RelayError::QuicHandshake { reason: "HDE3 challenge write timeout" },
        ),
        WriteOutcome::Failed => Hde3Step::Fail(
            RelayError::QuicProtocol { reason: "HDE3 challenge write failed" },
        ),
        WriteOutcome::Written => Hde3Step::ReadSubmit,
    }
}

/// The submission that follows a challenge.
pub enum Submission {
    /// No frame came in time.
    Missing,
    /// The frame is not a well-formed APPROVAL_SUBMIT.
    Malformed,
    /// A decoded submission.
    Decoded {
        /// Approval that it names.
        approval_id: [u8; 32],
        /// Challenge that it answers.
        challenge: [u8; 32],
    },
}

/// The decision on the submission that follows a challenge.
pub open spec fn submission_step(submission: Submission, approval_id: [u8; 32], challenge: [u8; 32]) -> Hde3Step {
    match submission {
        Submission::Missing => Hde3Step::Return,
        Submission::Malformed => refuses(Some(approval_id), 1),
        Submission::Decoded { approval_id: named, challenge: answered } => if named@
            == approval_id@ && answered@ == challenge@ {
            Hde3Step::SubmitApproval { approval_id: named }
        } else {
            refuses(Some(approval_id), 4)
        },
    }
}

/// Decision on the submission that follows a challenge: it must name the approval and the
/// challenge of this conversation.
pub fn challenge_submitted(
    submission: &Submission,
    approval_id: [u8; 32],
    challenge: &[u8; 32],
) -> (step: Hde3Step)
    ensures
        step == submission_step(*submission, approval_id, *challenge),
{
    match submission {
        Submission::Missing => Hde3Step::Return,
        Submission::Malformed => refuse(Some(approval_id), 1),
        Submission::Decoded { approval_id: named, challenge: answered } => {
            if !same_bytes(named, &approval_id) || !same_bytes(answered, challenge) {
                return refuse(Some(approval_id), 4);
            }
            Hde3Step::SubmitApproval { approval_id: *named }
        },
    }
}

/// The decision on a CONFIRM_PERSISTED.
pub open spec fn confirm_step(decoded: bool, well_formed: bool) -> Hde3Step {
    if !decoded {
        refuses(None, 1)
    } else if !well_formed {
        Hde3Step::Reject { approval: None, code: 1, best_effort: false, finish: true }
    } else {
        Hde3Step::Confirm
    }
}

/// Decision on a decoded CONFIRM_PERSISTED: `decoded` says that the payload decodes,
/// `well_formed` that it is consistent.
pub fn confirm_decoded(decoded: bool, well_formed: bool) -> (step: Hde3Step)
    ensures
        step == confirm_step(decoded, well_formed),
{
    if !decoded {
        return refuse(None, 1);
    }
    if !well_formed {
        return Hde3Step::Reject {
            approval: None,
            code: 1,
            best_effort: false,
            finish: true,
        };
    }
    Hde3Step::Confirm
}

/// `step` is the decision on a RECONCILE.
pub open spec fn reconcile_settled(
    step: Hde3Step,
    well_formed: bool,
    approval_id: Option<[u8; 32]>,
    app_csr_digest: Seq<char>,
) -> bool {
    if !well_formed {
        step == refuses(None, 1)
    } else {
        match (approval_id, crate::quic_server::trust::hex_digest(app_csr_digest)) {
            (None, _) => step == Hde3Step::Fail(
                RelayError::QuicProtocol {
                    reason: "HDE3 reconciliation approval is invalid",
                },
            ),
            (Some(_), Err(error)) => step == Hde3Step::Fail(error),
            (Some(id), Ok(digest)) => step matches Hde3Step::Reconcile { key } && key@ == (
            crate::issuance::KeyView {
                authorization_id: crate::quic_server::trust::authorization_id_of(id@),
                csr_digest: digest,
            }),
        }
    }
}

/// Decision on a decoded RECONCILE: `well_formed` says that the payload decodes and is
/// consistent, `approval_id` is the approval that it names, if it can be read.
pub fn reconcile_requested(
    well_formed: bool,
    approval_id: Option<[u8; 32]>,
    app_csr_digest: &str,
) -> (step: Hde3Step)
    ensures
        reconcile_settled(step, well_formed, approval_id, app_csr_digest@),
{
    if !well_formed {
        return refuse(None, 1);
    }
    match approval_id {
        None => Hde3Step::Fail(
            RelayError::QuicProtocol { reason: "HDE3 reconciliation approval is invalid" },
        ),
        Some(id) => match decode_hex_digest(app_csr_digest) {
            Err(error) => Hde3Step::Fail(error),
            Ok(digest) => Hde3Step::Reconcile { key: hde3_issuance_key(&id, digest) },
        },
    }
}

/// How a result reaches the Core.
pub enum Hde3Delivery {
    /// Write a RESULT frame with this result, then finish.
    Send(Hde3Result),
    /// Write a REJECTED frame with this code, then finish.
    Reject(u16),
    /// End the connection with a failure.
    Fail(RelayError),
}

/// Decides how a result reaches the Core.
pub fn send_hde3_result(result: RelayResult<Hde3Answer>) -> (delivery: Hde3Delivery)
    ensures
        delivery == (match result {
            Err(error) => Hde3Delivery::Fail(error),
            Ok(Err(code)) => Hde3Delivery::Reject(code),
            Ok(Ok(payload)) => Hde3Delivery::Send(payload),
        }),
{
    match result {
        Err(error) => Hde3Delivery::Fail(error),
        Ok(Err(code)) => Hde3Delivery::Reject(code),
        Ok(Ok(payload)) => Hde3Delivery::Send(payload),
    }
}

/// How sending a frame to the Core ended.
#[derive(Debug, Clone, Copy, PartialEq, Eq, Structural)]
pub enum DeliveryOutcome {
    /// The frame could not be built.
    NotEncoded,
    /// The deadline passed.
    TimedOut,
    /// The stream failed.
    Failed,
    /// The frame is written.
    Sent,
}

/// Decides on the outcome of sending a RESULT frame.
pub fn result_delivered(outcome: DeliveryOutcome) -> (delivered: RelayResult<()>)
    ensures
        delivered == (match outcome {
            DeliveryOutcome::NotEncoded => Err::<(), RelayError>(
                RelayError::QuicProtocol { reason: "HDE3 result encoding failed" },
            ),
            DeliveryOutcome::TimedOut => Err(
                RelayError::QuicHandshake { reason: "HDE3 result write timeout" },
            ),
            DeliveryOutcome::Failed => Err(
                RelayError::QuicProtocol { reason: "HDE3 result write failed" },
            ),
            DeliveryOutcome::Sent => Ok(()),
        }),
{
    match outcome {
        DeliveryOutcome::NotEncoded => Err(
            RelayError::QuicProtocol { reason: "HDE3 result encoding failed" },
        ),
        DeliveryOutcome::TimedOut => Err(
            RelayError::QuicHandshake { reason: "HDE3 result write timeout" },
        ),
        DeliveryOutcome::Failed => Err(
            RelayError::QuicProtocol { reason: "HDE3 result write failed" },
        ),
        DeliveryOutcome::Sent => Ok(()),
    }
}

/// What a refusal is sent as.
pub enum Hde3Rejection {
    /// A RESULT frame that names the approval.
    Correlated(Hde3Result),
    /// A REJECTED frame with this code.
    Fixed(u16),
}

/// Decides what a refusal is sent as: one of a known approval is a result of that approval.
pub fn send_hde3_rejection(approval_id: Option<[u8; 32]>, code: u16) -> (rejection: Hde3Rejection)
    ensures
        rejection == (match approval_id {
            Some(approval_id) => Hde3Rejection::Correlated(
                Hde3Result::Rejected { approval_id, code },
            ),
            None => Hde3Rejection::Fixed(code),
        }),
{
    match approval_id {
        Some(approval_id) => Hde3Rejection::Correlated(Hde3Result::Rejected { approval_id, code }),
        None => Hde3Rejection::Fixed(code),
    }
}

/// Decides on the outcome of sending a refusal.
pub fn rejection_delivered(outcome: DeliveryOutcome) -> (delivered: RelayResult<()>)
    ensures
        delivered == (match outcome {
            DeliveryOutcome::NotEncoded => Err::<(), RelayError>(
                RelayError::QuicProtocol { reason: "HDE3 rejection is invalid" },
            ),
            DeliveryOutcome::TimedOut => Err(
                RelayError::QuicHandshake { reason: "HDE3 rejection write timeout" },
            ),
            DeliveryOutcome::Failed => Err(
                RelayError::QuicProtocol { reason: "HDE3 rejection write failed" },
            ),
            DeliveryOutcome::Sent => Ok(()),
        }),
{
    match outcome {
        DeliveryOutcome::NotEncoded => Err(
            RelayError::QuicProtocol { reason: "HDE3 rejection is invalid" },
        ),
        DeliveryOutcome::TimedOut => Err(
            RelayError::QuicHandshake { reason: "HDE3 rejection write timeout" },
        ),
        DeliveryOutcome::Failed => Err(
            RelayError::QuicProtocol { reason: "HDE3 rejection write failed" },
        ),
        DeliveryOutcome::Sent => Ok(()),
    }
}

/// The answer that the same request gets again after its certificate was issued: the very
/// certificate, whatever the request is repeated with but another generation.
pub proof fn law_repeated_issuance_gives_the_same_certificate(
    record: crate::issuance::RecordView,
    approval_id: Seq<u8>,
    generation: u64,
)
    requires
        record.status == IssuanceResultStatus::Issued,
        crate::issuance::record_check(record, true) is Ok,
        crate::quic_server::trust::chain_identity(record.certificate_chain) is Some,
    ensures
        existing_answer(record, approval_id, Some(generation), Some(generation)) == Ok::<
            ResultView,
            u16,
        >(
            ResultView::Issued {
                approval_id,
                app_identity: crate::quic_server::trust::chain_identity(
                    record.certificate_chain,
                )->Some_0,
                certificate_chain: record.certificate_chain,
                fingerprint: record.fingerprint->Some_0,
                chain_digest: crate::quic_server::trust::chain_digest_of(
                    record.certificate_chain,
                ),
                not_after_epoch_seconds: record.not_after_epoch_seconds->Some_0,
                configuration_generation: generation,
                active: false,
            },
        ),
        forall|other: u64|
            other != generation ==> #[trigger] existing_answer(
                record,
                approval_id,
                Some(generation),
                Some(other),
            ) == Err::<ResultView, u16>(4),
{
}

/// A confirmation is answered with an active result only if its three digests are those of the
/// stored certificate.
pub proof fn law_confirmation_is_exact(
    record: crate::issuance::RecordView,
    app_identity: Seq<u8>,
    fingerprint: Seq<u8>,
    chain_digest: Seq<u8>,
    approval_id: Seq<u8>,
    recorded: Option<u64>,
    generation: u64,
)
    ensures
        confirmed(
            record,
            app_identity,
            fingerprint,
            chain_digest,
            approval_id,
            recorded,
            generation,
        ) matches Ok(result) ==> {
            &&& result matches ResultView::Issued { active: true, .. }
            &&& crate::quic_server::trust::chain_identity(record.certificate_chain) == Some(
                app_identity,
            )
            &&& record.fingerprint == Some(fingerprint)
            &&& crate::quic_server::trust::chain_digest_of(record.certificate_chain)
                == chain_digest
            &&& recorded == Some(generation)
        },
{
}

/// A certificate is signed only for a binding that the store has just created.
pub proof fn law_only_new_bindings_are_signed(
    step: IssueStep,
    begun: RelayResult<IssuanceBeginResult>,
    approval_id: Seq<u8>,
    recorded: Option<u64>,
    configuration_generation: u64,
    generation: Option<u64>,
)
    requires
        begin_settled(
            step,
            begun,
            approval_id,
            recorded,
            configuration_generation,
            generation,
        ),
        step is Sign,
    ensures
        begun matches Ok(IssuanceBeginResult::Created(_)),
{
}

/// After a binding was marked issued, a retry of its request finds the issued certificate in the
/// store for as long as it is retained, and no second one is made.
pub proof fn law_retry_finds_the_issued_certificate(
    store: crate::issuance::StoreView,
    key: crate::issuance::KeyView,
    material: crate::issuance::MaterialView,
    now: u64,
    expires_at: u64,
    later: u64,
)
    requires
        crate::issuance::records_valid(store.records),
        crate::issuance::issue_refusal(store.records, key, material, now) is None,
        crate::issuance::lookup(
            crate::issuance::pruned(store.records, now),
            key,
        )->Some_0.status == IssuanceResultStatus::Pending,
        later < now + crate::issuance::ISSUANCE_RESULT_TTL_SECS,
        later < expires_at <= later + crate::issuance::MAX_AUTHORIZATION_TTL_SECS,
        expires_at + crate::issuance::ISSUANCE_RESULT_TTL_SECS <= u64::MAX,
    ensures
        ({
            let app_id = crate::issuance::lookup(
                crate::issuance::pruned(store.records, now),
                key,
            )->Some_0.app_id;
            let issued = crate::issuance::store_after(
                store,
                crate::issuance::StoreOperation::Issue { key, material },
                now,
            );
            let found = crate::issuance::lookup(
                crate::issuance::pruned(issued.records, later),
                key,
            );
            &&& crate::issuance::begin_refusal(
                issued.records,
                key,
                app_id,
                true,
                expires_at,
                later,
            ) is None
            &&& found is Some
            &&& found->Some_0.status == IssuanceResultStatus::Issued
            &&& crate::issuance::carries(found->Some_0, material)
        }),
{
    crate::issuance::law_issued_result_is_read_back(store, key, material, now, later);
    crate::issuance::lemma_issued_keeps_app(store, key, material, now, later);
}

/// What the outside answers in an enrollment conversation.
pub struct Hde3Answers {
    /// Kind of the first frame, if one came.
    pub first: Option<Hde3Kind>,
    /// Approval of an APPROVAL_SUBMIT or FIRST_APP_SUBMIT, if it decodes.
    pub named: Option<[u8; 32]>,
    /// Answer to a submitted approval.
    pub approval: Result<(), BootstrapRuntimeError>,
    /// The authority accepts the first App.
    pub first_app_authorized: bool,
    /// The payload of the first frame decodes.
    pub decodes: bool,
    /// The payload of the first frame is consistent.
    pub well_formed: bool,
    /// The signing request digest of an APPROVAL_START can be read.
    pub digest_present: bool,
    /// Digest that an APPROVAL_START or a RECONCILE names.
    pub digest: Seq<char>,
    /// Answer to an APPROVAL_START.
    pub started: Result<(), BootstrapRuntimeError>,
    /// Approval of the challenge.
    pub challenge_id: [u8; 32],
    /// Challenge.
    pub challenge: [u8; 32],
    /// How writing the challenge ended.
    pub written: WriteOutcome,
    /// Submission that follows the challenge.
    pub submission: Submission,
}

/// `after` is the decision that follows `before`.
pub open spec fn hde3_follows(before: Hde3Step, answers: Hde3Answers, after: Hde3Step) -> bool {
    match before {
        Hde3Step::ReadFirstFrame => after == first_step(answers.first),
        Hde3Step::Decode(Hde3Kind::ApprovalSubmit) => after == approval_submit_step(answers.named),
        Hde3Step::Decode(Hde3Kind::FirstAppSubmit) => after == first_app_step(answers.named),
        Hde3Step::Decode(Hde3Kind::ApprovalStart) => start_settled(
            after,
            answers.well_formed,
            answers.digest_present,
            answers.digest,
        ),
        Hde3Step::Decode(Hde3Kind::ConfirmPersisted) => after == confirm_step(
            answers.decodes,
            answers.well_formed,
        ),
        Hde3Step::Decode(Hde3Kind::Reconcile) => reconcile_settled(
            after,
            answers.well_formed,
            answers.named,
            answers.digest,
        ),
        Hde3Step::SubmitApproval { approval_id } => after == approval_step(
            approval_id,
            answers.approval,
        ),
        Hde3Step::AuthorizeFirstApp { approval_id } => after == first_app_settled(
            approval_id,
            answers.first_app_authorized,
        ),
        Hde3Step::StartApproval { core_binding_digest } => after == started_step(answers.started),
        Hde3Step::SendChallenge => after == challenge_written_step(answers.written),
        Hde3Step::ReadSubmit => after == submission_step(
            answers.submission,
            answers.challenge_id,
            answers.challenge,
        ),
        _ => false,
    }
}

/// The number of answers that an enrollment conversation may still need after `step`.
pub open spec fn hde3_answers_left(step: Hde3Step) -> nat {
    match step {
        Hde3Step::ReadFirstFrame => 6,
        Hde3Step::Decode(_) => 5,
        Hde3Step::StartApproval { .. } => 4,
        Hde3Step::SendChallenge => 3,
        Hde3Step::ReadSubmit => 2,
        Hde3Step::SubmitApproval { .. } | Hde3Step::AuthorizeFirstApp { .. } => 1,
        _ => 0,
    }
}

/// Every answer brings an enrollment conversation strictly nearer to its end.
pub proof fn law_enrollment_terminates(before: Hde3Step, answers: Hde3Answers, after: Hde3Step)
    requires
        hde3_follows(before, answers, after),
    ensures
        hde3_answers_left(after) < hde3_answers_left(before),
{
}

/// A certificate is issued only after the authority accepted a submitted code or the first App.
pub proof fn law_issuance_needs_approval(before: Hde3Step, answers: Hde3Answers, after: Hde3Step)
    requires
        hde3_follows(before, answers, after),
        after is Issue,
    ensures
        (before is SubmitApproval && answers.approval is Ok) || (before is AuthorizeFirstApp
            && answers.first_app_authorized),
{
}

/// A submission that follows a challenge reaches the authority only if it names the approval and
/// the challenge of its own conversation.
pub proof fn law_submission_answers_its_challenge(answers: Hde3Answers, after: Hde3Step)
    requires
        hde3_follows(Hde3Step::ReadSubmit, answers, after),
        after is SubmitApproval,
    ensures
        answers.submission matches Submission::Decoded { approval_id, challenge } && approval_id@
            == answers.challenge_id@ && challenge@ == answers.challenge@,
{
}

/// A recorded certificate is answered if and only if the record holds its digest, its end and a
/// readable chain, and the configuration is the one that it was recorded for. The answer holds what
/// was recorded, for the approval that was asked.
pub proof fn law_recorded_certificates_are_answered(
    record: crate::issuance::RecordView,
    approval_id: Seq<u8>,
    recorded: Option<u64>,
    asked: Option<u64>,
    active: bool,
)
    ensures
        ({
            let answer = record_result(record, approval_id, recorded, asked, active);
            &&& answer is Ok <==> record.fingerprint is Some && recorded is Some && (asked is None
                || asked == recorded) && record.not_after_epoch_seconds is Some
                && crate::quic_server::trust::chain_identity(record.certificate_chain) is Some
            &&& answer matches Ok(result) ==> (result matches ResultView::Issued {
                approval_id: named,
                app_identity,
                certificate_chain,
                fingerprint,
                chain_digest,
                not_after_epoch_seconds,
                configuration_generation,
                active: told,
            } && {
                &&& named == approval_id
                &&& Some(app_identity) == crate::quic_server::trust::chain_identity(
                    record.certificate_chain,
                )
                &&& certificate_chain == record.certificate_chain
                &&& Some(fingerprint) == record.fingerprint
                &&& chain_digest == crate::quic_server::trust::chain_digest_of(
                    record.certificate_chain,
                )
                &&& Some(not_after_epoch_seconds) == record.not_after_epoch_seconds
                &&& Some(configuration_generation) == recorded
                &&& told == active
            })
            &&& answer == Err::<ResultView, u16>(4) <==> record.fingerprint is Some
                && recorded is Some && asked is Some && asked != recorded
            &&& answer matches Err(code) ==> code == 4 || code == 5
        }),
{
}

/// A result that exists is answered by its state: a pending one as pending, a rejected one with its
/// code, an issued one with its certificate, which is not active yet. Each answer names the approval.
pub proof fn law_existing_results_are_answered_by_state(
    record: crate::issuance::RecordView,
    approval_id: Seq<u8>,
    recorded: Option<u64>,
    asked: Option<u64>,
)
    ensures
        ({
            let answer = existing_answer(record, approval_id, recorded, asked);
            &&& record.status == IssuanceResultStatus::Pending <==> answer == Ok::<ResultView, u16>(
                ResultView::Pending { approval_id },
            )
            &&& record.status == IssuanceResultStatus::Rejected <==> (answer matches Ok(
                ResultView::Rejected { .. },
            ))
            &&& answer matches Ok(ResultView::Rejected { approval_id: named, code }) ==> named
                == approval_id && (record.rejection_code is Some ==> record.rejection_code == Some(
                code,
            )) && (record.rejection_code is None ==> code == 4)
            &&& answer matches Ok(ResultView::Issued { active, .. }) ==> !active && record.status
                == IssuanceResultStatus::Issued
            &&& answer is Err ==> record.status == IssuanceResultStatus::Issued
        }),
{
}

/// An issuance begins if and only if the store is open, the clock is known and the request names an
/// App. It is for that App, bound to the approval and to the digest of the request, and may be used
/// for five minutes.
pub proof fn law_issuance_begins_as_requested(
    step: IssueStep,
    store_open: bool,
    now: Option<u64>,
    approval_id: Seq<u8>,
    csr: Seq<u8>,
    csr_digest: Seq<u8>,
)
    requires
        issue_begins(step, store_open, now, approval_id, csr, csr_digest),
    ensures
        step is CheckName <==> store_open && now is Some && crate::pki::csr_identity(csr) is Ok,
        step matches IssueStep::CheckName { key, app_id, expires_at } ==> {
            &&& key@.authorization_id == crate::quic_server::trust::authorization_id_of(approval_id)
            &&& key@.csr_digest == csr_digest
            &&& (crate::pki::csr_identity(csr) matches Ok(name) && app_id@ == name)
            &&& now->Some_0 + 300 <= u64::MAX ==> expires_at == now->Some_0 + 300
            &&& now->Some_0 + 300 > u64::MAX ==> expires_at == u64::MAX
        },
        !store_open || now is None ==> step == IssueStep::Fail(RelayError::ConfigurationRead),
        store_open && now is Some && crate::pki::csr_identity(csr) is Err ==> step
            == IssueStep::Answer(Err(4)),
{
}

/// A new result is signed for the generation after the current one, if that is known and there is
/// one; a result that exists is answered, and a refused one is told as such.
pub proof fn law_new_bindings_are_signed_next(
    step: IssueStep,
    begun: RelayResult<IssuanceBeginResult>,
    approval_id: Seq<u8>,
    recorded: Option<u64>,
    configuration_generation: u64,
    generation: Option<u64>,
)
    requires
        begin_settled(step, begun, approval_id, recorded, configuration_generation, generation),
    ensures
        step is Sign <==> (begun matches Ok(IssuanceBeginResult::Created(_))) && (
        generation matches Some(current) && current < u64::MAX),
        step matches IssueStep::Sign { next_generation } ==> (generation matches Some(current)
            && next_generation == current + 1),
        begun is Err ==> step == IssueStep::Answer(Err(5)),
        begun matches Ok(IssuanceBeginResult::Existing(_)) ==> step is Answer,
        (begun matches Ok(IssuanceBeginResult::Created(_))) && generation is None ==> step
            == IssueStep::Fail(RelayError::ConfigurationRead),
        (begun matches Ok(IssuanceBeginResult::Created(_))) && generation == Some(u64::MAX) ==> step
            == IssueStep::Fail(RelayError::ResourceLimit),
{
}

/// Each step of an issuance leads on if and only if what it waited for succeeded, with the same
/// binding, the same App and the same generation.
pub proof fn law_issuance_steps_lead_on(
    key: IssuanceResultKey,
    app_id: String,
    expires_at: u64,
    accepted: bool,
    signed: bool,
    described: bool,
    next_generation: u64,
    attached: bool,
    committed: Option<u64>,
)
    ensures
        accepted ==> named_step(key, app_id, expires_at, accepted) == (IssueStep::Begin {
            key,
            app_id,
            expires_at,
        }),
        !accepted ==> named_step(key, app_id, expires_at, accepted) == IssueStep::Answer(Err(4)),
        signed && described ==> signed_step(signed, described, next_generation) == (
        IssueStep::Attach { next_generation }),
        !signed ==> signed_step(signed, described, next_generation) == IssueStep::Answer(Err(4)),
        signed && !described ==> signed_step(signed, described, next_generation)
            == IssueStep::Fail(RelayError::ConfigurationRead),
        attached_step(attached) == IssueStep::Enroll <==> attached,
        !attached ==> attached_step(attached) == IssueStep::Fail(RelayError::ConfigurationRead),
        committed matches Some(generation) ==> enrolled_step(committed) == (IssueStep::MarkIssued {
            committed_generation: generation,
        }),
        committed is None ==> enrolled_step(committed) == IssueStep::Answer(Err(5)),
{
}

/// A certificate that was just issued is answered if and only if its result was marked, with the
/// chain, the digests and the end of what was issued, for the approval and the configuration that
/// asked, and not active yet.
pub proof fn law_issued_certificates_are_answered_as_issued(
    step: IssueStep,
    marked: bool,
    issued: crate::pki::IssuedView,
    approval_id: Seq<u8>,
    configuration_generation: u64,
)
    requires
        issue_settled(step, marked, issued, approval_id, configuration_generation),
    ensures
        !marked ==> step == IssueStep::Answer(Err(5)),
        marked ==> (step matches IssueStep::Answer(Ok(result)) && (result@ matches
            ResultView::Issued {
            approval_id: named,
            app_identity,
            certificate_chain,
            fingerprint,
            chain_digest,
            not_after_epoch_seconds,
            configuration_generation: told,
            active,
        } && {
            &&& named == approval_id
            &&& app_identity == issued.app_identity
            &&& certificate_chain == crate::issuance::chain_view(issued.certificate_chain)
            &&& fingerprint == issued.fingerprint
            &&& chain_digest == crate::quic_server::trust::chain_digest_of(certificate_chain)
            &&& not_after_epoch_seconds == issued.not_after_epoch_seconds
            &&& told == configuration_generation
            &&& !active
        })),
{
}

/// A confirmation of exactly what was recorded is accepted, and made active. One that differs in the
/// App, the digest of the certificate or that of the chain is refused.
pub proof fn law_confirmations_of_what_was_recorded_are_accepted(
    record: crate::issuance::RecordView,
    app_identity: Seq<u8>,
    fingerprint: Seq<u8>,
    chain_digest: Seq<u8>,
    approval_id: Seq<u8>,
    recorded: Option<u64>,
    configuration_generation: u64,
)
    ensures
        ({
            let answer = confirmed(
                record,
                app_identity,
                fingerprint,
                chain_digest,
                approval_id,
                recorded,
                configuration_generation,
            );
            let same = crate::quic_server::trust::chain_identity(record.certificate_chain) == Some(
                app_identity,
            ) && record.fingerprint == Some(fingerprint)
                && crate::quic_server::trust::chain_digest_of(record.certificate_chain)
                == chain_digest;
            &&& answer is Ok <==> same && recorded == Some(configuration_generation)
                && record.not_after_epoch_seconds is Some
            &&& record.fingerprint is Some && !same ==> answer == Err::<ResultView, u16>(4)
            &&& record.fingerprint is None ==> answer == Err::<ResultView, u16>(5)
            &&& answer matches Ok(result) ==> (result matches ResultView::Issued {
                approval_id: named,
                certificate_chain,
                active,
                ..
            } && named == approval_id && certificate_chain == record.certificate_chain && active)
        }),
{
}

/// An App is activated if and only if the allowlist holds it as pending with the confirmed
/// certificate; an active one is left as it is. A revoked one, one with another certificate and an
/// unknown one are refused.
pub proof fn law_pending_apps_are_activated(
    entry: Option<(AllowlistState, [u8; 32])>,
    fingerprint: Seq<u8>,
)
    ensures
        activation_step(entry, fingerprint) == ActivationStep::Activate <==> (entry matches Some(
            found,
        ) && found.0 == AllowlistState::Pending && found.1@ == fingerprint),
        activation_step(entry, fingerprint) == ActivationStep::Done <==> (entry matches Some(found)
            && found.0 == AllowlistState::Active && found.1@ == fingerprint),
        entry is None ==> activation_step(entry, fingerprint) == ActivationStep::Refuse(5),
        (entry matches Some(found) && (found.0 == AllowlistState::Revoked || found.1@
            != fingerprint)) ==> activation_step(entry, fingerprint) == ActivationStep::Refuse(4),
{
}

/// A confirmation is looked up by the authorization of its approval at the time of the clock, if and
/// only if it names an approval, its digests are read, the store is open and the clock is known.
pub proof fn law_confirmations_are_looked_up(
    step: ConfirmStep,
    approval_id: Option<[u8; 32]>,
    digests: RelayResult<Confirmation>,
    store_open: bool,
    now: Option<u64>,
)
    requires
        confirmation_begins(step, approval_id, digests, store_open, now),
    ensures
        step is Find <==> approval_id is Some && digests is Ok && store_open && now is Some,
        step matches ConfirmStep::Find { authorization_id, now: at } ==> (approval_id matches Some(
            id,
        ) && authorization_id@ == crate::quic_server::trust::authorization_id_of(id@)) && now
            == Some(at),
        !(step is Find) ==> step is Fail,
        approval_id is Some ==> (digests matches Err(error) ==> step == ConfirmStep::Fail(error)),
{
}

/// A confirmed result is carried on unchanged to its answer: an answer is the result that was
/// confirmed, and is given only where nothing was refused on the way.
pub proof fn law_confirmed_results_are_carried_on(
    result: Hde3Result,
    authorized: Result<(), BootstrapRuntimeError>,
    entry: RelayResult<Option<(AllowlistState, [u8; 32])>>,
    fingerprint: Seq<u8>,
    activated: bool,
)
    ensures
        first_app_confirm_step(result, authorized) == ConfirmStep::LookUpEntry(result)
            <==> authorized is Ok || authorized == Err::<(), BootstrapRuntimeError>(
            BootstrapRuntimeError::NotFound,
        ),
        !(first_app_confirm_step(result, authorized) is LookUpEntry) ==> first_app_confirm_step(
            result,
            authorized,
        ) == ConfirmStep::Answer(Err(5)),
        entry_step(result, entry, fingerprint) == ConfirmStep::Activate(result) <==> (
        entry matches Ok(Some(found)) && found.0 == AllowlistState::Pending && found.1@
            == fingerprint),
        entry_step(result, entry, fingerprint) == ConfirmStep::Answer(Ok(result)) <==> (
        entry matches Ok(Some(found)) && found.0 == AllowlistState::Active && found.1@
            == fingerprint),
        entry matches Err(error) ==> entry_step(result, entry, fingerprint) == ConfirmStep::Fail(
            error,
        ),
        activated ==> activated_step(result, activated) == ConfirmStep::Answer(Ok(result)),
        !activated ==> activated_step(result, activated) == ConfirmStep::Fail(
            RelayError::ConfigurationRead,
        ),
{
}

/// A found issuance goes on to its first App if and only if the confirmation is accepted and its App
/// is well formed; a refused one is answered with its code, and one that is not found fails.
pub proof fn law_found_issuances_are_confirmed(
    step: ConfirmStep,
    found: RelayResult<Option<FoundIssuance>>,
    confirmation: Confirmation,
    approval_id: Seq<u8>,
    configuration_generation: u64,
)
    requires
        found_settled(step, found, confirmation, approval_id, configuration_generation),
    ensures
        found matches Err(error) ==> step == ConfirmStep::Fail(error),
        found matches Ok(None) ==> step == ConfirmStep::Fail(RelayError::ConfigurationRead),
        found matches Ok(Some(issuance)) ==> {
            let answer = confirmed(
                issuance.record@,
                confirmation.app_identity@,
                confirmation.fingerprint@,
                confirmation.chain_digest@,
                approval_id,
                issuance.recorded,
                configuration_generation,
            );
            &&& step is ConfirmFirstApp <==> answer is Ok && issuance.name_accepted
            &&& step matches ConfirmStep::ConfirmFirstApp(result) ==> answer == Ok::<
                ResultView,
                u16,
            >(result@)
            &&& answer matches Err(code) ==> step == ConfirmStep::Answer(Err(code))
            &&& answer is Ok && !issuance.name_accepted ==> step is Fail
        },
{
}

/// A conversation is opened by five kinds of frames. Another kind is refused and ends it, and a frame
/// that cannot be read is refused as far as that is possible.
pub proof fn law_conversations_are_opened_by_requests(kind: Option<Hde3Kind>)
    ensures
        first_step(kind) is Decode <==> (kind matches Some(opening) && (opening
            == Hde3Kind::ApprovalSubmit || opening == Hde3Kind::FirstAppSubmit || opening
            == Hde3Kind::ApprovalStart || opening == Hde3Kind::ConfirmPersisted || opening
            == Hde3Kind::Reconcile)),
        first_step(kind) matches Hde3Step::Decode(opening) ==> kind == Some(opening),
        kind is None ==> first_step(kind) == (Hde3Step::Reject {
            approval: None,
            code: 1,
            best_effort: true,
            finish: false,
        }),
        kind is Some && !(first_step(kind) is Decode) ==> first_step(kind) == (Hde3Step::Reject {
            approval: None,
            code: 3,
            best_effort: false,
            finish: true,
        }),
{
}

/// A certificate is issued if and only if the approval was granted, or the first App was authorized;
/// a refusal names the approval and its cause.
pub proof fn law_issuance_follows_a_grant(
    approval_id: [u8; 32],
    answer: Result<(), BootstrapRuntimeError>,
    authorized: bool,
    named: Option<[u8; 32]>,
)
    ensures
        approval_step(approval_id, answer) == Hde3Step::Issue <==> answer is Ok,
        answer matches Err(error) ==> (approval_step(approval_id, answer) matches Hde3Step::Reject {
            approval,
            code,
            ..
        } && approval == Some(approval_id) && code == crate::quic_server::bootstrap::rejection_code(
            error,
        )),
        first_app_settled(approval_id, authorized) == Hde3Step::Issue <==> authorized,
        !authorized ==> (first_app_settled(approval_id, authorized) matches Hde3Step::Reject {
            approval,
            code,
            ..
        } && approval == Some(approval_id) && code == 4),
        named matches Some(id) ==> approval_submit_step(named) == (Hde3Step::SubmitApproval {
            approval_id: id,
        }) && first_app_step(named) == (Hde3Step::AuthorizeFirstApp { approval_id: id }),
        named is None ==> approval_submit_step(named) is Reject && first_app_step(named) is Reject,
{
}

/// An approval is started for the Core binding whose digest was given, if and only if the request is
/// well formed and holds such a digest.
pub proof fn law_approvals_are_started_for_their_core(
    step: Hde3Step,
    well_formed: bool,
    digest_present: bool,
    core_binding_digest: Seq<char>,
    answer: Result<(), BootstrapRuntimeError>,
    outcome: WriteOutcome,
)
    requires
        start_settled(step, well_formed, digest_present, core_binding_digest),
    ensures
        step is StartApproval <==> well_formed && digest_present
            && crate::quic_server::trust::hex_digest(core_binding_digest) is Ok,
        step matches Hde3Step::StartApproval { core_binding_digest: bytes }
            ==> crate::quic_server::trust::hex_digest(core_binding_digest) == Ok::<
            Seq<u8>,
            RelayError,
        >(bytes@),
        !well_formed ==> (step matches Hde3Step::Reject { code, .. } && code == 1),
        started_step(answer) == Hde3Step::SendChallenge <==> answer is Ok,
        answer matches Err(error) ==> (started_step(answer) matches Hde3Step::Reject {
            approval,
            code,
            ..
        } && approval is None && code == crate::quic_server::bootstrap::rejection_code(error)),
        challenge_written_step(outcome) == Hde3Step::ReadSubmit <==> outcome
            == WriteOutcome::Written,
        outcome != WriteOutcome::Written ==> challenge_written_step(outcome) is Fail,
{
}

/// A submission is handed on if and only if it names the approval that was challenged and answers its
/// challenge; another one is refused, and one that never comes ends the conversation.
pub proof fn law_submissions_answer_their_challenge(
    submission: Submission,
    approval_id: [u8; 32],
    challenge: [u8; 32],
)
    ensures
        submission_step(submission, approval_id, challenge) is SubmitApproval <==> (
        submission matches Submission::Decoded { approval_id: named, challenge: answered } && named@
            == approval_id@ && answered@ == challenge@),
        submission_step(submission, approval_id, challenge) matches Hde3Step::SubmitApproval {
            approval_id: named,
        } ==> named@ == approval_id@,
        (submission matches Submission::Decoded { approval_id: named, challenge: answered } && (
        named@ != approval_id@ || answered@ != challenge@)) ==> (submission_step(
            submission,
            approval_id,
            challenge,
        ) matches Hde3Step::Reject { approval, code, .. } && approval == Some(approval_id) && code
            == 4),
        submission is Malformed ==> (submission_step(submission, approval_id, challenge) matches
            Hde3Step::Reject { approval, code, .. } && approval == Some(approval_id) && code == 1),
        submission is Missing <==> submission_step(submission, approval_id, challenge)
            == Hde3Step::Return,
{
}

/// A question is looked up under the authorization of its approval and the digest that it names, if
/// and only if it is well formed and names both.
pub proof fn law_questions_are_looked_up_under_their_approval(
    step: Hde3Step,
    well_formed: bool,
    approval_id: Option<[u8; 32]>,
    app_csr_digest: Seq<char>,
    decoded: bool,
)
    requires
        reconcile_settled(step, well_formed, approval_id, app_csr_digest),
    ensures
        step is Reconcile <==> well_formed && approval_id is Some
            && crate::quic_server::trust::hex_digest(app_csr_digest) is Ok,
        step matches Hde3Step::Reconcile { key } ==> (approval_id matches Some(id)
            && key@.authorization_id == crate::quic_server::trust::authorization_id_of(id@))
            && crate::quic_server::trust::hex_digest(app_csr_digest) == Ok::<Seq<u8>, RelayError>(
            key@.csr_digest,
        ),
        !well_formed ==> (step matches Hde3Step::Reject { code, .. } && code == 1),
        well_formed && !(step is Reconcile) ==> step is Fail,
        confirm_step(decoded, well_formed) == Hde3Step::Confirm <==> decoded && well_formed,
        !decoded || !well_formed ==> (confirm_step(decoded, well_formed) matches Hde3Step::Reject {
            approval,
            code,
            finish,
            ..
        } && approval is None && code == 1 && finish == decoded),
{
}

/// An enrollment starts if and only if its authority is there and both of its quotas have room.
pub proof fn law_enrollments_start_where_there_is_room(
    authority_available: bool,
    handshake_free: bool,
    connection_free: bool,
)
    ensures
        entered_step(authority_available, handshake_free, connection_free)
            == Hde3Step::ReadFirstFrame <==> authority_available && handshake_free
            && connection_free,
        authority_available && !(handshake_free && connection_free) ==> entered_step(
            authority_available,
            handshake_free,
            connection_free,
        ) == Hde3Step::Fail(RelayError::ResourceLimit),
        !authority_available ==> entered_step(authority_available, handshake_free, connection_free)
            == Hde3Step::Fail(
            RelayError::QuicProtocol { reason: "enrollment authority is unavailable" },
        ),
{
}

} // verus!
