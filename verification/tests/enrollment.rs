use herdogrelay::enrollment::{AllowlistState, EnrollmentError};
use herdogrelay::error::RelayError;
use herdogrelay::issuance::{
    IssuanceBeginResult, IssuanceResultKey, IssuanceResultRecord, IssuanceResultStatus,
};
use herdogrelay::quic_server::bootstrap::{BootstrapRuntimeError, WriteOutcome};
use herdogrelay::quic_server::enrollment::{
    answer_written, challenge_deadline, challenge_written, enrollment_attached, enrollment_begun,
    enrollment_enrolled, enrollment_entry, enrollment_marked, enrollment_payload_len,
    enrollment_signed, entry_compared, fields_checked, finish_failure, map_enrollment_wire_error,
    map_issuance_error, read_versioned_enrollment_frame, reconciliation_lookup,
    reconciliation_payload, reconciliation_written, request_read, send_reconciled_record,
    serve_reconciliation_frame, stream_opened, submission_decoded, EnrollmentStep,
    EnrollmentVersion, EnrollmentWireError, EntryFacts, FinalAnswer, FrameOutcome, OpenOutcome,
    RecordReply, ReconciliationOutcome, ReconciliationRefusal, ReconciliationResult,
    ReconciliationStatus, RequestOutcome, SubmittedTerms,
};
use herdogrelay::quic_server::hde3::{
    activation, approval_answered, approval_challenge_written, approval_start_decoded,
    approval_started, approval_submit_decoded, challenge_submitted, confirm_activated,
    confirm_authorized, confirm_decoded, confirm_entry, confirm_entry_found, confirm_found,
    confirm_hde3_persisted, confirmation_digests, first_app_answered, first_app_confirmed,
    first_app_decoded, hde3_entry, hde3_first_frame, hde3_stream_failure,
    issuance_record_payload, issue_attached, issue_begun, issue_enrolled, issue_finished,
    issue_hde3_app, issue_named, issue_signed, reconcile_hde3_record, reconcile_requested,
    rejection_delivered, result_delivered, send_hde3_rejection, send_hde3_result, ActivationStep,
    ConfirmStep, Confirmation, DeliveryOutcome, FoundIssuance, Hde3Delivery, Hde3Kind,
    Hde3Rejection, Hde3Result, Hde3Step, IssueStep, Submission,
};
use herdogrelay::quic_server::trust::{
    certificate_identity_digest, hde3_authorization_id, public_chain_digest,
};
use herdogrelay::pki::finish_issuance;
use rcgen::{CertificateParams, DnType, KeyPair};

fn key() -> IssuanceResultKey {
    IssuanceResultKey::new([1; 16], [2; 32]).expect("key")
}

fn record(status: IssuanceResultStatus, chain: Vec<Vec<u8>>, code: Option<u16>) -> IssuanceResultRecord {
    let issued = !chain.is_empty();
    IssuanceResultRecord::stored(
        key(),
        "app-a".to_owned(),
        status,
        100,
        200,
        chain,
        if issued { Some([5; 32]) } else { None },
        if issued { Some(2) } else { None },
        if issued { Some(900) } else { None },
        code,
    )
}

fn pending() -> IssuanceResultRecord {
    record(IssuanceResultStatus::Pending, vec![], None)
}

fn certificate() -> Vec<u8> {
    rcgen::generate_simple_self_signed(vec!["app".to_owned()]).expect("app").cert.der().to_vec()
}

fn csr() -> Vec<u8> {
    let mut params = CertificateParams::new(Vec::<String>::new()).expect("params");
    params.distinguished_name.push(DnType::CommonName, "app-a");
    let key = KeyPair::generate().expect("key");
    params.serialize_request(&key).expect("csr").der().to_vec()
}

fn terms() -> SubmittedTerms {
    SubmittedTerms {
        csr_len: 10,
        challenge: [3; 32],
        expires_at_epoch_seconds: 120,
        core_identity: [4; 32],
    }
}

fn submitted(terms: &SubmittedTerms, now: Option<u64>) -> EnrollmentStep {
    submission_decoded(Ok(terms), 10, &[3; 32], 130, &[4; 32], now)
}

fn refused(step: EnrollmentStep) -> EnrollmentWireError {
    match step {
        EnrollmentStep::Reject { error, .. } => error,
        _ => panic!("the submission is refused"),
    }
}

fn rejected(step: Hde3Step) -> u16 {
    match step {
        Hde3Step::Reject { code, .. } => code,
        _ => panic!("the conversation is rejected"),
    }
}

#[test]
fn submissions_keep_their_terms() {
    assert!(matches!(submitted(&terms(), Some(100)), EnrollmentStep::CheckFields));
    assert!(matches!(submitted(&terms(), Some(120)), EnrollmentStep::CheckFields));
    for changed in [
        SubmittedTerms { csr_len: 11, ..terms() },
        SubmittedTerms { challenge: [9; 32], ..terms() },
        SubmittedTerms { core_identity: [9; 32], ..terms() },
        SubmittedTerms { expires_at_epoch_seconds: 131, ..terms() },
        SubmittedTerms { expires_at_epoch_seconds: 99, ..terms() },
    ] {
        assert_eq!(
            refused(submitted(&changed, Some(100))),
            EnrollmentWireError::AuthorizationRejected
        );
    }
    assert_eq!(
        refused(submitted(&terms(), Some(131))),
        EnrollmentWireError::AuthorizationRejected
    );
    assert!(matches!(
        submitted(&terms(), None),
        EnrollmentStep::Fail(RelayError::QuicHandshake { .. })
    ));
    let malformed = submission_decoded(
        Err(EnrollmentWireError::InvalidFrame),
        10,
        &[3; 32],
        130,
        &[4; 32],
        Some(100),
    );
    assert_eq!(refused(malformed), EnrollmentWireError::InvalidFrame);
}

#[test]
fn enrollment_is_opened_and_challenged() {
    assert!(matches!(enrollment_entry(true, true), EnrollmentStep::OpenStream));
    assert!(matches!(
        enrollment_entry(true, false),
        EnrollmentStep::Fail(RelayError::ResourceLimit)
    ));
    assert!(matches!(
        stream_opened(&OpenOutcome::Open, Some(100), 30),
        EnrollmentStep::SendChallenge { expires_at: 130 }
    ));
    assert!(matches!(
        stream_opened(&OpenOutcome::TimedOut, Some(100), 30),
        EnrollmentStep::Fail(RelayError::QuicHandshake { .. })
    ));
    assert!(challenge_deadline(Some(u64::MAX), 1).is_err());
    assert!(challenge_deadline(None, 1).is_err());
    assert!(matches!(challenge_written(&FrameOutcome::Written), EnrollmentStep::ReadRequest));
    assert!(matches!(challenge_written(&FrameOutcome::TimedOut), EnrollmentStep::Fail(_)));
    assert!(matches!(
        request_read(&RequestOutcome::Frame(EnrollmentVersion::One)),
        EnrollmentStep::DecodeSubmit
    ));
    assert!(matches!(
        request_read(&RequestOutcome::Frame(EnrollmentVersion::Two)),
        EnrollmentStep::Reconcile
    ));
    assert_eq!(
        refused(request_read(&RequestOutcome::TimedOut)),
        EnrollmentWireError::ResourceLimit
    );
    assert_eq!(
        refused(request_read(&RequestOutcome::Malformed)),
        EnrollmentWireError::InvalidFrame
    );
}

#[test]
fn enrollment_frames_are_bounded() {
    let mut header = *b"HDEN\x00\x01\x01\x00\x00\x01\x00";
    assert_eq!(enrollment_payload_len(&header, 256), Ok(256));
    assert_eq!(enrollment_payload_len(&header, 255), Err(RelayError::ResourceLimit));
    assert_eq!(
        read_versioned_enrollment_frame(&header, b"HDEN"),
        Ok(EnrollmentVersion::One)
    );
    header[5] = 2;
    assert_eq!(
        read_versioned_enrollment_frame(&header, b"HDEN"),
        Ok(EnrollmentVersion::Two)
    );
    header[5] = 3;
    assert!(read_versioned_enrollment_frame(&header, b"HDEN").is_err());
    assert!(read_versioned_enrollment_frame(&header, b"HDEX").is_err());
}

#[test]
fn duplicate_submissions_are_not_signed() {
    let fresh = Ok(IssuanceBeginResult::Created(pending()));
    assert!(matches!(
        enrollment_begun(&fresh, true, true, 4),
        EnrollmentStep::Sign { next_generation: 5 }
    ));
    assert!(matches!(
        enrollment_begun(&fresh, true, true, u64::MAX),
        EnrollmentStep::Fail(RelayError::ListenerStartup { .. })
    ));
    assert_eq!(
        refused(enrollment_begun(&fresh, false, true, 4)),
        EnrollmentWireError::PersistenceFailed
    );
    assert!(matches!(
        enrollment_begun(&fresh, true, false, 4),
        EnrollmentStep::Fail(RelayError::QuicAuthentication)
    ));
    let waiting = Ok(IssuanceBeginResult::Existing(pending()));
    assert!(matches!(
        enrollment_begun(&waiting, true, true, 4),
        EnrollmentStep::FinishUnknown
    ));
    let issued = record(IssuanceResultStatus::Issued, vec![vec![1]], None);
    assert!(matches!(
        enrollment_begun(&Ok(IssuanceBeginResult::Existing(issued)), true, true, 4),
        EnrollmentStep::SendRecord
    ));
    assert_eq!(
        refused(enrollment_begun(&Err(RelayError::ResourceLimit), true, true, 4)),
        EnrollmentWireError::ResourceLimit
    );
}

#[test]
fn issued_answers_are_committed_first() {
    assert!(matches!(
        fields_checked(Ok(()), true, true, [1; 16], [2; 32]),
        EnrollmentStep::Begin { .. }
    ));
    assert!(matches!(
        fields_checked(Err(EnrollmentError::InvalidCsr), true, true, [1; 16], [2; 32]),
        EnrollmentStep::RejectFor(EnrollmentError::InvalidCsr)
    ));
    assert_eq!(
        refused(fields_checked(Ok(()), false, true, [1; 16], [2; 32])),
        EnrollmentWireError::AuthorizationRejected
    );
    assert_eq!(
        refused(fields_checked(Ok(()), true, false, [1; 16], [2; 32])),
        EnrollmentWireError::PersistenceFailed
    );
    assert_eq!(
        refused(fields_checked(Ok(()), true, true, [0; 16], [2; 32])),
        EnrollmentWireError::AuthorizationRejected
    );
    assert!(matches!(enrollment_signed(Ok(())), EnrollmentStep::Attach));
    assert!(matches!(enrollment_attached(true), EnrollmentStep::Enroll));
    assert!(matches!(
        enrollment_enrolled(Ok(5)),
        EnrollmentStep::MarkIssued { committed_generation: 5 }
    ));
    assert!(matches!(
        enrollment_enrolled(Err(EnrollmentError::DuplicateEnrollment)),
        EnrollmentStep::CompareEntry
    ));
    assert!(matches!(
        enrollment_enrolled(Err(EnrollmentError::InvalidMetadata)),
        EnrollmentStep::FinishUnknown
    ));
    assert!(matches!(enrollment_marked(true), EnrollmentStep::SendIssued));
    assert!(matches!(enrollment_marked(false), EnrollmentStep::FinishUnknown));
    let entry =
        EntryFacts { state: AllowlistState::Active, fingerprint: [5; 32], generation: 7 };
    assert!(matches!(
        entry_compared(true, Some(&entry), &[5; 32]),
        EnrollmentStep::MarkIssued { committed_generation: 7 }
    ));
    assert_eq!(
        refused(entry_compared(true, Some(&entry), &[6; 32])),
        EnrollmentWireError::AuthorizationRejected
    );
    assert!(matches!(entry_compared(false, None, &[5; 32]), EnrollmentStep::Fail(_)));
}

#[test]
fn enrollment_failures_are_mapped() {
    for (error, mapped) in [
        (EnrollmentWireError::ResourceLimit, RelayError::ResourceLimit),
        (EnrollmentWireError::AuthorizationRejected, RelayError::QuicAuthentication),
        (EnrollmentWireError::PersistenceFailed, RelayError::ConfigurationRead),
    ] {
        assert_eq!(map_enrollment_wire_error(error), mapped);
    }
    for error in [
        EnrollmentWireError::FrameTooLarge,
        EnrollmentWireError::InvalidOrder,
        EnrollmentWireError::InvalidFrame,
    ] {
        assert!(matches!(map_enrollment_wire_error(error), RelayError::QuicProtocol { .. }));
    }
    assert_eq!(
        map_issuance_error(&RelayError::QuicProtocol { reason: "x" }),
        EnrollmentWireError::AuthorizationRejected
    );
    assert_eq!(
        map_issuance_error(&RelayError::ConfigurationRead),
        EnrollmentWireError::PersistenceFailed
    );
    assert!(answer_written(FinalAnswer::Issued, &FrameOutcome::TimedOut).is_err());
    assert!(answer_written(FinalAnswer::Rejection, &FrameOutcome::TimedOut).is_ok());
    assert!(answer_written(FinalAnswer::Unknown, &FrameOutcome::TimedOut).is_ok());
    assert!(matches!(finish_failure(FinalAnswer::Issued), RelayError::QuicProtocol { .. }));
}

#[test]
fn records_are_reconciled() {
    let issued = record(IssuanceResultStatus::Issued, vec![vec![1]], None);
    assert!(matches!(
        send_reconciled_record(&issued),
        RecordReply::Issued { certificate_chain, fingerprint, allowlist_generation: 2, .. }
            if certificate_chain == vec![vec![1]] && fingerprint == [5; 32]
    ));
    let denied = record(IssuanceResultStatus::Rejected, vec![], Some(7));
    assert!(matches!(send_reconciled_record(&denied), RecordReply::Rejected(7)));
    assert!(matches!(send_reconciled_record(&pending()), RecordReply::Unknown));
    assert!(matches!(
        reconciliation_payload(Some(&issued)),
        Ok(ReconciliationResult::Issued { not_after_epoch_seconds: 900, .. })
    ));
    assert!(matches!(
        reconciliation_payload(Some(&denied)),
        Ok(ReconciliationResult::Rejected { code: Some(7) })
    ));
    assert!(matches!(
        reconciliation_payload(Some(&pending())),
        Ok(ReconciliationResult::Pending)
    ));
    let unknown = reconciliation_payload(None).expect("answer");
    assert!(matches!(unknown, ReconciliationResult::Unknown));
    assert_eq!(unknown.status(), ReconciliationStatus::Rejected);
    assert_eq!(
        unknown.refusal(),
        Some(ReconciliationRefusal::Wire(EnrollmentWireError::AuthorizationRejected))
    );
    let known = reconciliation_payload(Some(&denied)).expect("answer");
    assert_eq!(known.status(), ReconciliationStatus::Rejected);
    assert_eq!(known.refusal(), Some(ReconciliationRefusal::Recorded(Some(7))));
    let certified = reconciliation_payload(Some(&issued)).expect("answer");
    assert_eq!(certified.status(), ReconciliationStatus::Issued);
    assert_eq!(certified.refusal(), None);
    let unresolved = reconciliation_payload(Some(&pending())).expect("answer");
    assert_eq!(unresolved.status(), ReconciliationStatus::Pending);
    let found = reconciliation_lookup(Some(([1; 16], [2; 32])), Some(9), true).expect("lookup");
    assert_eq!(found.0.csr_digest(), [2; 32]);
    assert_eq!(found.1, 9);
    assert!(reconciliation_lookup(None, Some(9), true).is_err());
    assert!(reconciliation_lookup(Some(([0; 16], [2; 32])), Some(9), true).is_err());
    assert!(reconciliation_lookup(Some(([1; 16], [2; 32])), None, true).is_err());
    assert!(reconciliation_lookup(Some(([1; 16], [2; 32])), Some(9), false).is_err());
}

#[test]
fn committed_records_are_completed() {
    let attached = record(IssuanceResultStatus::Pending, vec![vec![1]], None);
    let entry =
        EntryFacts { state: AllowlistState::Active, fingerprint: [5; 32], generation: 2 };
    assert_eq!(serve_reconciliation_frame(&attached, true, &Ok(Some(entry))), Ok(true));
    let other = EntryFacts { state: AllowlistState::Active, fingerprint: [5; 32], generation: 3 };
    assert_eq!(serve_reconciliation_frame(&attached, true, &Ok(Some(other))), Ok(false));
    assert_eq!(serve_reconciliation_frame(&attached, true, &Ok(None)), Ok(false));
    assert!(serve_reconciliation_frame(&attached, false, &Ok(None)).is_err());
    assert_eq!(serve_reconciliation_frame(&pending(), false, &Ok(None)), Ok(false));
    assert_eq!(reconciliation_written(ReconciliationOutcome::Written), None);
    for outcome in [
        ReconciliationOutcome::Invalid,
        ReconciliationOutcome::Oversized,
        ReconciliationOutcome::TimedOut,
        ReconciliationOutcome::Failed,
        ReconciliationOutcome::Unfinished,
    ] {
        assert!(reconciliation_written(outcome).is_some());
    }
}

#[test]
fn repeated_issuance_gives_the_same_certificate() {
    let leaf = certificate();
    let issued = record(IssuanceResultStatus::Issued, vec![leaf.clone()], None);
    let answer = issuance_record_payload(&issued, [1; 32], Some(3), Some(3), false);
    match answer {
        Ok(Hde3Result::Issued { certificate_chain, chain_digest, app_identity, active, .. }) => {
            assert_eq!(certificate_chain, vec![leaf.clone()]);
            assert_eq!(chain_digest, public_chain_digest(&vec![leaf.clone()]));
            assert_eq!(Some(app_identity), certificate_identity_digest(&vec![leaf.clone()]));
            assert!(!active);
        }
        _ => panic!("the certificate is repeated"),
    }
    assert!(matches!(
        issuance_record_payload(&issued, [1; 32], Some(3), Some(4), false),
        Err(4)
    ));
    assert!(matches!(issuance_record_payload(&issued, [1; 32], None, None, false), Err(5)));
    assert!(matches!(reconcile_hde3_record(None, [1; 32], Some(3)), Err(4)));
    assert!(matches!(
        reconcile_hde3_record(Some(&issued), [1; 32], Some(3)),
        Ok(Hde3Result::Issued { configuration_generation: 3, .. })
    ));
    assert!(matches!(
        reconcile_hde3_record(Some(&pending()), [1; 32], Some(3)),
        Ok(Hde3Result::Pending { .. })
    ));
}

#[test]
fn confirmation_is_exact() {
    let leaf = certificate();
    let issued = record(IssuanceResultStatus::Issued, vec![leaf.clone()], None);
    let chain = vec![leaf];
    let exact = Confirmation {
        app_identity: certificate_identity_digest(&chain).expect("identity"),
        fingerprint: [5; 32],
        chain_digest: public_chain_digest(&chain),
    };
    assert!(matches!(
        confirm_hde3_persisted(&issued, &exact, [1; 32], Some(3), 3),
        Ok(Hde3Result::Issued { active: true, .. })
    ));
    let wrong = Confirmation { fingerprint: [6; 32], ..exact };
    assert!(matches!(confirm_hde3_persisted(&issued, &wrong, [1; 32], Some(3), 3), Err(4)));
    let a = "a1".repeat(32);
    assert!(confirmation_digests(&a, &a, &a).is_ok());
    assert!(confirmation_digests(&a, "zz", &a).is_err());
    assert_eq!(first_app_confirmed(Ok(())), None);
    assert_eq!(first_app_confirmed(Err(BootstrapRuntimeError::NotFound)), None);
    assert_eq!(first_app_confirmed(Err(BootstrapRuntimeError::Expired)), Some(5));
}

#[test]
fn confirmations_activate_the_app() {
    let chain = vec![certificate()];
    let issued = record(IssuanceResultStatus::Issued, chain.clone(), None);
    let digests = Confirmation {
        app_identity: certificate_identity_digest(&chain).expect("identity"),
        fingerprint: [5; 32],
        chain_digest: public_chain_digest(&chain),
    };
    let named = Ok(Confirmation { ..digests });
    match confirm_entry(Some([1; 32]), &named, true, Some(50)) {
        ConfirmStep::Find { authorization_id, now } => {
            assert_eq!(authorization_id, hde3_authorization_id(&[1; 32]));
            assert_eq!(now, 50);
        }
        _ => panic!("the issuance is looked up"),
    }
    assert!(matches!(
        confirm_entry(None, &named, true, Some(50)),
        ConfirmStep::Fail(RelayError::QuicProtocol {
            reason: "HDE3 confirmation approval is invalid"
        })
    ));
    assert!(matches!(
        confirm_entry(Some([1; 32]), &Err(RelayError::ResourceLimit), true, Some(50)),
        ConfirmStep::Fail(RelayError::ResourceLimit)
    ));
    assert!(matches!(
        confirm_entry(Some([1; 32]), &named, false, Some(50)),
        ConfirmStep::Fail(RelayError::ConfigurationRead)
    ));
    assert!(matches!(
        confirm_entry(Some([1; 32]), &named, true, None),
        ConfirmStep::Fail(RelayError::ConfigurationRead)
    ));

    let found = Ok(Some(FoundIssuance {
        record: &issued,
        recorded: Some(3),
        name_accepted: true,
    }));
    assert!(matches!(
        confirm_found(&Ok(None), &digests, [1; 32], 3),
        ConfirmStep::Fail(RelayError::ConfigurationRead)
    ));
    assert!(matches!(
        confirm_found(&Err(RelayError::ResourceLimit), &digests, [1; 32], 3),
        ConfirmStep::Fail(RelayError::ResourceLimit)
    ));
    assert!(matches!(
        confirm_found(&found, &digests, [1; 32], 4),
        ConfirmStep::Answer(Err(4))
    ));
    let unnamed = Ok(Some(FoundIssuance {
        record: &issued,
        recorded: Some(3),
        name_accepted: false,
    }));
    assert!(matches!(
        confirm_found(&unnamed, &digests, [1; 32], 3),
        ConfirmStep::Fail(RelayError::QuicProtocol {
            reason: "HDE3 confirmation App identity is invalid"
        })
    ));
    let result = match confirm_found(&found, &digests, [1; 32], 3) {
        ConfirmStep::ConfirmFirstApp(result) => result,
        _ => panic!("the authority is told"),
    };
    let result = match confirm_authorized(result, Err(BootstrapRuntimeError::NotFound)) {
        ConfirmStep::LookUpEntry(result) => result,
        _ => panic!("the entry is looked up"),
    };
    let pending = Ok(Some((AllowlistState::Pending, [5; 32])));
    let result = match confirm_entry_found(result, pending, &digests.fingerprint) {
        ConfirmStep::Activate(result) => result,
        _ => panic!("the entry is activated"),
    };
    let result = match confirm_activated(result, true) {
        ConfirmStep::Answer(Ok(result)) => result,
        _ => panic!("the Core is answered"),
    };
    assert!(matches!(result, Hde3Result::Issued { active: true, .. }));
    assert!(matches!(
        confirm_activated(Hde3Result::Pending { approval_id: [1; 32] }, false),
        ConfirmStep::Fail(RelayError::ConfigurationRead)
    ));
    let active = Ok(Some((AllowlistState::Active, [5; 32])));
    let result = match confirm_entry_found(result, active, &digests.fingerprint) {
        ConfirmStep::Answer(Ok(result)) => result,
        _ => panic!("an active App is confirmed again"),
    };
    let revoked = Ok(Some((AllowlistState::Revoked, [5; 32])));
    assert!(matches!(
        confirm_entry_found(result, revoked, &digests.fingerprint),
        ConfirmStep::Answer(Err(4))
    ));
    assert!(matches!(
        confirm_authorized(
            Hde3Result::Pending { approval_id: [1; 32] },
            Err(BootstrapRuntimeError::Expired)
        ),
        ConfirmStep::Answer(Err(5))
    ));
}

#[test]
fn only_new_bindings_are_signed() {
    let request = csr();
    match issue_hde3_app(true, Some(100), &[1; 32], &request, [2; 32]) {
        IssueStep::CheckName { key, app_id, expires_at } => {
            assert_eq!(key.authorization_id(), hde3_authorization_id(&[1; 32]));
            assert_eq!(app_id, "app-a");
            assert_eq!(expires_at, 400);
            assert!(matches!(
                issue_named(key, app_id.clone(), expires_at, false),
                IssueStep::Answer(Err(4))
            ));
            match issue_named(key, app_id, expires_at, true) {
                IssueStep::Begin { app_id, expires_at, .. } => {
                    assert_eq!(app_id, "app-a");
                    assert_eq!(expires_at, 400);
                }
                _ => panic!("the issuance begins"),
            }
        }
        _ => panic!("the name is checked"),
    }
    assert!(matches!(
        issue_hde3_app(true, Some(100), &[1; 32], b"x", [2; 32]),
        IssueStep::Answer(Err(4))
    ));
    assert!(matches!(
        issue_hde3_app(false, Some(100), &[1; 32], &request, [2; 32]),
        IssueStep::Fail(RelayError::ConfigurationRead)
    ));
    let fresh = Ok(IssuanceBeginResult::Created(pending()));
    assert!(matches!(
        issue_begun(&fresh, [1; 32], None, 3, Some(4)),
        IssueStep::Sign { next_generation: 5 }
    ));
    let repeated = Ok(IssuanceBeginResult::Existing(record(
        IssuanceResultStatus::Issued,
        vec![certificate()],
        None,
    )));
    assert!(matches!(
        issue_begun(&repeated, [1; 32], Some(3), 3, Some(4)),
        IssueStep::Answer(Ok(Hde3Result::Issued { .. }))
    ));
    assert!(matches!(
        issue_begun(&Err(RelayError::ResourceLimit), [1; 32], None, 3, Some(4)),
        IssueStep::Answer(Err(5))
    ));
    assert!(matches!(issue_signed(true, true, 5), IssueStep::Attach { next_generation: 5 }));
    assert!(matches!(issue_signed(false, true, 5), IssueStep::Answer(Err(4))));
    assert!(matches!(issue_attached(true), IssueStep::Enroll));
    assert!(matches!(
        issue_enrolled(Some(5)),
        IssueStep::MarkIssued { committed_generation: 5 }
    ));
    assert!(matches!(issue_enrolled(None), IssueStep::Answer(Err(5))));
    let issued = finish_issuance(Some(vec![1]), vec![2], [7; 32], 1000, 3, 3).expect("issued");
    assert!(matches!(
        issue_finished(true, &issued, [1; 32], 3),
        IssueStep::Answer(Ok(Hde3Result::Issued { active: false, .. }))
    ));
    assert!(matches!(
        issue_finished(false, &issued, [1; 32], 3),
        IssueStep::Answer(Err(5))
    ));
}

#[test]
fn issuance_needs_an_approval() {
    assert!(matches!(hde3_entry(true, true, true), Hde3Step::ReadFirstFrame));
    assert!(matches!(
        hde3_entry(false, true, true),
        Hde3Step::Fail(RelayError::QuicProtocol { .. })
    ));
    assert!(matches!(
        hde3_stream_failure(true),
        RelayError::QuicHandshake { reason: "HDE3 stream timeout" }
    ));
    assert!(matches!(
        hde3_first_frame(Some(Hde3Kind::ApprovalSubmit)),
        Hde3Step::Decode(Hde3Kind::ApprovalSubmit)
    ));
    assert_eq!(rejected(hde3_first_frame(None)), 1);
    assert_eq!(rejected(hde3_first_frame(Some(Hde3Kind::Renew))), 3);
    assert!(matches!(
        approval_submit_decoded(Some([1; 32])),
        Hde3Step::SubmitApproval { approval_id } if approval_id == [1; 32]
    ));
    assert_eq!(rejected(approval_submit_decoded(None)), 1);
    assert!(matches!(approval_answered([1; 32], Ok(())), Hde3Step::Issue));
    assert_eq!(
        rejected(approval_answered([1; 32], Err(BootstrapRuntimeError::CodeMismatch))),
        8
    );
    assert!(matches!(
        first_app_decoded(Some([1; 32])),
        Hde3Step::AuthorizeFirstApp { .. }
    ));
    assert!(matches!(first_app_answered([1; 32], true), Hde3Step::Issue));
    assert_eq!(rejected(first_app_answered([1; 32], false)), 4);
}

#[test]
fn submission_answers_its_challenge() {
    let digest = "ab".repeat(32);
    assert!(matches!(
        approval_start_decoded(true, true, &digest),
        Hde3Step::StartApproval { core_binding_digest } if core_binding_digest == [0xab; 32]
    ));
    assert_eq!(rejected(approval_start_decoded(false, true, &digest)), 1);
    assert!(matches!(approval_start_decoded(true, false, &digest), Hde3Step::Fail(_)));
    assert!(matches!(approval_start_decoded(true, true, "x"), Hde3Step::Fail(_)));
    assert!(matches!(approval_started(Ok(())), Hde3Step::SendChallenge));
    assert!(matches!(
        approval_challenge_written(WriteOutcome::Written),
        Hde3Step::ReadSubmit
    ));
    assert!(matches!(approval_challenge_written(WriteOutcome::Failed), Hde3Step::Fail(_)));
    let exact = Submission::Decoded { approval_id: [1; 32], challenge: [2; 32] };
    assert!(matches!(
        challenge_submitted(&exact, [1; 32], &[2; 32]),
        Hde3Step::SubmitApproval { .. }
    ));
    assert_eq!(rejected(challenge_submitted(&exact, [1; 32], &[3; 32])), 4);
    assert_eq!(rejected(challenge_submitted(&exact, [9; 32], &[2; 32])), 4);
    assert_eq!(rejected(challenge_submitted(&Submission::Malformed, [1; 32], &[2; 32])), 1);
    assert!(matches!(
        challenge_submitted(&Submission::Missing, [1; 32], &[2; 32]),
        Hde3Step::Return
    ));
}

#[test]
fn confirmations_and_activations_are_decided() {
    assert!(matches!(confirm_decoded(true, true), Hde3Step::Confirm));
    assert_eq!(rejected(confirm_decoded(false, true)), 1);
    assert_eq!(rejected(confirm_decoded(true, false)), 1);
    let digest = "ab".repeat(32);
    assert!(matches!(
        reconcile_requested(true, Some([1; 32]), &digest),
        Hde3Step::Reconcile { key } if key.csr_digest() == [0xab; 32]
    ));
    assert!(matches!(reconcile_requested(true, None, &digest), Hde3Step::Fail(_)));
    assert_eq!(
        activation(Some((AllowlistState::Pending, [5; 32])), &[5; 32]),
        ActivationStep::Activate
    );
    assert_eq!(
        activation(Some((AllowlistState::Active, [5; 32])), &[5; 32]),
        ActivationStep::Done
    );
    assert_eq!(
        activation(Some((AllowlistState::Revoked, [5; 32])), &[5; 32]),
        ActivationStep::Refuse(4)
    );
    assert_eq!(
        activation(Some((AllowlistState::Active, [6; 32])), &[5; 32]),
        ActivationStep::Refuse(4)
    );
    assert_eq!(activation(None, &[5; 32]), ActivationStep::Refuse(5));
    assert!(matches!(
        send_hde3_result(Ok(Ok(Hde3Result::Pending { approval_id: [1; 32] }))),
        Hde3Delivery::Send(_)
    ));
    assert!(matches!(send_hde3_result(Ok(Err(5))), Hde3Delivery::Reject(5)));
    assert!(matches!(
        send_hde3_result(Err(RelayError::ConfigurationRead)),
        Hde3Delivery::Fail(RelayError::ConfigurationRead)
    ));
}

#[test]
fn deliveries_report_their_failures() {
    let protocol = |reason: &'static str| Err(RelayError::QuicProtocol { reason });
    let late = |reason: &'static str| Err(RelayError::QuicHandshake { reason });
    for (outcome, result, rejection) in [
        (
            DeliveryOutcome::NotEncoded,
            protocol("HDE3 result encoding failed"),
            protocol("HDE3 rejection is invalid"),
        ),
        (
            DeliveryOutcome::TimedOut,
            late("HDE3 result write timeout"),
            late("HDE3 rejection write timeout"),
        ),
        (
            DeliveryOutcome::Failed,
            protocol("HDE3 result write failed"),
            protocol("HDE3 rejection write failed"),
        ),
        (DeliveryOutcome::Sent, Ok(()), Ok(())),
    ] {
        assert_eq!(result_delivered(outcome), result);
        assert_eq!(rejection_delivered(outcome), rejection);
    }
    assert!(matches!(
        send_hde3_rejection(Some([7; 32]), 4),
        Hde3Rejection::Correlated(Hde3Result::Rejected { approval_id, code: 4 })
            if approval_id == [7; 32]
    ));
    assert!(matches!(send_hde3_rejection(None, 3), Hde3Rejection::Fixed(3)));
}
