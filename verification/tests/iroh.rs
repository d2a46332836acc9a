use herdogrelay::address::ListenAddress;
use herdogrelay::iroh_endpoint::exchange::{
    wait_failure, ExchangeStep, IrohConnectionError, PairingExchange,
};
use herdogrelay::iroh_endpoint::hdp::{hdp_payload_len, hdqm_payload_len};
use herdogrelay::iroh_endpoint::sessions::{
    close_finished, frame_written, handle_hdqm_frame, hdqs_tail_len, open_answered, open_decoded,
    prepare_answered, prepare_decoded, prepare_with, run_session_stream, session_start,
    BindingOutcome, HdqmStep, PairedAction, PairedEvent, SessionAnswers, SessionSlots, SessionStep,
};
use herdogrelay::iroh_endpoint::workspace::{challenge_expiry, BeginAction, VerifyAction};
use herdogrelay::iroh_endpoint::{
    HdpFrame, HdpFrameError, HdpKind, HerdrWorkspacePairingVerifier, IrohEndpointError,
    IrohRelayConfig, IrohRelayState, RejectAllPairing, RelayMode, DEFAULT_CONTROL_TIMEOUT,
    HDP1_MAX_FRAME_BYTES, MAX_PAIRING_ATTEMPTS, MAX_PAIRING_CHALLENGES_PER_WINDOW,
    PAIRING_CHALLENGE_WINDOW,
};
use herdogrelay::quic_server::control::{OpenAnswer, ReplyBody};
use herdogrelay::quic_wire::{
    HdqmFrame, HdqmKind, HdqsReason, HdqsResponse, PreparedSession, SessionPrepareRequest,
};

const SECOND: u64 = 1_000_000_000;

fn start() -> HdpFrame {
    HdpFrame::new(HdpKind::PairingStart, Vec::new())
}

fn submit(code: &[u8]) -> HdpFrame {
    HdpFrame::new(HdpKind::PairingSubmit, code.to_vec())
}

fn control(kind: HdqmKind, payload: Vec<u8>) -> HdqmFrame {
    HdqmFrame { kind, request_id: [6; 16], payload }
}

fn prepared(epoch: u64) -> PreparedSession {
    PreparedSession {
        session: "work".to_owned(),
        fingerprint: [1; 32],
        configuration_generation: 2,
        relay_generation: 3,
        connection_epoch: epoch,
        token: [4; 32],
        token_ttl_secs: 60,
    }
}

#[test]
fn hdp1_rejects_oversized_frames() {
    let frame = HdpFrame::new(HdpKind::PairingSubmit, vec![b'1'; HDP1_MAX_FRAME_BYTES]);
    assert_eq!(frame.encode(), Err(HdpFrameError::FrameTooLarge));
    assert_eq!(HdpKind::try_from(7), Err(HdpFrameError::UnknownKind));
}

#[test]
fn hdp1_frames_round_trip() {
    let frame = submit(b"123456");
    let bytes = frame.encode().expect("encode");
    assert_eq!(bytes, b"HDP1\x00\x01\x02\x00\x00\x00\x06123456".to_vec());
    let decoded = HdpFrame::decode(&bytes).expect("decode");
    assert_eq!(decoded.kind(), HdpKind::PairingSubmit);
    assert_eq!(decoded.payload(), b"123456");
    assert_eq!(decoded.encode().expect("encode again"), bytes);
}

#[test]
fn hdp1_longest_frame_is_accepted() {
    let frame = HdpFrame::new(HdpKind::GoAway, vec![7; HDP1_MAX_FRAME_BYTES - 11]);
    let bytes = frame.encode().expect("longest frame");
    assert_eq!(bytes.len(), HDP1_MAX_FRAME_BYTES);
    assert_eq!(HdpFrame::decode(&bytes).expect("decode").payload_len(), HDP1_MAX_FRAME_BYTES - 11);
}

#[test]
fn hdp1_decoding_names_each_fault() {
    let good = start().encode().expect("encode");
    assert!(matches!(HdpFrame::decode(&good[..10]), Err(HdpFrameError::FrameTooShort)));
    let mut magic = good.clone();
    magic[0] = b'X';
    assert!(matches!(HdpFrame::decode(&magic), Err(HdpFrameError::InvalidMagic)));
    let mut version = good.clone();
    version[5] = 2;
    assert!(matches!(HdpFrame::decode(&version), Err(HdpFrameError::UnsupportedVersion)));
    let mut kind = good.clone();
    kind[6] = 9;
    assert!(matches!(HdpFrame::decode(&kind), Err(HdpFrameError::UnknownKind)));
    let mut length = good.clone();
    length[10] = 1;
    assert!(matches!(HdpFrame::decode(&length), Err(HdpFrameError::LengthMismatch)));
    let mut large = good.clone();
    large[7] = 1;
    assert!(HdpFrame::decode(&large).is_err());
    assert_eq!(HdpFrameError::FrameTooShort.message().is_empty(), false);
}

#[test]
fn hdp1_kinds_keep_their_codes() {
    for code in 1..7 {
        assert_eq!(HdpKind::try_from(code).expect("kind").code(), code);
    }
    assert_eq!(HdpKind::try_from(0), Err(HdpFrameError::UnknownKind));
}

#[test]
fn hdp1_summary_hides_the_payload() {
    let mut frame = submit(b"987654");
    assert!(!format!("{:?}", frame.summary()).contains("987654"));
    assert_eq!(frame.summary().payload_len, 6);
    frame.clear();
    assert!(frame.payload().iter().all(|byte| *byte == 0));
}

#[test]
fn frame_lengths_are_bounded_before_the_payload_is_read() {
    let mut header = [0_u8; 11];
    header.copy_from_slice(&submit(b"123456").encode().expect("encode")[..11]);
    assert_eq!(hdp_payload_len(&header, HDP1_MAX_FRAME_BYTES), Ok(6));
    assert_eq!(hdp_payload_len(&header, 16), Err(HdpFrameError::FrameTooLarge));
    let mut control_header = [0_u8; 27];
    control_header[..4].copy_from_slice(b"HDQM");
    control_header[26] = 5;
    assert_eq!(hdqm_payload_len(&control_header, b"HDQM", 32), Ok(5));
    assert!(hdqm_payload_len(&control_header, b"HDQM", 31).is_err());
    assert!(hdqm_payload_len(&control_header, b"HDQX", 32).is_err());
}

#[test]
fn relay_mode_defaults_to_public_and_tests_disable_relay() {
    assert_eq!(IrohRelayConfig::default().relay_mode(), RelayMode::Default);
    assert_eq!(
        IrohRelayConfig::default().without_network_relay_for_test().relay_mode(),
        RelayMode::Disabled
    );
}

#[test]
fn configuration_bounds_are_enforced() {
    assert!(IrohRelayConfig::new(0, 4, SECOND).is_err());
    assert!(IrohRelayConfig::new(1025, 4, SECOND).is_err());
    assert!(IrohRelayConfig::new(4, 0, SECOND).is_err());
    assert!(IrohRelayConfig::new(4, 65, SECOND).is_err());
    assert!(IrohRelayConfig::new(4, 4, 0).is_err());
    assert!(IrohRelayConfig::new(4, 4, 31 * SECOND).is_err());
    let config = IrohRelayConfig::new(1024, 64, 30 * SECOND).expect("largest configuration");
    assert_eq!(config.max_connections(), 1024);
    assert_eq!(config.max_sessions_per_connection(), 64);
    assert!(config.validate().is_ok());
}

#[test]
fn built_configuration_keeps_what_it_was_given() {
    let config = IrohRelayConfig::new(4, 5, DEFAULT_CONTROL_TIMEOUT)
        .expect("configuration")
        .with_socket_connector("/run/herdr.sock".to_owned())
        .with_bind_addr(ListenAddress { host: "127.0.0.1".to_owned(), port: 7 })
        .with_relay_generation(9)
        .expect("generation");
    assert_eq!(config.socket_path(), Some("/run/herdr.sock"));
    assert_eq!(config.bind_addr().expect("address").port, 7);
    assert_eq!(config.relay_generation(), 9);
    assert_eq!(config.control_timeout(), 5 * SECOND);
    assert!(IrohRelayConfig::default().with_relay_generation(0).is_err());
}

#[test]
fn pairing_challenge_rate_is_bounded() {
    let mut state = IrohRelayState::new(4);
    let peer = [7; 32];

    for _ in 0..MAX_PAIRING_CHALLENGES_PER_WINDOW {
        assert!(state.reserve_pairing_challenge(peer, SECOND));
        for attempt in 0..MAX_PAIRING_ATTEMPTS {
            assert_eq!(
                state.record_pairing_failure(peer, SECOND),
                attempt + 1 < MAX_PAIRING_ATTEMPTS
            );
        }
    }
    assert!(!state.reserve_pairing_challenge(peer, SECOND));
}

#[test]
fn challenge_window_reopens() {
    let mut state = IrohRelayState::new(4);
    let peer = [7; 32];
    for _ in 0..MAX_PAIRING_CHALLENGES_PER_WINDOW {
        assert!(state.reserve_pairing_challenge(peer, 0));
    }
    assert!(!state.reserve_pairing_challenge(peer, PAIRING_CHALLENGE_WINDOW - 1));
    assert!(state.reserve_pairing_challenge(peer, PAIRING_CHALLENGE_WINDOW));
}

#[test]
fn pairing_registry_is_bounded() {
    let mut state = IrohRelayState::new(1);
    let first = [1; 32];
    let second = [2; 32];
    assert!(state.record_pairing_failure(first, SECOND));
    assert!(!state.record_pairing_failure(second, SECOND));
    assert_eq!(state.record_count(), 1);
}

#[test]
fn connections_are_bounded_and_single_per_peer() {
    let mut state = IrohRelayState::new(1);
    let generation = state.try_admit([1; 32]).expect("first peer");
    assert_eq!(state.try_admit([2; 32]), None);
    assert_eq!(state.active_count(), 1);
    state.release(&[1; 32], generation + 1);
    assert_eq!(state.active_count(), 1);
    state.release(&[1; 32], generation);
    assert_eq!(state.active_count(), 0);
    assert!(state.try_admit([2; 32]).is_some());
}

#[test]
fn pairing_requires_control_exchange() {
    let mut state = IrohRelayState::new(4);
    let peer = [7; 32];
    state.try_admit(peer).expect("admitted");
    let mut exchange = PairingExchange::start(&state, &peer);
    let step = exchange.on_frame(&mut state, peer, &start(), SECOND);
    assert!(matches!(step, ExchangeStep::BeginChallenge));
    assert!(matches!(exchange.on_begun(true, SECOND), ExchangeStep::Reject { reason: 1 }));
    match exchange.on_frame(&mut state, peer, &submit(b"123456"), SECOND) {
        ExchangeStep::VerifyCode { digits } => assert_eq!(&digits, b"123456"),
        _ => panic!("the code is verified"),
    }
    let step = exchange.on_verified(&mut state, peer, true, SECOND);
    assert!(matches!(step, ExchangeStep::Accept));
    assert_eq!(state.active_count(), 1);
    assert_eq!(state.paired_count(), 1);
    assert!(state.is_paired(&peer));
}

#[test]
fn pairing_submit_uses_challenge_ttl() {
    let mut state = IrohRelayState::new(4);
    let peer = [7; 32];
    let control_timeout = 25_000_000;
    let mut exchange = PairingExchange::start(&state, &peer);
    assert_eq!(exchange.read_timeout(SECOND, control_timeout), control_timeout);
    exchange.on_frame(&mut state, peer, &start(), SECOND);
    exchange.on_begun(true, SECOND);
    assert_eq!(exchange.read_timeout(SECOND, control_timeout), 300 * SECOND);
    assert_eq!(exchange.read_timeout(2 * SECOND, control_timeout), 299 * SECOND);
}

#[test]
fn malformed_pairing_attempts_are_bounded() {
    let mut state = IrohRelayState::new(4);
    let peer = [7; 32];
    let mut exchange = PairingExchange::start(&state, &peer);
    exchange.on_frame(&mut state, peer, &start(), SECOND);
    exchange.on_begun(true, SECOND);
    for attempt in 0..MAX_PAIRING_ATTEMPTS {
        let step = exchange.on_frame(&mut state, peer, &submit(b"xxxxxx"), SECOND);
        if attempt + 1 == MAX_PAIRING_ATTEMPTS {
            assert!(matches!(
                step,
                ExchangeStep::RejectAndClose { code: 4, closing: "pairing budget exhausted" }
            ));
        } else {
            assert!(matches!(step, ExchangeStep::Reject { reason: 2 }));
        }
    }
    assert_eq!(state.paired_count(), 0);
}

#[test]
fn wrong_codes_are_bounded() {
    let mut state = IrohRelayState::new(4);
    let peer = [7; 32];
    let mut exchange = PairingExchange::start(&state, &peer);
    exchange.on_frame(&mut state, peer, &start(), SECOND);
    exchange.on_begun(true, SECOND);
    for _ in 0..4 {
        let step = exchange.on_verified(&mut state, peer, false, SECOND);
        assert!(matches!(step, ExchangeStep::Reject { reason: 3 }));
    }
    let step = exchange.on_verified(&mut state, peer, false, SECOND);
    assert!(matches!(step, ExchangeStep::RejectAndClose { code: 4, .. }));
}

#[test]
fn pairing_submit_requires_start() {
    let mut state = IrohRelayState::new(4);
    let peer = [7; 32];
    let mut exchange = PairingExchange::start(&state, &peer);
    let step = exchange.on_frame(&mut state, peer, &submit(b"123456"), SECOND);
    assert!(matches!(step, ExchangeStep::RejectAndClose { code: 5, .. }));
    assert_eq!(state.record_count(), 0);
}

#[test]
fn pairing_exchange_refuses_other_frames() {
    let mut state = IrohRelayState::new(4);
    let peer = [7; 32];
    let mut exchange = PairingExchange::start(&state, &peer);
    let ready = HdpFrame::status(HdpKind::ConnectionReady, 0);
    let step = exchange.on_frame(&mut state, peer, &ready, SECOND);
    assert!(matches!(step, ExchangeStep::Reject { reason: 5 }));
    let loaded = HdpFrame::new(HdpKind::PairingStart, vec![1]);
    let step = exchange.on_frame(&mut state, peer, &loaded, SECOND);
    assert!(matches!(step, ExchangeStep::Reject { reason: 5 }));
    assert!(matches!(exchange.on_begun(false, SECOND), ExchangeStep::Reject { reason: 3 }));
    let leave = HdpFrame::status(HdpKind::GoAway, 0);
    assert!(matches!(exchange.on_frame(&mut state, peer, &leave, SECOND), ExchangeStep::End));
}

#[test]
fn wait_failures_are_told_apart() {
    assert_eq!(wait_failure(true, IrohConnectionError::Io), IrohConnectionError::Timeout);
    assert_eq!(wait_failure(false, IrohConnectionError::Io), IrohConnectionError::Io);
    assert_eq!(
        wait_failure(false, IrohConnectionError::Protocol),
        IrohConnectionError::Protocol
    );
}

#[test]
fn disconnected_unpaired_peer_releases_pairing_slot() {
    let mut state = IrohRelayState::new(1);
    let first = [1; 32];
    let generation = state.try_admit(first).expect("first peer");
    assert!(state.reserve_pairing_challenge(first, SECOND));
    assert_eq!(state.record_count(), 1);
    state.release(&first, generation);
    assert_eq!(state.active_count(), 0);
    assert_eq!(state.record_count(), 0);
    let second = [2; 32];
    state.try_admit(second).expect("second peer");
    assert!(state.reserve_pairing_challenge(second, SECOND));
    assert_eq!(state.record_count(), 1);
}

#[test]
fn revoke_closes_active_connection() {
    let mut state = IrohRelayState::new(4);
    let peer = [7; 32];
    state.try_admit(peer).expect("admitted");
    assert!(state.mark_paired(peer, SECOND));
    assert_eq!(state.paired_count(), 1);
    let revocation = state.revoke_peer(peer);
    assert!(revocation.was_paired);
    assert!(revocation.close_connection);
    assert_eq!(state.paired_count(), 0);
    assert!(!state.is_paired(&peer));
    assert!(!state.revoke_peer(peer).was_paired);
}

#[test]
fn verifier_needs_enrollment() {
    assert!(matches!(
        HerdrWorkspacePairingVerifier::from_relay_config(false, true),
        Err(IrohEndpointError::InvalidConfiguration { field: "enrollment.enabled" })
    ));
    assert!(matches!(
        HerdrWorkspacePairingVerifier::from_relay_config(true, false),
        Err(IrohEndpointError::InvalidConfiguration {
            field: "enrollment.bootstrap_verification_cwd"
        })
    ));
    let verifier = HerdrWorkspacePairingVerifier::from_relay_config(true, true).expect("verifier");
    assert!(verifier.summary().workspace_verifier_present);
    assert!(!RejectAllPairing.begin(&[1; 32]));
    assert!(!RejectAllPairing.verify(&[1; 32], b"123456"));
}

#[test]
fn workspace_code_is_used_once() {
    let mut verifier =
        HerdrWorkspacePairingVerifier::from_relay_config(true, true).expect("verifier");
    let peer = [7; 32];
    assert!(verifier.may_begin(&peer));
    let begun = verifier.begin_attempt(peer, *b"123456", "ws-1".to_owned(), SECOND);
    assert!(matches!(begun, BeginAction::Challenge));
    assert!(!verifier.may_begin(&peer));
    assert!(matches!(
        verifier.begin_attempt(peer, *b"111111", "ws-2".to_owned(), SECOND),
        BeginAction::CloseAndRefuse { workspace_id } if workspace_id == "ws-2"
    ));
    assert!(matches!(
        verifier.verify_attempt(&peer, b"654321", 2 * SECOND),
        VerifyAction::Refuse
    ));
    assert!(matches!(
        verifier.verify_attempt(&peer, b"123456", 2 * SECOND),
        VerifyAction::CloseWorkspace { workspace_id, expired: false } if workspace_id == "ws-1"
    ));
    assert!(!verifier.verify_closed(&peer, "ws-1", false, false));
    assert_eq!(verifier.attempt_count(), 1);
    assert!(verifier.verify_closed(&peer, "ws-1", false, true));
    assert_eq!(verifier.attempt_count(), 0);
    assert!(matches!(
        verifier.verify_attempt(&peer, b"123456", 2 * SECOND),
        VerifyAction::Refuse
    ));
}

#[test]
fn expired_workspace_code_is_refused() {
    let mut verifier =
        HerdrWorkspacePairingVerifier::from_relay_config(true, true).expect("verifier");
    let peer = [7; 32];
    verifier.begin_attempt(peer, *b"123456", "ws-1".to_owned(), SECOND);
    assert!(matches!(
        verifier.verify_attempt(&peer, b"123456", 301 * SECOND),
        VerifyAction::CloseWorkspace { expired: true, .. }
    ));
    assert!(!verifier.verify_closed(&peer, "ws-1", true, true));
    assert_eq!(verifier.attempt_count(), 0);
    assert_eq!(challenge_expiry(Some(100)), Some(400));
    assert_eq!(challenge_expiry(Some(u64::MAX)), None);
    assert_eq!(challenge_expiry(None), None);
}

#[test]
fn failed_cancellation_keeps_the_workspace() {
    let mut verifier =
        HerdrWorkspacePairingVerifier::from_relay_config(true, true).expect("verifier");
    let peer = [7; 32];
    verifier.begin_attempt(peer, *b"123456", "ws-1".to_owned(), SECOND);
    assert_eq!(verifier.cancel_attempt(&peer), Some("ws-1".to_owned()));
    verifier.cancel_closed(&peer, "ws-1", false);
    assert_eq!(verifier.cancel_attempt(&peer), Some("ws-1".to_owned()));
    verifier.cancel_closed(&peer, "ws-1", true);
    assert_eq!(verifier.cancel_attempt(&peer), None);
}

#[test]
fn session_streams_are_bounded() {
    let mut slots = SessionSlots::new(1, 5);
    assert_eq!(slots.on_event(&PairedEvent::StreamOpened), PairedAction::Serve);
    assert_eq!(
        slots.on_event(&PairedEvent::StreamOpened),
        PairedAction::Refuse(HdqsResponse::Rejected {
            reason: HdqsReason::CapacityExhausted,
            connection_epoch: 5,
        })
    );
    assert_eq!(slots.on_event(&PairedEvent::StreamEnded), PairedAction::Wait);
    assert_eq!(slots.on_event(&PairedEvent::StreamOpened), PairedAction::Serve);
}

#[test]
fn paired_connection_ends_with_its_control_stream() {
    let mut slots = SessionSlots::new(1, 5);
    assert_eq!(
        slots.on_event(&PairedEvent::FrameHandled { stop: false }),
        PairedAction::Wait
    );
    assert_eq!(
        slots.on_event(&PairedEvent::FrameHandled { stop: true }),
        PairedAction::Finish(Ok(()))
    );
    assert_eq!(slots.on_event(&PairedEvent::ControlEnded), PairedAction::Finish(Ok(())));
    assert_eq!(slots.on_event(&PairedEvent::Closed), PairedAction::Finish(Ok(())));
    assert_eq!(
        slots.on_event(&PairedEvent::ControlFailed),
        PairedAction::Finish(Err(IrohConnectionError::Protocol))
    );
    assert_eq!(
        slots.on_event(&PairedEvent::StreamFailed),
        PairedAction::Finish(Err(IrohConnectionError::Io))
    );
    assert_eq!(
        slots.on_event(&PairedEvent::FrameFailed(IrohConnectionError::Timeout)),
        PairedAction::Finish(Err(IrohConnectionError::Timeout))
    );
}

#[test]
fn control_frames_are_dispatched() {
    assert!(matches!(
        handle_hdqm_frame(&control(HdqmKind::SessionPrepare, vec![])),
        HdqmStep::DecodePrepare
    ));
    assert!(matches!(
        handle_hdqm_frame(&control(HdqmKind::SessionOpen, vec![])),
        HdqmStep::DecodeOpen
    ));
    assert!(matches!(
        handle_hdqm_frame(&control(HdqmKind::SessionClose, vec![1, 2])),
        HdqmStep::CloseSession { handle: 258 }
    ));
    assert!(matches!(
        handle_hdqm_frame(&control(HdqmKind::SessionClose, vec![1])),
        HdqmStep::Fail(IrohConnectionError::Protocol)
    ));
    assert!(matches!(
        handle_hdqm_frame(&control(HdqmKind::Heartbeat, vec![])),
        HdqmStep::Reply(reply) if reply.kind == HdqmKind::Heartbeat && reply.request_id == [6; 16]
    ));
    assert!(matches!(
        handle_hdqm_frame(&control(HdqmKind::GoAway, vec![])),
        HdqmStep::Stop
    ));
    assert!(matches!(
        handle_hdqm_frame(&control(HdqmKind::DeviceHello, vec![])),
        HdqmStep::Reply(reply) if reply.kind == HdqmKind::ErrorResponse
    ));
}

#[test]
fn prepared_sessions_are_answered() {
    let request = SessionPrepareRequest {
        session: "work".to_owned(),
        expected_fingerprint: [1; 32],
        configuration_generation: 2,
    };
    match prepare_with(Some(request), [3; 32], [4; 32]) {
        HdqmStep::Prepare { session, fingerprint, configuration_generation, token } => {
            assert_eq!(session, "work");
            assert_eq!(fingerprint, [1; 32]);
            assert_eq!(configuration_generation, 2);
            assert_eq!(token, [4; 32]);
        }
        _ => panic!("the session is prepared"),
    }
    let unnamed = SessionPrepareRequest {
        session: "work".to_owned(),
        expected_fingerprint: [0; 32],
        configuration_generation: 2,
    };
    assert!(matches!(
        prepare_with(Some(unnamed), [3; 32], [4; 32]),
        HdqmStep::Prepare { fingerprint, .. } if fingerprint == [3; 32]
    ));
    assert!(matches!(prepare_decoded(None), HdqmStep::Fail(IrohConnectionError::Protocol)));
    let frame = control(HdqmKind::SessionPrepare, vec![]);
    assert!(matches!(
        prepare_answered(&frame, Some(prepared(5))),
        HdqmStep::Reply(reply) if reply.kind == HdqmKind::SessionPrepareAck
            && matches!(&reply.body, ReplyBody::Prepared(session) if session.connection_epoch == 5)
    ));
    assert!(matches!(
        prepare_answered(&frame, None),
        HdqmStep::Fail(IrohConnectionError::Protocol)
    ));
    assert!(matches!(open_decoded(true), HdqmStep::Open));
    assert!(matches!(open_decoded(false), HdqmStep::Fail(IrohConnectionError::Protocol)));
    let open = control(HdqmKind::SessionOpen, vec![]);
    assert!(matches!(
        open_answered(&open, OpenAnswer::Opened { handle: 7, session: prepared(5) }),
        HdqmStep::Reply(reply) if reply.kind == HdqmKind::SessionOpened
    ));
    let close = control(HdqmKind::SessionClose, vec![0, 7]);
    assert!(matches!(
        close_finished(&close),
        HdqmStep::Reply(reply) if reply.kind == HdqmKind::SessionClosed
    ));
}

#[test]
fn written_frames_are_judged() {
    assert_eq!(frame_written(Some(10), true), Ok(()));
    assert_eq!(frame_written(Some(10), false), Err(IrohConnectionError::Io));
    assert_eq!(frame_written(None, true), Err(IrohConnectionError::Protocol));
}

#[test]
fn session_binding_prefix_is_checked() {
    let mut prefix = [0_u8; 33];
    prefix[..4].copy_from_slice(b"HDQS");
    assert_eq!(hdqs_tail_len(&prefix, b"HDQS", 64), Err(IrohConnectionError::Protocol));
    prefix[32] = 4;
    assert_eq!(hdqs_tail_len(&prefix, b"HDQS", 64), Ok(68));
    prefix[32] = 65;
    assert_eq!(hdqs_tail_len(&prefix, b"HDQS", 64), Err(IrohConnectionError::Protocol));
    prefix[32] = 4;
    assert_eq!(hdqs_tail_len(&prefix, b"HDQX", 64), Err(IrohConnectionError::Protocol));
}

fn session_run(answers: &SessionAnswers) -> Vec<SessionStep> {
    let mut steps = vec![session_start(answers.binding)];
    while steps.len() < 8 {
        let step = steps[steps.len() - 1];
        let next = run_session_stream(step, answers);
        if next == step {
            break;
        }
        steps.push(next);
    }
    steps
}

#[test]
fn session_stream_is_bridged_only_with_authority() {
    let answers = SessionAnswers {
        binding: BindingOutcome::Read,
        response: HdqsResponse::Accepted { connection_epoch: 5 },
        connected: true,
        connection_epoch: 5,
        duplicate: false,
        written: Ok(()),
    };
    assert_eq!(
        session_run(&answers),
        vec![
            SessionStep::Bind,
            SessionStep::Connect,
            SessionStep::Register,
            SessionStep::Accept,
            SessionStep::Bridge,
            SessionStep::Finish,
        ]
    );
    let refusal = HdqsResponse::Rejected { reason: HdqsReason::TokenMismatch, connection_epoch: 5 };
    let refused = SessionAnswers { response: refusal, ..answers };
    assert_eq!(
        session_run(&refused).pop(),
        Some(SessionStep::Refuse { response: refusal, release: false })
    );
    let unavailable = SessionAnswers { response: answers.response, connected: false, ..refused };
    assert_eq!(
        session_run(&unavailable).pop(),
        Some(SessionStep::Refuse {
            response: HdqsResponse::Rejected {
                reason: HdqsReason::SocketUnavailable,
                connection_epoch: 5,
            },
            release: true,
        })
    );
    let repeated = SessionAnswers { connected: true, duplicate: true, ..unavailable };
    assert_eq!(
        session_run(&repeated).pop(),
        Some(SessionStep::Fail { error: IrohConnectionError::Protocol, unbind: true })
    );
    let late = SessionAnswers { binding: BindingOutcome::TimedOut, ..repeated };
    assert!(!session_run(&late).contains(&SessionStep::Connect));
}

#[test]
fn ticket_only_session_is_rejected() {
    let refusal =
        HdqsResponse::Rejected { reason: HdqsReason::SessionNotFound, connection_epoch: 1 };
    let answers = SessionAnswers {
        binding: BindingOutcome::Read,
        response: refusal,
        connected: true,
        connection_epoch: 1,
        duplicate: false,
        written: Ok(()),
    };
    assert_eq!(
        session_run(&answers),
        vec![
            SessionStep::Bind,
            SessionStep::Refuse { response: refusal, release: false },
        ]
    );
}
