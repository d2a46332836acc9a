use herdogrelay::address::ListenAddress;
use herdogrelay::error::RelayError;
use herdogrelay::quic_server::bootstrap::{
    bootstrap_entry, bootstrap_rejection_code, bootstrap_stream_failure, bounded_bootstrap_timeout,
    first_frame, reconcile_answered, reconcile_decoded, remaining_bootstrap_time,
    response_finished, response_written, second_frame, start_answered, start_decoded,
    submit_answered, submit_decoded, BootstrapChallenge, BootstrapExchange, BootstrapResponse,
    BootstrapRuntimeError, BootstrapStep, Hdb1Kind, IssuedCore, WriteOutcome,
};
use herdogrelay::quic_server::connection::{
    allowlist_answered, anchor_matched, client_authentication, fingerprint_read, has_own_quota,
    hello_received, offered_protocols, route_connection, socket_path, transport_limits,
    AdmissionStep, ClientAuthentication, SecurityMode, ServeAction, ServeEvent, ServeState,
    QRM_BOOTSTRAP_ALPN, QRM_ENROLLMENT_ALPN, QRM_RELAY_ALPN,
};
use herdogrelay::quic_server::control::{
    close_finished, control_admitted, control_entry, open_answered, open_decoded, prepare_answered,
    prepare_with, renew_answered, update_authorized, update_finished, AfterReply, AllowlistAnswer,
    ControlReply, ControlStep, OpenAnswer, PrepareAnswer, ReplyBody, UpdateAnswer,
};
use herdogrelay::quic_server::server::{
    bind_allowed, build_server_config, drain_action, owned_stores, perform_stable_latest_update,
    prebound_matches, release_platform, AcceptLoop, ConfigStage, DrainAction, Endpoint,
    HandshakeAction, HandshakeOutcome, IncomingAction, ServerLimits, UpdateStage,
};
use herdogrelay::quic_server::stream::{
    acceptance_owned, acceptance_written, binding_answered, binding_read, bridge_event, registered,
    reject_invalid_outcome, reject_session_outcome, upstream_connected, AcceptOutcome, BridgeEvent,
    ConnectOutcome, ReleaseScope, StreamStep,
};
use herdogrelay::quic_server::trust::{
    certificate_chain_matches_anchor, certificate_identity_digest, client_roots_outcome,
    decode_hex_digest, hde3_authorization_id, hde3_issuance_key, peer_certificate_fingerprint,
    public_chain_digest, relay_identity,
};
use herdogrelay::quic_server::QuicRelayServer;
use herdogrelay::quic_wire::{
    control_payload_len, hdqs_remainder_len, HdqmFrame, HdqmKind, HdqsReason, HdqsResponse,
    PreparedSession, SessionPrepareRequest,
};
use herdogrelay::text::write_hex;
use rcgen::{BasicConstraints, CertificateParams, CertifiedIssuer, DnType, IsCa, KeyPair};

fn frame(kind: HdqmKind, payload: Vec<u8>) -> HdqmFrame {
    HdqmFrame { kind, request_id: [6; 16], payload }
}

fn replied(step: ControlStep) -> (ControlReply, AfterReply) {
    match step {
        ControlStep::Reply { reply, then } => {
            assert_eq!(reply.request_id, [6; 16]);
            (reply, then)
        }
        _ => panic!("the frame is answered"),
    }
}

fn refused(step: ControlStep) -> HdqsReason {
    let (reply, then) = replied(step);
    assert_eq!(then, AfterReply::KeepOpen);
    assert_eq!(reply.kind, HdqmKind::ErrorResponse);
    match reply.body {
        ReplyBody::Response(HdqsResponse::Rejected { reason, connection_epoch: 9 }) => reason,
        _ => panic!("the frame is refused"),
    }
}

fn session() -> PreparedSession {
    PreparedSession {
        session: "work".to_owned(),
        fingerprint: [1; 32],
        configuration_generation: 2,
        relay_generation: 3,
        connection_epoch: 9,
        token: [4; 32],
        token_ttl_secs: 60,
    }
}

fn issued_core() -> IssuedCore {
    IssuedCore {
        approval_id: [1; 32],
        core_identity: [2; 32],
        certificate_chain: vec![vec![3]],
        not_after_epoch_seconds: 4,
    }
}

fn limits() -> ServerLimits {
    ServerLimits {
        mode: SecurityMode::Verified,
        enrollment_enabled: true,
        ca_generation: 5,
        max_connections: 1,
        max_sessions_per_connection: 7,
        max_enrollment_handshakes: 1,
        max_enrollment_connections: 3,
    }
}

fn address(port: u16) -> ListenAddress {
    ListenAddress { host: "127.0.0.1".to_owned(), port }
}

#[test]
fn server_accepts_only_valid_generation() {
    let server =
        QuicRelayServer::new(limits(), Ok(()), 1, Ok(address(18743))).expect("server");
    let debug = format!("{:?}", server.summary());
    assert!(!debug.contains("relay_generation: 1"));
    assert_eq!(server.local_addr().expect("address").port, 18743);
    let scope = server.new_connection(2);
    assert_eq!(scope.connection_epoch, 2);
    assert_eq!(scope.relay_generation, 1);
    assert_eq!(scope.max_sessions, 7);
    assert!(QuicRelayServer::new(limits(), Ok(()), 0, Ok(address(18743))).is_err());
}

#[test]
fn server_keeps_its_configuration() {
    let refused = QuicRelayServer::new(
        limits(),
        Err(RelayError::ConfigurationSyntax),
        1,
        Ok(address(18743)),
    );
    assert!(matches!(refused, Err(RelayError::ConfigurationSyntax)));
    let endpoint = Endpoint::Bound(Some(address(9)));
    let server =
        QuicRelayServer::new_inner(limits(), Ok(()), 4, endpoint, [8; 32]).expect("server");
    assert_eq!(server.relay_generation(), 4);
    assert_eq!(server.ca_generation(), 5);
    assert_eq!(server.relay_identity(), [8; 32]);
    assert!(server.servable().is_ok());
    assert_eq!(server.quotas().pre_auth_handshakes, 2);
    assert_eq!(server.quotas().enrollment_connections, 3);
    let unbound =
        QuicRelayServer::new(limits(), Ok(()), 1, Ok(address(18743))).expect("server");
    assert!(matches!(
        unbound.servable(),
        Err(RelayError::ListenerStartup { reason: "QRM server is not bound to a UDP endpoint" })
    ));
    assert!(prebound_matches(&address(1), &address(1)).is_ok());
    assert!(prebound_matches(&address(1), &address(2)).is_err());
    assert!(bind_allowed(SecurityMode::Verified).is_ok());
    assert!(bind_allowed(SecurityMode::DevelopmentUnverified).is_err());
    assert!(owned_stores(SecurityMode::Verified, true).issuance_results);
    assert!(!owned_stores(SecurityMode::Verified, false).bootstrap);
    assert!(!owned_stores(SecurityMode::DevelopmentUnverified, true).allowlist);
}

#[test]
fn accept_loop_is_bounded() {
    let server =
        QuicRelayServer::new(limits(), Ok(()), 1, Ok(address(18743))).expect("server");
    let mut accepting = AcceptLoop::start(&server.quotas());
    assert_eq!(accepting.incoming(), IncomingAction::Handshake);
    assert_eq!(accepting.incoming(), IncomingAction::Handshake);
    assert_eq!(accepting.incoming(), IncomingAction::Refuse);
    let relay = HandshakeOutcome::Done(Some(QRM_RELAY_ALPN.as_bytes()));
    assert_eq!(accepting.handshake_finished(&relay), HandshakeAction::Serve { counted: true });
    assert_eq!(accepting.handshake_finished(&relay), HandshakeAction::CloseOverQuota);
    accepting.incoming();
    let enrollment = HandshakeOutcome::Done(Some(QRM_ENROLLMENT_ALPN.as_bytes()));
    assert_eq!(
        accepting.handshake_finished(&enrollment),
        HandshakeAction::Serve { counted: false }
    );
    accepting.connection_finished(true);
    accepting.incoming();
    assert_eq!(accepting.handshake_finished(&relay), HandshakeAction::Serve { counted: true });
    accepting.incoming();
    accepting.shutdown();
    assert_eq!(accepting.handshake_finished(&relay), HandshakeAction::Forget);
    assert_eq!(accepting.incoming(), IncomingAction::Refuse);
    assert_eq!(drain_action(1, 1), DrainAction::Wait);
    assert_eq!(drain_action(0, 1), DrainAction::Close);
    assert_eq!(drain_action(1, 0), DrainAction::Close);
}

#[test]
fn update_verifies_before_it_replaces() {
    let mut stage = UpdateStage::Configure;
    let mut stages = vec![stage];
    while stage != UpdateStage::Installed {
        stage = perform_stable_latest_update(stage, Ok(()));
        stages.push(stage);
    }
    let checked = stages.iter().position(|s| *s == UpdateStage::VerifyChecksum);
    let started = stages.iter().position(|s| *s == UpdateStage::VerifyStartup);
    let replaced = stages.iter().position(|s| *s == UpdateStage::Replace);
    assert!(checked < started && started < replaced);
    let failed = perform_stable_latest_update(
        UpdateStage::VerifyChecksum,
        Err(RelayError::Update { operation: "a", reason: "b" }),
    );
    assert!(matches!(failed, UpdateStage::Failed(RelayError::Update { reason: "b", .. })));
    assert_eq!(perform_stable_latest_update(failed, Ok(())), failed);
    assert_eq!(release_platform("macos", "aarch64"), Ok(("macos", "arm64")));
    assert_eq!(release_platform("linux", "x86_64"), Ok(("linux", "x86_64")));
    assert!(release_platform("windows", "x86_64").is_err());
    assert!(release_platform("linux", "mips").is_err());
}

#[test]
fn enrollment_anchor_rejects_chain_stuffing() {
    let app = rcgen::generate_simple_self_signed(vec!["app".to_owned()]).expect("app");
    let core_anchor = rcgen::generate_simple_self_signed(vec!["core".to_owned()]).expect("core");
    let certificates = vec![app.cert.der().to_vec(), core_anchor.cert.der().to_vec()];
    let anchors = vec![core_anchor.cert.der().to_vec()];
    assert!(!certificate_chain_matches_anchor(&certificates, &anchors));
}

#[test]
fn enrollment_anchor_accepts_its_own_leaf() {
    let mut params = CertificateParams::new(Vec::<String>::new()).expect("params");
    params.distinguished_name.push(DnType::CommonName, "core-anchor");
    params.is_ca = IsCa::Ca(BasicConstraints::Unconstrained);
    let anchor = CertifiedIssuer::self_signed(params, KeyPair::generate().expect("key"))
        .expect("anchor");
    let mut leaf = CertificateParams::new(Vec::<String>::new()).expect("params");
    leaf.distinguished_name.push(DnType::CommonName, "core");
    let leaf =
        leaf.signed_by(&KeyPair::generate().expect("key"), &anchor).expect("leaf");
    let anchors = vec![anchor.der().to_vec()];
    let chain = vec![leaf.der().to_vec(), anchor.der().to_vec()];
    assert!(certificate_chain_matches_anchor(&chain, &anchors));
    assert!(!certificate_chain_matches_anchor(&chain, &vec![]));
    assert!(!certificate_chain_matches_anchor(&vec![leaf.der().to_vec()], &anchors));
    assert!(!certificate_chain_matches_anchor(&vec![], &anchors));
    let other = rcgen::generate_simple_self_signed(vec!["core".to_owned()]).expect("other");
    let stuffed = vec![other.cert.der().to_vec(), leaf.der().to_vec(), anchor.der().to_vec()];
    assert!(!certificate_chain_matches_anchor(&stuffed, &anchors));
}

#[test]
fn digests_have_their_published_values() {
    let abc = "ba7816bf8f01cfea414140de5dae2223b00361a396177a9cb410ff61f20015ad";
    let chain = vec![b"abc".to_vec()];
    assert_eq!(write_hex(&peer_certificate_fingerprint(Some(&chain)).expect("digest")), abc);
    assert_eq!(write_hex(&relay_identity(&chain).expect("identity")), abc);
    assert!(matches!(
        peer_certificate_fingerprint(None),
        Err(RelayError::QuicAuthentication)
    ));
    assert!(peer_certificate_fingerprint(Some(&vec![])).is_err());
    assert!(relay_identity(&vec![]).is_err());
    assert_eq!(write_hex(&decode_hex_digest(abc).expect("digest")), abc);
    assert!(decode_hex_digest(&abc.to_uppercase()).is_err());
    assert!(decode_hex_digest(&"0".repeat(64)).is_err());
    assert!(decode_hex_digest("ab").is_err());
}

#[test]
fn chain_digest_delimits_its_certificates() {
    let split = public_chain_digest(&vec![b"a".to_vec(), b"bc".to_vec()]);
    let joined = public_chain_digest(&vec![b"ab".to_vec(), b"c".to_vec()]);
    assert_ne!(split, joined);
    assert_eq!(split, public_chain_digest(&vec![b"a".to_vec(), b"bc".to_vec()]));
    assert_eq!(
        write_hex(&public_chain_digest(&vec![])),
        "e3b0c44298fc1c149afbf4c8996fb92427ae41e4649b934ca495991b7852b855"
    );
}

#[test]
fn identity_digest_follows_the_public_key() {
    let one = rcgen::generate_simple_self_signed(vec!["one".to_owned()]).expect("one");
    let two = rcgen::generate_simple_self_signed(vec!["one".to_owned()]).expect("two");
    let first = certificate_identity_digest(&vec![one.cert.der().to_vec()]);
    assert!(first.is_some());
    assert_ne!(first, certificate_identity_digest(&vec![two.cert.der().to_vec()]));
    assert_eq!(certificate_identity_digest(&vec![]), None);
    assert_eq!(certificate_identity_digest(&vec![vec![1]]), None);
}

#[test]
fn issuance_keys_follow_the_approval() {
    let id = hde3_authorization_id(&[1; 32]);
    assert_ne!(id, [0; 16]);
    assert_ne!(id, hde3_authorization_id(&[2; 32]));
    let key = hde3_issuance_key(&[1; 32], [3; 32]);
    assert_eq!(key.authorization_id(), id);
    assert_eq!(key.csr_digest(), [3; 32]);
    assert!(client_roots_outcome(true, 1).is_ok());
    assert!(client_roots_outcome(true, 0).is_err());
    assert!(client_roots_outcome(false, 1).is_err());
}

#[test]
fn verified_relay_needs_the_allowlist() {
    let relay = QRM_RELAY_ALPN.as_bytes();
    assert_eq!(
        route_connection(relay, SecurityMode::Verified, true),
        AdmissionStep::ReadFingerprint
    );
    assert_eq!(fingerprint_read(relay, true, Ok([1; 32])), AdmissionStep::CheckAllowlist);
    assert_eq!(allowlist_answered(Some(true)), AdmissionStep::ServeRelay);
    assert_eq!(
        allowlist_answered(Some(false)),
        AdmissionStep::Fail(RelayError::QuicAuthentication)
    );
    assert_eq!(allowlist_answered(None), AdmissionStep::Fail(RelayError::QuicAuthentication));
    assert_eq!(
        fingerprint_read(relay, true, Err(RelayError::QuicAuthentication)),
        AdmissionStep::Fail(RelayError::QuicAuthentication)
    );
    assert_eq!(
        route_connection(relay, SecurityMode::DevelopmentUnverified, false),
        AdmissionStep::ServeRelay
    );
}

#[test]
fn enrollment_needs_its_anchor() {
    let enrollment = QRM_ENROLLMENT_ALPN.as_bytes();
    assert_eq!(fingerprint_read(enrollment, true, Ok([1; 32])), AdmissionStep::MatchAnchor);
    assert!(matches!(fingerprint_read(enrollment, false, Ok([1; 32])), AdmissionStep::Fail(_)));
    assert_eq!(
        anchor_matched(Ok(true), Some([1; 32])),
        AdmissionStep::ServeEnrollment { core_fingerprint: [1; 32] }
    );
    assert!(matches!(anchor_matched(Ok(false), Some([1; 32])), AdmissionStep::Fail(_)));
    assert!(matches!(anchor_matched(Ok(true), None), AdmissionStep::Fail(_)));
    let bootstrap = QRM_BOOTSTRAP_ALPN.as_bytes();
    assert_eq!(
        route_connection(bootstrap, SecurityMode::Verified, true),
        AdmissionStep::ServeBootstrap
    );
    assert!(matches!(
        route_connection(bootstrap, SecurityMode::Verified, false),
        AdmissionStep::Fail(RelayError::QuicProtocol { reason: "bootstrap ALPN is disabled" })
    ));
    assert!(has_own_quota(Some(bootstrap)));
    assert!(has_own_quota(Some(enrollment)));
    assert!(!has_own_quota(Some(QRM_RELAY_ALPN.as_bytes())));
    assert!(!has_own_quota(None));
}

#[test]
fn transport_is_configured_within_its_bounds() {
    let limits = transport_limits(900, 64).expect("limits");
    assert_eq!(limits.keep_alive_secs, 300);
    assert_eq!(limits.bidi_streams, 65);
    assert_eq!(transport_limits(2, 0).expect("limits").keep_alive_secs, 1);
    assert!(transport_limits(u64::MAX, 64).is_err());
    assert!(transport_limits(900, u64::MAX - 1).is_err());
    assert_eq!(
        client_authentication(SecurityMode::Verified, false),
        ClientAuthentication::Required
    );
    assert_eq!(
        client_authentication(SecurityMode::Verified, true),
        ClientAuthentication::Optional
    );
    assert_eq!(
        client_authentication(SecurityMode::DevelopmentUnverified, true),
        ClientAuthentication::Absent
    );
    assert_eq!(offered_protocols(false), vec![QRM_RELAY_ALPN]);
    assert_eq!(offered_protocols(true).len(), 3);
}

fn configured(policy: ClientAuthentication, failing: Option<ConfigStage>) -> Vec<ConfigStage> {
    let mut stages = vec![ConfigStage::LoadChain];
    while stages.len() < 16 {
        let stage = stages[stages.len() - 1];
        let outcome = if failing == Some(stage) {
            Err(RelayError::ConfigurationRead)
        } else {
            Ok(())
        };
        let next = build_server_config(policy, stage, outcome);
        if next == stage {
            break;
        }
        stages.push(next);
    }
    stages
}

#[test]
fn server_configuration_follows_its_client_policy() {
    let development = configured(ClientAuthentication::Absent, None);
    assert_eq!(
        development,
        vec![
            ConfigStage::LoadChain,
            ConfigStage::LoadKey,
            ConfigStage::Prepare,
            ConfigStage::Certify,
            ConfigStage::Adapt,
            ConfigStage::Limit,
            ConfigStage::Built,
        ]
    );
    let required = configured(ClientAuthentication::Required, None);
    assert_eq!(required.len(), 10);
    assert!(required.contains(&ConfigStage::BuildVerifier));
    assert!(!required.contains(&ConfigStage::LoadEnrollmentRoots));
    let optional = configured(ClientAuthentication::Optional, None);
    assert_eq!(optional.len(), 12);
    assert_eq!(optional[11], ConfigStage::Built);
    let tls = |reason: &'static str| Some(ConfigStage::Failed(RelayError::TlsConfiguration { reason }));
    for (stage, failure) in [
        (
            ConfigStage::LoadKey,
            Some(ConfigStage::Failed(RelayError::ConfigurationRead)),
        ),
        (ConfigStage::Prepare, tls("TLS 1.3 provider configuration failed")),
        (
            ConfigStage::TrustClientRoots,
            Some(ConfigStage::Failed(RelayError::ConfigurationRead)),
        ),
        (
            ConfigStage::TrustEnrollmentRoots,
            tls("trusted Core enrollment CA is invalid"),
        ),
        (ConfigStage::BuildVerifier, tls("client CA verifier construction failed")),
        (ConfigStage::Certify, tls("server certificate configuration failed")),
        (ConfigStage::Adapt, tls("QUIC TLS adapter construction failed")),
    ] {
        assert_eq!(configured(ClientAuthentication::Optional, Some(stage)).pop(), failure);
    }
    assert_eq!(
        configured(ClientAuthentication::Absent, Some(ConfigStage::Certify)).pop(),
        tls("development certificate configuration failed")
    );
}

#[test]
fn session_sockets_are_found() {
    assert_eq!(socket_path(Some("/s"), Some("/x"), Some("/h"), "work"), "/s");
    assert_eq!(socket_path(None, Some("/x"), Some("/h"), "default"), "/x/herdr/herdr.sock");
    assert_eq!(
        socket_path(None, None, Some("/h"), "work"),
        "/h/.config/herdr/sessions/work/herdr.sock"
    );
    assert_eq!(socket_path(None, None, None, "default"), "./herdr/herdr.sock");
}

#[test]
fn first_control_frame_is_a_hello() {
    let hello = frame(HdqmKind::DeviceHello, vec![]);
    let reply = hello_received(&hello, [1; 32], 2, 3, 4).expect("reply");
    assert_eq!(reply.kind, HdqmKind::DeviceHelloAck);
    assert_eq!(reply.request_id, hello.request_id);
    let ack = reply.ack;
    assert_eq!(ack.relay_identity, [1; 32]);
    assert_eq!((ack.ca_generation, ack.relay_generation, ack.connection_epoch), (2, 3, 4));
    assert!(matches!(
        hello_received(&frame(HdqmKind::Heartbeat, vec![]), [1; 32], 2, 3, 4),
        Err(RelayError::QuicProtocol { reason: "first control frame is not DEVICE_HELLO" })
    ));
}

#[test]
fn qrm_shutdown_sends_goaway_and_blocks_new_sessions() {
    let (mut state, notify) = ServeState::start(false);
    assert!(!notify);
    assert!(state.accepts_streams());
    assert_eq!(state.on_event(ServeEvent::StreamOffered), ServeAction::StartSession);
    assert_eq!(state.on_event(ServeEvent::DrainRequested), ServeAction::SendGoAway);
    assert!(!state.accepts_streams());
    for kind in [HdqmKind::SessionPrepare, HdqmKind::SessionOpen] {
        let step = control_entry(&frame(kind, vec![]), false, true, 9, false, "");
        assert_eq!(refused(step), HdqsReason::ConnectionClosing);
    }
    assert_eq!(state.on_event(ServeEvent::SessionEnded { remaining: 1 }), ServeAction::Wait);
    assert_eq!(
        state.on_event(ServeEvent::SessionEnded { remaining: 0 }),
        ServeAction::End { abort_sessions: false, close: Some("drain complete"), result: Ok(()) }
    );
    let (draining, goaway) = ServeState::start(true);
    assert!(goaway && draining.draining);
}

#[test]
fn connections_end_without_sessions() {
    let (mut state, _) = ServeState::start(false);
    assert_eq!(state.on_event(ServeEvent::Tick(Some(true))), ServeAction::ReapExpired);
    assert_eq!(state.on_event(ServeEvent::Tick(None)), ServeAction::ReapExpired);
    for event in [
        ServeEvent::Tick(Some(false)),
        ServeEvent::DrainDeadline,
        ServeEvent::ControlGone,
        ServeEvent::ControlFailed(RelayError::ResourceLimit),
        ServeEvent::ControlHandled(Ok(false)),
        ServeEvent::ControlHandled(Err(RelayError::QuicAuthentication)),
        ServeEvent::StreamFailed,
    ] {
        assert!(matches!(
            state.on_event(event),
            ServeAction::End { abort_sessions: true, .. }
        ));
    }
    assert_eq!(state.on_event(ServeEvent::ControlHandled(Ok(true))), ServeAction::Wait);
}

#[test]
fn control_frames_wait_for_the_allowlist() {
    let heartbeat = frame(HdqmKind::SessionPrepare, vec![]);
    assert!(matches!(
        control_entry(&heartbeat, true, true, 9, false, ""),
        ControlStep::CheckAllowlist
    ));
    assert!(matches!(
        control_admitted(&heartbeat, AllowlistAnswer::Allowed, false, ""),
        ControlStep::DecodePrepare
    ));
    assert!(matches!(
        control_admitted(&heartbeat, AllowlistAnswer::Denied, false, ""),
        ControlStep::Fail(RelayError::QuicAuthentication)
    ));
    assert!(matches!(
        control_admitted(
            &heartbeat,
            AllowlistAnswer::Unreadable(RelayError::ConfigurationRead),
            false,
            ""
        ),
        ControlStep::Fail(RelayError::ConfigurationRead)
    ));
    assert!(matches!(
        control_entry(&frame(HdqmKind::SessionOpen, vec![]), true, false, 9, false, ""),
        ControlStep::DecodeOpen
    ));
    assert!(matches!(
        control_entry(&frame(HdqmKind::SessionClose, vec![1, 2]), true, false, 9, false, ""),
        ControlStep::CloseSession { handle: 258 }
    ));
    assert!(matches!(
        control_entry(&frame(HdqmKind::GoAway, vec![]), true, false, 9, false, ""),
        ControlStep::Stop
    ));
}

#[test]
fn heartbeats_list_their_sessions() {
    let mut payload = vec![1, 0, 7];
    payload.extend_from_slice(&[4; 32]);
    match control_entry(&frame(HdqmKind::Heartbeat, payload.clone()), true, false, 9, false, "") {
        ControlStep::Renew { entries } => {
            assert_eq!(entries.len(), 1);
            assert_eq!(entries[0].handle, 7);
            assert_eq!(entries[0].token, [4; 32]);
        }
        _ => panic!("the sessions are renewed"),
    }
    payload.pop();
    assert!(matches!(
        control_entry(&frame(HdqmKind::Heartbeat, payload), true, false, 9, false, ""),
        ControlStep::Fail(RelayError::QuicProtocol { reason: "HEARTBEAT payload is invalid" })
    ));
    assert!(matches!(
        control_entry(&frame(HdqmKind::Heartbeat, vec![]), true, false, 9, false, ""),
        ControlStep::Fail(RelayError::QuicProtocol { reason: "HEARTBEAT payload is empty" })
    ));
    let beat = frame(HdqmKind::Heartbeat, vec![]);
    let (reply, _) = replied(renew_answered(&beat, true, 9));
    assert_eq!(reply.kind, HdqmKind::Heartbeat);
    assert_eq!(refused(renew_answered(&beat, false, 9)), HdqsReason::TokenMismatch);
}

#[test]
fn qrm_prepare_capacity_is_session_scoped() {
    let prepare = frame(HdqmKind::SessionPrepare, vec![]);
    assert_eq!(
        refused(prepare_answered(&prepare, PrepareAnswer::Refused(RelayError::ResourceLimit), 9)),
        HdqsReason::CapacityExhausted
    );
    assert_eq!(
        refused(prepare_answered(
            &prepare,
            PrepareAnswer::Refused(RelayError::SessionAuthority),
            9
        )),
        HdqsReason::SessionNotFound
    );
    assert!(matches!(
        prepare_answered(&prepare, PrepareAnswer::Refused(RelayError::ConfigurationRead), 9),
        ControlStep::Fail(RelayError::ConfigurationRead)
    ));
    let (reply, then) = replied(prepare_answered(&prepare, PrepareAnswer::Prepared(session()), 9));
    assert_eq!(reply.kind, HdqmKind::SessionPrepareAck);
    assert_eq!(then, AfterReply::KeepOpen);
    assert!(matches!(reply.body, ReplyBody::Prepared(kept) if kept.session == "work"));
}

#[test]
fn sessions_are_prepared_and_opened() {
    let request = SessionPrepareRequest {
        session: "work".to_owned(),
        expected_fingerprint: [0; 32],
        configuration_generation: 2,
    };
    assert!(matches!(
        prepare_with(Some(request), [3; 32], [4; 32]),
        ControlStep::Prepare { fingerprint, token, .. }
            if fingerprint == [3; 32] && token == [4; 32]
    ));
    assert!(matches!(
        prepare_with(None, [3; 32], [4; 32]),
        ControlStep::Fail(RelayError::QuicProtocol { reason: "SESSION_PREPARE payload invalid" })
    ));
    assert!(matches!(open_decoded(true), ControlStep::Open));
    assert!(matches!(open_decoded(false), ControlStep::Fail(_)));
    let open = frame(HdqmKind::SessionOpen, vec![]);
    let opened = OpenAnswer::Opened { handle: 5, session: session() };
    let (reply, _) = replied(open_answered(&open, opened));
    assert_eq!(reply.kind, HdqmKind::SessionOpened);
    assert!(matches!(reply.body, ReplyBody::Opened { handle: 5, .. }));
    let refusal =
        HdqsResponse::Rejected { reason: HdqsReason::TokenMismatch, connection_epoch: 9 };
    assert_eq!(
        refused(open_answered(&open, OpenAnswer::Refused(refusal))),
        HdqsReason::TokenMismatch
    );
    let (reply, _) = replied(close_finished(&frame(HdqmKind::SessionClose, vec![])));
    assert_eq!(reply.kind, HdqmKind::SessionClosed);
}

#[test]
fn qrm_relay_update_is_rejected_before_execution() {
    let empty = frame(HdqmKind::RelayUpdate, vec![]);
    assert!(matches!(
        control_entry(&empty, true, false, 9, false, "stable-latest"),
        ControlStep::Fail(RelayError::QuicProtocol { reason: "Relay update is disabled" })
    ));
    let (reply, then) = replied(control_entry(&empty, true, false, 9, true, "stable-latest"));
    assert_eq!(reply.kind, HdqmKind::RelayUpdateRejected);
    assert!(matches!(reply.body, ReplyBody::Status(1)));
    assert_eq!(then, AfterReply::KeepOpen);
    let update = frame(HdqmKind::RelayUpdate, b"stable-latest".to_vec());
    let (reply, _) = replied(control_entry(&update, true, false, 9, true, "stable-latest"));
    assert!(matches!(reply.body, ReplyBody::Status(2)));
    assert!(matches!(
        control_admitted(&update, AllowlistAnswer::Allowed, true, "stable-latest"),
        ControlStep::AuthorizeUpdate
    ));
    let (reply, then) = replied(update_authorized(&update, AllowlistAnswer::Denied));
    assert_eq!(reply.kind, HdqmKind::RelayUpdateRejected);
    assert_eq!(then, AfterReply::KeepOpen);
    let (reply, then) = replied(update_authorized(&update, AllowlistAnswer::Allowed));
    assert_eq!(reply.kind, HdqmKind::RelayUpdateAccepted);
    assert_eq!(then, AfterReply::RunUpdate);
}

#[test]
fn finished_updates_are_reported() {
    let update = frame(HdqmKind::RelayUpdate, vec![]);
    let (reply, then) = replied(update_finished(&update, UpdateAnswer::Installed));
    assert_eq!(then, AfterReply::Close);
    assert!(matches!(reply.body, ReplyBody::Status(1)));
    let (reply, then) = replied(update_finished(&update, UpdateAnswer::Failed));
    assert_eq!(then, AfterReply::KeepOpen);
    assert!(matches!(reply.body, ReplyBody::Status(2)));
    assert!(matches!(
        update_finished(&update, UpdateAnswer::WorkerLost),
        ControlStep::Fail(RelayError::Update { .. })
    ));
}

#[test]
fn qrm_malformed_hdqs_gets_fixed_rejection() {
    assert_eq!(binding_read(true, 9), StreamStep::Bind);
    assert_eq!(
        binding_read(false, 9),
        StreamStep::RejectConnection {
            response: HdqsResponse::Rejected {
                reason: HdqsReason::InvalidFrame,
                connection_epoch: 9,
            },
            close: "invalid HDQS binding",
        }
    );
    assert!(reject_invalid_outcome(WriteOutcome::Written, true).is_ok());
    assert!(reject_invalid_outcome(WriteOutcome::Written, false).is_err());
    assert!(reject_invalid_outcome(WriteOutcome::Failed, true).is_err());
    assert!(reject_invalid_outcome(WriteOutcome::TimedOut, true).is_err());
}

#[test]
fn qrm_socket_rejection_is_fixed() {
    assert_eq!(
        upstream_connected(ConnectOutcome::Unavailable, 9),
        StreamStep::Reject {
            response: HdqsResponse::Rejected {
                reason: HdqsReason::SocketUnavailable,
                connection_epoch: 9,
            },
            scope: ReleaseScope::Bound,
            unregister: true,
        }
    );
    assert_eq!(
        upstream_connected(ConnectOutcome::Cancelled, 9),
        StreamStep::Finish(Ok(()))
    );
    assert!(reject_session_outcome(WriteOutcome::Written, true).is_ok());
    assert!(reject_session_outcome(WriteOutcome::TimedOut, true).is_err());
}

#[test]
fn session_streams_are_bridged_while_owned() {
    let accepted = HdqsResponse::Accepted { connection_epoch: 9 };
    assert_eq!(binding_answered(accepted), StreamStep::Register);
    let refusal =
        HdqsResponse::Rejected { reason: HdqsReason::SessionNotFound, connection_epoch: 9 };
    assert_eq!(
        binding_answered(refusal),
        StreamStep::Reject { response: refusal, scope: ReleaseScope::Unbound, unregister: false }
    );
    assert_eq!(registered(true), StreamStep::Connect);
    assert_eq!(registered(false), StreamStep::Finish(Ok(())));
    assert_eq!(upstream_connected(ConnectOutcome::Connected, 9), StreamStep::Accept(accepted));
    assert_eq!(acceptance_written(AcceptOutcome::Written), StreamStep::CheckOwned);
    assert!(matches!(acceptance_written(AcceptOutcome::Unencodable), StreamStep::Fail(_)));
    assert!(matches!(acceptance_written(AcceptOutcome::Failed), StreamStep::Finish(Err(_))));
    assert_eq!(acceptance_written(AcceptOutcome::Cancelled), StreamStep::Finish(Ok(())));
    assert_eq!(acceptance_owned(true, Ok(())), StreamStep::Bridge);
    assert_eq!(acceptance_owned(false, Ok(())), StreamStep::Finish(Ok(())));
    assert_eq!(
        acceptance_owned(true, Err(RelayError::ResourceLimit)),
        StreamStep::Fail(RelayError::ResourceLimit)
    );
    assert_eq!(bridge_event(BridgeEvent::Tick(true)), StreamStep::Wait);
    assert_eq!(bridge_event(BridgeEvent::Tick(false)), StreamStep::Finish(Ok(())));
    assert_eq!(bridge_event(BridgeEvent::Ended), StreamStep::Finish(Ok(())));
    assert_eq!(bridge_event(BridgeEvent::Cancelled), StreamStep::Finish(Ok(())));
}

#[test]
fn bootstrap_is_answered_in_order() {
    assert!(matches!(bootstrap_entry(true, true, true), BootstrapStep::ReadFirstFrame));
    assert!(matches!(
        bootstrap_entry(false, true, true),
        BootstrapStep::Fail(RelayError::QuicProtocol { .. })
    ));
    assert!(matches!(
        bootstrap_entry(true, false, true),
        BootstrapStep::Fail(RelayError::ResourceLimit)
    ));
    assert!(matches!(first_frame(Some(Hdb1Kind::Start)), BootstrapStep::DecodeStart));
    assert!(matches!(start_decoded(true), BootstrapStep::Start));
    let challenge = BootstrapChallenge {
        bootstrap_id: [1; 32],
        challenge: [2; 32],
        expires_at_epoch_seconds: 3,
    };
    assert!(matches!(
        start_answered(Ok(challenge)),
        BootstrapStep::SendChallenge(sent) if sent.challenge == [2; 32]
    ));
    assert!(matches!(
        second_frame(true),
        BootstrapStep::DecodeSubmit(BootstrapExchange::Fresh)
    ));
    assert!(matches!(
        submit_decoded(true, BootstrapExchange::Fresh),
        BootstrapStep::Submit(BootstrapExchange::Fresh)
    ));
    assert!(matches!(
        submit_answered(Ok(issued_core()), BootstrapExchange::Fresh),
        BootstrapStep::Respond { response: BootstrapResponse::CoreIssued(issued), .. }
            if issued.core_identity == [2; 32]
    ));
    assert!(response_written(BootstrapExchange::Fresh, WriteOutcome::Written).is_ok());
    assert!(matches!(
        response_finished(BootstrapExchange::Fresh, true),
        BootstrapStep::End { await_peer: true, close: Some("bootstrap terminal") }
    ));
}

#[test]
fn bootstrap_refusals_have_a_code() {
    for (error, code) in [
        (BootstrapRuntimeError::InvalidField, 1),
        (BootstrapRuntimeError::CapacityExhausted, 2),
        (BootstrapRuntimeError::PeerRateLimited, 2),
        (BootstrapRuntimeError::AlreadyActive, 3),
        (BootstrapRuntimeError::AuthorityMismatch, 4),
        (BootstrapRuntimeError::NotFound, 4),
        (BootstrapRuntimeError::WorkspaceUnavailable, 5),
        (BootstrapRuntimeError::PersistenceFailed, 5),
        (BootstrapRuntimeError::CodeRateLimited, 6),
        (BootstrapRuntimeError::Expired, 7),
        (BootstrapRuntimeError::CodeMismatch, 8),
    ] {
        assert_eq!(bootstrap_rejection_code(error), code);
        assert!(matches!(
            start_answered(Err(error)),
            BootstrapStep::RejectAndClose { code: sent, .. } if sent == code
        ));
        assert!(matches!(
            submit_answered(Err(error), BootstrapExchange::Resumed),
            BootstrapStep::Respond { response: BootstrapResponse::Rejected { code: sent }, .. }
                if sent == code
        ));
    }
    assert!(matches!(first_frame(None), BootstrapStep::RejectAndClose { code: 1, .. }));
    assert!(matches!(start_decoded(false), BootstrapStep::RejectAndClose { code: 1, .. }));
    assert!(matches!(reconcile_decoded(false), BootstrapStep::RejectAndClose { code: 1, .. }));
    assert!(matches!(
        submit_decoded(false, BootstrapExchange::Fresh),
        BootstrapStep::Respond { response: BootstrapResponse::Rejected { code: 1 }, .. }
    ));
    assert!(matches!(
        second_frame(false),
        BootstrapStep::End { await_peer: false, close: Some("bootstrap submit missing") }
    ));
}

#[test]
fn bootstrap_results_are_reconciled() {
    assert!(matches!(first_frame(Some(Hdb1Kind::Reconcile)), BootstrapStep::DecodeReconcile));
    assert!(matches!(reconcile_decoded(true), BootstrapStep::Reconcile));
    assert!(matches!(
        reconcile_answered(Ok(issued_core())),
        BootstrapStep::Respond { response: BootstrapResponse::Result(_), .. }
    ));
    assert!(matches!(
        reconcile_answered(Err(BootstrapRuntimeError::NotFound)),
        BootstrapStep::Respond { response: BootstrapResponse::Rejected { code: 4 }, .. }
    ));
    assert!(matches!(
        first_frame(Some(Hdb1Kind::Submit)),
        BootstrapStep::DecodeSubmit(BootstrapExchange::Resumed)
    ));
    assert!(matches!(
        response_finished(BootstrapExchange::Reconcile, false),
        BootstrapStep::Fail(_)
    ));
    assert!(matches!(
        response_written(BootstrapExchange::Resumed, WriteOutcome::TimedOut),
        Err(RelayError::QuicHandshake { reason: "bootstrap resumed response timeout" })
    ));
    assert!(matches!(
        bootstrap_stream_failure(true),
        RelayError::QuicHandshake { reason: "bootstrap stream timeout" }
    ));
    assert_eq!(remaining_bootstrap_time(10, 3), 7);
    assert_eq!(remaining_bootstrap_time(3, 10), 0);
    assert_eq!(bounded_bootstrap_timeout(10, 3, 5), 5);
    assert_eq!(bounded_bootstrap_timeout(10, 8, 5), 2);
}

#[test]
fn announced_lengths_are_bounded() {
    let mut header = [0_u8; 27];
    header[25] = 1;
    assert_eq!(control_payload_len(&header, 256), Ok(256));
    assert!(control_payload_len(&header, 255).is_err());
    let mut prefix = [0_u8; 33];
    assert!(hdqs_remainder_len(&prefix, 64).is_err());
    prefix[32] = 64;
    assert_eq!(hdqs_remainder_len(&prefix, 64), Ok(128));
    assert!(hdqs_remainder_len(&prefix, 63).is_err());
}
