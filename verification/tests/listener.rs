use herdogrelay::address::ListenAddress;
use herdogrelay::error::{IoKind, RelayError};
use herdogrelay::listener::{
    bind_candidates, bridge_ended, client_authenticated, close_reason_for_error, plan_listener,
    upstream_connected, AuthenticationOutcome, BindOutcome, BindStep, ClientLimits, ClientStep,
    ConnectionCloseReason, ListenerPlan, ListenerSettings, ServeAction, ServeEvent, ServeReport,
    TailscaleListener, TaskOutcome, UpstreamOutcome, V1_PORT_BASE, V1_PORT_LAST,
};

fn settings() -> ListenerSettings {
    ListenerSettings {
        validated: Ok(()),
        other_enabled: false,
        tailscale_enabled: true,
        has_bind_address: true,
        uses_tls: true,
        has_security: true,
        handshake_timeout_secs: 9,
        probe_timeout_secs: 1,
    }
}

fn listener(max_clients: usize, per_listener: usize, max_handshakes: usize) -> TailscaleListener {
    TailscaleListener::bind(
        ListenerPlan { tls: true, handshake_timeout_secs: 5, upstream_timeout_secs: 1 },
        ClientLimits { max_clients, max_clients_per_listener: per_listener, max_handshakes },
        ListenAddress { host: "127.0.0.1".to_owned(), port: V1_PORT_BASE },
    )
}

fn rejected(listener: &mut TailscaleListener, allowed: bool) -> ConnectionCloseReason {
    let event = ServeEvent::Accepted(allowed);
    assert!(listener.can_serve(&event));
    assert_eq!(listener.serve_until(&event), ServeAction::Close);
    listener.report().last_close_reason().expect("reason")
}

#[test]
fn bind_candidates_skip_occupied_ports() {
    let candidates = vec![18743, 18744];
    assert_eq!(bind_candidates(&candidates, &vec![]), BindStep::Try(18743));
    assert_eq!(bind_candidates(&candidates, &vec![BindOutcome::InUse]), BindStep::Try(18744));
    assert_eq!(
        bind_candidates(&candidates, &vec![BindOutcome::InUse, BindOutcome::Bound]),
        BindStep::Bound
    );
}

#[test]
fn all_occupied_candidates_are_rejected() {
    let candidates: Vec<u16> = (V1_PORT_BASE..=V1_PORT_LAST).collect();
    assert_eq!(candidates.len(), 10);
    assert_eq!(
        bind_candidates(&candidates, &vec![BindOutcome::InUse; 10]),
        BindStep::Fail(RelayError::PortRangeExhausted)
    );
    assert_eq!(
        bind_candidates(&vec![], &vec![]),
        BindStep::Fail(RelayError::PortRangeExhausted)
    );
}

#[test]
fn unavailable_listener_address_is_distinct() {
    assert_eq!(
        bind_candidates(&vec![0], &vec![BindOutcome::Unavailable]),
        BindStep::Fail(RelayError::ListenerAddressUnavailable)
    );
}

#[test]
fn listener_plan_follows_the_configuration() {
    let plan = plan_listener(&settings(), 5, 2).expect("plan");
    assert_eq!(
        plan,
        ListenerPlan { tls: true, handshake_timeout_secs: 5, upstream_timeout_secs: 1 }
    );
    let invalid = ListenerSettings { validated: Err(RelayError::ConfigurationSyntax), ..settings() };
    assert_eq!(plan_listener(&invalid, 5, 2), Err(RelayError::ConfigurationSyntax));
    let other = ListenerSettings { other_enabled: true, ..settings() };
    assert_eq!(plan_listener(&other, 5, 2), Err(RelayError::UnsupportedListenerClass));
    let disabled = ListenerSettings { tailscale_enabled: false, ..settings() };
    assert_eq!(
        plan_listener(&disabled, 5, 2),
        Err(RelayError::ListenerStartup { reason: "the Tailscale listener is disabled" })
    );
    let unbound = ListenerSettings { has_bind_address: false, ..settings() };
    assert_eq!(
        plan_listener(&unbound, 5, 2),
        Err(RelayError::ListenerStartup { reason: "the Tailscale listener has no bind address" })
    );
    let insecure = ListenerSettings { has_security: false, ..settings() };
    assert!(matches!(
        plan_listener(&insecure, 5, 2),
        Err(RelayError::InvalidConfiguration { field: "security", .. })
    ));
    let plain = ListenerSettings { uses_tls: false, has_security: false, ..settings() };
    assert!(!plan_listener(&plain, 5, 2).expect("plain").tls);
}

#[test]
fn disallowed_source_is_rejected_before_tls() {
    let mut full = listener(0, 0, 0);
    assert_eq!(rejected(&mut full, false), ConnectionCloseReason::SourceNotAllowed);
    assert_eq!(full.report().rejected(), 1);
    assert_eq!(full.report().accepted(), 0);
}

#[test]
fn listener_client_quota_rejects_excess_clients() {
    let mut bounded = listener(64, 2, 16);
    for _ in 0..2 {
        assert_eq!(bounded.serve_until(&ServeEvent::Accepted(true)), ServeAction::Spawn);
        assert_eq!(bounded.serve_until(&ServeEvent::Authenticated), ServeAction::Wait);
    }
    assert_eq!(rejected(&mut bounded, true), ConnectionCloseReason::ListenerClientLimit);
    let mut shared = listener(1, 2, 16);
    shared.serve_until(&ServeEvent::Accepted(true));
    assert_eq!(rejected(&mut shared, true), ConnectionCloseReason::GlobalClientLimit);
}

#[test]
fn handshake_quota_rejects_excess_clients() {
    let mut bounded = listener(64, 32, 1);
    assert_eq!(bounded.serve_until(&ServeEvent::Accepted(true)), ServeAction::Spawn);
    assert_eq!(rejected(&mut bounded, true), ConnectionCloseReason::HandshakeLimit);
    bounded.serve_until(&ServeEvent::Authenticated);
    assert_eq!(bounded.serve_until(&ServeEvent::Accepted(true)), ServeAction::Spawn);
    assert_eq!(bounded.client_count(), 2);
}

#[test]
fn shutdown_leaves_no_client() {
    let mut serving = listener(64, 32, 16);
    serving.serve_until(&ServeEvent::Accepted(true));
    serving.serve_until(&ServeEvent::Accepted(true));
    serving.serve_until(&ServeEvent::Authenticated);
    let done = TaskOutcome::Completed { network_to_unix_bytes: 10, unix_to_network_bytes: 20 };
    assert_eq!(
        serving.serve_until(&ServeEvent::Joined { in_handshake: false, outcome: done }),
        ServeAction::Wait
    );
    assert_eq!(serving.serve_until(&ServeEvent::Shutdown), ServeAction::AbortAll);
    assert!(!serving.can_serve(&ServeEvent::Accepted(true)));
    assert!(!serving.can_serve(&ServeEvent::Shutdown));
    let aborted = ServeEvent::Joined { in_handshake: true, outcome: TaskOutcome::Cancelled };
    assert_eq!(serving.serve_until(&aborted), ServeAction::Finish);
    let report = serving.report();
    assert_eq!(report.accepted(), 2);
    assert_eq!(report.completed() + report.failed() + report.cancelled(), 2);
    assert_eq!(report.network_to_unix_bytes(), 10);
    assert_eq!(report.unix_to_network_bytes(), 20);
    assert_eq!(report.last_close_reason(), Some(ConnectionCloseReason::Cancelled));
    assert_eq!(serving.client_count(), 0);
}

#[test]
fn idle_listener_finishes_at_once() {
    let mut idle = listener(64, 32, 16);
    assert_eq!(idle.local_addr().port, V1_PORT_BASE);
    assert_eq!(idle.plan().handshake_timeout_secs, 5);
    assert_eq!(idle.serve_until(&ServeEvent::Shutdown), ServeAction::Finish);
    let mut failing = listener(64, 32, 16);
    assert_eq!(
        failing.serve_until(&ServeEvent::AcceptFailed(IoKind::Other)),
        ServeAction::Fail(RelayError::Io {
            operation: "accepting relay client",
            kind: IoKind::Other,
        })
    );
}

#[test]
fn reports_count_each_outcome() {
    let mut report = ServeReport::new();
    assert_eq!(report, ServeReport::default());
    report.record_admission();
    report.record_rejection(ConnectionCloseReason::HandshakeLimit);
    report.record_task(&TaskOutcome::Failed(RelayError::BridgeIdleTimeout));
    assert_eq!(report.last_close_reason(), Some(ConnectionCloseReason::IdleTimeout));
    report.record_task(&TaskOutcome::Lost);
    assert_eq!(report.last_close_reason(), Some(ConnectionCloseReason::Internal));
    report.record_task(&TaskOutcome::Cancelled);
    report.record_task(&TaskOutcome::Completed {
        network_to_unix_bytes: u64::MAX,
        unix_to_network_bytes: 0,
    });
    assert_eq!(report.last_close_reason(), Some(ConnectionCloseReason::CleanEof));
    assert_eq!((report.accepted(), report.rejected()), (1, 1));
    assert_eq!((report.completed(), report.failed(), report.cancelled()), (1, 2, 1));
    assert!(!report.can_record(&TaskOutcome::Completed {
        network_to_unix_bytes: 1,
        unix_to_network_bytes: 0,
    }));
    assert!(report.can_record(&TaskOutcome::Lost));
}

#[test]
fn failures_are_reported_by_category() {
    for (error, reason) in [
        (RelayError::SourceNotAllowed, ConnectionCloseReason::SourceNotAllowed),
        (RelayError::ClientLimit, ConnectionCloseReason::GlobalClientLimit),
        (RelayError::HandshakeLimit, ConnectionCloseReason::HandshakeLimit),
        (RelayError::TlsAuthentication, ConnectionCloseReason::TlsAuthentication),
        (RelayError::RelayHandshake, ConnectionCloseReason::RelayHandshake),
        (RelayError::RelayHandshakeTimeout, ConnectionCloseReason::HandshakeTimeout),
        (RelayError::UpstreamUnavailable, ConnectionCloseReason::UpstreamUnavailable),
        (
            RelayError::SocketIdentity { operation: "a", reason: "b" },
            ConnectionCloseReason::UpstreamUnavailable,
        ),
        (
            RelayError::Io { operation: "connecting to Herdr Unix socket", kind: IoKind::NotFound },
            ConnectionCloseReason::UpstreamUnavailable,
        ),
        (
            RelayError::Io {
                operation: "checking Herdr socket parent",
                kind: IoKind::ConnectionRefused,
            },
            ConnectionCloseReason::UpstreamUnavailable,
        ),
        (
            RelayError::Io { operation: "connecting to Herdr Unix socket", kind: IoKind::Other },
            ConnectionCloseReason::Internal,
        ),
        (
            RelayError::Io { operation: "reading", kind: IoKind::NotFound },
            ConnectionCloseReason::Internal,
        ),
        (RelayError::BridgeIdleTimeout, ConnectionCloseReason::IdleTimeout),
        (RelayError::ResourceLimit, ConnectionCloseReason::Internal),
    ] {
        assert_eq!(close_reason_for_error(&error), reason);
    }
}

#[test]
fn client_without_certificate_cannot_reach_unix_socket() {
    assert_eq!(
        client_authenticated(&AuthenticationOutcome::TlsFailed, b"relay/1"),
        ClientStep::End(TaskOutcome::Failed(RelayError::TlsAuthentication))
    );
    assert_eq!(
        client_authenticated(&AuthenticationOutcome::TimedOut, b"relay/1"),
        ClientStep::End(TaskOutcome::Failed(RelayError::RelayHandshakeTimeout))
    );
    let wrong = AuthenticationOutcome::Tls { protocol: Some(b"relay/2"), handshake: Ok(()) };
    assert_eq!(
        client_authenticated(&wrong, b"relay/1"),
        ClientStep::End(TaskOutcome::Failed(RelayError::RelayHandshake))
    );
    let none = AuthenticationOutcome::Tls { protocol: None, handshake: Ok(()) };
    assert_eq!(
        client_authenticated(&none, b"relay/1"),
        ClientStep::End(TaskOutcome::Failed(RelayError::RelayHandshake))
    );
}

#[test]
fn authenticated_client_reaches_one_unix_socket() {
    let tls = AuthenticationOutcome::Tls { protocol: Some(b"relay/1"), handshake: Ok(()) };
    assert_eq!(client_authenticated(&tls, b"relay/1"), ClientStep::ConnectUpstream);
    assert_eq!(upstream_connected(UpstreamOutcome::Connected), ClientStep::Bridge);
    assert_eq!(
        bridge_ended(Ok((3, 4))),
        ClientStep::End(TaskOutcome::Completed {
            network_to_unix_bytes: 3,
            unix_to_network_bytes: 4,
        })
    );
    assert_eq!(
        bridge_ended(Err(RelayError::BridgeIdleTimeout)),
        ClientStep::End(TaskOutcome::Failed(RelayError::BridgeIdleTimeout))
    );
}

#[test]
fn plain_client_reaches_one_unix_socket() {
    assert_eq!(
        client_authenticated(&AuthenticationOutcome::Plain(Ok(())), b"relay/1"),
        ClientStep::ConnectUpstream
    );
    assert_eq!(
        client_authenticated(
            &AuthenticationOutcome::Plain(Err(RelayError::RelayHandshake)),
            b"relay/1"
        ),
        ClientStep::End(TaskOutcome::Failed(RelayError::RelayHandshake))
    );
}

#[test]
fn missing_upstream_socket_is_rejected_before_forwarding() {
    assert_eq!(
        upstream_connected(UpstreamOutcome::TimedOut),
        ClientStep::End(TaskOutcome::Failed(RelayError::UpstreamUnavailable))
    );
    assert_eq!(
        upstream_connected(UpstreamOutcome::Failed(RelayError::UpstreamUnavailable)),
        ClientStep::End(TaskOutcome::Failed(RelayError::UpstreamUnavailable))
    );
}
