//! Admission of one QUIC connection and the loop that serves it.

use crate::bytes::same_bytes;
use crate::error::{RelayError, RelayResult};
use crate::paths::{join, same_text};
use crate::quic_wire::{HdqmFrame, HdqmKind};
use vstd::prelude::*;

verus! {

/// ALPN of every Relay connection.
pub const QRM_RELAY_ALPN: &'static str = "herdr-dog-relay-quic/1";

/// ALPN of the terminal App enrollment path.
pub const QRM_ENROLLMENT_ALPN: &'static str = "herdr-dog-relay-enroll/1";

/// ALPN of the server-authenticated first Core bootstrap path.
pub const QRM_BOOTSTRAP_ALPN: &'static str = "herdr-dog-relay-bootstrap/1";

/// Seconds that an existing connection may drain after GOAWAY.
pub const QRM_DRAIN_TIMEOUT_SECS: u64 = 30;

/// Largest number that a QUIC variable-length integer holds.
pub const QUIC_VARINT_MAX: u64 = 4611686018427387903;

/// How clients are authenticated.
#[derive(Debug, Clone, Copy, PartialEq, Eq, Structural)]
pub enum SecurityMode {
    /// Mutual TLS.
    Verified,
    /// No client authentication; for tests only.
    DevelopmentUnverified,
}

/// What has to be done next to admit one connection.
#[derive(Debug, Clone, Copy, PartialEq, Eq)]
pub enum AdmissionStep {
    /// Run the bootstrap conversation.
    ServeBootstrap,
    /// Compute the fingerprint of the peer's leaf certificate.
    ReadFingerprint,
    /// Hold the peer's chain against the Core enrollment anchor.
    MatchAnchor,
    /// Ask the allowlist about the peer.
    CheckAllowlist,
    /// Run the enrollment conversation.
    ServeEnrollment {
        /// Fingerprint of the authenticated Core.
        core_fingerprint: [u8; 32],
    },
    /// Serve the Relay protocol.
    ServeRelay,
    /// Close the connection with a failure.
    Fail(RelayError),
}

/// The protocol is the one named `name`.
pub open spec fn speaks(protocol: Seq<u8>, name: &str) -> bool {
    protocol == vstd::utf8::encode_utf8(name@)
}

/// The decision on the negotiated protocol of a connection that is not a bootstrap.
///
/// `identified` says that the peer's fingerprint has been computed.
pub open spec fn classified(
    protocol: Seq<u8>,
    enrollment_enabled: bool,
    identified: bool,
) -> AdmissionStep {
    if speaks(protocol, QRM_ENROLLMENT_ALPN) {
        if enrollment_enabled {
            AdmissionStep::MatchAnchor
        } else {
            AdmissionStep::Fail(RelayError::QuicProtocol { reason: "enrollment ALPN is disabled" })
        }
    } else if !speaks(protocol, QRM_RELAY_ALPN) {
        AdmissionStep::Fail(RelayError::QuicProtocol { reason: "unsupported QRM ALPN" })
    } else if identified {
        AdmissionStep::CheckAllowlist
    } else {
        AdmissionStep::ServeRelay
    }
}

fn classify(protocol: &[u8], enrollment_enabled: bool, identified: bool) -> (step: AdmissionStep)
    ensures
        step == classified(protocol@, enrollment_enabled, identified),
{
    if same_bytes(protocol, QRM_ENROLLMENT_ALPN.as_bytes()) {
        if !enrollment_enabled {
            return AdmissionStep::Fail(
                RelayError::QuicProtocol { reason: "enrollment ALPN is disabled" },
            );
        }
        return AdmissionStep::MatchAnchor;
    }
    if !same_bytes(protocol, QRM_RELAY_ALPN.as_bytes()) {
        return AdmissionStep::Fail(RelayError::QuicProtocol { reason: "unsupported QRM ALPN" });
    }
    if identified {
        AdmissionStep::CheckAllowlist
    } else {
        AdmissionStep::ServeRelay
    }
}

/// The first decision on a connection that negotiated `protocol`.
pub open spec fn routed(
    protocol: Seq<u8>,
    mode: SecurityMode,
    enrollment_enabled: bool,
) -> AdmissionStep {
    if speaks(protocol, QRM_BOOTSTRAP_ALPN) {
        if enrollment_enabled {
            AdmissionStep::ServeBootstrap
        } else {
            AdmissionStep::Fail(RelayError::QuicProtocol { reason: "bootstrap ALPN is disabled" })
        }
    } else if mode == SecurityMode::Verified {
        AdmissionStep::ReadFingerprint
    } else {
        classified(protocol, enrollment_enabled, false)
    }
}

/// First decision on a connection that negotiated `protocol`.
pub fn route_connection(protocol: &[u8], mode: SecurityMode, enrollment_enabled: bool) -> (step:
    AdmissionStep)
    ensures
        step == routed(protocol@, mode, enrollment_enabled),
{
    if same_bytes(protocol, QRM_BOOTSTRAP_ALPN.as_bytes()) {
        if !enrollment_enabled {
            return AdmissionStep::Fail(
                RelayError::QuicProtocol { reason: "bootstrap ALPN is disabled" },
            );
        }
        return AdmissionStep::ServeBootstrap;
    }
    if mode == SecurityMode::Verified {
        return AdmissionStep::ReadFingerprint;
    }
    classify(protocol, enrollment_enabled, false)
}

/// Decision once the peer's fingerprint was asked for.
pub fn fingerprint_read(
    protocol: &[u8],
    enrollment_enabled: bool,
    fingerprint: RelayResult<[u8; 32]>,
) -> (step: AdmissionStep)
    ensures
        fingerprint matches Err(error) ==> step == AdmissionStep::Fail(error),
        fingerprint is Ok ==> step == classified(protocol@, enrollment_enabled, true),
{
    match fingerprint {
        Err(error) => AdmissionStep::Fail(error),
        Ok(_) => classify(protocol, enrollment_enabled, true),
    }
}

/// The decision once the peer's chain was held against the Core enrollment anchor.
pub open spec fn anchored(
    matched: RelayResult<bool>,
    fingerprint: Option<[u8; 32]>,
) -> AdmissionStep {
    match (matched, fingerprint) {
        (Err(error), _) => AdmissionStep::Fail(error),
        (Ok(true), Some(core_fingerprint)) => AdmissionStep::ServeEnrollment { core_fingerprint },
        _ => AdmissionStep::Fail(RelayError::QuicAuthentication),
    }
}

/// Decision once the peer's chain was held against the Core enrollment anchor.
pub fn anchor_matched(matched: RelayResult<bool>, fingerprint: Option<[u8; 32]>) -> (step:
    AdmissionStep)
    ensures
        step == anchored(matched, fingerprint),
{
    match matched {
        Err(error) => AdmissionStep::Fail(error),
        Ok(false) => AdmissionStep::Fail(RelayError::QuicAuthentication),
        Ok(true) => match fingerprint {
            None => AdmissionStep::Fail(RelayError::QuicAuthentication),
            Some(core_fingerprint) => AdmissionStep::ServeEnrollment { core_fingerprint },
        },
    }
}

/// The step after the allowlist was asked.
pub open spec fn allowed_step(allowed: Option<bool>) -> AdmissionStep {
    match allowed {
        Some(true) => AdmissionStep::ServeRelay,
        _ => AdmissionStep::Fail(RelayError::QuicAuthentication),
    }
}

/// Decision on the allowlist's answer; `None` says that no allowlist is open.
pub fn allowlist_answered(allowed: Option<bool>) -> (step: AdmissionStep)
    ensures
        step == (if allowed == Some(true) {
            AdmissionStep::ServeRelay
        } else {
            AdmissionStep::Fail(RelayError::QuicAuthentication)
        }),
        step == allowed_step(allowed),
{
    match allowed {
        Some(true) => AdmissionStep::ServeRelay,
        _ => AdmissionStep::Fail(RelayError::QuicAuthentication),
    }
}

/// How the peer's identity was established on the way to a decision.
pub struct AdmissionAnswers {
    /// Outcome of computing the peer's fingerprint.
    pub fingerprint: RelayResult<[u8; 32]>,
    /// Outcome of holding the peer's chain against the anchor.
    pub anchor: RelayResult<bool>,
    /// Answer of the allowlist.
    pub allowlist: Option<bool>,
}

/// The final decision on a connection, given what the outside would answer to every question.
pub open spec fn admission(
    protocol: Seq<u8>,
    mode: SecurityMode,
    enrollment_enabled: bool,
    answers: AdmissionAnswers,
) -> AdmissionStep {
    let first = routed(protocol, mode, enrollment_enabled);
    let identity = if mode == SecurityMode::Verified {
        match answers.fingerprint {
            Ok(bytes) => Some(bytes),
            Err(_) => None,
        }
    } else {
        None
    };
    let second = if first is ReadFingerprint {
        match answers.fingerprint {
            Err(error) => AdmissionStep::Fail(error),
            Ok(_) => classified(protocol, enrollment_enabled, true),
        }
    } else {
        first
    };
    match second {
        AdmissionStep::MatchAnchor => anchored(answers.anchor, identity),
        AdmissionStep::CheckAllowlist => if answers.allowlist == Some(true) {
            AdmissionStep::ServeRelay
        } else {
            AdmissionStep::Fail(RelayError::QuicAuthentication)
        },
        _ => second,
    }
}

/// With mutual TLS, the Relay protocol is served only to a peer with a fingerprint that the
/// allowlist allows.
pub proof fn law_verified_relay_needs_allowlist(
    protocol: Seq<u8>,
    enrollment_enabled: bool,
    answers: AdmissionAnswers,
)
    requires
        admission(protocol, SecurityMode::Verified, enrollment_enabled, answers) is ServeRelay,
    ensures
        answers.fingerprint is Ok,
        answers.allowlist == Some(true),
        speaks(protocol, QRM_RELAY_ALPN),
{
}

/// Enrollment is served only where it is configured, over mutual TLS, to a peer whose chain
/// matches the Core anchor; bootstrap is served only where enrollment is configured.
pub proof fn law_enrollment_needs_anchor(
    protocol: Seq<u8>,
    mode: SecurityMode,
    enrollment_enabled: bool,
    answers: AdmissionAnswers,
)
    ensures
        admission(protocol, mode, enrollment_enabled, answers) is ServeEnrollment ==> {
            &&& enrollment_enabled
            &&& mode == SecurityMode::Verified
            &&& answers.anchor == Ok::<bool, RelayError>(true)
            &&& admission(protocol, mode, enrollment_enabled, answers)
                == AdmissionStep::ServeEnrollment { core_fingerprint: answers.fingerprint->Ok_0 }
        },
        admission(protocol, mode, enrollment_enabled, answers) is ServeBootstrap
            ==> enrollment_enabled,
{
}

/// Tells whether a connection that negotiated `protocol` is exempt from the connection quota,
/// because its own conversation has a quota. A connection without a protocol is not.
pub fn has_own_quota(protocol: Option<&[u8]>) -> (exempt: bool)
    ensures
        exempt == (protocol matches Some(name) && (speaks(name@, QRM_ENROLLMENT_ALPN) || speaks(
            name@,
            QRM_BOOTSTRAP_ALPN,
        ))),
{
    match protocol {
        None => false,
        Some(name) => same_bytes(name, QRM_ENROLLMENT_ALPN.as_bytes()) || same_bytes(
            name,
            QRM_BOOTSTRAP_ALPN.as_bytes(),
        ),
    }
}

/// Answer to the opening frame of a connection.
#[derive(Debug, Clone, Copy, PartialEq, Eq)]
pub struct DeviceHelloAck {
    /// Fingerprint of the Relay certificate.
    pub relay_identity: [u8; 32],
    /// Generation of the trust bundle.
    pub ca_generation: u64,
    /// Startup generation of the Relay.
    pub relay_generation: u64,
    /// Epoch of the connection.
    pub connection_epoch: u64,
}

/// Part of the serving state that decides what may happen next.
#[derive(Debug, Clone, Copy, PartialEq, Eq, Structural)]
pub struct ServeState {
    /// GOAWAY has been sent.
    pub draining: bool,
}

/// What happened on a served connection.
pub enum ServeEvent {
    /// The process asked for a drain; polled only before the drain.
    DrainRequested,
    /// The drain deadline passed; polled only during the drain.
    DrainDeadline,
    /// The expiry tick came, and the allowlist answered; `None` without an allowlist.
    Tick(Option<bool>),
    /// A session task ended.
    SessionEnded {
        /// Session tasks that still run.
        remaining: usize,
    },
    /// The control stream ended.
    ControlGone,
    /// The control stream failed.
    ControlFailed(RelayError),
    /// A control frame was handled, with the wish to keep the connection open.
    ControlHandled(RelayResult<bool>),
    /// The peer opened a session stream; polled only before the drain.
    StreamOffered,
    /// No further session stream can be accepted; polled only before the drain.
    StreamFailed,
}

/// What has to be done next on a served connection.
#[derive(Debug, Clone, Copy, PartialEq, Eq)]
pub enum ServeAction {
    /// Wait for the next event.
    Wait,
    /// Send GOAWAY, then wait.
    SendGoAway,
    /// Cancel every session whose lease expired, then wait.
    ReapExpired,
    /// Start a session task on the offered stream, then wait.
    StartSession,
    /// End the connection.
    End {
        /// Session tasks are aborted first.
        abort_sessions: bool,
        /// Reason given to the peer when the connection is closed.
        close: Option<&'static str>,
        /// Result of the connection.
        result: RelayResult<()>,
    },
}

/// The loop polls for `event` in `state`.
pub open spec fn polled(state: ServeState, event: ServeEvent) -> bool {
    match event {
        ServeEvent::DrainRequested | ServeEvent::StreamOffered | ServeEvent::StreamFailed =>
            !state.draining,
        ServeEvent::DrainDeadline => state.draining,
        _ => true,
    }
}

/// The connection ends well and is closed for `reason`; its session tasks are aborted.
pub open spec fn closes(reason: &'static str) -> ServeAction {
    ServeAction::End { abort_sessions: true, close: Some(reason), result: Ok(()) }
}

/// The connection ends with `error`; its session tasks are aborted.
pub open spec fn breaks(error: RelayError) -> ServeAction {
    ServeAction::End {
        abort_sessions: true,
        close: Some("protocol failure"),
        result: Err(error),
    }
}

/// The action that `event` calls for in `state`.
pub open spec fn served(state: ServeState, event: ServeEvent) -> ServeAction {
    match event {
        ServeEvent::DrainRequested => ServeAction::SendGoAway,
        ServeEvent::DrainDeadline => closes("drain deadline"),
        ServeEvent::Tick(allowed) => if allowed == Some(false) {
            closes("allowlist revoked")
        } else {
            ServeAction::ReapExpired
        },
        ServeEvent::SessionEnded { remaining } => if state.draining && remaining == 0 {
            ServeAction::End {
                abort_sessions: false,
                close: Some("drain complete"),
                result: Ok(()),
            }
        } else {
            ServeAction::Wait
        },
        ServeEvent::ControlGone => ServeAction::End {
            abort_sessions: true,
            close: None,
            result: Ok(()),
        },
        ServeEvent::ControlFailed(error) => breaks(error),
        ServeEvent::ControlHandled(outcome) => match outcome {
            Ok(true) => ServeAction::Wait,
            Ok(false) => closes("control close"),
            Err(error) => breaks(error),
        },
        ServeEvent::StreamOffered => ServeAction::StartSession,
        ServeEvent::StreamFailed => breaks(
            RelayError::QuicProtocol { reason: "session stream accept failed" },
        ),
    }
}

/// The state after `event`.
pub open spec fn state_after(state: ServeState, event: ServeEvent) -> ServeState {
    ServeState { draining: state.draining || event is DrainRequested }
}

impl ServeState {
    /// State of a connection that has just answered the opening frame, and whether GOAWAY is
    /// already due.
    pub fn start(drain_requested: bool) -> (start: (ServeState, bool))
        ensures
            start.0 == (ServeState { draining: drain_requested }),
            start.1 == drain_requested,
    {
        (ServeState { draining: drain_requested }, drain_requested)
    }

    /// Tells whether offered session streams are accepted.
    pub fn accepts_streams(&self) -> (accepts: bool)
        ensures
            accepts == polled(*self, ServeEvent::StreamOffered),
    {
        !self.draining
    }

    /// Takes one event and says what has to be done.
    pub fn on_event(&mut self, event: ServeEvent) -> (action: ServeAction)
        requires
            polled(*old(self), event),
        ensures
            action == served(*old(self), event),
            *final(self) == state_after(*old(self), event),
    {
        match event {
            ServeEvent::DrainRequested => {
                self.draining = true;
                ServeAction::SendGoAway
            },
            ServeEvent::DrainDeadline => close_for("drain deadline"),
            ServeEvent::Tick(allowed) => match allowed {
                Some(false) => close_for("allowlist revoked"),
                _ => ServeAction::ReapExpired,
            },
            ServeEvent::SessionEnded { remaining } => {
                if self.draining && remaining == 0 {
                    return ServeAction::End {
                        abort_sessions: false,
                        close: Some("drain complete"),
                        result: Ok(()),
                    };
                }
                ServeAction::Wait
            },
            ServeEvent::ControlGone => ServeAction::End {
                abort_sessions: true,
                close: None,
                result: Ok(()),
            },
            ServeEvent::ControlFailed(error) => break_with(error),
            ServeEvent::ControlHandled(outcome) => match outcome {
                Ok(true) => ServeAction::Wait,
                Ok(false) => close_for("control close"),
                Err(error) => break_with(error),
            },
            ServeEvent::StreamOffered => ServeAction::StartSession,
            ServeEvent::StreamFailed => break_with(
                RelayError::QuicProtocol { reason: "session stream accept failed" },
            ),
        }
    }
}

fn close_for(reason: &'static str) -> (action: ServeAction)
    ensures
        action == closes(reason),
{
    ServeAction::End { abort_sessions: true, close: Some(reason), result: Ok(()) }
}

fn break_with(error: RelayError) -> (action: ServeAction)
    ensures
        action == breaks(error),
{
    ServeAction::End {
        abort_sessions: true,
        close: Some("protocol failure"),
        result: Err(error),
    }
}

/// The state after a run of events.
pub open spec fn state_after_all(state: ServeState, events: Seq<ServeEvent>) -> ServeState
    decreases events.len(),
{
    if events.len() == 0 {
        state
    } else {
        state_after(state_after_all(state, events.drop_last()), events.last())
    }
}

/// Once a connection drains it drains for good: whatever happens, GOAWAY is not sent again and no
/// session is started.
pub proof fn law_drain_is_final(state: ServeState, events: Seq<ServeEvent>, event: ServeEvent)
    requires
        state.draining,
        polled(state_after_all(state, events), event),
    ensures
        state_after_all(state, events).draining,
        !(served(state_after_all(state, events), event) is SendGoAway),
        !(served(state_after_all(state, events), event) is StartSession),
    decreases events.len(),
{
    lemma_draining_stays(state, events);
}

proof fn lemma_draining_stays(state: ServeState, events: Seq<ServeEvent>)
    requires
        state.draining,
    ensures
        state_after_all(state, events).draining,
    decreases events.len(),
{
    if events.len() > 0 {
        lemma_draining_stays(state, events.drop_last());
    }
}

/// Whenever a connection ends, its session tasks are aborted or none is left.
pub proof fn law_end_leaves_no_session(state: ServeState, event: ServeEvent)
    ensures
        served(state, event) matches ServeAction::End { abort_sessions, close, result } ==> (
        abort_sessions || event == ServeEvent::SessionEnded { remaining: 0 }),
{
}

/// A revoked peer is disconnected at the next tick.
pub proof fn law_revocation_closes(state: ServeState)
    ensures
        served(state, ServeEvent::Tick(Some(false))) == closes("allowlist revoked"),
{
}

/// Limits that the transport is configured with.
#[derive(Debug, Clone, Copy, PartialEq, Eq, Structural)]
pub struct TransportLimits {
    /// Idle timeout.
    pub idle_timeout_secs: u64,
    /// Interval of keep-alive packets.
    pub keep_alive_secs: u64,
    /// Concurrent bidirectional streams: the sessions and the control stream.
    pub bidi_streams: u64,
}

/// The transport limits of a connection, or why there are none.
pub open spec fn limits_of(idle_timeout_secs: u64, max_sessions: u64) -> RelayResult<
    TransportLimits,
> {
    if idle_timeout_secs * 1000 > QUIC_VARINT_MAX {
        Err(
            RelayError::InvalidConfiguration {
                field: "limits.idle_timeout_secs",
                reason: "idle timeout cannot be represented by QUIC",
            },
        )
    } else if max_sessions + 1 > QUIC_VARINT_MAX {
        Err(
            RelayError::InvalidConfiguration {
                field: "limits.max_sessions_per_connection",
                reason: "session limit cannot be represented by QUIC",
            },
        )
    } else {
        Ok(
            TransportLimits {
                idle_timeout_secs,
                keep_alive_secs: if idle_timeout_secs < 3 {
                    1
                } else {
                    (idle_timeout_secs / 3) as u64
                },
                bidi_streams: (max_sessions + 1) as u64,
            },
        )
    }
}

/// Derives the transport limits of a connection.
///
/// An idle timeout whose milliseconds, or a stream count that, a QUIC integer cannot hold is
/// refused.
pub fn transport_limits(idle_timeout_secs: u64, max_sessions: u64) -> (limits: RelayResult<
    TransportLimits,
>)
    requires
        max_sessions < u64::MAX,
    ensures
        idle_timeout_secs * 1000 > QUIC_VARINT_MAX ==> limits == Err::<TransportLimits, RelayError>(
            RelayError::InvalidConfiguration {
                field: "limits.idle_timeout_secs",
                reason: "idle timeout cannot be represented by QUIC",
            },
        ),
        idle_timeout_secs * 1000 <= QUIC_VARINT_MAX && max_sessions + 1 > QUIC_VARINT_MAX
            ==> limits == Err::<TransportLimits, RelayError>(
            RelayError::InvalidConfiguration {
                field: "limits.max_sessions_per_connection",
                reason: "session limit cannot be represented by QUIC",
            },
        ),
        idle_timeout_secs * 1000 <= QUIC_VARINT_MAX && max_sessions + 1 <= QUIC_VARINT_MAX
            ==> limits == Ok::<TransportLimits, RelayError>(
            TransportLimits {
                idle_timeout_secs,
                keep_alive_secs: if idle_timeout_secs < 3 {
                    1
                } else {
                    (idle_timeout_secs / 3) as u64
                },
                bidi_streams: (max_sessions + 1) as u64,
            },
        ),
        limits == limits_of(idle_timeout_secs, max_sessions),
{
    if idle_timeout_secs > QUIC_VARINT_MAX / 1000 {
        return Err(
            RelayError::InvalidConfiguration {
                field: "limits.idle_timeout_secs",
                reason: "idle timeout cannot be represented by QUIC",
            },
        );
    }
    if max_sessions + 1 > QUIC_VARINT_MAX {
        return Err(
            RelayError::InvalidConfiguration {
                field: "limits.max_sessions_per_connection",
                reason: "session limit cannot be represented by QUIC",
            },
        );
    }
    let third: u64 = idle_timeout_secs / 3;
    let keep_alive_secs: u64 = if third == 0 {
        1
    } else {
        third
    };
    Ok(TransportLimits { idle_timeout_secs, keep_alive_secs, bidi_streams: max_sessions + 1 })
}

/// Whom the TLS layer asks for a client certificate.
#[derive(Debug, Clone, Copy, PartialEq, Eq, Structural)]
pub enum ClientAuthentication {
    /// Nobody.
    Absent,
    /// Everybody; chains to the client CA are accepted.
    Required,
    /// A certificate may be left out; chains to the client CA or the Core enrollment CA are
    /// accepted.
    Optional,
}

/// How clients are authenticated.
pub open spec fn policy_of(mode: SecurityMode, enrollment_enabled: bool) -> ClientAuthentication {
    match mode {
        SecurityMode::DevelopmentUnverified => ClientAuthentication::Absent,
        SecurityMode::Verified => if enrollment_enabled {
            ClientAuthentication::Optional
        } else {
            ClientAuthentication::Required
        },
    }
}

/// Decides whom the TLS layer asks for a client certificate.
pub fn client_authentication(mode: SecurityMode, enrollment_enabled: bool) -> (policy:
    ClientAuthentication)
    ensures
        policy == (if mode != SecurityMode::Verified {
            ClientAuthentication::Absent
        } else if enrollment_enabled {
            ClientAuthentication::Optional
        } else {
            ClientAuthentication::Required
        }),
        policy == policy_of(mode, enrollment_enabled),
{
    match mode {
        SecurityMode::DevelopmentUnverified => ClientAuthentication::Absent,
        SecurityMode::Verified => {
            if enrollment_enabled {
                ClientAuthentication::Optional
            } else {
                ClientAuthentication::Required
            }
        },
    }
}

/// The protocols that the TLS layer offers, in order.
pub fn offered_protocols(enrollment_enabled: bool) -> (protocols: Vec<&'static str>)
    ensures
        enrollment_enabled ==> protocols@ == seq![
            QRM_RELAY_ALPN,
            QRM_ENROLLMENT_ALPN,
            QRM_BOOTSTRAP_ALPN,
        ],
        !enrollment_enabled ==> protocols@ == seq![QRM_RELAY_ALPN],
{
    let mut protocols: Vec<&'static str> = Vec::new();
    protocols.push(QRM_RELAY_ALPN);
    if enrollment_enabled {
        protocols.push(QRM_ENROLLMENT_ALPN);
        protocols.push(QRM_BOOTSTRAP_ALPN);
    }
    protocols
}

/// The configuration root of the host: the XDG directory, else `.config` of the home directory,
/// else the working directory.
pub open spec fn config_root(xdg: Option<Seq<char>>, home: Option<Seq<char>>) -> Seq<char> {
    match (xdg, home) {
        (Some(directory), _) => directory,
        (None, Some(directory)) => crate::paths::joined(directory, ".config"@),
        (None, None) => "."@,
    }
}

/// The Unix socket of `session` below the configuration root.
pub open spec fn session_socket(root: Seq<char>, session: Seq<char>) -> Seq<char> {
    let herdr = crate::paths::joined(root, "herdr"@);
    if session == "default"@ {
        crate::paths::joined(herdr, "herdr.sock"@)
    } else {
        crate::paths::joined(
            crate::paths::joined(crate::paths::joined(herdr, "sessions"@), session),
            "herdr.sock"@,
        )
    }
}

pub open spec fn text_view(text: Option<&str>) -> Option<Seq<char>> {
    match text {
        Some(inner) => Some(inner@),
        None => None,
    }
}

/// The Unix socket of a session, given an override and the host's directories.
pub fn socket_path(
    socket_override: Option<&str>,
    xdg: Option<&str>,
    home: Option<&str>,
    session: &str,
) -> (path: String)
    ensures
        socket_override matches Some(chosen) ==> path@ == chosen@,
        socket_override is None ==> path@ == session_socket(
            config_root(text_view(xdg), text_view(home)),
            session@,
        ),
{
    if let Some(chosen) = socket_override {
        return chosen.to_owned();
    }
    let root: String = match xdg {
        Some(directory) => directory.to_owned(),
        None => match home {
            Some(directory) => join(directory, ".config"),
            None => ".".to_owned(),
        },
    };
    let herdr = join(root.as_str(), "herdr");
    if same_text(session, "default") {
        return join(herdr.as_str(), "herdr.sock");
    }
    let sessions = join(herdr.as_str(), "sessions");
    let directory = join(sessions.as_str(), session);
    join(directory.as_str(), "herdr.sock")
}

/// The reply to the opening frame of a connection.
#[derive(Debug, Clone, Copy, PartialEq, Eq)]
pub struct HelloReply {
    /// Kind of the reply frame.
    pub kind: HdqmKind,
    /// Correlation identifier of the opening frame.
    pub request_id: [u8; 16],
    /// Payload of the reply frame.
    pub ack: DeviceHelloAck,
}

/// Answers the opening frame of a connection: a hello is acknowledged under its own identifier, and
/// any other frame ends the connection.
pub fn hello_received(
    hello: &HdqmFrame,
    relay_identity: [u8; 32],
    ca_generation: u64,
    relay_generation: u64,
    connection_epoch: u64,
) -> (reply: RelayResult<HelloReply>)
    ensures
        hello.kind == HdqmKind::DeviceHello ==> reply == Ok::<HelloReply, RelayError>(
            HelloReply {
                kind: HdqmKind::DeviceHelloAck,
                request_id: hello.request_id,
                ack: DeviceHelloAck {
                    relay_identity,
                    ca_generation,
                    relay_generation,
                    connection_epoch,
                },
            },
        ),
        hello.kind != HdqmKind::DeviceHello ==> reply == Err::<HelloReply, RelayError>(
            RelayError::QuicProtocol { reason: "first control frame is not DEVICE_HELLO" },
        ),
{
    if hello.kind != HdqmKind::DeviceHello {
        return Err(
            RelayError::QuicProtocol { reason: "first control frame is not DEVICE_HELLO" },
        );
    }
    Ok(
        HelloReply {
            kind: HdqmKind::DeviceHelloAck,
            request_id: hello.request_id,
            ack: DeviceHelloAck {
                relay_identity,
                ca_generation,
                relay_generation,
                connection_epoch,
            },
        },
    )
}

proof fn lemma_protocols_differ()
    ensures
        vstd::utf8::encode_utf8(QRM_RELAY_ALPN@) != vstd::utf8::encode_utf8(QRM_ENROLLMENT_ALPN@),
        vstd::utf8::encode_utf8(QRM_RELAY_ALPN@) != vstd::utf8::encode_utf8(QRM_BOOTSTRAP_ALPN@),
        vstd::utf8::encode_utf8(QRM_ENROLLMENT_ALPN@) != vstd::utf8::encode_utf8(
            QRM_BOOTSTRAP_ALPN@,
        ),
{
    reveal_strlit("herdr-dog-relay-quic/1");
    reveal_strlit("herdr-dog-relay-enroll/1");
    reveal_strlit("herdr-dog-relay-bootstrap/1");
    vstd::utf8::encode_utf8_decode_utf8(QRM_RELAY_ALPN@);
    vstd::utf8::encode_utf8_decode_utf8(QRM_ENROLLMENT_ALPN@);
    vstd::utf8::encode_utf8_decode_utf8(QRM_BOOTSTRAP_ALPN@);
    assert(QRM_RELAY_ALPN@.len() != QRM_ENROLLMENT_ALPN@.len());
    assert(QRM_RELAY_ALPN@.len() != QRM_BOOTSTRAP_ALPN@.len());
    assert(QRM_ENROLLMENT_ALPN@.len() != QRM_BOOTSTRAP_ALPN@.len());
}

/// Which connections are served, and as what: over the Relay protocol a peer with a fingerprint on the
/// allowlist, or any peer where peers are not verified; over the enrollment protocol, where it is
/// configured, a verified peer whose chain matches the anchor; over the bootstrap protocol, where it is
/// configured, anybody. Every other connection fails.
pub proof fn law_connections_are_served_by_protocol(
    protocol: Seq<u8>,
    mode: SecurityMode,
    enrollment_enabled: bool,
    answers: AdmissionAnswers,
)
    ensures
        ({
            let step = admission(protocol, mode, enrollment_enabled, answers);
            let verified = mode == SecurityMode::Verified;
            let relay = protocol == vstd::utf8::encode_utf8("herdr-dog-relay-quic/1"@);
            let enroll = protocol == vstd::utf8::encode_utf8("herdr-dog-relay-enroll/1"@);
            let bootstrap = protocol == vstd::utf8::encode_utf8("herdr-dog-relay-bootstrap/1"@);
            &&& step is ServeRelay <==> relay && (verified ==> answers.fingerprint is Ok
                && answers.allowlist == Some(true))
            &&& step is ServeEnrollment <==> enroll && verified && enrollment_enabled
                && answers.fingerprint is Ok && answers.anchor == Ok::<bool, RelayError>(true)
            &&& step is ServeBootstrap <==> bootstrap && enrollment_enabled
            &&& step is ServeRelay || step is ServeEnrollment || step is ServeBootstrap
                || step is Fail
            &&& step matches AdmissionStep::ServeEnrollment { core_fingerprint } ==> Ok::<
                [u8; 32],
                RelayError,
            >(core_fingerprint) == answers.fingerprint
        }),
{
    lemma_protocols_differ();
}

/// Why a connection fails: for a protocol that is not spoken or not configured, with the failure of its
/// own identification, or because its peer is not authenticated.
pub proof fn law_refused_connections_have_their_reason(
    protocol: Seq<u8>,
    mode: SecurityMode,
    enrollment_enabled: bool,
    answers: AdmissionAnswers,
)
    ensures
        ({
            let step = admission(protocol, mode, enrollment_enabled, answers);
            let verified = mode == SecurityMode::Verified;
            let relay = protocol == vstd::utf8::encode_utf8("herdr-dog-relay-quic/1"@);
            let enroll = protocol == vstd::utf8::encode_utf8("herdr-dog-relay-enroll/1"@);
            let bootstrap = protocol == vstd::utf8::encode_utf8("herdr-dog-relay-bootstrap/1"@);
            &&& bootstrap && !enrollment_enabled ==> step == AdmissionStep::Fail(
                RelayError::QuicProtocol { reason: "bootstrap ALPN is disabled" },
            )
            &&& !bootstrap && verified && answers.fingerprint is Err ==> step
                == AdmissionStep::Fail(answers.fingerprint->Err_0)
            &&& enroll && !enrollment_enabled && (verified ==> answers.fingerprint is Ok) ==> step
                == AdmissionStep::Fail(
                RelayError::QuicProtocol { reason: "enrollment ALPN is disabled" },
            )
            &&& !relay && !enroll && !bootstrap && (verified ==> answers.fingerprint is Ok) ==> step
                == AdmissionStep::Fail(RelayError::QuicProtocol { reason: "unsupported QRM ALPN" })
            &&& relay && verified && answers.fingerprint is Ok && answers.allowlist != Some(true)
                ==> step == AdmissionStep::Fail(RelayError::QuicAuthentication)
            &&& enroll && enrollment_enabled && verified && answers.fingerprint is Ok
                && answers.anchor == Ok::<bool, RelayError>(false) ==> step == AdmissionStep::Fail(
                RelayError::QuicAuthentication,
            )
            &&& enroll && enrollment_enabled && (verified ==> answers.fingerprint is Ok)
                && answers.anchor is Err ==> step == AdmissionStep::Fail(answers.anchor->Err_0)
        }),
{
    lemma_protocols_differ();
}

/// The outside is asked only what the decision needs: the fingerprint of a verified peer that does not
/// bootstrap, and then the allowlist for the Relay protocol or the anchor for enrollment.
pub proof fn law_questions_come_in_order(
    protocol: Seq<u8>,
    mode: SecurityMode,
    enrollment_enabled: bool,
    identified: bool,
)
    ensures
        ({
            let relay = protocol == vstd::utf8::encode_utf8("herdr-dog-relay-quic/1"@);
            let enroll = protocol == vstd::utf8::encode_utf8("herdr-dog-relay-enroll/1"@);
            let bootstrap = protocol == vstd::utf8::encode_utf8("herdr-dog-relay-bootstrap/1"@);
            &&& routed(protocol, mode, enrollment_enabled) is ReadFingerprint <==> !bootstrap
                && mode == SecurityMode::Verified
            &&& classified(protocol, enrollment_enabled, identified) is MatchAnchor <==> enroll
                && enrollment_enabled
            &&& classified(protocol, enrollment_enabled, identified) is CheckAllowlist <==> relay
                && identified
            &&& classified(protocol, enrollment_enabled, identified) is ServeRelay <==> relay
                && !identified
        }),
{
    lemma_protocols_differ();
}

/// While no drain was requested, the end of a session never ends the connection; while one is under
/// way, exactly the end of the last session does, and nothing is left to abort.
pub proof fn law_sessions_end_a_connection_only_in_a_drain(state: ServeState, remaining: usize)
    ensures
        !state.draining ==> served(state, ServeEvent::SessionEnded { remaining })
            == ServeAction::Wait,
        state.draining && remaining > 0 ==> served(state, ServeEvent::SessionEnded { remaining })
            == ServeAction::Wait,
        state.draining && remaining == 0 ==> served(state, ServeEvent::SessionEnded { remaining })
            == (ServeAction::End {
            abort_sessions: false,
            close: Some("drain complete"),
            result: Ok(()),
        }),
{
}

/// What ends a served connection: the drain deadline, the last session of a drain, a revocation, the end
/// or the failure of the control stream, a control frame that asks for it or fails, and a failure to
/// accept streams. Nothing else does.
pub proof fn law_served_connection_ends_for_a_reason(state: ServeState, event: ServeEvent)
    ensures
        served(state, event) is End <==> {
            ||| event is DrainDeadline
            ||| event == ServeEvent::Tick(Some(false))
            ||| event == (ServeEvent::SessionEnded { remaining: 0 }) && state.draining
            ||| event is ControlGone
            ||| event is ControlFailed
            ||| event matches ServeEvent::ControlHandled(outcome) && outcome != Ok::<
                bool,
                RelayError,
            >(true)
            ||| event is StreamFailed
        },
        served(state, event) is SendGoAway <==> event is DrainRequested,
        served(state, event) is StartSession <==> event is StreamOffered,
        served(state, event) is ReapExpired <==> event is Tick && event != ServeEvent::Tick(
            Some(false),
        ),
{
}

/// With what a connection ends: a failure of its control stream, of a control frame or of accepting is
/// its result and a protocol failure to the peer; every other end is a good one, and only the peer that
/// left is told nothing.
pub proof fn law_end_of_a_connection_is_told(state: ServeState, event: ServeEvent)
    ensures
        served(state, event) matches ServeAction::End { abort_sessions, close, result } ==> {
            &&& event is ControlGone <==> close is None
            &&& result is Err <==> event is ControlFailed || event is StreamFailed || (
            event matches ServeEvent::ControlHandled(outcome) && outcome is Err)
            &&& result is Err ==> close == Some("protocol failure")
            &&& event matches ServeEvent::ControlFailed(error) ==> result == Err::<
                (),
                RelayError,
            >(error)
            &&& event matches ServeEvent::ControlHandled(outcome) ==> (outcome matches Err(error)
                ==> result == Err::<(), RelayError>(error))
            &&& event is StreamFailed ==> result == Err::<(), RelayError>(
                RelayError::QuicProtocol { reason: "session stream accept failed" },
            )
            &&& event is DrainDeadline ==> close == Some("drain deadline")
            &&& event is Tick ==> close == Some("allowlist revoked")
            &&& event == ServeEvent::ControlHandled(Ok(false)) ==> close == Some("control close")
            &&& abort_sessions <==> !(event is SessionEnded)
        },
{
}

/// A connection drains from the first request on, and by nothing else.
pub proof fn law_drain_starts_with_its_request(state: ServeState, event: ServeEvent)
    ensures
        state_after(state, event).draining <==> state.draining || event is DrainRequested,
        polled(state, ServeEvent::DrainRequested) <==> !state.draining,
        polled(state, ServeEvent::StreamOffered) <==> !state.draining,
        polled(state, ServeEvent::StreamFailed) <==> !state.draining,
        polled(state, ServeEvent::DrainDeadline) <==> state.draining,
        event is Tick || event is SessionEnded || event is ControlGone || event is ControlFailed
            || event is ControlHandled ==> polled(state, event),
{
}

/// The configuration root is the XDG directory, else `.config` below the home directory, else the
/// working directory. The default session has the socket of Herdr itself below it, and every other
/// session one in a directory of its own name.
pub proof fn law_session_sockets_are_below_the_root(
    xdg: Option<Seq<char>>,
    home: Option<Seq<char>>,
    root: Seq<char>,
    session: Seq<char>,
)
    requires
        root.len() > 0,
        root.last() != '/',
        session.len() > 0,
        session[0] != '/',
        session.last() != '/',
        home matches Some(directory) ==> directory.len() > 0 && directory.last() != '/',
    ensures
        xdg matches Some(directory) ==> config_root(xdg, home) == directory,
        xdg is None ==> (home matches Some(directory) ==> config_root(xdg, home) == directory
            + "/.config"@),
        xdg is None && home is None ==> config_root(xdg, home) == "."@,
        session == "default"@ ==> session_socket(root, session) == root + "/herdr/herdr.sock"@,
        session != "default"@ ==> session_socket(root, session) == root + "/herdr/sessions/"@
            + session + "/herdr.sock"@,
{
    reveal_strlit(".config");
    reveal_strlit("/.config");
    reveal_strlit("herdr");
    reveal_strlit("herdr.sock");
    reveal_strlit("sessions");
    reveal_strlit("/herdr/herdr.sock");
    reveal_strlit("/herdr/sessions/");
    reveal_strlit("/herdr.sock");
    if xdg is None && home is Some {
        assert(config_root(xdg, home) =~= home->Some_0 + "/.config"@);
    }
    let herdr = crate::paths::joined(root, "herdr"@);
    assert(herdr =~= root + seq!['/', 'h', 'e', 'r', 'd', 'r']);
    if session == "default"@ {
        assert(session_socket(root, session) =~= root + "/herdr/herdr.sock"@);
    } else {
        let sessions = crate::paths::joined(herdr, "sessions"@);
        let own = crate::paths::joined(sessions, session);
        assert(sessions =~= herdr + seq!['/', 's', 'e', 's', 's', 'i', 'o', 'n', 's']);
        assert(own =~= sessions + seq!['/'] + session);
        assert(own.last() == session.last());
        assert(session_socket(root, session) =~= root + "/herdr/sessions/"@ + session
            + "/herdr.sock"@);
    }
}

/// A connection has limits if and only if its idle time in milliseconds and one stream more than its
/// sessions can be written as numbers of the transport. It keeps its idle time, has a stream for each
/// session and one for control, and is kept alive three times within its idle time, or each second.
pub proof fn law_transport_limits_leave_room(idle_timeout_secs: u64, max_sessions: u64)
    ensures
        limits_of(idle_timeout_secs, max_sessions) is Ok <==> idle_timeout_secs * 1000
            <= 0x3fff_ffff_ffff_ffff && max_sessions < 0x3fff_ffff_ffff_ffff,
        limits_of(idle_timeout_secs, max_sessions) matches Ok(limits) ==> {
            &&& limits.idle_timeout_secs == idle_timeout_secs
            &&& limits.bidi_streams == max_sessions + 1
            &&& limits.keep_alive_secs >= 1
            &&& idle_timeout_secs >= 3 ==> 3 * limits.keep_alive_secs <= idle_timeout_secs < 3
                * limits.keep_alive_secs + 3
            &&& idle_timeout_secs < 3 ==> limits.keep_alive_secs == 1
        },
{
}

/// Clients are authenticated wherever the relay is verified: always, or where they do not enroll.
pub proof fn law_verified_relays_authenticate(mode: SecurityMode, enrollment_enabled: bool)
    ensures
        policy_of(mode, enrollment_enabled) == ClientAuthentication::Absent <==> mode
            != SecurityMode::Verified,
        policy_of(mode, enrollment_enabled) == ClientAuthentication::Required <==> mode
            == SecurityMode::Verified && !enrollment_enabled,
        policy_of(mode, enrollment_enabled) == ClientAuthentication::Optional <==> mode
            == SecurityMode::Verified && enrollment_enabled,
{
}

/// A peer is served if and only if the allowlist was read and allows it.
pub proof fn law_only_allowed_peers_are_served(allowed: Option<bool>)
    ensures
        allowed_step(allowed) == AdmissionStep::ServeRelay <==> allowed == Some(true),
        allowed != Some(true) ==> allowed_step(allowed) == AdmissionStep::Fail(
            RelayError::QuicAuthentication,
        ),
{
}

/// A Core is served for enrollment if and only if its chain was held against the anchor and matches,
/// and its certificate is known; it is served under that certificate.
pub proof fn law_anchored_cores_enroll(matched: RelayResult<bool>, fingerprint: Option<[u8; 32]>)
    ensures
        anchored(matched, fingerprint) is ServeEnrollment <==> matched == Ok::<bool, RelayError>(
            true,
        ) && fingerprint is Some,
        anchored(matched, fingerprint) matches AdmissionStep::ServeEnrollment { core_fingerprint }
            ==> fingerprint == Some(core_fingerprint),
        matched matches Err(error) ==> anchored(matched, fingerprint) == AdmissionStep::Fail(error),
        matched is Ok && !(matched == Ok::<bool, RelayError>(true) && fingerprint is Some)
            ==> anchored(matched, fingerprint) == AdmissionStep::Fail(
            RelayError::QuicAuthentication,
        ),
{
}

} // verus!
