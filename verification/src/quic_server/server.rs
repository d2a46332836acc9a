//! The server owner: its settings, its quotas and the loop that accepts connections.

use crate::address::ListenAddress;
use crate::error::{RelayError, RelayResult};
use crate::paths::same_text;
use crate::quic_server::connection::{has_own_quota, ClientAuthentication, SecurityMode};
use vstd::prelude::*;

verus! {

/// The part of the Relay configuration that the server owner reads.
#[derive(Debug, Clone, Copy, PartialEq, Eq)]
pub struct ServerLimits {
    /// How clients are authenticated.
    pub mode: SecurityMode,
    /// Enrollment is offered.
    pub enrollment_enabled: bool,
    /// Generation of the protected trust bundle.
    pub ca_generation: u64,
    /// Connections that are served at once.
    pub max_connections: usize,
    /// Sessions of one connection.
    pub max_sessions_per_connection: usize,
    /// Bootstrap or enrollment handshakes at once.
    pub max_enrollment_handshakes: usize,
    /// Bootstrap or enrollment connections at once.
    pub max_enrollment_connections: usize,
}

/// Quotas of a server.
#[derive(Debug, Clone, Copy, PartialEq, Eq, Structural)]
pub struct ServerQuotas {
    /// Connections of the Relay protocol.
    pub connections: usize,
    /// TLS handshakes before the protocol is known.
    pub pre_auth_handshakes: usize,
    /// Bootstrap handshakes.
    pub bootstrap_handshakes: usize,
    /// Bootstrap connections.
    pub bootstrap_connections: usize,
    /// Enrollment handshakes.
    pub enrollment_handshakes: usize,
    /// Enrollment connections.
    pub enrollment_connections: usize,
}

/// The quotas that a configuration gives.
pub open spec fn quotas_of(limits: ServerLimits) -> ServerQuotas {
    ServerQuotas {
        connections: limits.max_connections,
        pre_auth_handshakes: if limits.max_connections + limits.max_enrollment_handshakes
            > usize::MAX {
            usize::MAX
        } else {
            (limits.max_connections + limits.max_enrollment_handshakes) as usize
        },
        bootstrap_handshakes: limits.max_enrollment_handshakes,
        bootstrap_connections: limits.max_enrollment_connections,
        enrollment_handshakes: limits.max_enrollment_handshakes,
        enrollment_connections: limits.max_enrollment_connections,
    }
}

/// What a diagnostic says of a server.
#[derive(Debug, Clone, Copy, PartialEq, Eq, Structural)]
pub struct ServerSummary {
    /// The server holds a UDP endpoint.
    pub bound: bool,
    /// Connections that are served at once.
    pub connection_limit: usize,
}

/// What a registry of sessions is made for.
#[derive(Debug, Clone, Copy, PartialEq, Eq, Structural)]
pub struct RegistryScope {
    /// Generation of the Relay process.
    pub relay_generation: u64,
    /// Epoch of the connection.
    pub connection_epoch: u64,
    /// Sessions of the connection.
    pub max_sessions: usize,
}

/// Protected stores that a server opens when it binds.
#[derive(Debug, Clone, Copy, PartialEq, Eq, Structural)]
pub struct OwnedStores {
    /// The App allowlist.
    pub allowlist: bool,
    /// The issuance results.
    pub issuance_results: bool,
    /// The bootstrap authority.
    pub bootstrap: bool,
}

/// Where a server listens.
pub enum Endpoint {
    /// The server holds no endpoint; the configured address, if it can be read.
    Unbound(RelayResult<ListenAddress>),
    /// The server holds an endpoint; its address, if it can be read.
    Bound(Option<ListenAddress>),
}

/// Mathematical value of a server.
#[verifier::ext_equal]
pub struct ServerView {
    /// Settings.
    pub limits: ServerLimits,
    /// Generation of the Relay process.
    pub relay_generation: u64,
    /// Fingerprint of the Relay certificate.
    pub relay_identity: Seq<u8>,
    /// Where the server listens.
    pub endpoint: Endpoint,
}

/// One production QUIC Relay server owner.
pub struct QuicRelayServer {
    limits: ServerLimits,
    relay_generation: u64,
    relay_identity: [u8; 32],
    endpoint: Endpoint,
}

impl View for QuicRelayServer {
    type V = ServerView;

    closed spec fn view(&self) -> ServerView {
        ServerView {
            limits: self.limits,
            relay_generation: self.relay_generation,
            relay_identity: self.relay_identity@,
            endpoint: self.endpoint,
        }
    }
}

/// `server` is what the owner is made as, or why it is refused.
pub open spec fn server_made(
    server: RelayResult<QuicRelayServer>,
    limits: ServerLimits,
    validated: RelayResult<()>,
    relay_generation: u64,
    endpoint: Endpoint,
    relay_identity: Seq<u8>,
) -> bool {
    if relay_generation == 0 {
        server matches Err(error) && error == (RelayError::ListenerStartup {
            reason: "Relay generation must be non-zero",
        })
    } else {
        match validated {
            Err(refusal) => server matches Err(error) && error == refusal,
            Ok(_) => server matches Ok(made) && made@ == (ServerView {
                limits,
                relay_generation,
                relay_identity,
                endpoint,
            }),
        }
    }
}

/// Every server has a process generation, which a peer can tell from none.
pub proof fn law_server_has_a_generation(
    server: RelayResult<QuicRelayServer>,
    limits: ServerLimits,
    validated: RelayResult<()>,
    relay_generation: u64,
    endpoint: Endpoint,
    relay_identity: Seq<u8>,
)
    requires
        server_made(server, limits, validated, relay_generation, endpoint, relay_identity),
        server is Ok,
    ensures
        server->Ok_0@.relay_generation != 0,
        validated is Ok,
{
}

impl QuicRelayServer {
    /// Makes a server owner that has opened no UDP socket.
    ///
    /// `validated` is the outcome of validating the whole configuration, `address` the configured
    /// listener address.
    pub fn new(
        limits: ServerLimits,
        validated: RelayResult<()>,
        relay_generation: u64,
        address: RelayResult<ListenAddress>,
    ) -> (server: RelayResult<Self>)
        ensures
            server_made(
                server,
                limits,
                validated,
                relay_generation,
                Endpoint::Unbound(address),
                Seq::new(32, |i: int| 1u8),
            ),
    {
        let identity: [u8; 32] = [1u8;32];
        assert(identity@ =~= Seq::new(32, |i: int| 1u8));
        Self::new_inner(limits, validated, relay_generation, Endpoint::Unbound(address), identity)
    }

    /// Makes the owner of a bound endpoint.
    pub fn new_inner(
        limits: ServerLimits,
        validated: RelayResult<()>,
        relay_generation: u64,
        endpoint: Endpoint,
        relay_identity: [u8; 32],
    ) -> (server: RelayResult<Self>)
        ensures
            server_made(
                server,
                limits,
                validated,
                relay_generation,
                endpoint,
                relay_identity@,
            ),
    {
        if relay_generation == 0 {
            return Err(
                RelayError::ListenerStartup { reason: "Relay generation must be non-zero" },
            );
        }
        match validated {
            Err(refusal) => Err(refusal),
            Ok(_) => Ok(QuicRelayServer { limits, relay_generation, relay_identity, endpoint }),
        }
    }

    /// The configured or actual UDP address.
    pub fn local_addr(&self) -> (address: RelayResult<ListenAddress>)
        ensures
            match self@.endpoint {
                Endpoint::Bound(Some(actual)) => address matches Ok(found) && found@ == actual@,
                Endpoint::Bound(None) => address matches Err(error) && error == (
                RelayError::ListenerStartup { reason: "cannot read UDP listener address" }),
                Endpoint::Unbound(Ok(configured)) => address matches Ok(found) && found@
                    == configured@,
                Endpoint::Unbound(Err(refusal)) => address matches Err(error) && error == refusal,
            },
    {
        match &self.endpoint {
            Endpoint::Bound(Some(actual)) => Ok(actual.copy()),
            Endpoint::Bound(None) => Err(
                RelayError::ListenerStartup { reason: "cannot read UDP listener address" },
            ),
            Endpoint::Unbound(Ok(configured)) => Ok(configured.copy()),
            Endpoint::Unbound(Err(refusal)) => Err(*refusal),
        }
    }

    /// Generation of the Relay process.
    pub fn relay_generation(&self) -> (generation: u64)
        ensures
            generation == self@.relay_generation,
    {
        self.relay_generation
    }

    /// Generation of the trust bundle that the server advertises.
    pub fn ca_generation(&self) -> (generation: u64)
        ensures
            generation == self@.limits.ca_generation,
    {
        self.limits.ca_generation
    }

    /// Fingerprint of the Relay certificate.
    pub fn relay_identity(&self) -> (identity: [u8; 32])
        ensures
            identity@ == self@.relay_identity,
    {
        self.relay_identity
    }

    /// What the session registry of a fresh connection is made for.
    pub fn new_connection(&self, connection_epoch: u64) -> (scope: RegistryScope)
        ensures
            scope == (RegistryScope {
                relay_generation: self@.relay_generation,
                connection_epoch,
                max_sessions: self@.limits.max_sessions_per_connection,
            }),
    {
        RegistryScope {
            relay_generation: self.relay_generation,
            connection_epoch,
            max_sessions: self.limits.max_sessions_per_connection,
        }
    }

    /// The quotas of the server; the handshakes before the protocol is known may be those of the
    /// Relay protocol and of enrollment together.
    pub fn quotas(&self) -> (quotas: ServerQuotas)
        ensures
            quotas == quotas_of(self@.limits),
    {
        ServerQuotas {
            connections: self.limits.max_connections,
            pre_auth_handshakes: self.limits.max_connections.saturating_add(
                self.limits.max_enrollment_handshakes,
            ),
            bootstrap_handshakes: self.limits.max_enrollment_handshakes,
            bootstrap_connections: self.limits.max_enrollment_connections,
            enrollment_handshakes: self.limits.max_enrollment_handshakes,
            enrollment_connections: self.limits.max_enrollment_connections,
        }
    }

    /// What a diagnostic says of the server: no generation and no identity.
    pub fn summary(&self) -> (summary: ServerSummary)
        ensures
            summary == (ServerSummary {
                bound: self@.endpoint is Bound,
                connection_limit: self@.limits.max_connections,
            }),
    {
        let bound = match &self.endpoint {
            Endpoint::Bound(_) => true,
            Endpoint::Unbound(_) => false,
        };
        ServerSummary { bound, connection_limit: self.limits.max_connections }
    }

    /// Tells whether the server can accept connections.
    pub fn servable(&self) -> (servable: RelayResult<()>)
        ensures
            match servable {
                Ok(_) => self@.endpoint is Bound,
                Err(error) => self@.endpoint is Unbound && error == (RelayError::ListenerStartup {
                    reason: "QRM server is not bound to a UDP endpoint",
                }),
            },
    {
        match &self.endpoint {
            Endpoint::Bound(_) => Ok(()),
            Endpoint::Unbound(_) => Err(
                RelayError::ListenerStartup { reason: "QRM server is not bound to a UDP endpoint" },
            ),
        }
    }
}

/// Decides whether a production server may be bound in this mode.
pub fn bind_allowed(mode: SecurityMode) -> (allowed: RelayResult<()>)
    ensures
        match allowed {
            Ok(_) => mode == SecurityMode::Verified,
            Err(error) => mode != SecurityMode::Verified && error == (
            RelayError::InvalidConfiguration {
                field: "security.mode",
                reason: "development_unverified is test-only",
            }),
        },
{
    match mode {
        SecurityMode::Verified => Ok(()),
        SecurityMode::DevelopmentUnverified => Err(
            RelayError::InvalidConfiguration {
                field: "security.mode",
                reason: "development_unverified is test-only",
            },
        ),
    }
}

/// Decides whether a socket that is already bound is the configured one.
pub fn prebound_matches(actual: &ListenAddress, configured: &ListenAddress) -> (matched:
    RelayResult<()>)
    ensures
        match matched {
            Ok(_) => actual@ == configured@,
            Err(error) => actual@ != configured@ && error == (RelayError::ListenerStartup {
                reason: "prebound QRM UDP listener address does not match configuration",
            }),
        },
{
    if actual.same(configured) {
        Ok(())
    } else {
        Err(
            RelayError::ListenerStartup {
                reason: "prebound QRM UDP listener address does not match configuration",
            },
        )
    }
}

/// The stores that a server owns.
pub open spec fn stores_of(mode: SecurityMode, enrollment_enabled: bool) -> OwnedStores {
    OwnedStores {
        allowlist: mode == SecurityMode::Verified,
        issuance_results: mode == SecurityMode::Verified && enrollment_enabled,
        bootstrap: mode == SecurityMode::Verified && enrollment_enabled,
    }
}

/// The protected stores that a server opens: a verified server always holds the allowlist, and the
/// other two only with enrollment.
pub fn owned_stores(mode: SecurityMode, enrollment_enabled: bool) -> (stores: OwnedStores)
    ensures
        stores.allowlist == (mode == SecurityMode::Verified),
        stores.issuance_results == (mode == SecurityMode::Verified && enrollment_enabled),
        stores.bootstrap == (mode == SecurityMode::Verified && enrollment_enabled),
        stores == stores_of(mode, enrollment_enabled),
{
    match mode {
        SecurityMode::Verified => OwnedStores {
            allowlist: true,
            issuance_results: enrollment_enabled,
            bootstrap: enrollment_enabled,
        },
        SecurityMode::DevelopmentUnverified => OwnedStores {
            allowlist: false,
            issuance_results: false,
            bootstrap: false,
        },
    }
}

/// What to do with a peer that asks for a connection.
#[derive(Debug, Clone, Copy, PartialEq, Eq, Structural)]
pub enum IncomingAction {
    /// Refuse it.
    Refuse,
    /// Run its TLS handshake.
    Handshake,
}

/// What to do once a TLS handshake ended.
#[derive(Debug, Clone, Copy, PartialEq, Eq, Structural)]
pub enum HandshakeAction {
    /// Forget the peer.
    Forget,
    /// Close the connection because the quota is exhausted.
    CloseOverQuota,
    /// Serve the connection.
    Serve {
        /// The connection counts against the connection quota until it ends.
        counted: bool,
    },
}

/// How a TLS handshake ended.
pub enum HandshakeOutcome<'a> {
    /// It failed, or the deadline passed.
    Failed,
    /// It succeeded with this protocol, if any was negotiated.
    Done(Option<&'a [u8]>),
}

/// What to do while a server drains.
#[derive(Debug, Clone, Copy, PartialEq, Eq, Structural)]
pub enum DrainAction {
    /// Wait for a connection to end, at most until the deadline.
    Wait,
    /// Close the endpoint and end every connection.
    Close,
}

/// Mathematical value of an accept loop.
pub struct AcceptView {
    /// Handshakes that run.
    pub handshakes: usize,
    /// Counted connections that are served.
    pub connections: usize,
    /// Shutdown was asked for.
    pub draining: bool,
    /// Quota of handshakes.
    pub max_handshakes: usize,
    /// Quota of connections.
    pub max_connections: usize,
}

impl AcceptView {
    /// No quota is exceeded.
    pub open spec fn within_quotas(self) -> bool {
        self.handshakes <= self.max_handshakes && self.connections <= self.max_connections
    }
}

/// The state of the loop that accepts connections.
pub struct AcceptLoop {
    handshakes: usize,
    connections: usize,
    draining: bool,
    max_handshakes: usize,
    max_connections: usize,
}

impl View for AcceptLoop {
    type V = AcceptView;

    closed spec fn view(&self) -> AcceptView {
        AcceptView {
            handshakes: self.handshakes,
            connections: self.connections,
            draining: self.draining,
            max_handshakes: self.max_handshakes,
            max_connections: self.max_connections,
        }
    }
}

/// The protocol counts against the connection quota.
pub open spec fn counted_protocol(protocol: Option<&[u8]>) -> bool {
    !(protocol matches Some(name) && (crate::quic_server::connection::speaks(
        name@,
        crate::quic_server::connection::QRM_ENROLLMENT_ALPN,
    ) || crate::quic_server::connection::speaks(
        name@,
        crate::quic_server::connection::QRM_BOOTSTRAP_ALPN,
    )))
}

/// What is done with a handshake that ended while the loop was in state `before`.
pub open spec fn handshake_decision(before: AcceptView, outcome: HandshakeOutcome) -> HandshakeAction {
    match outcome {
        HandshakeOutcome::Failed => HandshakeAction::Forget,
        HandshakeOutcome::Done(protocol) => if before.draining {
            HandshakeAction::Forget
        } else if !counted_protocol(protocol) {
            HandshakeAction::Serve { counted: false }
        } else if before.connections < before.max_connections {
            HandshakeAction::Serve { counted: true }
        } else {
            HandshakeAction::CloseOverQuota
        },
    }
}

/// What happens to the accept loop.
pub enum AcceptEvent {
    /// A connection is offered.
    Incoming,
    /// A handshake failed.
    HandshakeFailed,
    /// A handshake completed.
    HandshakeDone {
        /// Its protocol is counted among the connections.
        counted: bool,
    },
    /// A connection ended.
    ConnectionEnded {
        /// It was counted among the connections.
        counted: bool,
    },
    /// The server stops.
    Shutdown,
}

/// The end of a handshake as an event of the loop.
pub open spec fn handshake_event(outcome: HandshakeOutcome) -> AcceptEvent {
    match outcome {
        HandshakeOutcome::Failed => AcceptEvent::HandshakeFailed,
        HandshakeOutcome::Done(protocol) => AcceptEvent::HandshakeDone {
            counted: counted_protocol(protocol),
        },
    }
}

/// The event takes one of the handshake slots.
pub open spec fn takes_handshake(before: AcceptView, event: AcceptEvent) -> bool {
    event is Incoming && !before.draining && before.handshakes < before.max_handshakes
}

/// The event takes one of the connection slots.
pub open spec fn takes_connection(before: AcceptView, event: AcceptEvent) -> bool {
    event == (AcceptEvent::HandshakeDone { counted: true }) && !before.draining
        && before.connections < before.max_connections
}

/// The loop after the event.
pub open spec fn accept_after(before: AcceptView, event: AcceptEvent) -> AcceptView {
    match event {
        AcceptEvent::Incoming => AcceptView {
            handshakes: if takes_handshake(before, event) {
                (before.handshakes + 1) as usize
            } else {
                before.handshakes
            },
            ..before
        },
        AcceptEvent::HandshakeFailed | AcceptEvent::HandshakeDone { .. } => AcceptView {
            handshakes: if before.handshakes > 0 {
                (before.handshakes - 1) as usize
            } else {
                0
            },
            connections: if takes_connection(before, event) {
                (before.connections + 1) as usize
            } else {
                before.connections
            },
            ..before
        },
        AcceptEvent::ConnectionEnded { counted } => AcceptView {
            connections: if counted && before.connections > 0 {
                (before.connections - 1) as usize
            } else {
                before.connections
            },
            ..before
        },
        AcceptEvent::Shutdown => AcceptView { draining: true, ..before },
    }
}

impl AcceptLoop {
    /// The loop of a server that has just been bound.
    pub fn start(quotas: &ServerQuotas) -> (state: Self)
        ensures
            state@ == (AcceptView {
                handshakes: 0,
                connections: 0,
                draining: false,
                max_handshakes: quotas.pre_auth_handshakes,
                max_connections: quotas.connections,
            }),
            state@.within_quotas(),
    {
        AcceptLoop {
            handshakes: 0,
            connections: 0,
            draining: false,
            max_handshakes: quotas.pre_auth_handshakes,
            max_connections: quotas.connections,
        }
    }

    /// A peer asks for a connection.
    pub fn incoming(&mut self) -> (action: IncomingAction)
        ensures
            old(self)@.within_quotas() ==> final(self)@.within_quotas(),
            action == (if !old(self)@.draining && old(self)@.handshakes
                < old(self)@.max_handshakes {
                IncomingAction::Handshake
            } else {
                IncomingAction::Refuse
            }),
            final(self)@ == (AcceptView {
                handshakes: if action == IncomingAction::Handshake {
                    (old(self)@.handshakes + 1) as usize
                } else {
                    old(self)@.handshakes
                },
                ..old(self)@
            }),
            final(self)@ == accept_after(old(self)@, AcceptEvent::Incoming),
    {
        if !self.draining && self.handshakes < self.max_handshakes {
            self.handshakes = self.handshakes + 1;
            IncomingAction::Handshake
        } else {
            IncomingAction::Refuse
        }
    }

    /// A TLS handshake ended; its permit is free again.
    pub fn handshake_finished(&mut self, outcome: &HandshakeOutcome) -> (action: HandshakeAction)
        ensures
            old(self)@.within_quotas() ==> final(self)@.within_quotas(),
            action == handshake_decision(old(self)@, *outcome),
            final(self)@ == (AcceptView {
                handshakes: if old(self)@.handshakes > 0 {
                    (old(self)@.handshakes - 1) as usize
                } else {
                    0
                },
                connections: if action == (HandshakeAction::Serve { counted: true }) {
                    (old(self)@.connections + 1) as usize
                } else {
                    old(self)@.connections
                },
                ..old(self)@
            }),
            final(self)@ == accept_after(old(self)@, handshake_event(*outcome)),
    {
        if self.handshakes > 0 {
            self.handshakes = self.handshakes - 1;
        }
        match outcome {
            HandshakeOutcome::Failed => HandshakeAction::Forget,
            HandshakeOutcome::Done(protocol) => {
                if self.draining {
                    HandshakeAction::Forget
                } else if has_own_quota(*protocol) {
                    HandshakeAction::Serve { counted: false }
                } else if self.connections < self.max_connections {
                    self.connections = self.connections + 1;
                    HandshakeAction::Serve { counted: true }
                } else {
                    HandshakeAction::CloseOverQuota
                }
            },
        }
    }

    /// A served connection ended; a counted one gives its permit back.
    pub fn connection_finished(&mut self, counted: bool)
        ensures
            old(self)@.within_quotas() ==> final(self)@.within_quotas(),
            final(self)@ == (AcceptView {
                connections: if counted && old(self)@.connections > 0 {
                    (old(self)@.connections - 1) as usize
                } else {
                    old(self)@.connections
                },
                ..old(self)@
            }),
            final(self)@ == accept_after(old(self)@, AcceptEvent::ConnectionEnded { counted }),
    {
        if counted && self.connections > 0 {
            self.connections = self.connections - 1;
        }
    }

    /// Shutdown is asked for.
    pub fn shutdown(&mut self)
        ensures
            old(self)@.within_quotas() ==> final(self)@.within_quotas(),
            final(self)@ == (AcceptView { draining: true, ..old(self)@ }),
            final(self)@ == accept_after(old(self)@, AcceptEvent::Shutdown),
    {
        self.draining = true;
    }
}

/// What a stopping server does next.
pub open spec fn drained(tasks: usize, remaining_millis: u64) -> DrainAction {
    if tasks == 0 || remaining_millis == 0 {
        DrainAction::Close
    } else {
        DrainAction::Wait
    }
}

/// What to do while `tasks` connections are left and the deadline is `remaining_millis` away.
pub fn drain_action(tasks: usize, remaining_millis: u64) -> (action: DrainAction)
    ensures
        action == (if tasks > 0 && remaining_millis > 0 {
            DrainAction::Wait
        } else {
            DrainAction::Close
        }),
        action == drained(tasks, remaining_millis),
{
    if tasks > 0 && remaining_millis > 0 {
        DrainAction::Wait
    } else {
        DrainAction::Close
    }
}

/// Once shutdown was asked for, no handshake that ends leads to a served connection.
pub proof fn law_shutdown_admits_no_connection(before: AcceptView, outcome: HandshakeOutcome)
    requires
        before.draining,
    ensures
        !(handshake_decision(before, outcome) is Serve),
{
}

/// Bootstrap and enrollment never take a connection of the Relay protocol away: with the
/// connection quota exhausted they are still served.
pub proof fn law_enrollment_has_its_own_quota(before: AcceptView, protocol: Option<&[u8]>)
    requires
        !before.draining,
        !counted_protocol(protocol),
    ensures
        handshake_decision(before, HandshakeOutcome::Done(protocol)) == (HandshakeAction::Serve {
            counted: false,
        }),
{
}

/// Stages in which the transport configuration of a server is built.
#[derive(Debug, Clone, Copy, PartialEq, Eq)]
pub enum ConfigStage {
    /// Load the server's certificate chain.
    LoadChain,
    /// Load the server's private key.
    LoadKey,
    /// Set the TLS provider up for TLS 1.3.
    Prepare,
    /// Load the client CA.
    LoadClientRoots,
    /// Put the client CA into the trust store.
    TrustClientRoots,
    /// Load the Core enrollment CA.
    LoadEnrollmentRoots,
    /// Put the Core enrollment CA into the trust store.
    TrustEnrollmentRoots,
    /// Build the verifier of client certificates.
    BuildVerifier,
    /// Set the chain and the key.
    Certify,
    /// Hand the TLS configuration to QUIC.
    Adapt,
    /// Set the transport limits.
    Limit,
    /// The configuration is complete.
    Built,
    /// The configuration was refused.
    Failed(RelayError),
}

/// What a refusal by the TLS library is called in a stage; `None` where a stage reports its own
/// failure.
pub open spec fn config_refusal(policy: ClientAuthentication, stage: ConfigStage) -> Option<
    &'static str,
> {
    match stage {
        ConfigStage::Prepare => Some("TLS 1.3 provider configuration failed"),
        ConfigStage::TrustEnrollmentRoots => Some("trusted Core enrollment CA is invalid"),
        ConfigStage::BuildVerifier => Some("client CA verifier construction failed"),
        ConfigStage::Certify => if policy == ClientAuthentication::Absent {
            Some("development certificate configuration failed")
        } else {
            Some("server certificate configuration failed")
        },
        ConfigStage::Adapt => Some("QUIC TLS adapter construction failed"),
        _ => None,
    }
}

/// The stage that follows `stage` once it succeeded.
pub open spec fn config_success(policy: ClientAuthentication, stage: ConfigStage) -> ConfigStage {
    match stage {
        ConfigStage::LoadChain => ConfigStage::LoadKey,
        ConfigStage::LoadKey => ConfigStage::Prepare,
        ConfigStage::Prepare => if policy == ClientAuthentication::Absent {
            ConfigStage::Certify
        } else {
            ConfigStage::LoadClientRoots
        },
        ConfigStage::LoadClientRoots => ConfigStage::TrustClientRoots,
        ConfigStage::TrustClientRoots => if policy == ClientAuthentication::Optional {
            ConfigStage::LoadEnrollmentRoots
        } else {
            ConfigStage::BuildVerifier
        },
        ConfigStage::LoadEnrollmentRoots => ConfigStage::TrustEnrollmentRoots,
        ConfigStage::TrustEnrollmentRoots => ConfigStage::BuildVerifier,
        ConfigStage::BuildVerifier => ConfigStage::Certify,
        ConfigStage::Certify => ConfigStage::Adapt,
        ConfigStage::Adapt => ConfigStage::Limit,
        ConfigStage::Limit => ConfigStage::Built,
        ConfigStage::Built => ConfigStage::Built,
        ConfigStage::Failed(error) => ConfigStage::Failed(error),
    }
}

/// The stage that follows `stage` when it ended with `outcome`.
pub open spec fn config_next(
    policy: ClientAuthentication,
    stage: ConfigStage,
    outcome: RelayResult<()>,
) -> ConfigStage {
    match outcome {
        Ok(_) => config_success(policy, stage),
        Err(error) => if stage is Built || stage is Failed {
            stage
        } else {
            match config_refusal(policy, stage) {
                Some(reason) => ConfigStage::Failed(RelayError::TlsConfiguration { reason }),
                None => ConfigStage::Failed(error),
            }
        },
    }
}

/// Goes on with the transport configuration once `stage` ended with `outcome`; it starts with
/// [`ConfigStage::LoadChain`].
pub fn build_server_config(
    policy: ClientAuthentication,
    stage: ConfigStage,
    outcome: RelayResult<()>,
) -> (next: ConfigStage)
    ensures
        next == config_next(policy, stage, outcome),
{
    if let Err(error) = outcome {
        return match stage {
            ConfigStage::Built | ConfigStage::Failed(_) => stage,
            ConfigStage::Prepare => ConfigStage::Failed(
                RelayError::TlsConfiguration { reason: "TLS 1.3 provider configuration failed" },
            ),
            ConfigStage::TrustEnrollmentRoots => ConfigStage::Failed(
                RelayError::TlsConfiguration { reason: "trusted Core enrollment CA is invalid" },
            ),
            ConfigStage::BuildVerifier => ConfigStage::Failed(
                RelayError::TlsConfiguration { reason: "client CA verifier construction failed" },
            ),
            ConfigStage::Certify => if policy == ClientAuthentication::Absent {
                ConfigStage::Failed(
                    RelayError::TlsConfiguration {
                        reason: "development certificate configuration failed",
                    },
                )
            } else {
                ConfigStage::Failed(
                    RelayError::TlsConfiguration {
                        reason: "server certificate configuration failed",
                    },
                )
            },
            ConfigStage::Adapt => ConfigStage::Failed(
                RelayError::TlsConfiguration { reason: "QUIC TLS adapter construction failed" },
            ),
            _ => ConfigStage::Failed(error),
        };
    }
    match stage {
        ConfigStage::LoadChain => ConfigStage::LoadKey,
        ConfigStage::LoadKey => ConfigStage::Prepare,
        ConfigStage::Prepare => if policy == ClientAuthentication::Absent {
            ConfigStage::Certify
        } else {
            ConfigStage::LoadClientRoots
        },
        ConfigStage::LoadClientRoots => ConfigStage::TrustClientRoots,
        ConfigStage::TrustClientRoots => if policy == ClientAuthentication::Optional {
            ConfigStage::LoadEnrollmentRoots
        } else {
            ConfigStage::BuildVerifier
        },
        ConfigStage::LoadEnrollmentRoots => ConfigStage::TrustEnrollmentRoots,
        ConfigStage::TrustEnrollmentRoots => ConfigStage::BuildVerifier,
        ConfigStage::BuildVerifier => ConfigStage::Certify,
        ConfigStage::Certify => ConfigStage::Adapt,
        ConfigStage::Adapt => ConfigStage::Limit,
        ConfigStage::Limit => ConfigStage::Built,
        ConfigStage::Built => ConfigStage::Built,
        ConfigStage::Failed(error) => ConfigStage::Failed(error),
    }
}

/// The stage that a configuration reaches when its stages end with `outcomes`.
pub open spec fn config_reaches(
    policy: ClientAuthentication,
    outcomes: Seq<RelayResult<()>>,
) -> ConfigStage
    decreases outcomes.len(),
{
    if outcomes.len() == 0 {
        ConfigStage::LoadChain
    } else {
        config_next(policy, config_reaches(policy, outcomes.drop_last()), outcomes.last())
    }
}

/// The place of a stage in a successful configuration.
pub open spec fn config_rank(policy: ClientAuthentication, stage: ConfigStage) -> int {
    let verifier: int = if policy == ClientAuthentication::Absent {
        2
    } else if policy == ClientAuthentication::Required {
        5
    } else {
        7
    };
    match stage {
        ConfigStage::LoadChain => 0,
        ConfigStage::LoadKey => 1,
        ConfigStage::Prepare => 2,
        ConfigStage::LoadClientRoots => 3,
        ConfigStage::TrustClientRoots => 4,
        ConfigStage::LoadEnrollmentRoots => 5,
        ConfigStage::TrustEnrollmentRoots => 6,
        ConfigStage::BuildVerifier => verifier,
        ConfigStage::Certify => verifier + 1,
        ConfigStage::Adapt => verifier + 2,
        ConfigStage::Limit => verifier + 3,
        ConfigStage::Built => verifier + 4,
        ConfigStage::Failed(_) => -1,
    }
}

/// The stage is one that a configuration under `policy` passes through.
pub open spec fn config_passes(policy: ClientAuthentication, stage: ConfigStage) -> bool {
    match stage {
        ConfigStage::LoadClientRoots | ConfigStage::TrustClientRoots
        | ConfigStage::BuildVerifier => policy != ClientAuthentication::Absent,
        ConfigStage::LoadEnrollmentRoots | ConfigStage::TrustEnrollmentRoots => policy
            == ClientAuthentication::Optional,
        _ => true,
    }
}

/// A server that asks for client certificates is set up only once its client CA was loaded and
/// trusted, the enrollment CA too where certificates are optional, and the verifier built: when the
/// chain and the key are set, every earlier stage of that policy has succeeded.
pub proof fn law_clients_are_verified_against_loaded_roots(
    policy: ClientAuthentication,
    outcomes: Seq<RelayResult<()>>,
)
    ensures
        config_passes(policy, config_reaches(policy, outcomes)),
        config_reaches(policy, outcomes) == ConfigStage::Certify ==> {
            &&& outcomes.len() == config_rank(policy, ConfigStage::Certify)
            &&& forall|i: int| 0 <= i < outcomes.len() ==> (#[trigger] outcomes[i]) is Ok
        },
{
    lemma_config_prefix(policy, outcomes);
}

proof fn lemma_config_prefix(policy: ClientAuthentication, outcomes: Seq<RelayResult<()>>)
    ensures
        config_passes(policy, config_reaches(policy, outcomes)),
        !(config_reaches(policy, outcomes) is Built) && !(config_reaches(
            policy,
            outcomes,
        ) is Failed) ==> {
            &&& outcomes.len() == config_rank(policy, config_reaches(policy, outcomes))
            &&& forall|i: int| 0 <= i < outcomes.len() ==> (#[trigger] outcomes[i]) is Ok
        },
    decreases outcomes.len(),
{
    if outcomes.len() > 0 {
        let earlier = outcomes.drop_last();
        lemma_config_prefix(policy, earlier);
        let reached = config_reaches(policy, outcomes);
        assert forall|i: int|
            0 <= i < outcomes.len() && !(reached is Built) && !(
            reached is Failed) implies (#[trigger] outcomes[i]) is Ok by {
            if i < earlier.len() {
                assert(earlier[i] == outcomes[i]);
            }
        }
    }
}

/// Stages of an update to the latest stable release.
#[derive(Debug, Clone, Copy, PartialEq, Eq)]
pub enum UpdateStage {
    /// Take the update source from the configuration.
    Configure,
    /// Acquire the update lock.
    Lock,
    /// Name the platform.
    Platform,
    /// Download the archive and its checksums.
    Download,
    /// Hold the archive against its checksum.
    VerifyChecksum,
    /// Extract the archive.
    Extract,
    /// Start the extracted binary.
    VerifyStartup,
    /// Find the installed binary.
    Locate,
    /// Replace the installed binary.
    Replace,
    /// The update is installed.
    Installed,
    /// The update failed.
    Failed(RelayError),
}

/// The stage that follows `stage` when it ended with `outcome`.
pub open spec fn update_next(stage: UpdateStage, outcome: RelayResult<()>) -> UpdateStage {
    match (stage, outcome) {
        (UpdateStage::Installed, _) => UpdateStage::Installed,
        (UpdateStage::Failed(error), _) => UpdateStage::Failed(error),
        (UpdateStage::Locate, Err(_)) => UpdateStage::Failed(
            RelayError::Update {
                operation: "running stable-latest update",
                reason: "current executable path is unavailable",
            },
        ),
        (_, Err(error)) => UpdateStage::Failed(error),
        (UpdateStage::Configure, Ok(_)) => UpdateStage::Lock,
        (UpdateStage::Lock, Ok(_)) => UpdateStage::Platform,
        (UpdateStage::Platform, Ok(_)) => UpdateStage::Download,
        (UpdateStage::Download, Ok(_)) => UpdateStage::VerifyChecksum,
        (UpdateStage::VerifyChecksum, Ok(_)) => UpdateStage::Extract,
        (UpdateStage::Extract, Ok(_)) => UpdateStage::VerifyStartup,
        (UpdateStage::VerifyStartup, Ok(_)) => UpdateStage::Locate,
        (UpdateStage::Locate, Ok(_)) => UpdateStage::Replace,
        (UpdateStage::Replace, Ok(_)) => UpdateStage::Installed,
    }
}

/// Goes on with an update once `stage` ended with `outcome`.
pub fn perform_stable_latest_update(stage: UpdateStage, outcome: RelayResult<()>) -> (next:
    UpdateStage)
    ensures
        next == update_next(stage, outcome),
{
    match (stage, outcome) {
        (UpdateStage::Installed, _) => UpdateStage::Installed,
        (UpdateStage::Failed(error), _) => UpdateStage::Failed(error),
        (UpdateStage::Locate, Err(_)) => UpdateStage::Failed(
            RelayError::Update {
                operation: "running stable-latest update",
                reason: "current executable path is unavailable",
            },
        ),
        (_, Err(error)) => UpdateStage::Failed(error),
        (UpdateStage::Configure, Ok(_)) => UpdateStage::Lock,
        (UpdateStage::Lock, Ok(_)) => UpdateStage::Platform,
        (UpdateStage::Platform, Ok(_)) => UpdateStage::Download,
        (UpdateStage::Download, Ok(_)) => UpdateStage::VerifyChecksum,
        (UpdateStage::VerifyChecksum, Ok(_)) => UpdateStage::Extract,
        (UpdateStage::Extract, Ok(_)) => UpdateStage::VerifyStartup,
        (UpdateStage::VerifyStartup, Ok(_)) => UpdateStage::Locate,
        (UpdateStage::Locate, Ok(_)) => UpdateStage::Replace,
        (UpdateStage::Replace, Ok(_)) => UpdateStage::Installed,
    }
}

/// The stage that an update reaches when its stages end with `outcomes`.
pub open spec fn update_reaches(outcomes: Seq<RelayResult<()>>) -> UpdateStage
    decreases outcomes.len(),
{
    if outcomes.len() == 0 {
        UpdateStage::Configure
    } else {
        update_next(update_reaches(outcomes.drop_last()), outcomes.last())
    }
}

/// The place of a stage in a successful update.
pub open spec fn update_rank(stage: UpdateStage) -> int {
    match stage {
        UpdateStage::Configure => 0,
        UpdateStage::Lock => 1,
        UpdateStage::Platform => 2,
        UpdateStage::Download => 3,
        UpdateStage::VerifyChecksum => 4,
        UpdateStage::Extract => 5,
        UpdateStage::VerifyStartup => 6,
        UpdateStage::Locate => 7,
        UpdateStage::Replace => 8,
        UpdateStage::Installed => 9,
        UpdateStage::Failed(_) => -1,
    }
}

/// The installed binary is replaced only after every earlier stage succeeded, the checksum and the
/// trial start among them.
pub proof fn law_update_verifies_before_replacing(outcomes: Seq<RelayResult<()>>)
    ensures
        update_reaches(outcomes) == UpdateStage::Replace ==> outcomes.len() == 8 && forall|i: int|
            0 <= i < 8 ==> (#[trigger] outcomes[i]) is Ok,
{
    lemma_update_prefix(outcomes);
}

proof fn lemma_update_prefix(outcomes: Seq<RelayResult<()>>)
    ensures
        0 <= update_rank(update_reaches(outcomes)) < 9 ==> {
            &&& outcomes.len() == update_rank(update_reaches(outcomes))
            &&& forall|i: int| 0 <= i < outcomes.len() ==> (#[trigger] outcomes[i]) is Ok
        },
    decreases outcomes.len(),
{
    if outcomes.len() > 0 {
        let earlier = outcomes.drop_last();
        lemma_update_prefix(earlier);
        assert forall|i: int|
            0 <= i < outcomes.len() && 0 <= update_rank(update_reaches(outcomes))
                < 9 implies (#[trigger] outcomes[i]) is Ok by {
            if i < earlier.len() {
                assert(earlier[i] == outcomes[i]);
            }
        }
    }
}

/// The release names of the operating system and the architecture.
pub open spec fn platform_of(os: Seq<char>, arch: Seq<char>) -> RelayResult<
    (&'static str, &'static str),
> {
    if os != "macos"@ && os != "linux"@ {
        Err(
            RelayError::Update {
                operation: "running stable-latest update",
                reason: "unsupported operating system",
            },
        )
    } else if arch != "aarch64"@ && arch != "x86_64"@ {
        Err(
            RelayError::Update {
                operation: "running stable-latest update",
                reason: "unsupported architecture",
            },
        )
    } else {
        Ok(
            (
                if os == "macos"@ {
                    "macos"
                } else {
                    "linux"
                },
                if arch == "aarch64"@ {
                    "arm64"
                } else {
                    "x86_64"
                },
            ),
        )
    }
}

/// Names the platform as the release archives do.
pub fn release_platform(os: &str, arch: &str) -> (platform: RelayResult<
    (&'static str, &'static str),
>)
    ensures
        platform == platform_of(os@, arch@),
{
    let release_os = if same_text(os, "macos") {
        "macos"
    } else if same_text(os, "linux") {
        "linux"
    } else {
        return Err(
            RelayError::Update {
                operation: "running stable-latest update",
                reason: "unsupported operating system",
            },
        );
    };
    let release_arch = if same_text(arch, "aarch64") {
        "arm64"
    } else if same_text(arch, "x86_64") {
        "x86_64"
    } else {
        return Err(
            RelayError::Update {
                operation: "running stable-latest update",
                reason: "unsupported architecture",
            },
        );
    };
    Ok((release_os, release_arch))
}

/// The loop after a run of events.
pub open spec fn accept_run(start: AcceptView, events: Seq<AcceptEvent>) -> AcceptView
    decreases events.len(),
{
    if events.len() == 0 {
        start
    } else {
        accept_after(accept_run(start, events.drop_last()), events.last())
    }
}

/// The handshakes that a run lets begin.
pub open spec fn handshakes_begun(start: AcceptView, events: Seq<AcceptEvent>) -> int
    decreases events.len(),
{
    if events.len() == 0 {
        0
    } else {
        let before = accept_run(start, events.drop_last());
        handshakes_begun(start, events.drop_last()) + if events.last() is Incoming
            && !before.draining && before.handshakes < before.max_handshakes {
            1int
        } else {
            0
        }
    }
}

/// The handshakes that end in a run.
pub open spec fn handshakes_ended(events: Seq<AcceptEvent>) -> int
    decreases events.len(),
{
    if events.len() == 0 {
        0
    } else {
        handshakes_ended(events.drop_last()) + if events.last() is HandshakeFailed
            || events.last() is HandshakeDone {
            1int
        } else {
            0
        }
    }
}

/// The counted connections that a run serves.
pub open spec fn connections_served(start: AcceptView, events: Seq<AcceptEvent>) -> int
    decreases events.len(),
{
    if events.len() == 0 {
        0
    } else {
        let before = accept_run(start, events.drop_last());
        connections_served(start, events.drop_last()) + if events.last() == (
        AcceptEvent::HandshakeDone { counted: true }) && !before.draining && before.connections
            < before.max_connections {
            1int
        } else {
            0
        }
    }
}

/// The counted connections that end in a run.
pub open spec fn connections_ended(events: Seq<AcceptEvent>) -> int
    decreases events.len(),
{
    if events.len() == 0 {
        0
    } else {
        connections_ended(events.drop_last()) + if events.last() == (AcceptEvent::ConnectionEnded {
            counted: true,
        }) {
            1int
        } else {
            0
        }
    }
}

/// At no point of the run more has ended than had begun.
pub open spec fn ends_have_begun(start: AcceptView, events: Seq<AcceptEvent>) -> bool
    decreases events.len(),
{
    events.len() == 0 || (ends_have_begun(start, events.drop_last()) && handshakes_ended(events)
        <= handshakes_begun(start, events) && connections_ended(events) <= connections_served(
        start,
        events,
    ))
}

/// Over any run from the start, the handshakes in flight are those that began less those that ended,
/// the connections in flight those that are served less those that ended, and neither exceeds its
/// quota. The quotas stay as they are, and the server stops for good at the first request to.
pub proof fn law_slots_are_those_in_flight(start: AcceptView, events: Seq<AcceptEvent>)
    requires
        start.handshakes == 0,
        start.connections == 0,
        ends_have_begun(start, events),
    ensures
        ({
            let after = accept_run(start, events);
            &&& after.handshakes == handshakes_begun(start, events) - handshakes_ended(events)
            &&& after.connections == connections_served(start, events) - connections_ended(events)
            &&& after.handshakes <= start.max_handshakes
            &&& after.connections <= start.max_connections
            &&& after.max_handshakes == start.max_handshakes
            &&& after.max_connections == start.max_connections
            &&& after.draining <==> start.draining || exists|i: int|
                0 <= i < events.len() && (#[trigger] events[i]) is Shutdown
        }),
    decreases events.len(),
{
    if events.len() > 0 {
        let rest = events.drop_last();
        law_slots_are_those_in_flight(start, rest);
        let after = accept_run(start, events);
        if after.draining && !start.draining {
            if events.last() is Shutdown {
                assert(events[events.len() - 1] is Shutdown);
            } else {
                let i = choose|i: int| 0 <= i < rest.len() && (#[trigger] rest[i]) is Shutdown;
                assert(events[i] is Shutdown);
            }
        }
        if exists|i: int| 0 <= i < events.len() && (#[trigger] events[i]) is Shutdown {
            let i = choose|i: int| 0 <= i < events.len() && (#[trigger] events[i]) is Shutdown;
            if i < rest.len() {
                assert(rest[i] is Shutdown);
            }
        }
    }
}

/// A completed handshake is served if and only if the server does not stop and either its protocol
/// has a quota of its own or there is room for one more connection. It takes a slot of the
/// connections if and only if it is counted.
pub proof fn law_handshakes_are_served_while_there_is_room(
    before: AcceptView,
    protocol: Option<&[u8]>,
)
    ensures
        ({
            let outcome = HandshakeOutcome::Done(protocol);
            let action = handshake_decision(before, outcome);
            let after = accept_after(before, handshake_event(outcome));
            let counted = !(protocol matches Some(name) && (name@ == vstd::utf8::encode_utf8(
                crate::quic_server::connection::QRM_ENROLLMENT_ALPN@,
            ) || name@ == vstd::utf8::encode_utf8(
                crate::quic_server::connection::QRM_BOOTSTRAP_ALPN@,
            )));
            &&& action == (HandshakeAction::Serve { counted: false }) <==> !before.draining
                && !counted
            &&& action == (HandshakeAction::Serve { counted: true }) <==> !before.draining && counted
                && before.connections < before.max_connections
            &&& action == HandshakeAction::CloseOverQuota <==> !before.draining && counted
                && before.connections >= before.max_connections
            &&& action == HandshakeAction::Forget <==> before.draining
            &&& before.connections < usize::MAX ==> (after.connections == before.connections + 1
                <==> action == (HandshakeAction::Serve { counted: true }))
        }),
{
}

/// A failed handshake is forgotten and takes no slot of the connections.
pub proof fn law_failed_handshakes_are_forgotten(before: AcceptView)
    ensures
        handshake_decision(before, HandshakeOutcome::Failed) == HandshakeAction::Forget,
        accept_after(before, handshake_event(HandshakeOutcome::Failed)).connections
            == before.connections,
{
}

/// The handshakes of all protocols together have room for every connection and every enrollment;
/// enrollment and bootstrap each have the quota of enrollments.
pub proof fn law_quotas_follow_the_limits(limits: ServerLimits)
    requires
        limits.max_connections + limits.max_enrollment_handshakes <= usize::MAX,
    ensures
        quotas_of(limits).connections == limits.max_connections,
        quotas_of(limits).pre_auth_handshakes == limits.max_connections
            + limits.max_enrollment_handshakes,
        quotas_of(limits).bootstrap_handshakes == limits.max_enrollment_handshakes,
        quotas_of(limits).enrollment_handshakes == limits.max_enrollment_handshakes,
        quotas_of(limits).bootstrap_connections == limits.max_enrollment_connections,
        quotas_of(limits).enrollment_connections == limits.max_enrollment_connections,
{
}

/// A server is made if and only if its generation is not zero and its configuration is valid, and it
/// holds what it was made with. The generation is checked first.
pub proof fn law_servers_are_made_from_valid_parts(
    server: RelayResult<QuicRelayServer>,
    limits: ServerLimits,
    validated: RelayResult<()>,
    relay_generation: u64,
    endpoint: Endpoint,
    relay_identity: Seq<u8>,
)
    requires
        server_made(server, limits, validated, relay_generation, endpoint, relay_identity),
    ensures
        server is Ok <==> relay_generation != 0 && validated is Ok,
        server matches Ok(made) ==> made@.limits == limits && made@.relay_generation
            == relay_generation && made@.relay_identity == relay_identity && made@.endpoint
            == endpoint,
        relay_generation == 0 ==> (server matches Err(error) && error == (
        RelayError::ListenerStartup { reason: "Relay generation must be non-zero" })),
        relay_generation != 0 && validated is Err ==> (server matches Err(error) && error
            == validated->Err_0),
{
}

/// A release exists for two systems and two architectures, each under its own name; the system is
/// checked first.
pub proof fn law_releases_exist_for_known_platforms(os: Seq<char>, arch: Seq<char>)
    ensures
        platform_of(os, arch) is Ok <==> (os == "macos"@ || os == "linux"@) && (arch == "aarch64"@
            || arch == "x86_64"@),
        platform_of(os, arch) matches Ok(names) ==> {
            &&& names.0@ == os
            &&& arch == "aarch64"@ ==> names.1@ == "arm64"@
            &&& arch == "x86_64"@ ==> names.1@ == "x86_64"@
        },
        os != "macos"@ && os != "linux"@ ==> platform_of(os, arch) == Err::<
            (&'static str, &'static str),
            RelayError,
        >(
            RelayError::Update {
                operation: "running stable-latest update",
                reason: "unsupported operating system",
            },
        ),
        (os == "macos"@ || os == "linux"@) && platform_of(os, arch) is Err ==> platform_of(os, arch)
            == Err::<(&'static str, &'static str), RelayError>(
            RelayError::Update {
                operation: "running stable-latest update",
                reason: "unsupported architecture",
            },
        ),
{
    reveal_strlit("aarch64");
    reveal_strlit("x86_64");
    assert("aarch64"@.len() != "x86_64"@.len());
}

/// An update is installed if and only if all nine steps succeed one after the other; the first that
/// fails ends it, with its own failure but for the path of the executable.
pub proof fn law_update_stops_at_the_first_failure(outcomes: Seq<RelayResult<()>>, at: int)
    ensures
        outcomes.len() >= 9 && (forall|i: int| 0 <= i < 9 ==> (#[trigger] outcomes[i]) is Ok)
            ==> update_reaches(outcomes) == UpdateStage::Installed,
        update_reaches(outcomes) == UpdateStage::Installed ==> outcomes.len() >= 9 && forall|i: int|
            0 <= i < 9 ==> (#[trigger] outcomes[i]) is Ok,
        0 <= at < outcomes.len() && at < 9 && outcomes[at] is Err && (forall|i: int|
            0 <= i < at ==> (#[trigger] outcomes[i]) is Ok) ==> update_reaches(outcomes)
            == UpdateStage::Failed(
            if at == 7 {
                RelayError::Update {
                    operation: "running stable-latest update",
                    reason: "current executable path is unavailable",
                }
            } else {
                outcomes[at]->Err_0
            },
        ),
{
    lemma_update_reaches(outcomes, at);
}

/// How far an update has come.
proof fn lemma_update_reaches(outcomes: Seq<RelayResult<()>>, at: int)
    ensures
        update_rank(update_reaches(outcomes)) >= 0 ==> {
            &&& forall|i: int| 0 <= i < outcomes.len() && i < 9 ==> (#[trigger] outcomes[i]) is Ok
            &&& update_rank(update_reaches(outcomes)) == if outcomes.len() < 9 {
                outcomes.len() as int
            } else {
                9
            }
        },
        (forall|i: int| 0 <= i < outcomes.len() && i < 9 ==> (#[trigger] outcomes[i]) is Ok)
            ==> update_rank(update_reaches(outcomes)) >= 0,
        0 <= at < outcomes.len() && at < 9 && outcomes[at] is Err && (forall|i: int|
            0 <= i < at ==> (#[trigger] outcomes[i]) is Ok) ==> update_reaches(outcomes)
            == UpdateStage::Failed(
            if at == 7 {
                RelayError::Update {
                    operation: "running stable-latest update",
                    reason: "current executable path is unavailable",
                }
            } else {
                outcomes[at]->Err_0
            },
        ),
    decreases outcomes.len(),
{
    if outcomes.len() > 0 {
        let rest = outcomes.drop_last();
        lemma_update_reaches(rest, at);
        assert forall|i: int| 0 <= i < rest.len() implies (#[trigger] rest[i]) == outcomes[i] by {}
        if forall|i: int| 0 <= i < outcomes.len() && i < 9 ==> (#[trigger] outcomes[i]) is Ok {
            assert forall|i: int| 0 <= i < rest.len() && i < 9 implies (#[trigger] rest[i]) is Ok by {
                assert(outcomes[i] is Ok);
            }
        }
        if update_rank(update_reaches(outcomes)) >= 0 {
            assert forall|i: int| 0 <= i < outcomes.len() && i < 9 implies (#[trigger] outcomes[i])
                is Ok by {
                if i < rest.len() {
                    assert(rest[i] is Ok);
                }
            }
        }
        if 0 <= at < outcomes.len() && at < 9 && outcomes[at] is Err && (forall|i: int|
            0 <= i < at ==> (#[trigger] outcomes[i]) is Ok) {
            assert forall|i: int| 0 <= i < at && i < rest.len() implies (#[trigger] rest[i]) is Ok by {
                assert(outcomes[i] is Ok);
            }
            if at < rest.len() {
                assert(rest[at] is Err);
            } else {
                assert(update_rank(update_reaches(rest)) == at);
            }
        }
    }
}

/// A stage that fails ends the configuration with the reason of that stage, or with its own failure
/// where the stage has no reason; nothing leads on from an end.
pub proof fn law_configuration_stops_at_the_first_failure(
    policy: ClientAuthentication,
    stage: ConfigStage,
    error: RelayError,
    outcome: RelayResult<()>,
)
    ensures
        stage is Built || stage is Failed ==> config_next(policy, stage, outcome) == stage,
        !(stage is Built) && !(stage is Failed) ==> {
            let next = config_next(policy, stage, Err(error));
            &&& next is Failed
            &&& (stage is LoadChain || stage is LoadKey || stage is LoadClientRoots
                || stage is TrustClientRoots || stage is LoadEnrollmentRoots || stage is Limit)
                <==> config_refusal(policy, stage) is None
            &&& config_refusal(policy, stage) is None ==> next == ConfigStage::Failed(error)
            &&& config_refusal(policy, stage) matches Some(reason) ==> next == ConfigStage::Failed(
                RelayError::TlsConfiguration { reason },
            )
        },
{
}

/// A configuration in which every stage succeeds is built after six stages without client
/// authentication, after nine with it, and after eleven where enrollment roots are trusted too.
pub proof fn law_configuration_is_built_in_order(
    policy: ClientAuthentication,
    outcomes: Seq<RelayResult<()>>,
)
    requires
        forall|i: int| 0 <= i < outcomes.len() ==> (#[trigger] outcomes[i]) is Ok,
        outcomes.len() == (if policy == ClientAuthentication::Absent {
            6int
        } else if policy == ClientAuthentication::Required {
            9
        } else {
            11
        }),
    ensures
        config_reaches(policy, outcomes) == ConfigStage::Built,
        config_reaches(policy, outcomes.take(2)) == ConfigStage::Prepare,
        policy != ClientAuthentication::Absent ==> config_reaches(policy, outcomes.take(3))
            == ConfigStage::LoadClientRoots,
        policy == ClientAuthentication::Optional ==> config_reaches(policy, outcomes.take(5))
            == ConfigStage::LoadEnrollmentRoots,
{
    lemma_configured(policy, outcomes);
    lemma_configured(policy, outcomes.take(2));
    lemma_configured(policy, outcomes.take(3));
    if outcomes.len() > 5 {
        lemma_configured(policy, outcomes.take(5));
    }
}

/// Each success leads to the next stage.
proof fn lemma_configured(policy: ClientAuthentication, outcomes: Seq<RelayResult<()>>)
    requires
        forall|i: int| 0 <= i < outcomes.len() ==> (#[trigger] outcomes[i]) is Ok,
    ensures
        config_passes(policy, config_reaches(policy, outcomes)),
        outcomes.len() <= config_rank(policy, ConfigStage::Built) ==> config_rank(
            policy,
            config_reaches(policy, outcomes),
        ) == outcomes.len(),
    decreases outcomes.len(),
{
    if outcomes.len() > 0 {
        let rest = outcomes.drop_last();
        assert forall|i: int| 0 <= i < rest.len() implies (#[trigger] rest[i]) is Ok by {
            assert(rest[i] == outcomes[i]);
        }
        lemma_configured(policy, rest);
    }
}

/// A stopping server waits while tasks are left and time is, and closes otherwise.
pub proof fn law_drain_waits_for_tasks(tasks: usize, remaining_millis: u64)
    ensures
        drained(tasks, remaining_millis) == DrainAction::Wait <==> tasks > 0 && remaining_millis
            > 0,
        drained(0, remaining_millis) == DrainAction::Close,
        drained(tasks, 0) == DrainAction::Close,
{
}

/// Only a verified server owns an allowlist, and only one that enrolls owns what enrollment needs.
pub proof fn law_verified_servers_own_their_stores(mode: SecurityMode, enrollment_enabled: bool)
    ensures
        stores_of(mode, enrollment_enabled).allowlist <==> mode == SecurityMode::Verified,
        stores_of(mode, enrollment_enabled).issuance_results <==> mode == SecurityMode::Verified
            && enrollment_enabled,
        stores_of(mode, enrollment_enabled).bootstrap <==> stores_of(
            mode,
            enrollment_enabled,
        ).issuance_results,
{
}

/// Limits that are too large together leave as many handshakes as can be counted.
pub proof fn law_handshakes_are_capped(limits: ServerLimits)
    ensures
        limits.max_connections + limits.max_enrollment_handshakes > usize::MAX ==> quotas_of(
            limits,
        ).pre_auth_handshakes == usize::MAX,
        quotas_of(limits).pre_auth_handshakes >= limits.max_connections,
        quotas_of(limits).pre_auth_handshakes >= limits.max_enrollment_handshakes,
{
}

/// Each stage that has a reason of its own fails with it; the certificate of a development server is
/// told apart from that of any other.
pub proof fn law_configuration_failures_name_their_stage(
    policy: ClientAuthentication,
    error: RelayError,
)
    ensures
        config_next(policy, ConfigStage::Prepare, Err(error)) == ConfigStage::Failed(
            RelayError::TlsConfiguration { reason: "TLS 1.3 provider configuration failed" },
        ),
        config_next(policy, ConfigStage::TrustEnrollmentRoots, Err(error)) == ConfigStage::Failed(
            RelayError::TlsConfiguration { reason: "trusted Core enrollment CA is invalid" },
        ),
        config_next(policy, ConfigStage::BuildVerifier, Err(error)) == ConfigStage::Failed(
            RelayError::TlsConfiguration { reason: "client CA verifier construction failed" },
        ),
        policy == ClientAuthentication::Absent ==> config_next(
            policy,
            ConfigStage::Certify,
            Err(error),
        ) == ConfigStage::Failed(
            RelayError::TlsConfiguration {
                reason: "development certificate configuration failed",
            },
        ),
        policy != ClientAuthentication::Absent ==> config_next(
            policy,
            ConfigStage::Certify,
            Err(error),
        ) == ConfigStage::Failed(
            RelayError::TlsConfiguration { reason: "server certificate configuration failed" },
        ),
        config_next(policy, ConfigStage::Adapt, Err(error)) == ConfigStage::Failed(
            RelayError::TlsConfiguration { reason: "QUIC TLS adapter construction failed" },
        ),
{
}

/// Without client authentication the server goes from its provider to its certificate; with it, the
/// roots of clients come between, and those of enrollment only where it is optional.
pub proof fn law_configuration_takes_the_stages_of_its_policy(policy: ClientAuthentication)
    ensures
        config_next(policy, ConfigStage::Prepare, Ok(())) == (if policy
            == ClientAuthentication::Absent {
            ConfigStage::Certify
        } else {
            ConfigStage::LoadClientRoots
        }),
        config_next(policy, ConfigStage::TrustClientRoots, Ok(())) == (if policy
            == ClientAuthentication::Optional {
            ConfigStage::LoadEnrollmentRoots
        } else {
            ConfigStage::BuildVerifier
        }),
        config_next(policy, ConfigStage::TrustEnrollmentRoots, Ok(())) == ConfigStage::BuildVerifier,
        config_next(policy, ConfigStage::BuildVerifier, Ok(())) == ConfigStage::Certify,
        config_next(policy, ConfigStage::Certify, Ok(())) == ConfigStage::Adapt,
        config_next(policy, ConfigStage::Adapt, Ok(())) == ConfigStage::Limit,
        config_next(policy, ConfigStage::Limit, Ok(())) == ConfigStage::Built,
{
}

} // verus!
