//! Bounded, redacted failures of the Relay.

use vstd::prelude::*;

verus! {

/// Host error categories that the Relay tells apart.
#[derive(Debug, Clone, Copy, PartialEq, Eq, Structural)]
pub enum IoKind {
    /// The named object does not exist.
    NotFound,
    /// The host refused access.
    PermissionDenied,
    /// The address is already bound by another owner.
    AddrInUse,
    /// Nobody listens at the address.
    ConnectionRefused,
    /// The object exists although a new one was asked for.
    AlreadyExists,
    /// Any other host failure.
    Other,
}

/// Every failure that a Relay operation reports; no variant carries secret material.
#[derive(Debug, Clone, Copy, PartialEq, Eq)]
pub enum RelayError {
    /// A QUIC peer broke the application protocol.
    QuicProtocol {
        /// Fixed description of the violation.
        reason: &'static str,
    },
    /// A QUIC connection could not be established in time.
    QuicHandshake {
        /// Fixed description of the failed stage.
        reason: &'static str,
    },
    /// A QUIC peer is not authorized.
    QuicAuthentication,
    /// A session authority check failed.
    SessionAuthority,
    /// A bounded resource is exhausted.
    ResourceLimit,
    /// Protected configuration or state could not be read.
    ConfigurationRead,
    /// A configuration document is not well formed.
    ConfigurationSyntax,
    /// A configuration field holds an unacceptable value.
    InvalidConfiguration {
        /// Name of the field.
        field: &'static str,
        /// Fixed description of the violated rule.
        reason: &'static str,
    },
    /// A host operation failed.
    Io {
        /// Fixed description of the operation.
        operation: &'static str,
        /// Category of the host failure.
        kind: IoKind,
    },
    /// A Unix socket is not the expected one.
    SocketIdentity {
        /// Fixed description of the operation.
        operation: &'static str,
        /// Fixed description of the mismatch.
        reason: &'static str,
    },
    /// The upstream session does not answer.
    UpstreamUnavailable,
    /// A fingerprint is not well formed.
    InvalidFingerprint,
    /// Every candidate port is taken.
    PortRangeExhausted,
    /// A child process did not follow its lifecycle.
    ChildLifecycle {
        /// Fixed description of the violation.
        reason: &'static str,
    },
    /// The session manager refused an operation.
    Manager {
        /// Fixed description of the refusal.
        reason: &'static str,
    },
    /// A lease token is unknown or expired.
    InvalidLease,
    /// The configured listener class cannot be served.
    UnsupportedListenerClass,
    /// The listener could not be started.
    ListenerStartup {
        /// Fixed description of the failed stage.
        reason: &'static str,
    },
    /// The configured listener address cannot be bound.
    ListenerAddressUnavailable,
    /// The peer address is outside the allowed set.
    SourceNotAllowed,
    /// The client quota is exhausted.
    ClientLimit,
    /// The handshake quota is exhausted.
    HandshakeLimit,
    /// The TLS peer is not authorized.
    TlsAuthentication,
    /// TLS material could not be turned into a configuration.
    TlsConfiguration {
        /// Fixed description of the failed stage.
        reason: &'static str,
    },
    /// The Relay handshake failed.
    RelayHandshake,
    /// The Relay handshake did not complete in time.
    RelayHandshakeTimeout,
    /// A bridge saw no traffic within its bound.
    BridgeIdleTimeout,
    /// A software update failed.
    Update {
        /// Fixed description of the operation.
        operation: &'static str,
        /// Fixed description of the failure.
        reason: &'static str,
    },
}

/// Result of a Relay operation.
pub type RelayResult<T> = Result<T, RelayError>;

} // verus!
