//! The iroh application Relay endpoint: its control frames, its pairing rules and its sessions.

pub mod config;
pub mod exchange;
pub mod hdp;
pub mod pairing;
pub mod sessions;
pub mod workspace;

pub use config::{
    IrohEndpointError, IrohRelayConfig, RelayMode, DEFAULT_CONTROL_TIMEOUT, IROH_RELAY_ALPN,
    MAX_IROH_CONNECTIONS,
};
pub use hdp::{
    HdpFrame, HdpFrameError, HdpKind, HDP1_HEADER_BYTES, HDP1_MAX_FRAME_BYTES, HDP1_VERSION,
};
pub use pairing::{
    IrohRelayState, MAX_PAIRING_ATTEMPTS, MAX_PAIRING_CHALLENGES_PER_WINDOW, MAX_PAIRING_RECORDS,
    PAIRING_CHALLENGE_WINDOW,
};
pub use workspace::{
    HerdrWorkspacePairingVerifier, RejectAllPairing, PAIRING_CHALLENGE_TTL_SECS,
};
