//! The session manager: names, leases, data ports and the children that serve sessions.

pub mod child;
pub mod config;
pub mod files;
pub mod generated;
pub mod generations;
pub mod leases;
pub mod lifecycle;
pub mod names;
pub mod ports;
pub mod resolver;
pub mod slots;
pub mod state;

pub use child::{
    ChildBootstrap, ChildHandle, ChildSpec, FakeChildSpawner, ProcessChildSpawner,
    CHILD_BOOTSTRAP_TIMEOUT_SECS,
};
pub use config::{
    ManagerConfig, ManagerSettings, LAUNCH_AGENT_LABEL, MANAGER_HEARTBEAT_INTERVAL_SECS,
    MANAGER_IDLE_GRACE_SECS, MANAGER_LEASE_EXPIRY_SECS,
};
pub use lifecycle::{LeaseGrant, Manager, ReapReport, SessionStatusView};
pub use names::{
    FingerprintStore, LeaseToken, SessionFingerprint, SessionName, FINGERPRINT_TEXT_BYTES,
};
pub use ports::{
    DataPortAllocator, BROKER_DATA_PORT_BASE, BROKER_DATA_PORT_LAST,
    BROKER_DISCOVERY_PORT_ATTEMPTS, BROKER_DISCOVERY_PORT_BASE, BROKER_DISCOVERY_PORT_LAST,
};
pub use resolver::{
    HerdrSessionResolver, ResolvedSession, UnixSocketIdentity, SESSION_FINGERPRINT_FILE,
    SESSION_RELAY_CONFIG_FILE,
};
pub use state::{epoch_seconds, PersistedManagerState, MANAGER_STATE_FILE};
