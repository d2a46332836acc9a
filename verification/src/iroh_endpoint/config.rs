//! Bounds and policy of one endpoint.

use crate::address::ListenAddress;
use vstd::prelude::*;

verus! {

/// Largest number of accepted connections of one endpoint.
pub const MAX_IROH_CONNECTIONS: usize = 1024;

/// Largest number of sessions of one connection.
pub const MAX_SESSION_STREAMS: usize = 64;

/// Protocol that TLS negotiates for connections of Cores.
pub const IROH_RELAY_ALPN: &'static str = "herdr-dog-iroh/1";

/// Longest wait of a control operation, in nanoseconds, unless configured otherwise.
pub const DEFAULT_CONTROL_TIMEOUT: u64 = 5_000_000_000;

/// Bound on the configured wait of a control operation, in nanoseconds.
pub const MAX_CONTROL_TIMEOUT: u64 = 30_000_000_000;

/// Failures of creating or shutting down an endpoint.
#[derive(Clone, Copy, Debug, Eq, PartialEq)]
pub enum IrohEndpointError {
    /// A bounded endpoint setting was invalid.
    InvalidConfiguration {
        /// Name of the setting.
        field: &'static str,
    },
    /// The endpoint could not bind.
    Bind,
    /// The router could not shut down cleanly.
    Shutdown,
}

/// Use of the network relays between two endpoints.
#[derive(Clone, Copy, Debug, Eq, PartialEq, Structural)]
pub enum RelayMode {
    /// The public relays.
    Default,
    /// None.
    Disabled,
}

/// Mathematical value of a configuration.
#[verifier::ext_equal]
pub struct ConfigView {
    /// Connections at once.
    pub max_connections: usize,
    /// Sessions of one connection.
    pub max_sessions_per_connection: usize,
    /// Wait of a control operation, in nanoseconds.
    pub control_timeout: u64,
    /// Generation of the Relay process.
    pub relay_generation: u64,
    /// Socket that session streams connect to.
    pub socket_path: Option<Seq<char>>,
    /// Address to bind.
    pub bind_addr: Option<crate::address::AddressView>,
    /// Use of the network relays.
    pub relay_mode: RelayMode,
}

/// Bounded configuration of one endpoint.
pub struct IrohRelayConfig {
    max_connections: usize,
    max_sessions_per_connection: usize,
    control_timeout: u64,
    relay_generation: u64,
    socket_path: Option<String>,
    bind_addr: Option<ListenAddress>,
    relay_mode: RelayMode,
}

impl View for IrohRelayConfig {
    type V = ConfigView;

    closed spec fn view(&self) -> ConfigView {
        ConfigView {
            max_connections: self.max_connections,
            max_sessions_per_connection: self.max_sessions_per_connection,
            control_timeout: self.control_timeout,
            relay_generation: self.relay_generation,
            socket_path: match self.socket_path {
                Some(path) => Some(path@),
                None => None,
            },
            bind_addr: match self.bind_addr {
                Some(address) => Some(address@),
                None => None,
            },
            relay_mode: self.relay_mode,
        }
    }
}

/// The fixed default policy.
pub open spec fn default_config() -> ConfigView {
    ConfigView {
        max_connections: 64,
        max_sessions_per_connection: MAX_SESSION_STREAMS,
        control_timeout: DEFAULT_CONTROL_TIMEOUT,
        relay_generation: 1,
        socket_path: None,
        bind_addr: None,
        relay_mode: RelayMode::Default,
    }
}

/// The first setting outside its bounds, if any.
pub open spec fn invalid_field(config: ConfigView) -> Option<&'static str> {
    if !(0 < config.max_connections <= MAX_IROH_CONNECTIONS) {
        Some("max_connections")
    } else if !(0 < config.max_sessions_per_connection <= MAX_SESSION_STREAMS) {
        Some("max_sessions_per_connection")
    } else if !(0 < config.control_timeout <= MAX_CONTROL_TIMEOUT) {
        Some("control_timeout")
    } else if config.relay_generation == 0 {
        Some("relay_generation")
    } else {
        None
    }
}

impl Default for IrohRelayConfig {
    /// The fixed default policy.
    fn default() -> (config: Self)
        ensures
            config@ == default_config(),
    {
        IrohRelayConfig {
            max_connections: 64,
            max_sessions_per_connection: MAX_SESSION_STREAMS,
            control_timeout: DEFAULT_CONTROL_TIMEOUT,
            relay_generation: 1,
            socket_path: None,
            bind_addr: None,
            relay_mode: RelayMode::Default,
        }
    }
}

impl IrohRelayConfig {
    /// Makes a bounded configuration; the other settings keep their defaults.
    ///
    /// `control_timeout` is in nanoseconds.
    pub fn new(
        max_connections: usize,
        max_sessions_per_connection: usize,
        control_timeout: u64,
    ) -> (config: Result<Self, IrohEndpointError>)
        ensures
            ({
                let wanted = ConfigView {
                    max_connections,
                    max_sessions_per_connection,
                    control_timeout,
                    ..default_config()
                };
                match config {
                    Ok(made) => invalid_field(wanted) is None && made@ == wanted,
                    Err(error) => invalid_field(wanted) is Some && error == (
                    IrohEndpointError::InvalidConfiguration {
                        field: invalid_field(wanted)->Some_0,
                    }),
                }
            }),
    {
        let config = IrohRelayConfig {
            max_connections,
            max_sessions_per_connection,
            control_timeout,
            relay_generation: 1,
            socket_path: None,
            bind_addr: None,
            relay_mode: RelayMode::Default,
        };
        match config.validate() {
            Ok(_) => Ok(config),
            Err(error) => Err(error),
        }
    }

    /// Holds every setting to its bounds; an endpoint is bound only with a valid configuration.
    pub fn validate(&self) -> (valid: Result<(), IrohEndpointError>)
        ensures
            match valid {
                Ok(_) => invalid_field(self@) is None,
                Err(error) => invalid_field(self@) is Some && error == (
                IrohEndpointError::InvalidConfiguration { field: invalid_field(self@)->Some_0 }),
            },
    {
        if self.max_connections == 0 || self.max_connections > MAX_IROH_CONNECTIONS {
            return Err(IrohEndpointError::InvalidConfiguration { field: "max_connections" });
        }
        if self.max_sessions_per_connection == 0 || self.max_sessions_per_connection
            > MAX_SESSION_STREAMS {
            return Err(
                IrohEndpointError::InvalidConfiguration { field: "max_sessions_per_connection" },
            );
        }
        if self.control_timeout == 0 || self.control_timeout > MAX_CONTROL_TIMEOUT {
            return Err(IrohEndpointError::InvalidConfiguration { field: "control_timeout" });
        }
        if self.relay_generation == 0 {
            return Err(IrohEndpointError::InvalidConfiguration { field: "relay_generation" });
        }
        Ok(())
    }

    /// Sets the socket that session streams connect to.
    pub fn with_socket_connector(self, socket_path: String) -> (config: Self)
        ensures
            config@ == (ConfigView { socket_path: Some(socket_path@), ..self@ }),
    {
        let mut config = self;
        config.socket_path = Some(socket_path);
        config
    }

    /// Sets the generation of the Relay process, which is never zero.
    pub fn with_relay_generation(self, generation: u64) -> (config: Result<Self, IrohEndpointError>)
        ensures
            match config {
                Ok(changed) => generation != 0 && changed@ == (ConfigView {
                    relay_generation: generation,
                    ..self@
                }),
                Err(error) => generation == 0 && error == (
                IrohEndpointError::InvalidConfiguration { field: "relay_generation" }),
            },
    {
        if generation == 0 {
            return Err(IrohEndpointError::InvalidConfiguration { field: "relay_generation" });
        }
        let mut config = self;
        config.relay_generation = generation;
        Ok(config)
    }

    /// Sets the address to bind.
    pub fn with_bind_addr(self, address: ListenAddress) -> (config: Self)
        ensures
            config@ == (ConfigView { bind_addr: Some(address@), ..self@ }),
    {
        let mut config = self;
        config.bind_addr = Some(address);
        config
    }

    /// Switches the network relays off, for local tests.
    pub fn without_network_relay_for_test(self) -> (config: Self)
        ensures
            config@ == (ConfigView { relay_mode: RelayMode::Disabled, ..self@ }),
    {
        let mut config = self;
        config.relay_mode = RelayMode::Disabled;
        config
    }

    /// Connections at once.
    pub fn max_connections(&self) -> (limit: usize)
        ensures
            limit == self@.max_connections,
    {
        self.max_connections
    }

    /// Sessions of one connection.
    pub fn max_sessions_per_connection(&self) -> (limit: usize)
        ensures
            limit == self@.max_sessions_per_connection,
    {
        self.max_sessions_per_connection
    }

    /// Wait of a control operation, in nanoseconds.
    pub fn control_timeout(&self) -> (nanos: u64)
        ensures
            nanos == self@.control_timeout,
    {
        self.control_timeout
    }

    /// Generation of the Relay process.
    pub fn relay_generation(&self) -> (generation: u64)
        ensures
            generation == self@.relay_generation,
    {
        self.relay_generation
    }

    /// Use of the network relays.
    pub fn relay_mode(&self) -> (mode: RelayMode)
        ensures
            mode == self@.relay_mode,
    {
        self.relay_mode
    }

    /// Socket that session streams connect to.
    pub fn socket_path(&self) -> (path: Option<&str>)
        ensures
            match path {
                Some(text) => self@.socket_path == Some(text@),
                None => self@.socket_path is None,
            },
    {
        match &self.socket_path {
            Some(path) => Some(path.as_str()),
            None => None,
        }
    }

    /// Address to bind.
    pub fn bind_addr(&self) -> (address: Option<&ListenAddress>)
        ensures
            match address {
                Some(found) => self@.bind_addr == Some(found@),
                None => self@.bind_addr is None,
            },
    {
        match &self.bind_addr {
            Some(address) => Some(address),
            None => None,
        }
    }
}

/// The default policy is within its bounds, and every setter keeps a configuration within them.
pub proof fn law_configuration_stays_valid(
    config: ConfigView,
    socket_path: Seq<char>,
    generation: u64,
    address: crate::address::AddressView,
)
    requires
        invalid_field(config) is None,
    ensures
        invalid_field(default_config()) is None,
        invalid_field(ConfigView { socket_path: Some(socket_path), ..config }) is None,
        generation != 0 ==> invalid_field(
            ConfigView { relay_generation: generation, ..config },
        ) is None,
        invalid_field(ConfigView { bind_addr: Some(address), ..config }) is None,
        invalid_field(ConfigView { relay_mode: RelayMode::Disabled, ..config }) is None,
{
}

/// A configuration is valid if and only if it allows one to 1024 connections, one to 64 sessions of
/// each, a control timeout of at most 30 seconds that is not zero, and a generation that is not zero.
/// The field that is named is out of its bounds, and every field before it is within them.
pub proof fn law_configuration_bounds(config: ConfigView)
    ensures
        ({
            let connections = 1 <= config.max_connections <= 1024;
            let sessions = 1 <= config.max_sessions_per_connection <= 64;
            let timeout = 1 <= config.control_timeout <= 30 * 1000000000;
            let generation = config.relay_generation != 0;
            &&& invalid_field(config) is None <==> connections && sessions && timeout && generation
            &&& !connections ==> invalid_field(config) == Some("max_connections")
            &&& connections && !sessions ==> invalid_field(config) == Some(
                "max_sessions_per_connection",
            )
            &&& connections && sessions && !timeout ==> invalid_field(config) == Some(
                "control_timeout",
            )
            &&& connections && sessions && timeout && !generation ==> invalid_field(config) == Some(
                "relay_generation",
            )
        }),
{
}

/// The defaults are 64 connections with 64 sessions each, five seconds for control frames, the first
/// generation, the default relay, and neither a socket nor an address of its own.
pub proof fn law_configuration_defaults()
    ensures
        default_config().max_connections == 64,
        default_config().max_sessions_per_connection == 64,
        default_config().control_timeout == 5 * 1000000000,
        default_config().relay_generation == 1,
        default_config().socket_path is None,
        default_config().bind_addr is None,
        default_config().relay_mode == RelayMode::Default,
{
}

} // verus!
