//! Manager configuration and the LaunchAgent that starts it.

use crate::error::{RelayError, RelayResult};
use crate::manager::ports::{
    BROKER_DATA_PORT_BASE, BROKER_DATA_PORT_LAST, BROKER_DISCOVERY_PORT_ATTEMPTS,
    BROKER_DISCOVERY_PORT_BASE, BROKER_DISCOVERY_PORT_LAST,
};
use crate::paths::{join, validate_absolute_path};
use crate::text::push_char;
use vstd::prelude::*;
use vstd::string::*;

verus! {

/// Seconds between two heartbeats of a lease.
pub const MANAGER_HEARTBEAT_INTERVAL_SECS: u64 = 30;

/// Seconds after which a lease expires.
pub const MANAGER_LEASE_EXPIRY_SECS: u64 = 90;

/// Seconds that a child without leases is kept.
pub const MANAGER_IDLE_GRACE_SECS: u64 = 300;

/// Label of the LaunchAgent.
pub const LAUNCH_AGENT_LABEL: &'static str = "dev.herdr-dog.herdogrelay-manager";

/// Start of a LaunchAgent property list, up to its label.
pub const PLIST_OPENING: &'static str =
    "<?xml version=\"1.0\" encoding=\"UTF-8\"?>\n<!DOCTYPE plist PUBLIC \"-//Apple//DTD PLIST 1.0//EN\" \"http://www.apple.com/DTDs/PropertyList-1.0.dtd\">\n<plist version=\"1.0\">\n<dict>\n  <key>Label</key><string>";

/// Text between the label and the binary of a LaunchAgent property list.
pub const PLIST_PROGRAM: &'static str =
    "</string>\n  <key>ProgramArguments</key>\n  <array><string>";

/// Text between the binary and the configuration path of a LaunchAgent property list.
pub const PLIST_ARGUMENTS: &'static str =
    "</string><string>manager</string><string>--config</string><string>";

/// End of a LaunchAgent property list.
pub const PLIST_CLOSING: &'static str =
    "</string></array>\n  <key>RunAtLoad</key><true/>\n  <key>KeepAlive</key><true/>\n</dict>\n</plist>\n";

/// Manager settings as they are written, with `auto` for a path to be found.
pub struct ManagerSettings {
    /// Manager root or `auto`.
    pub manager_root: String,
    /// Herdr configuration root or `auto`.
    pub herdr_config_root: String,
    /// Child binary or `auto`.
    pub child_binary: String,
    /// Preferred broker discovery port.
    pub preferred_broker_port: u16,
    /// Broker discovery attempts.
    pub broker_port_attempts: u16,
    /// First data port.
    pub data_port_start: u16,
    /// Last data port.
    pub data_port_end: u16,
    /// Heartbeat interval in seconds.
    pub heartbeat_interval_secs: u64,
    /// Lease expiry in seconds.
    pub lease_expiry_secs: u64,
    /// Idle grace in seconds.
    pub idle_grace_secs: u64,
}

impl Default for ManagerSettings {
    /// The settings of an empty document.
    fn default() -> (settings: Self)
        ensures
            settings.manager_root@ == "auto"@,
            settings.herdr_config_root@ == "auto"@,
            settings.child_binary@ == "auto"@,
            settings.preferred_broker_port == BROKER_DISCOVERY_PORT_BASE,
            settings.broker_port_attempts == BROKER_DISCOVERY_PORT_ATTEMPTS,
            settings.data_port_start == BROKER_DATA_PORT_BASE,
            settings.data_port_end == BROKER_DATA_PORT_LAST,
            settings.heartbeat_interval_secs == MANAGER_HEARTBEAT_INTERVAL_SECS,
            settings.lease_expiry_secs == MANAGER_LEASE_EXPIRY_SECS,
            settings.idle_grace_secs == MANAGER_IDLE_GRACE_SECS,
    {
        ManagerSettings {
            manager_root: "auto".to_owned(),
            herdr_config_root: "auto".to_owned(),
            child_binary: "auto".to_owned(),
            preferred_broker_port: BROKER_DISCOVERY_PORT_BASE,
            broker_port_attempts: BROKER_DISCOVERY_PORT_ATTEMPTS,
            data_port_start: BROKER_DATA_PORT_BASE,
            data_port_end: BROKER_DATA_PORT_LAST,
            heartbeat_interval_secs: MANAGER_HEARTBEAT_INTERVAL_SECS,
            lease_expiry_secs: MANAGER_LEASE_EXPIRY_SECS,
            idle_grace_secs: MANAGER_IDLE_GRACE_SECS,
        }
    }
}

/// Paths of the host that stand in for `auto`.
pub struct HostPaths<'a> {
    /// Directory of the configuration file.
    pub config_parent: Option<&'a str>,
    /// The `HOME` variable.
    pub home: Option<&'a str>,
    /// The `XDG_CONFIG_HOME` variable.
    pub xdg_config_home: Option<&'a str>,
    /// The running binary.
    pub current_exe: Option<&'a str>,
}

/// The written path is the component `auto` alone.
pub open spec fn is_auto(path: Seq<char>) -> bool {
    &&& path.len() >= 4
    &&& path[0] == 'a' && path[1] == 'u' && path[2] == 't' && path[3] == 'o'
    &&& forall|i: int|
        4 <= i < path.len() ==> (#[trigger] path[i]) == '/' || (path[i] == '.' && path[i - 1] == '/')
}

fn written_auto(path: &str) -> (auto: bool)
    ensures
        auto == is_auto(path@),
{
    let len: usize = path.unicode_len();
    if len < 4 || path.get_char(0) != 'a' || path.get_char(1) != 'u' || path.get_char(2) != 't'
        || path.get_char(3) != 'o' {
        return false;
    }
    let mut i: usize = 4;
    while i < len
        invariant
            4 <= i <= len,
            len == path@.len(),
            forall|j: int|
                4 <= j < i ==> (#[trigger] path@[j]) == '/' || (path@[j] == '.' && path@[j - 1]
                    == '/'),
        decreases len - i,
    {
        let c = path.get_char(i);
        let before = path.get_char(i - 1);
        if !(c == '/' || (c == '.' && before == '/')) {
            assert(!(path@[i as int] == '/' || (path@[i as int] == '.' && path@[i as int - 1]
                == '/')));
            return false;
        }
        i = i + 1;
    }
    true
}

/// A variable that is set and not empty.
pub open spec fn present(value: Option<&str>) -> Option<Seq<char>> {
    match value {
        Some(text) => if text@.len() > 0 {
            Some(text@)
        } else {
            None
        },
        None => None,
    }
}

/// The Manager root that stands in for `auto`.
pub open spec fn auto_manager_root(host: HostPaths) -> Option<Seq<char>> {
    match host.config_parent {
        Some(parent) => Some(parent@),
        None => match present(host.home) {
            Some(home) => Some(crate::paths::joined(home, ".config/herdr-dog/manager"@)),
            None => None,
        },
    }
}

/// The Herdr configuration root that stands in for `auto`.
pub open spec fn auto_herdr_root(host: HostPaths) -> Option<Seq<char>> {
    match present(host.xdg_config_home) {
        Some(root) => Some(root),
        None => match present(host.home) {
            Some(home) => Some(crate::paths::joined(home, ".config"@)),
            None => None,
        },
    }
}

/// The path that a written one stands for, or why there is none.
pub open spec fn resolved(
    field: &'static str,
    written: Seq<char>,
    fallback: Option<Seq<char>>,
) -> RelayResult<Seq<char>> {
    if is_auto(written) && fallback is None {
        Err(RelayError::InvalidConfiguration { field, reason: "auto path cannot be resolved" })
    } else {
        let path = if is_auto(written) {
            fallback->Some_0
        } else {
            written
        };
        match crate::paths::path_check(field, path) {
            Ok(_) => Ok(path),
            Err(error) => Err(error),
        }
    }
}

/// Resolves a written path with the one that stands in for `auto`.
pub fn resolve_path(field: &'static str, written: String, fallback: Option<String>) -> (path:
    RelayResult<String>)
    ensures
        match path {
            Ok(found) => resolved(
                field,
                written@,
                match fallback {
                    Some(text) => Some(text@),
                    None => None,
                },
            ) == Ok::<Seq<char>, RelayError>(found@),
            Err(error) => resolved(
                field,
                written@,
                match fallback {
                    Some(text) => Some(text@),
                    None => None,
                },
            ) == Err::<Seq<char>, RelayError>(error),
        },
{
    let path = if written_auto(written.as_str()) {
        match fallback {
            Some(found) => found,
            None => {
                return Err(
                    RelayError::InvalidConfiguration {
                        field,
                        reason: "auto path cannot be resolved",
                    },
                );
            },
        }
    } else {
        written
    };
    match validate_absolute_path(field, path.as_str()) {
        Ok(_) => Ok(path),
        Err(error) => Err(error),
    }
}

fn set_text<'a>(value: Option<&'a str>) -> (text: Option<&'a str>)
    ensures
        match text {
            Some(found) => present(value) == Some(found@),
            None => present(value) is None,
        },
{
    match value {
        Some(text) => if text.is_empty() {
            None
        } else {
            Some(text)
        },
        None => None,
    }
}

/// The Manager root of the host.
pub fn default_manager_root(host: &HostPaths) -> (root: Option<String>)
    ensures
        match root {
            Some(path) => auto_manager_root(*host) == Some(path@),
            None => auto_manager_root(*host) is None,
        },
{
    match host.config_parent {
        Some(parent) => Some(parent.to_owned()),
        None => match set_text(host.home) {
            Some(home) => Some(join(home, ".config/herdr-dog/manager")),
            None => None,
        },
    }
}

/// The Herdr configuration root of the host.
pub fn default_herdr_config_root(host: &HostPaths) -> (root: Option<String>)
    ensures
        match root {
            Some(path) => auto_herdr_root(*host) == Some(path@),
            None => auto_herdr_root(*host) is None,
        },
{
    match set_text(host.xdg_config_home) {
        Some(root) => Some(root.to_owned()),
        None => match set_text(host.home) {
            Some(home) => Some(join(home, ".config")),
            None => None,
        },
    }
}

/// Mathematical value of a configuration.
#[verifier::ext_equal]
pub struct ManagerConfigView {
    /// Manager root.
    pub manager_root: Seq<char>,
    /// Herdr configuration root.
    pub herdr_config_root: Seq<char>,
    /// Child binary.
    pub child_binary: Seq<char>,
    /// Preferred broker discovery port.
    pub preferred_broker_port: u16,
    /// Broker discovery attempts.
    pub broker_port_attempts: u16,
    /// First data port.
    pub data_port_start: u16,
    /// Last data port.
    pub data_port_end: u16,
    /// Heartbeat interval in seconds.
    pub heartbeat_interval: u64,
    /// Lease expiry in seconds.
    pub lease_expiry: u64,
    /// Idle grace in seconds.
    pub idle_grace: u64,
}

/// What a diagnostic says of a configuration.
#[derive(Clone, Copy, Debug, Eq, PartialEq, Structural)]
pub struct ManagerConfigSummary {
    /// Preferred broker discovery port.
    pub preferred_broker_port: u16,
    /// Broker discovery attempts.
    pub broker_port_attempts: u16,
    /// First data port.
    pub data_port_start: u16,
    /// Last data port.
    pub data_port_end: u16,
    /// Heartbeat interval in seconds.
    pub heartbeat_interval: u64,
    /// Lease expiry in seconds.
    pub lease_expiry: u64,
    /// Idle grace in seconds.
    pub idle_grace: u64,
}

/// Manager configuration.
pub struct ManagerConfig {
    manager_root: String,
    herdr_config_root: String,
    child_binary: String,
    preferred_broker_port: u16,
    broker_port_attempts: u16,
    data_port_start: u16,
    data_port_end: u16,
    heartbeat_interval: u64,
    lease_expiry: u64,
    idle_grace: u64,
}

impl View for ManagerConfig {
    type V = ManagerConfigView;

    closed spec fn view(&self) -> ManagerConfigView {
        ManagerConfigView {
            manager_root: self.manager_root@,
            herdr_config_root: self.herdr_config_root@,
            child_binary: self.child_binary@,
            preferred_broker_port: self.preferred_broker_port,
            broker_port_attempts: self.broker_port_attempts,
            data_port_start: self.data_port_start,
            data_port_end: self.data_port_end,
            heartbeat_interval: self.heartbeat_interval,
            lease_expiry: self.lease_expiry,
            idle_grace: self.idle_grace,
        }
    }
}

/// The outcome of holding a configuration to the fixed policy.
pub open spec fn config_check(config: ManagerConfigView) -> RelayResult<()> {
    if !crate::paths::absolute(config.manager_root) {
        crate::paths::path_check("manager_root", config.manager_root)
    } else if !crate::paths::absolute(config.herdr_config_root) {
        crate::paths::path_check("herdr_config_root", config.herdr_config_root)
    } else if !crate::paths::absolute(config.child_binary) {
        crate::paths::path_check("child_binary", config.child_binary)
    } else if !(BROKER_DISCOVERY_PORT_BASE <= config.preferred_broker_port
        <= BROKER_DISCOVERY_PORT_LAST) {
        Err(
            RelayError::InvalidConfiguration {
                field: "preferred_broker_port",
                reason: "must remain in the v1 Broker discovery range",
            },
        )
    } else if config.broker_port_attempts != BROKER_DISCOVERY_PORT_ATTEMPTS {
        Err(
            RelayError::InvalidConfiguration {
                field: "broker_port_attempts",
                reason: "must remain the v1 value 10",
            },
        )
    } else if config.data_port_start != BROKER_DATA_PORT_BASE {
        Err(
            RelayError::InvalidConfiguration {
                field: "data_port_start",
                reason: "must remain the RSB data-port start",
            },
        )
    } else if config.data_port_end != BROKER_DATA_PORT_LAST {
        Err(
            RelayError::InvalidConfiguration {
                field: "data_port_end",
                reason: "must remain the RSB data-port end",
            },
        )
    } else if config.heartbeat_interval != MANAGER_HEARTBEAT_INTERVAL_SECS {
        Err(
            RelayError::InvalidConfiguration {
                field: "heartbeat_interval_secs",
                reason: "must remain the RSB value 30",
            },
        )
    } else if config.lease_expiry != MANAGER_LEASE_EXPIRY_SECS {
        Err(
            RelayError::InvalidConfiguration {
                field: "lease_expiry_secs",
                reason: "must remain the RSB value 90",
            },
        )
    } else if config.idle_grace != MANAGER_IDLE_GRACE_SECS {
        Err(
            RelayError::InvalidConfiguration {
                field: "idle_grace_secs",
                reason: "must remain the RSB value 300",
            },
        )
    } else {
        Ok(())
    }
}

/// The configuration that settings stand for on a host, or why they are refused.
pub open spec fn configured(settings: ManagerSettings, host: HostPaths) -> RelayResult<
    ManagerConfigView,
> {
    match resolved("manager_root", settings.manager_root@, auto_manager_root(host)) {
        Err(error) => Err(error),
        Ok(manager_root) => match resolved(
            "herdr_config_root",
            settings.herdr_config_root@,
            auto_herdr_root(host),
        ) {
            Err(error) => Err(error),
            Ok(herdr_config_root) => match resolved(
                "child_binary",
                settings.child_binary@,
                match host.current_exe {
                    Some(path) => Some(path@),
                    None => None,
                },
            ) {
                Err(error) => Err(error),
                Ok(child_binary) => {
                    let config = ManagerConfigView {
                        manager_root,
                        herdr_config_root,
                        child_binary,
                        preferred_broker_port: settings.preferred_broker_port,
                        broker_port_attempts: settings.broker_port_attempts,
                        data_port_start: settings.data_port_start,
                        data_port_end: settings.data_port_end,
                        heartbeat_interval: settings.heartbeat_interval_secs,
                        lease_expiry: settings.lease_expiry_secs,
                        idle_grace: settings.idle_grace_secs,
                    };
                    match config_check(config) {
                        Err(error) => Err(error),
                        Ok(_) => Ok(config),
                    }
                },
            },
        },
    }
}

/// A configuration that is accepted holds exactly the fixed policy, whatever was written.
pub proof fn law_policy_cannot_be_widened(settings: ManagerSettings, host: HostPaths)
    requires
        configured(settings, host) is Ok,
    ensures
        ({
            let config = configured(settings, host)->Ok_0;
            &&& config.broker_port_attempts == BROKER_DISCOVERY_PORT_ATTEMPTS
            &&& config.data_port_start == BROKER_DATA_PORT_BASE
            &&& config.data_port_end == BROKER_DATA_PORT_LAST
            &&& config.heartbeat_interval == MANAGER_HEARTBEAT_INTERVAL_SECS
            &&& config.lease_expiry == MANAGER_LEASE_EXPIRY_SECS
            &&& config.idle_grace == MANAGER_IDLE_GRACE_SECS
            &&& crate::paths::absolute(config.manager_root)
            &&& crate::paths::absolute(config.herdr_config_root)
            &&& crate::paths::absolute(config.child_binary)
        }),
{
}

impl ManagerConfig {
    /// Makes the configuration that settings stand for on a host.
    pub fn from_wire(settings: ManagerSettings, host: &HostPaths) -> (config: RelayResult<Self>)
        ensures
            match config {
                Ok(made) => configured(settings, *host) == Ok::<ManagerConfigView, RelayError>(
                    made@,
                ),
                Err(error) => configured(settings, *host) == Err::<ManagerConfigView, RelayError>(
                    error,
                ),
            },
    {
        let manager_root = match resolve_path(
            "manager_root",
            settings.manager_root,
            default_manager_root(host),
        ) {
            Ok(path) => path,
            Err(error) => {
                return Err(error);
            },
        };
        let herdr_config_root = match resolve_path(
            "herdr_config_root",
            settings.herdr_config_root,
            default_herdr_config_root(host),
        ) {
            Ok(path) => path,
            Err(error) => {
                return Err(error);
            },
        };
        let current_exe = match host.current_exe {
            Some(path) => Some(path.to_owned()),
            None => None,
        };
        let child_binary = match resolve_path("child_binary", settings.child_binary, current_exe) {
            Ok(path) => path,
            Err(error) => {
                return Err(error);
            },
        };
        let config = ManagerConfig {
            manager_root,
            herdr_config_root,
            child_binary,
            preferred_broker_port: settings.preferred_broker_port,
            broker_port_attempts: settings.broker_port_attempts,
            data_port_start: settings.data_port_start,
            data_port_end: settings.data_port_end,
            heartbeat_interval: settings.heartbeat_interval_secs,
            lease_expiry: settings.lease_expiry_secs,
            idle_grace: settings.idle_grace_secs,
        };
        match config.validate() {
            Ok(_) => Ok(config),
            Err(error) => Err(error),
        }
    }

    /// Holds the configuration to the fixed policy.
    pub fn validate(&self) -> (valid: RelayResult<()>)
        ensures
            valid == config_check(self@),
    {
        if let Err(error) = validate_absolute_path("manager_root", self.manager_root.as_str()) {
            return Err(error);
        }
        if let Err(error) = validate_absolute_path(
            "herdr_config_root",
            self.herdr_config_root.as_str(),
        ) {
            return Err(error);
        }
        if let Err(error) = validate_absolute_path("child_binary", self.child_binary.as_str()) {
            return Err(error);
        }
        if self.preferred_broker_port < BROKER_DISCOVERY_PORT_BASE || self.preferred_broker_port
            > BROKER_DISCOVERY_PORT_LAST {
            return Err(
                RelayError::InvalidConfiguration {
                    field: "preferred_broker_port",
                    reason: "must remain in the v1 Broker discovery range",
                },
            );
        }
        if self.broker_port_attempts != BROKER_DISCOVERY_PORT_ATTEMPTS {
            return Err(
                RelayError::InvalidConfiguration {
                    field: "broker_port_attempts",
                    reason: "must remain the v1 value 10",
                },
            );
        }
        if self.data_port_start != BROKER_DATA_PORT_BASE {
            return Err(
                RelayError::InvalidConfiguration {
                    field: "data_port_start",
                    reason: "must remain the RSB data-port start",
                },
            );
        }
        if self.data_port_end != BROKER_DATA_PORT_LAST {
            return Err(
                RelayError::InvalidConfiguration {
                    field: "data_port_end",
                    reason: "must remain the RSB data-port end",
                },
            );
        }
        if self.heartbeat_interval != MANAGER_HEARTBEAT_INTERVAL_SECS {
            return Err(
                RelayError::InvalidConfiguration {
                    field: "heartbeat_interval_secs",
                    reason: "must remain the RSB value 30",
                },
            );
        }
        if self.lease_expiry != MANAGER_LEASE_EXPIRY_SECS {
            return Err(
                RelayError::InvalidConfiguration {
                    field: "lease_expiry_secs",
                    reason: "must remain the RSB value 90",
                },
            );
        }
        if self.idle_grace != MANAGER_IDLE_GRACE_SECS {
            return Err(
                RelayError::InvalidConfiguration {
                    field: "idle_grace_secs",
                    reason: "must remain the RSB value 300",
                },
            );
        }
        Ok(())
    }

    /// Renders the LaunchAgent that starts the Manager with this configuration file.
    pub fn launch_agent_plist(&self, config_path: &str) -> (plist: RelayResult<String>)
        ensures
            plist_rendered(plist, self@.child_binary, config_path@),
    {
        if let Err(error) = validate_absolute_path("manager_config", config_path) {
            return Err(error);
        }
        render_launch_agent(self.child_binary.as_str(), config_path)
    }

    /// What a diagnostic says of the configuration: no path.
    pub fn summary(&self) -> (summary: ManagerConfigSummary)
        ensures
            summary == (ManagerConfigSummary {
                preferred_broker_port: self@.preferred_broker_port,
                broker_port_attempts: self@.broker_port_attempts,
                data_port_start: self@.data_port_start,
                data_port_end: self@.data_port_end,
                heartbeat_interval: self@.heartbeat_interval,
                lease_expiry: self@.lease_expiry,
                idle_grace: self@.idle_grace,
            }),
    {
        ManagerConfigSummary {
            preferred_broker_port: self.preferred_broker_port,
            broker_port_attempts: self.broker_port_attempts,
            data_port_start: self.data_port_start,
            data_port_end: self.data_port_end,
            heartbeat_interval: self.heartbeat_interval,
            lease_expiry: self.lease_expiry,
            idle_grace: self.idle_grace,
        }
    }

    /// The Manager root.
    pub fn manager_root(&self) -> (path: &str)
        ensures
            path@ == self@.manager_root,
    {
        self.manager_root.as_str()
    }

    /// The Herdr configuration root.
    pub fn herdr_config_root(&self) -> (path: &str)
        ensures
            path@ == self@.herdr_config_root,
    {
        self.herdr_config_root.as_str()
    }

    /// The child binary.
    pub fn child_binary(&self) -> (path: &str)
        ensures
            path@ == self@.child_binary,
    {
        self.child_binary.as_str()
    }

    /// The preferred broker discovery port.
    pub fn preferred_broker_port(&self) -> (port: u16)
        ensures
            port == self@.preferred_broker_port,
    {
        self.preferred_broker_port
    }

    /// The first and the last data port.
    pub fn data_port_range(&self) -> (range: (u16, u16))
        ensures
            range == (self@.data_port_start, self@.data_port_end),
    {
        (self.data_port_start, self.data_port_end)
    }

    /// The heartbeat interval in seconds.
    pub fn heartbeat_interval(&self) -> (seconds: u64)
        ensures
            seconds == self@.heartbeat_interval,
    {
        self.heartbeat_interval
    }

    /// The lease expiry in seconds.
    pub fn lease_expiry(&self) -> (seconds: u64)
        ensures
            seconds == self@.lease_expiry,
    {
        self.lease_expiry
    }

    /// The idle grace in seconds.
    pub fn idle_grace(&self) -> (seconds: u64)
        ensures
            seconds == self@.idle_grace,
    {
        self.idle_grace
    }
}

/// An ASCII control character.
pub open spec fn control_char(c: char) -> bool {
    (c as u32) < 0x20 || c as u32 == 0x7f
}

/// The XML text of one character.
pub open spec fn escaped_char(c: char) -> Seq<char> {
    if c == '&' {
        "&amp;"@
    } else if c == '<' {
        "&lt;"@
    } else if c == '>' {
        "&gt;"@
    } else if c == '"' {
        "&quot;"@
    } else if c == '\'' {
        "&apos;"@
    } else {
        seq![c]
    }
}

/// The XML text of a string.
pub open spec fn escaped(value: Seq<char>) -> Seq<char>
    decreases value.len(),
{
    if value.len() == 0 {
        Seq::empty()
    } else {
        escaped(value.drop_last()) + escaped_char(value.last())
    }
}

/// Some character of the string is a control character.
pub open spec fn has_control_char(value: Seq<char>) -> bool {
    exists|i: int| 0 <= i < value.len() && control_char(#[trigger] value[i])
}

/// Escapes an XML text value; a value with a control character is refused.
pub fn xml_escape(value: &str) -> (text: RelayResult<String>)
    ensures
        match text {
            Ok(found) => !has_control_char(value@) && found@ == escaped(value@),
            Err(error) => has_control_char(value@) && error == (RelayError::InvalidConfiguration {
                field: "manager_launch_agent_path",
                reason: "path contains XML control characters",
            }),
        },
{
    let len: usize = value.unicode_len();
    let mut text = String::new();
    let mut i: usize = 0;
    assert(value@.take(0) =~= Seq::empty());
    while i < len
        invariant
            i <= len,
            len == value@.len(),
            forall|j: int| 0 <= j < i ==> !control_char(#[trigger] value@[j]),
            text@ == escaped(value@.take(i as int)),
        decreases len - i,
    {
        let c = value.get_char(i);
        let code: u32 = c as u32;
        if code < 0x20 || code == 0x7f {
            assert(control_char(value@[i as int]));
            return Err(
                RelayError::InvalidConfiguration {
                    field: "manager_launch_agent_path",
                    reason: "path contains XML control characters",
                },
            );
        }
        let ghost before = text@;
        if c == '&' {
            text.append("&amp;");
        } else if c == '<' {
            text.append("&lt;");
        } else if c == '>' {
            text.append("&gt;");
        } else if c == '"' {
            text.append("&quot;");
        } else if c == '\'' {
            text.append("&apos;");
        } else {
            push_char(&mut text, c);
        }
        assert(text@ =~= before + escaped_char(c));
        assert(value@.take(i + 1).drop_last() =~= value@.take(i as int));
        i = i + 1;
    }
    assert(value@.take(len as int) =~= value@);
    Ok(text)
}

/// The LaunchAgent that starts a binary with a configuration file.
pub open spec fn plist_text(binary: Seq<char>, config: Seq<char>) -> Seq<char> {
    PLIST_OPENING@ + LAUNCH_AGENT_LABEL@ + PLIST_PROGRAM@ + escaped(binary) + PLIST_ARGUMENTS@
        + escaped(config) + PLIST_CLOSING@
}

/// `plist` is the LaunchAgent of a binary and a configuration file, or why there is none.
pub open spec fn plist_rendered(
    plist: RelayResult<String>,
    binary: Seq<char>,
    config: Seq<char>,
) -> bool {
    match plist {
        Ok(text) => {
            &&& crate::paths::absolute(config)
            &&& !has_control_char(binary) && !has_control_char(config)
            &&& text@ == plist_text(binary, config)
        },
        Err(error) => if !crate::paths::absolute(config) {
            Err::<(), RelayError>(error) == crate::paths::path_check("manager_config", config)
        } else {
            &&& has_control_char(binary) || has_control_char(config)
            &&& error == (RelayError::InvalidConfiguration {
                field: "manager_launch_agent_path",
                reason: "path contains XML control characters",
            })
        },
    }
}

fn render_launch_agent(binary: &str, config_path: &str) -> (plist: RelayResult<String>)
    requires
        crate::paths::absolute(config_path@),
    ensures
        plist_rendered(plist, binary@, config_path@),
{
    let binary_text = match xml_escape(binary) {
        Ok(text) => text,
        Err(error) => {
            return Err(error);
        },
    };
    let config_text = match xml_escape(config_path) {
        Ok(text) => text,
        Err(error) => {
            return Err(error);
        },
    };
    let mut plist = PLIST_OPENING.to_owned();
    plist.append(LAUNCH_AGENT_LABEL);
    plist.append(PLIST_PROGRAM);
    plist.append(binary_text.as_str());
    plist.append(PLIST_ARGUMENTS);
    plist.append(config_text.as_str());
    plist.append(PLIST_CLOSING);
    Ok(plist)
}

/// No escaped text can end an element, open one or close a quoted value.
pub proof fn law_escaped_text_is_inert(value: Seq<char>)
    ensures
        forall|i: int|
            0 <= i < escaped(value).len() ==> {
                let c = #[trigger] escaped(value)[i];
                c != '<' && c != '>' && c != '"' && c != '\''
            },
    decreases value.len(),
{
    reveal_strlit("&amp;");
    reveal_strlit("&lt;");
    reveal_strlit("&gt;");
    reveal_strlit("&quot;");
    reveal_strlit("&apos;");
    if value.len() > 0 {
        law_escaped_text_is_inert(value.drop_last());
        let earlier = escaped(value.drop_last());
        let last = escaped_char(value.last());
        assert forall|i: int| 0 <= i < last.len() implies {
            let c = #[trigger] last[i];
            c != '<' && c != '>' && c != '"' && c != '\''
        } by {}
        assert forall|i: int| 0 <= i < escaped(value).len() implies {
            let c = #[trigger] escaped(value)[i];
            c != '<' && c != '>' && c != '"' && c != '\''
        } by {
            if i < earlier.len() {
                assert(escaped(value)[i] == earlier[i]);
            } else {
                assert(escaped(value)[i] == last[i - earlier.len()]);
            }
        }
    }
}

/// The written word that stands for an automatic path is the word itself, with any number of
/// separators and of names of the same directory behind it. No absolute path is one.
pub proof fn law_auto_is_a_word_of_its_own(path: Seq<char>)
    ensures
        is_auto("auto"@),
        is_auto(path) ==> is_auto(path.push('/')),
        is_auto(path) ==> is_auto(path.push('/').push('.')),
        is_auto(path) ==> path.subrange(0, 4) == "auto"@,
        crate::paths::absolute(path) ==> !is_auto(path),
        path.len() < 4 ==> !is_auto(path),
{
    reveal_strlit("auto");
    if is_auto(path) {
        assert(path.subrange(0, 4) =~= "auto"@);
        let one = path.push('/');
        assert forall|i: int| 4 <= i < one.len() implies (#[trigger] one[i]) == '/' || (one[i] == '.'
            && one[i - 1] == '/') by {
            if i < path.len() {
                assert(path[i] == one[i]);
            }
        }
        let two = one.push('.');
        assert forall|i: int| 4 <= i < two.len() implies (#[trigger] two[i]) == '/' || (two[i] == '.'
            && two[i - 1] == '/') by {
            if i < one.len() {
                assert(one[i] == two[i]);
            }
        }
    }
}

/// A path that was written stands for itself, an automatic one for what the host gives. Either has to
/// be absolute, and an automatic one that the host does not give is refused under its field.
pub proof fn law_written_paths_stand_for_themselves(
    field: &'static str,
    written: Seq<char>,
    fallback: Option<Seq<char>>,
)
    ensures
        !is_auto(written) && crate::paths::absolute(written) ==> resolved(field, written, fallback)
            == Ok::<Seq<char>, RelayError>(written),
        !is_auto(written) && !crate::paths::absolute(written) ==> resolved(field, written, fallback)
            == Err::<Seq<char>, RelayError>(
            RelayError::InvalidConfiguration { field, reason: "must be an absolute path" },
        ),
        is_auto(written) ==> (fallback matches Some(path) ==> (crate::paths::absolute(path)
            ==> resolved(field, written, fallback) == Ok::<Seq<char>, RelayError>(path))),
        is_auto(written) && fallback is None ==> resolved(field, written, fallback) == Err::<
            Seq<char>,
            RelayError,
        >(RelayError::InvalidConfiguration { field, reason: "auto path cannot be resolved" }),
        resolved(field, written, fallback) matches Ok(path) ==> crate::paths::absolute(path),
{
}

/// The root of the manager is the directory of its configuration, or stands below the home
/// directory. The root of Herdr is the XDG directory, or stands below the home directory. A directory
/// that is given but empty counts as not given.
pub proof fn law_automatic_roots(host: HostPaths)
    ensures
        host.config_parent matches Some(parent) ==> auto_manager_root(host) == Some(parent@),
        host.config_parent is None ==> (host.home matches Some(home) ==> (home@.len() > 0
            && home@.last() != '/' ==> auto_manager_root(host) == Some(
            home@ + "/.config/herdr-dog/manager"@,
        ))),
        host.config_parent is None && !(host.home matches Some(home) && home@.len() > 0)
            ==> auto_manager_root(host) is None,
        host.xdg_config_home matches Some(xdg) ==> (xdg@.len() > 0 ==> auto_herdr_root(host) == Some(
            xdg@,
        )),
        !(host.xdg_config_home matches Some(xdg) && xdg@.len() > 0) ==> (host.home matches Some(home)
            ==> (home@.len() > 0 && home@.last() != '/' ==> auto_herdr_root(host) == Some(
            home@ + "/.config"@,
        ))),
        !(host.xdg_config_home matches Some(xdg) && xdg@.len() > 0) && !(host.home matches Some(home)
            && home@.len() > 0) ==> auto_herdr_root(host) is None,
{
    reveal_strlit(".config/herdr-dog/manager");
    reveal_strlit("/.config/herdr-dog/manager");
    reveal_strlit(".config");
    reveal_strlit("/.config");
    if host.home is Some && host.home->Some_0@.len() > 0 && host.home->Some_0@.last() != '/' {
        let home = host.home->Some_0@;
        assert(crate::paths::joined(home, ".config/herdr-dog/manager"@) =~= home
            + "/.config/herdr-dog/manager"@);
        assert(crate::paths::joined(home, ".config"@) =~= home + "/.config"@);
    }
}

/// A configuration is valid if and only if its three paths are absolute, its preferred port is one of
/// those that are searched, and every other number is the one that is fixed for it.
pub proof fn law_manager_policy_is_fixed(config: ManagerConfigView)
    ensures
        config_check(config) is Ok <==> {
            &&& crate::paths::absolute(config.manager_root)
            &&& crate::paths::absolute(config.herdr_config_root)
            &&& crate::paths::absolute(config.child_binary)
            &&& 18743 <= config.preferred_broker_port <= 18752
            &&& config.broker_port_attempts == 10
            &&& config.data_port_start == 18753
            &&& config.data_port_end == 18852
            &&& config.heartbeat_interval == 30
            &&& config.lease_expiry == 90
            &&& config.idle_grace == 300
        },
        MANAGER_LEASE_EXPIRY_SECS == 3 * MANAGER_HEARTBEAT_INTERVAL_SECS,
{
}

/// A configuration holds what was written, and its paths as they were resolved; it is made if and only
/// if each path is resolved and the whole is valid.
pub proof fn law_configurations_hold_what_was_written(settings: ManagerSettings, host: HostPaths)
    ensures
        ({
            let manager_root = resolved(
                "manager_root",
                settings.manager_root@,
                auto_manager_root(host),
            );
            let herdr_root = resolved(
                "herdr_config_root",
                settings.herdr_config_root@,
                auto_herdr_root(host),
            );
            let own = match host.current_exe {
                Some(path) => Some(path@),
                None => None,
            };
            let binary = resolved("child_binary", settings.child_binary@, own);
            &&& configured(settings, host) matches Ok(config) ==> {
                &&& manager_root == Ok::<Seq<char>, RelayError>(config.manager_root)
                &&& herdr_root == Ok::<Seq<char>, RelayError>(config.herdr_config_root)
                &&& binary == Ok::<Seq<char>, RelayError>(config.child_binary)
                &&& config.preferred_broker_port == settings.preferred_broker_port
                &&& config.broker_port_attempts == settings.broker_port_attempts
                &&& config.data_port_start == settings.data_port_start
                &&& config.data_port_end == settings.data_port_end
                &&& config.heartbeat_interval == settings.heartbeat_interval_secs
                &&& config.lease_expiry == settings.lease_expiry_secs
                &&& config.idle_grace == settings.idle_grace_secs
            }
            &&& configured(settings, host) is Ok <==> manager_root is Ok && herdr_root is Ok
                && binary is Ok && 18743 <= settings.preferred_broker_port <= 18752
                && settings.broker_port_attempts == 10 && settings.data_port_start == 18753
                && settings.data_port_end == 18852 && settings.heartbeat_interval_secs == 30
                && settings.lease_expiry_secs == 90 && settings.idle_grace_secs == 300
        }),
{
}

/// Text is escaped character by character: the five characters that mean something in a document get
/// their names, and every other character stays.
pub proof fn law_text_is_escaped_by_character(left: Seq<char>, right: Seq<char>, c: char)
    ensures
        escaped(left + right) == escaped(left) + escaped(right),
        escaped(Seq::empty()) == Seq::<char>::empty(),
        escaped(seq![c]) == escaped_char(c),
        c == '&' ==> escaped_char(c) == "&amp;"@,
        c == '<' ==> escaped_char(c) == "&lt;"@,
        c == '>' ==> escaped_char(c) == "&gt;"@,
        c == '"' ==> escaped_char(c) == "&quot;"@,
        c == '\'' ==> escaped_char(c) == "&apos;"@,
        c != '&' && c != '<' && c != '>' && c != '"' && c != '\'' ==> escaped_char(c) == seq![c],
    decreases right.len(),
{
    reveal_with_fuel(escaped, 2);
    assert(seq![c].drop_last() =~= Seq::<char>::empty());
    assert(escaped(seq![c]) =~= escaped_char(c));
    if right.len() == 0 {
        assert(left + right =~= left);
        assert(escaped(left) + escaped(right) =~= escaped(left));
    } else {
        law_text_is_escaped_by_character(left, right.drop_last(), c);
        assert((left + right).drop_last() =~= left + right.drop_last());
        assert(escaped(left + right) =~= escaped(left) + escaped(right));
    }
}

/// A launch agent is rendered if and only if its configuration has an absolute path and neither path
/// holds a control character. It names both paths, each of them escaped.
pub proof fn law_launch_agents_name_their_paths(
    plist: RelayResult<String>,
    binary: Seq<char>,
    config: Seq<char>,
)
    requires
        plist_rendered(plist, binary, config),
    ensures
        plist is Ok <==> crate::paths::absolute(config) && !has_control_char(binary)
            && !has_control_char(config),
        plist matches Ok(text) ==> {
            let opening = PLIST_OPENING@ + "dev.herdr-dog.herdogrelay-manager"@ + PLIST_PROGRAM@;
            let first = opening.len() as int;
            let second = first + escaped(binary).len() + PLIST_ARGUMENTS@.len();
            &&& text@.subrange(0, first) == opening
            &&& text@.subrange(first, first + escaped(binary).len()) == escaped(binary)
            &&& text@.subrange(second, second + escaped(config).len()) == escaped(config)
            &&& text@.len() == second + escaped(config).len() + PLIST_CLOSING@.len()
        },
{
    if plist is Ok {
        let text = plist_text(binary, config);
        let opening = PLIST_OPENING@ + "dev.herdr-dog.herdogrelay-manager"@ + PLIST_PROGRAM@;
        let first = opening.len() as int;
        let second = first + escaped(binary).len() + PLIST_ARGUMENTS@.len();
        assert(text.subrange(0, first) =~= opening);
        assert(text.subrange(first, first + escaped(binary).len()) =~= escaped(binary));
        assert(text.subrange(second, second + escaped(config).len()) =~= escaped(config));
    }
}

/// A text holds a control character if and only if one of its characters is below the space or is the
/// delete character.
pub proof fn law_control_characters(value: Seq<char>)
    ensures
        has_control_char(value) <==> exists|i: int|
            0 <= i < value.len() && ((#[trigger] value[i] as u32) < 32 || value[i] as u32 == 127),
{
    if has_control_char(value) {
        let i = choose|i: int| 0 <= i < value.len() && control_char(#[trigger] value[i]);
        assert((value[i] as u32) < 32 || value[i] as u32 == 127);
    }
    if exists|i: int|
        0 <= i < value.len() && ((#[trigger] value[i] as u32) < 32 || value[i] as u32 == 127) {
        let i = choose|i: int|
            0 <= i < value.len() && ((#[trigger] value[i] as u32) < 32 || value[i] as u32 == 127);
        assert(control_char(value[i]));
    }
}

} // verus!
