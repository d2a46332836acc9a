//! The Relay configuration that the Manager writes for a session.

use crate::manager::ports::BROKER_DISCOVERY_PORT_BASE;
use crate::manager::resolver::ResolvedSession;
use crate::text::write_decimal;
use vstd::prelude::*;
use vstd::string::*;

verus! {

/// First line of a session configuration.
pub const SESSION_CONFIG_NOTICE: &'static str =
    "# Generated by herdogrelay Manager. Do not edit; session ownership is Manager-controlled.\n";

/// One listener of a session configuration.
#[derive(Clone, Copy, Debug, Eq, PartialEq)]
pub struct GeneratedListener {
    /// The listener is served.
    pub enabled: bool,
    /// The listener needs TLS.
    pub tls: bool,
    /// Address to bind.
    pub bind_address: &'static str,
    /// Sources that may connect.
    pub allowed_sources: &'static str,
}

/// Limits of a session configuration.
#[derive(Clone, Copy, Debug, Eq, PartialEq, Structural)]
pub struct GeneratedLimits {
    /// Clients at once.
    pub max_clients: u16,
    /// Clients of one listener at once.
    pub max_clients_per_listener: u16,
    /// Handshakes at once.
    pub max_handshakes: u16,
    /// Seconds of a handshake.
    pub handshake_timeout_secs: u64,
    /// Seconds of a probe.
    pub probe_timeout_secs: u64,
    /// Seconds without traffic.
    pub idle_timeout_secs: u64,
    /// Bytes of a bridge buffer.
    pub buffer_bytes: usize,
    /// Bytes of a diagnostic.
    pub max_diagnostic_bytes: usize,
}

/// A session configuration.
pub struct GeneratedConfig {
    /// Socket of the session.
    pub herdr_socket: String,
    /// First discovery port.
    pub port_base: u16,
    /// Number of discovery ports.
    pub port_attempts: u8,
    /// Listener on the tailnet.
    pub tailscale: GeneratedListener,
    /// Listener on the local network.
    pub lan: GeneratedListener,
    /// Listener on the public network.
    pub public: GeneratedListener,
    /// Limits.
    pub limits: GeneratedLimits,
}

/// A listener that serves nobody.
pub open spec fn closed_listener(tls: bool) -> GeneratedListener {
    GeneratedListener {
        enabled: false,
        tls,
        bind_address: "127.0.0.1",
        allowed_sources: "127.0.0.1",
    }
}

fn make_listener(tls: bool) -> (listener: GeneratedListener)
    ensures
        listener == closed_listener(tls),
{
    GeneratedListener {
        enabled: false,
        tls,
        bind_address: "127.0.0.1",
        allowed_sources: "127.0.0.1",
    }
}

/// The configuration of a session: its socket, no open listener and the fixed limits.
pub fn session_relay_config(
    session: &ResolvedSession,
    idle_timeout_secs: u64,
    buffer_bytes: usize,
) -> (config: GeneratedConfig)
    ensures
        config.herdr_socket@ == session@.socket,
        config.port_base == BROKER_DISCOVERY_PORT_BASE,
        config.port_attempts == 10,
        config.tailscale == closed_listener(false),
        config.lan == closed_listener(true),
        config.public == closed_listener(true),
        config.limits == (GeneratedLimits {
            max_clients: 64,
            max_clients_per_listener: 32,
            max_handshakes: 16,
            handshake_timeout_secs: 5,
            probe_timeout_secs: 2,
            idle_timeout_secs,
            buffer_bytes,
            max_diagnostic_bytes: 4096,
        }),
{
    GeneratedConfig {
        herdr_socket: session.socket().to_owned(),
        port_base: BROKER_DISCOVERY_PORT_BASE,
        port_attempts: 10,
        tailscale: make_listener(false),
        lan: make_listener(true),
        public: make_listener(true),
        limits: GeneratedLimits {
            max_clients: 64,
            max_clients_per_listener: 32,
            max_handshakes: 16,
            handshake_timeout_secs: 5,
            probe_timeout_secs: 2,
            idle_timeout_secs,
            buffer_bytes,
            max_diagnostic_bytes: 4096,
        },
    }
}

/// The text of a session configuration with the serialized document `body`.
pub open spec fn session_config_text(
    data_port: u16,
    preferred_broker_port: u16,
    body: Seq<char>,
) -> Seq<char> {
    SESSION_CONFIG_NOTICE@ + "# manager_data_port = "@ + crate::text::decimal_text(
        data_port as nat,
    ) + "\n"@ + "# manager_broker_port = "@ + crate::text::decimal_text(
        preferred_broker_port as nat,
    ) + "\n\n"@ + body
}

/// Writes the text of a session configuration: the ports as comments, then the serialized document.
pub fn write_session_relay_config(data_port: u16, preferred_broker_port: u16, body: &str) -> (text:
    String)
    ensures
        text@ == session_config_text(data_port, preferred_broker_port, body@),
{
    let mut text = SESSION_CONFIG_NOTICE.to_owned();
    text.append("# manager_data_port = ");
    text.append(write_decimal(data_port as u64).as_str());
    text.append("\n");
    text.append("# manager_broker_port = ");
    text.append(write_decimal(preferred_broker_port as u64).as_str());
    text.append("\n\n");
    text.append(body);
    text
}

/// A listener of a generated configuration is served nowhere and open to the local host at most.
pub proof fn law_generated_listeners_are_closed(tls: bool)
    ensures
        !closed_listener(tls).enabled,
        closed_listener(tls).tls == tls,
        closed_listener(tls).bind_address@ == "127.0.0.1"@,
        closed_listener(tls).allowed_sources@ == "127.0.0.1"@,
{
}

/// A generated configuration starts with its notice and ends with its body, and between them names
/// its two ports, the data port first: with other ports the text is another one.
pub proof fn law_generated_text_names_its_ports(
    data_port: u16,
    preferred_broker_port: u16,
    body: Seq<char>,
)
    ensures
        ({
            let text = session_config_text(data_port, preferred_broker_port, body);
            let ports = "# manager_data_port = "@ + crate::text::decimal_text(data_port as nat)
                + "\n"@ + "# manager_broker_port = "@ + crate::text::decimal_text(
                preferred_broker_port as nat,
            ) + "\n\n"@;
            &&& text.len() == SESSION_CONFIG_NOTICE@.len() + ports.len() + body.len()
            &&& text.subrange(0, SESSION_CONFIG_NOTICE@.len() as int) == SESSION_CONFIG_NOTICE@
            &&& text.subrange(
                SESSION_CONFIG_NOTICE@.len() as int,
                (SESSION_CONFIG_NOTICE@.len() + ports.len()) as int,
            ) == ports
            &&& text.subrange(text.len() - body.len(), text.len() as int) == body
        }),
{
    let text = session_config_text(data_port, preferred_broker_port, body);
    let ports = "# manager_data_port = "@ + crate::text::decimal_text(data_port as nat) + "\n"@
        + "# manager_broker_port = "@ + crate::text::decimal_text(preferred_broker_port as nat)
        + "\n\n"@;
    assert(text =~= SESSION_CONFIG_NOTICE@ + ports + body);
    assert(text.subrange(0, SESSION_CONFIG_NOTICE@.len() as int) =~= SESSION_CONFIG_NOTICE@);
    assert(text.subrange(
        SESSION_CONFIG_NOTICE@.len() as int,
        (SESSION_CONFIG_NOTICE@.len() + ports.len()) as int,
    ) =~= ports);
    assert(text.subrange(text.len() - body.len(), text.len() as int) =~= body);
}

} // verus!
