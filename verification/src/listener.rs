//! Admission of clients by the authenticated listener, and what it reports of them.

use crate::address::ListenAddress;
use crate::bytes::same_bytes;
use crate::error::{IoKind, RelayError, RelayResult};
use crate::paths::same_text;
use vstd::prelude::*;

verus! {

/// First port of the listener.
pub const V1_PORT_BASE: u16 = 18743;

/// Last port of the listener.
pub const V1_PORT_LAST: u16 = 18752;

/// Why the most recent client was closed or refused.
#[derive(Clone, Copy, Debug, Eq, PartialEq, Structural)]
pub enum ConnectionCloseReason {
    /// Both directions ended without an error.
    CleanEof,
    /// The source is outside the allowed set.
    SourceNotAllowed,
    /// The client quota is exhausted.
    GlobalClientLimit,
    /// The client quota of the listener is exhausted.
    ListenerClientLimit,
    /// The handshake quota is exhausted.
    HandshakeLimit,
    /// TLS client authentication failed.
    TlsAuthentication,
    /// The Relay handshake failed.
    RelayHandshake,
    /// The Relay handshake did not complete in time.
    HandshakeTimeout,
    /// The upstream socket could not be opened.
    UpstreamUnavailable,
    /// The bridge saw no traffic within its bound.
    IdleTimeout,
    /// The listener stopped while the client was served.
    Cancelled,
    /// A bounded operation failed.
    Internal,
}

/// The operation belongs to opening the upstream socket.
pub open spec fn opens_upstream(operation: Seq<char>) -> bool {
    ||| operation == "checking Herdr Unix socket"@
    ||| operation == "checking Herdr socket parent"@
    ||| operation == "checking Herdr socket path"@
    ||| operation == "connecting to Herdr Unix socket"@
}

/// The reason that a failure is reported as.
pub open spec fn close_reason(error: RelayError) -> ConnectionCloseReason {
    match error {
        RelayError::SourceNotAllowed => ConnectionCloseReason::SourceNotAllowed,
        RelayError::ClientLimit => ConnectionCloseReason::GlobalClientLimit,
        RelayError::HandshakeLimit => ConnectionCloseReason::HandshakeLimit,
        RelayError::TlsAuthentication => ConnectionCloseReason::TlsAuthentication,
        RelayError::RelayHandshake => ConnectionCloseReason::RelayHandshake,
        RelayError::RelayHandshakeTimeout => ConnectionCloseReason::HandshakeTimeout,
        RelayError::UpstreamUnavailable => ConnectionCloseReason::UpstreamUnavailable,
        RelayError::SocketIdentity { .. } => ConnectionCloseReason::UpstreamUnavailable,
        RelayError::Io { operation, kind } => if (kind == IoKind::NotFound || kind
            == IoKind::ConnectionRefused) && opens_upstream(operation@) {
            ConnectionCloseReason::UpstreamUnavailable
        } else {
            ConnectionCloseReason::Internal
        },
        RelayError::BridgeIdleTimeout => ConnectionCloseReason::IdleTimeout,
        _ => ConnectionCloseReason::Internal,
    }
}

/// Maps a failure to the reason that it is reported as.
pub fn close_reason_for_error(error: &RelayError) -> (reason: ConnectionCloseReason)
    ensures
        reason == close_reason(*error),
{
    match error {
        RelayError::SourceNotAllowed => ConnectionCloseReason::SourceNotAllowed,
        RelayError::ClientLimit => ConnectionCloseReason::GlobalClientLimit,
        RelayError::HandshakeLimit => ConnectionCloseReason::HandshakeLimit,
        RelayError::TlsAuthentication => ConnectionCloseReason::TlsAuthentication,
        RelayError::RelayHandshake => ConnectionCloseReason::RelayHandshake,
        RelayError::RelayHandshakeTimeout => ConnectionCloseReason::HandshakeTimeout,
        RelayError::UpstreamUnavailable => ConnectionCloseReason::UpstreamUnavailable,
        RelayError::SocketIdentity { .. } => ConnectionCloseReason::UpstreamUnavailable,
        RelayError::Io { operation, kind } => {
            let refused = match kind {
                IoKind::NotFound | IoKind::ConnectionRefused => true,
                _ => false,
            };
            let upstream = same_text(operation, "checking Herdr Unix socket") || same_text(
                operation,
                "checking Herdr socket parent",
            ) || same_text(operation, "checking Herdr socket path") || same_text(
                operation,
                "connecting to Herdr Unix socket",
            );
            if refused && upstream {
                ConnectionCloseReason::UpstreamUnavailable
            } else {
                ConnectionCloseReason::Internal
            }
        },
        RelayError::BridgeIdleTimeout => ConnectionCloseReason::IdleTimeout,
        _ => ConnectionCloseReason::Internal,
    }
}

/// How the task of a client ended.
#[derive(Clone, Copy, Debug, Eq, PartialEq)]
pub enum TaskOutcome {
    /// The client was served to a clean end.
    Completed {
        /// Bytes forwarded to the upstream socket.
        network_to_unix_bytes: u64,
        /// Bytes forwarded to the client.
        unix_to_network_bytes: u64,
    },
    /// The client failed.
    Failed(RelayError),
    /// The task was cancelled.
    Cancelled,
    /// The task did not report.
    Lost,
}

/// Mathematical value of a report.
pub struct ReportView {
    /// Admitted clients.
    pub accepted: u64,
    /// Refused clients.
    pub rejected: u64,
    /// Clients that were served to a clean end.
    pub completed: u64,
    /// Admitted clients that failed.
    pub failed: u64,
    /// Admitted clients that were cancelled.
    pub cancelled: u64,
    /// Bytes forwarded to the upstream socket.
    pub network_to_unix_bytes: u64,
    /// Bytes forwarded to clients.
    pub unix_to_network_bytes: u64,
    /// Most recent reason.
    pub last_close_reason: Option<ConnectionCloseReason>,
}

/// Counters of a listener.
#[derive(Clone, Copy, Debug, Default, Eq, PartialEq, Structural)]
pub struct ServeReport {
    accepted: u64,
    rejected: u64,
    completed: u64,
    failed: u64,
    cancelled: u64,
    network_to_unix_bytes: u64,
    unix_to_network_bytes: u64,
    last_close_reason: Option<ConnectionCloseReason>,
}

impl View for ServeReport {
    type V = ReportView;

    closed spec fn view(&self) -> ReportView {
        ReportView {
            accepted: self.accepted,
            rejected: self.rejected,
            completed: self.completed,
            failed: self.failed,
            cancelled: self.cancelled,
            network_to_unix_bytes: self.network_to_unix_bytes,
            unix_to_network_bytes: self.unix_to_network_bytes,
            last_close_reason: self.last_close_reason,
        }
    }
}

/// Every counter has room for one more, and the byte counters for these bytes.
pub open spec fn countable(report: ReportView, outcome: TaskOutcome) -> bool {
    match outcome {
        TaskOutcome::Completed { network_to_unix_bytes, unix_to_network_bytes } => {
            &&& report.completed < u64::MAX
            &&& report.network_to_unix_bytes + network_to_unix_bytes <= u64::MAX
            &&& report.unix_to_network_bytes + unix_to_network_bytes <= u64::MAX
        },
        TaskOutcome::Failed(_) | TaskOutcome::Lost => report.failed < u64::MAX,
        TaskOutcome::Cancelled => report.cancelled < u64::MAX,
    }
}

/// The report once the task of a client ended.
pub open spec fn task_recorded(report: ReportView, outcome: TaskOutcome) -> ReportView {
    match outcome {
        TaskOutcome::Completed { network_to_unix_bytes, unix_to_network_bytes } => ReportView {
            completed: (report.completed + 1) as u64,
            network_to_unix_bytes: (report.network_to_unix_bytes + network_to_unix_bytes) as u64,
            unix_to_network_bytes: (report.unix_to_network_bytes + unix_to_network_bytes) as u64,
            last_close_reason: Some(ConnectionCloseReason::CleanEof),
            ..report
        },
        TaskOutcome::Failed(error) => ReportView {
            failed: (report.failed + 1) as u64,
            last_close_reason: Some(close_reason(error)),
            ..report
        },
        TaskOutcome::Cancelled => ReportView {
            cancelled: (report.cancelled + 1) as u64,
            last_close_reason: Some(ConnectionCloseReason::Cancelled),
            ..report
        },
        TaskOutcome::Lost => ReportView {
            failed: (report.failed + 1) as u64,
            last_close_reason: Some(ConnectionCloseReason::Internal),
            ..report
        },
    }
}

/// The report of a listener that has served nobody.
pub open spec fn empty_report() -> ReportView {
    ReportView {
        accepted: 0,
        rejected: 0,
        completed: 0,
        failed: 0,
        cancelled: 0,
        network_to_unix_bytes: 0,
        unix_to_network_bytes: 0,
        last_close_reason: None,
    }
}

impl ServeReport {
    /// The report of a listener that has served nobody.
    pub fn new() -> (report: Self)
        ensures
            report@ == empty_report(),
    {
        ServeReport {
            accepted: 0,
            rejected: 0,
            completed: 0,
            failed: 0,
            cancelled: 0,
            network_to_unix_bytes: 0,
            unix_to_network_bytes: 0,
            last_close_reason: None,
        }
    }

    /// Admitted clients.
    pub fn accepted(&self) -> (count: u64)
        ensures
            count == self@.accepted,
    {
        self.accepted
    }

    /// Refused clients.
    pub fn rejected(&self) -> (count: u64)
        ensures
            count == self@.rejected,
    {
        self.rejected
    }

    /// Clients that were served to a clean end.
    pub fn completed(&self) -> (count: u64)
        ensures
            count == self@.completed,
    {
        self.completed
    }

    /// Admitted clients that failed.
    pub fn failed(&self) -> (count: u64)
        ensures
            count == self@.failed,
    {
        self.failed
    }

    /// Admitted clients that were cancelled.
    pub fn cancelled(&self) -> (count: u64)
        ensures
            count == self@.cancelled,
    {
        self.cancelled
    }

    /// Bytes forwarded to the upstream socket.
    pub fn network_to_unix_bytes(&self) -> (count: u64)
        ensures
            count == self@.network_to_unix_bytes,
    {
        self.network_to_unix_bytes
    }

    /// Bytes forwarded to clients.
    pub fn unix_to_network_bytes(&self) -> (count: u64)
        ensures
            count == self@.unix_to_network_bytes,
    {
        self.unix_to_network_bytes
    }

    /// Most recent reason.
    pub fn last_close_reason(&self) -> (reason: Option<ConnectionCloseReason>)
        ensures
            reason == self@.last_close_reason,
    {
        self.last_close_reason
    }

    /// Tells whether the counters have room for the end of a task.
    pub fn can_record(&self, outcome: &TaskOutcome) -> (room: bool)
        ensures
            room == countable(self@, *outcome),
    {
        match outcome {
            TaskOutcome::Completed { network_to_unix_bytes, unix_to_network_bytes } => {
                self.completed < u64::MAX && self.network_to_unix_bytes <= u64::MAX
                    - *network_to_unix_bytes && self.unix_to_network_bytes <= u64::MAX
                    - *unix_to_network_bytes
            },
            TaskOutcome::Failed(_) | TaskOutcome::Lost => self.failed < u64::MAX,
            TaskOutcome::Cancelled => self.cancelled < u64::MAX,
        }
    }

    /// Records a client that was refused before it got a task.
    pub fn record_rejection(&mut self, reason: ConnectionCloseReason)
        requires
            old(self)@.rejected < u64::MAX,
        ensures
            final(self)@ == (ReportView {
                rejected: (old(self)@.rejected + 1) as u64,
                last_close_reason: Some(reason),
                ..old(self)@
            }),
    {
        self.rejected = self.rejected + 1;
        self.last_close_reason = Some(reason);
    }

    /// Records a client that got a task.
    pub fn record_admission(&mut self)
        requires
            old(self)@.accepted < u64::MAX,
        ensures
            final(self)@ == (ReportView {
                accepted: (old(self)@.accepted + 1) as u64,
                ..old(self)@
            }),
    {
        self.accepted = self.accepted + 1;
    }

    /// Records how the task of a client ended.
    pub fn record_task(&mut self, outcome: &TaskOutcome)
        requires
            countable(old(self)@, *outcome),
        ensures
            final(self)@ == task_recorded(old(self)@, *outcome),
    {
        match outcome {
            TaskOutcome::Completed { network_to_unix_bytes, unix_to_network_bytes } => {
                self.completed = self.completed + 1;
                self.network_to_unix_bytes = self.network_to_unix_bytes + *network_to_unix_bytes;
                self.unix_to_network_bytes = self.unix_to_network_bytes + *unix_to_network_bytes;
                self.last_close_reason = Some(ConnectionCloseReason::CleanEof);
            },
            TaskOutcome::Failed(error) => {
                self.failed = self.failed + 1;
                self.last_close_reason = Some(close_reason_for_error(error));
            },
            TaskOutcome::Cancelled => {
                self.cancelled = self.cancelled + 1;
                self.last_close_reason = Some(ConnectionCloseReason::Cancelled);
            },
            TaskOutcome::Lost => {
                self.failed = self.failed + 1;
                self.last_close_reason = Some(ConnectionCloseReason::Internal);
            },
        }
    }
}

/// Every admitted client that has ended is counted once: completed, failed or cancelled.
pub open spec fn ended(report: ReportView) -> int {
    report.completed + report.failed + report.cancelled
}

/// The end of a task counts one client as ended, and admits or refuses none.
pub proof fn law_every_end_is_counted_once(report: ReportView, outcome: TaskOutcome)
    requires
        countable(report, outcome),
    ensures
        ended(task_recorded(report, outcome)) == ended(report) + 1,
        task_recorded(report, outcome).accepted == report.accepted,
        task_recorded(report, outcome).rejected == report.rejected,
{
}

/// What the configuration says of the listeners.
pub struct ListenerSettings {
    /// Outcome of validating the whole configuration.
    pub validated: RelayResult<()>,
    /// A listener other than the tailnet one is served.
    pub other_enabled: bool,
    /// The tailnet listener is served.
    pub tailscale_enabled: bool,
    /// The tailnet listener has a bind address.
    pub has_bind_address: bool,
    /// The tailnet listener needs TLS.
    pub uses_tls: bool,
    /// Mutual-TLS settings are given.
    pub has_security: bool,
    /// Seconds of a handshake.
    pub handshake_timeout_secs: u64,
    /// Seconds of an upstream connection.
    pub probe_timeout_secs: u64,
}

/// What a listener is made with.
#[derive(Clone, Copy, Debug, Eq, PartialEq, Structural)]
pub struct ListenerPlan {
    /// Clients are authenticated by mutual TLS.
    pub tls: bool,
    /// Seconds of a handshake.
    pub handshake_timeout_secs: u64,
    /// Seconds of an upstream connection.
    pub upstream_timeout_secs: u64,
}

/// The plan of a listener, or why there is none.
pub open spec fn listener_plan(
    settings: ListenerSettings,
    max_handshake_secs: u64,
    max_probe_secs: u64,
) -> RelayResult<ListenerPlan> {
    match settings.validated {
        Err(error) => Err(error),
        Ok(_) => if settings.other_enabled {
            Err(RelayError::UnsupportedListenerClass)
        } else if !settings.tailscale_enabled {
            Err(RelayError::ListenerStartup { reason: "the Tailscale listener is disabled" })
        } else if !settings.has_bind_address {
            Err(
                RelayError::ListenerStartup {
                    reason: "the Tailscale listener has no bind address",
                },
            )
        } else if settings.uses_tls && !settings.has_security {
            Err(
                RelayError::InvalidConfiguration {
                    field: "security",
                    reason: "TLS-enabled listeners require mutual-TLS settings",
                },
            )
        } else {
            Ok(
                ListenerPlan {
                    tls: settings.uses_tls,
                    handshake_timeout_secs: if settings.handshake_timeout_secs
                        <= max_handshake_secs {
                        settings.handshake_timeout_secs
                    } else {
                        max_handshake_secs
                    },
                    upstream_timeout_secs: if settings.probe_timeout_secs <= max_probe_secs {
                        settings.probe_timeout_secs
                    } else {
                        max_probe_secs
                    },
                },
            )
        },
    }
}

/// Plans a listener; the configured timeouts are held to the fixed ones.
pub fn plan_listener(settings: &ListenerSettings, max_handshake_secs: u64, max_probe_secs: u64)
    -> (plan: RelayResult<ListenerPlan>)
    ensures
        plan == listener_plan(*settings, max_handshake_secs, max_probe_secs),
{
    if let Err(error) = settings.validated {
        return Err(error);
    }
    if settings.other_enabled {
        return Err(RelayError::UnsupportedListenerClass);
    }
    if !settings.tailscale_enabled {
        return Err(RelayError::ListenerStartup { reason: "the Tailscale listener is disabled" });
    }
    if !settings.has_bind_address {
        return Err(
            RelayError::ListenerStartup { reason: "the Tailscale listener has no bind address" },
        );
    }
    if settings.uses_tls && !settings.has_security {
        return Err(
            RelayError::InvalidConfiguration {
                field: "security",
                reason: "TLS-enabled listeners require mutual-TLS settings",
            },
        );
    }
    let handshake_timeout_secs: u64 = if settings.handshake_timeout_secs <= max_handshake_secs {
        settings.handshake_timeout_secs
    } else {
        max_handshake_secs
    };
    let upstream_timeout_secs: u64 = if settings.probe_timeout_secs <= max_probe_secs {
        settings.probe_timeout_secs
    } else {
        max_probe_secs
    };
    Ok(ListenerPlan { tls: settings.uses_tls, handshake_timeout_secs, upstream_timeout_secs })
}

/// What comes of binding one port.
#[derive(Clone, Copy, Debug, Eq, PartialEq, Structural)]
pub enum BindOutcome {
    /// The port is bound.
    Bound,
    /// Another owner has the port.
    InUse,
    /// The address cannot be bound.
    Unavailable,
}

/// What has to be done next to bind a listener.
#[derive(Clone, Copy, Debug, Eq, PartialEq)]
pub enum BindStep {
    /// Bind this port.
    Try(u16),
    /// The port before is bound.
    Bound,
    /// No port can be bound.
    Fail(RelayError),
}

/// The first step over the candidates.
pub open spec fn bind_first(candidates: Seq<u16>) -> BindStep {
    if candidates.len() == 0 {
        BindStep::Fail(RelayError::PortRangeExhausted)
    } else {
        BindStep::Try(candidates[0])
    }
}

/// The outcome of binding candidates of which the first `outcomes.len()` were tried.
pub open spec fn bind_result(candidates: Seq<u16>, outcomes: Seq<BindOutcome>) -> BindStep
    decreases outcomes.len(),
{
    if outcomes.len() == 0 || candidates.len() == 0 {
        bind_first(candidates)
    } else {
        match outcomes[0] {
            BindOutcome::Bound => BindStep::Bound,
            BindOutcome::Unavailable => BindStep::Fail(RelayError::ListenerAddressUnavailable),
            BindOutcome::InUse => bind_result(candidates.drop_first(), outcomes.drop_first()),
        }
    }
}

/// Decides how binding goes on when the first `outcomes.len()` of the candidates were tried.
pub fn bind_candidates(candidates: &Vec<u16>, outcomes: &Vec<BindOutcome>) -> (step: BindStep)
    ensures
        step == bind_result(candidates@, outcomes@),
{
    let mut i: usize = 0;
    assert(candidates@.subrange(0, candidates@.len() as int) =~= candidates@);
    assert(outcomes@.subrange(0, outcomes@.len() as int) =~= outcomes@);
    while i < outcomes.len() && i < candidates.len()
        invariant
            i <= outcomes@.len(),
            i <= candidates@.len(),
            bind_result(candidates@, outcomes@) == bind_result(
                candidates@.subrange(i as int, candidates@.len() as int),
                outcomes@.subrange(i as int, outcomes@.len() as int),
            ),
        decreases outcomes@.len() - i,
    {
        let ghost left = candidates@.subrange(i as int, candidates@.len() as int);
        let ghost tried = outcomes@.subrange(i as int, outcomes@.len() as int);
        match outcomes[i] {
            BindOutcome::Bound => {
                return BindStep::Bound;
            },
            BindOutcome::Unavailable => {
                return BindStep::Fail(RelayError::ListenerAddressUnavailable);
            },
            BindOutcome::InUse => {},
        }
        proof {
            assert(left.drop_first() =~= candidates@.subrange(i + 1, candidates@.len() as int));
            assert(tried.drop_first() =~= outcomes@.subrange(i + 1, outcomes@.len() as int));
        }
        i = i + 1;
    }
    if i < candidates.len() {
        BindStep::Try(candidates[i])
    } else {
        BindStep::Fail(RelayError::PortRangeExhausted)
    }
}

/// Only occupied ports are skipped: as long as every port was in use the next one is tried, and if
/// all were the range is exhausted.
pub proof fn law_occupied_ports_are_skipped(candidates: Seq<u16>, outcomes: Seq<BindOutcome>)
    requires
        outcomes.len() <= candidates.len(),
        forall|i: int| 0 <= i < outcomes.len() ==> (#[trigger] outcomes[i]) == BindOutcome::InUse,
    ensures
        bind_result(candidates, outcomes) == (if outcomes.len() < candidates.len() {
            BindStep::Try(candidates[outcomes.len() as int])
        } else {
            BindStep::Fail(RelayError::PortRangeExhausted)
        }),
    decreases outcomes.len(),
{
    if outcomes.len() > 0 {
        assert(outcomes[0] == BindOutcome::InUse);
        let rest = outcomes.drop_first();
        assert forall|i: int| 0 <= i < rest.len() implies (#[trigger] rest[i])
            == BindOutcome::InUse by {
            assert(rest[i] == outcomes[i + 1]);
        }
        law_occupied_ports_are_skipped(candidates.drop_first(), rest);
    }
}

/// What is done with a client that connects.
#[derive(Clone, Copy, Debug, Eq, PartialEq, Structural)]
pub enum Admission {
    /// It is closed for this reason.
    Refuse(ConnectionCloseReason),
    /// It is served.
    Serve,
}

/// Bounds on the clients of a listener.
#[derive(Clone, Copy, Debug, Eq, PartialEq, Structural)]
pub struct ClientLimits {
    /// Clients of every listener.
    pub max_clients: usize,
    /// Clients of this listener.
    pub max_clients_per_listener: usize,
    /// Clients in their handshake.
    pub max_handshakes: usize,
}

/// What happens to a serving listener.
#[derive(Clone, Copy, Debug, Eq, PartialEq)]
pub enum ServeEvent {
    /// A client connected; the flag says whether its source is allowed.
    Accepted(bool),
    /// The host failed to accept a client.
    AcceptFailed(IoKind),
    /// A client completed its handshake.
    Authenticated,
    /// The task of a client ended.
    Joined {
        /// The client never completed its handshake.
        in_handshake: bool,
        /// How the task ended.
        outcome: TaskOutcome,
    },
    /// The owner stops the listener.
    Shutdown,
}

/// What a serving listener does next.
#[derive(Clone, Copy, Debug, Eq, PartialEq)]
pub enum ServeAction {
    /// Wait for the next event.
    Wait,
    /// Close the client that connected.
    Close,
    /// Start a task for the client that connected.
    Spawn,
    /// Abort the task of every client and wait for each.
    AbortAll,
    /// Hand out the report.
    Finish,
    /// Fail; the task of every client is dropped.
    Fail(RelayError),
}

/// Mathematical value of a listener.
pub struct ListenerView {
    /// How clients are authenticated and for how long.
    pub plan: ListenerPlan,
    /// Where the listener is bound.
    pub address: crate::address::AddressView,
    /// Bounds on the clients.
    pub limits: ClientLimits,
    /// Clients whose task runs.
    pub clients: usize,
    /// Clients in their handshake.
    pub handshakes: usize,
    /// Counters.
    pub report: ReportView,
    /// No client is admitted any more.
    pub stopping: bool,
}

impl ListenerView {
    /// No bound is exceeded, and every admitted client either runs or has ended.
    pub open spec fn wf(self) -> bool {
        &&& self.clients <= self.limits.max_clients
        &&& self.clients <= self.limits.max_clients_per_listener
        &&& self.handshakes <= self.limits.max_handshakes
        &&& self.handshakes <= self.clients
        &&& self.report.accepted == ended(self.report) + self.clients
    }

    /// What is done with a client: its source is checked first, then each bound.
    pub open spec fn admission(self, source_allowed: bool) -> Admission {
        if !source_allowed {
            Admission::Refuse(ConnectionCloseReason::SourceNotAllowed)
        } else if self.clients >= self.limits.max_clients {
            Admission::Refuse(ConnectionCloseReason::GlobalClientLimit)
        } else if self.clients >= self.limits.max_clients_per_listener {
            Admission::Refuse(ConnectionCloseReason::ListenerClientLimit)
        } else if self.handshakes >= self.limits.max_handshakes {
            Admission::Refuse(ConnectionCloseReason::HandshakeLimit)
        } else {
            Admission::Serve
        }
    }

    /// The event can happen to the listener, and the counters have room for it.
    pub open spec fn accepts(self, event: ServeEvent) -> bool {
        match event {
            ServeEvent::Accepted(source_allowed) => {
                &&& !self.stopping
                &&& match self.admission(source_allowed) {
                    Admission::Refuse(_) => self.report.rejected < u64::MAX,
                    Admission::Serve => self.report.accepted < u64::MAX,
                }
            },
            ServeEvent::AcceptFailed(_) => !self.stopping,
            ServeEvent::Authenticated => self.handshakes > 0,
            ServeEvent::Joined { in_handshake, outcome } => {
                &&& self.clients > 0
                &&& (if in_handshake {
                    self.handshakes > 0
                } else {
                    self.handshakes < self.clients
                })
                &&& countable(self.report, outcome)
            },
            ServeEvent::Shutdown => !self.stopping,
        }
    }

    /// The listener after the event.
    pub open spec fn after(self, event: ServeEvent) -> ListenerView {
        match event {
            ServeEvent::Accepted(source_allowed) => match self.admission(source_allowed) {
                Admission::Refuse(reason) => ListenerView {
                    report: ReportView {
                        rejected: (self.report.rejected + 1) as u64,
                        last_close_reason: Some(reason),
                        ..self.report
                    },
                    ..self
                },
                Admission::Serve => ListenerView {
                    clients: (self.clients + 1) as usize,
                    handshakes: (self.handshakes + 1) as usize,
                    report: ReportView {
                        accepted: (self.report.accepted + 1) as u64,
                        ..self.report
                    },
                    ..self
                },
            },
            ServeEvent::AcceptFailed(_) => ListenerView { stopping: true, ..self },
            ServeEvent::Authenticated => ListenerView {
                handshakes: (self.handshakes - 1) as usize,
                ..self
            },
            ServeEvent::Joined { in_handshake, outcome } => ListenerView {
                clients: (self.clients - 1) as usize,
                handshakes: if in_handshake {
                    (self.handshakes - 1) as usize
                } else {
                    self.handshakes
                },
                report: task_recorded(self.report, outcome),
                ..self
            },
            ServeEvent::Shutdown => ListenerView { stopping: true, ..self },
        }
    }

    /// What the listener does next.
    pub open spec fn action(self, event: ServeEvent) -> ServeAction {
        match event {
            ServeEvent::Accepted(source_allowed) => match self.admission(source_allowed) {
                Admission::Refuse(_) => ServeAction::Close,
                Admission::Serve => ServeAction::Spawn,
            },
            ServeEvent::AcceptFailed(kind) => ServeAction::Fail(
                RelayError::Io { operation: "accepting relay client", kind },
            ),
            ServeEvent::Authenticated => ServeAction::Wait,
            ServeEvent::Joined { .. } => if self.stopping && self.clients == 1 {
                ServeAction::Finish
            } else {
                ServeAction::Wait
            },
            ServeEvent::Shutdown => if self.clients == 0 {
                ServeAction::Finish
            } else {
                ServeAction::AbortAll
            },
        }
    }
}

/// An authenticated listener that admits a bounded number of clients.
pub struct TailscaleListener {
    plan: ListenerPlan,
    address: ListenAddress,
    limits: ClientLimits,
    clients: usize,
    handshakes: usize,
    report: ServeReport,
    stopping: bool,
}

impl View for TailscaleListener {
    type V = ListenerView;

    closed spec fn view(&self) -> ListenerView {
        ListenerView {
            plan: self.plan,
            address: self.address@,
            limits: self.limits,
            clients: self.clients,
            handshakes: self.handshakes,
            report: self.report@,
            stopping: self.stopping,
        }
    }
}

impl TailscaleListener {
    /// The listener that is planned like this and bound to this address.
    pub fn bind(plan: ListenerPlan, limits: ClientLimits, address: ListenAddress) -> (listener: Self)
        ensures
            listener@.wf(),
            listener@.plan == plan,
            listener@.limits == limits,
            listener@.address == address@,
            listener@.clients == 0,
            listener@.handshakes == 0,
            listener@.report == empty_report(),
            !listener@.stopping,
    {
        TailscaleListener {
            plan,
            address,
            limits,
            clients: 0,
            handshakes: 0,
            report: ServeReport::new(),
            stopping: false,
        }
    }

    /// Where the listener is bound.
    pub fn local_addr(&self) -> (address: &ListenAddress)
        ensures
            address@ == self@.address,
    {
        &self.address
    }

    /// How clients are authenticated and for how long.
    pub fn plan(&self) -> (plan: ListenerPlan)
        ensures
            plan == self@.plan,
    {
        self.plan
    }

    /// The counters so far.
    pub fn report(&self) -> (report: ServeReport)
        ensures
            report@ == self@.report,
    {
        self.report
    }

    /// Clients whose task runs.
    pub fn client_count(&self) -> (count: usize)
        ensures
            count == self@.clients,
    {
        self.clients
    }

    fn decide(&self, source_allowed: bool) -> (admission: Admission)
        ensures
            admission == self@.admission(source_allowed),
    {
        if !source_allowed {
            Admission::Refuse(ConnectionCloseReason::SourceNotAllowed)
        } else if self.clients >= self.limits.max_clients {
            Admission::Refuse(ConnectionCloseReason::GlobalClientLimit)
        } else if self.clients >= self.limits.max_clients_per_listener {
            Admission::Refuse(ConnectionCloseReason::ListenerClientLimit)
        } else if self.handshakes >= self.limits.max_handshakes {
            Admission::Refuse(ConnectionCloseReason::HandshakeLimit)
        } else {
            Admission::Serve
        }
    }

    /// Tells whether the event can happen to the listener and the counters have room for it.
    pub fn can_serve(&self, event: &ServeEvent) -> (possible: bool)
        ensures
            possible == self@.accepts(*event),
    {
        match event {
            ServeEvent::Accepted(source_allowed) => {
                !self.stopping && match self.decide(*source_allowed) {
                    Admission::Refuse(_) => self.report.rejected < u64::MAX,
                    Admission::Serve => self.report.accepted < u64::MAX,
                }
            },
            ServeEvent::AcceptFailed(_) => !self.stopping,
            ServeEvent::Authenticated => self.handshakes > 0,
            ServeEvent::Joined { in_handshake, outcome } => {
                self.clients > 0 && (if *in_handshake {
                    self.handshakes > 0
                } else {
                    self.handshakes < self.clients
                }) && self.report.can_record(outcome)
            },
            ServeEvent::Shutdown => !self.stopping,
        }
    }

    /// Serves one event and says what has to be done next.
    pub fn serve_until(&mut self, event: &ServeEvent) -> (action: ServeAction)
        requires
            old(self)@.wf(),
            old(self)@.accepts(*event),
        ensures
            final(self)@.wf(),
            final(self)@ == old(self)@.after(*event),
            action == old(self)@.action(*event),
    {
        match event {
            ServeEvent::Accepted(source_allowed) => match self.decide(*source_allowed) {
                Admission::Refuse(reason) => {
                    self.report.record_rejection(reason);
                    ServeAction::Close
                },
                Admission::Serve => {
                    self.clients = self.clients + 1;
                    self.handshakes = self.handshakes + 1;
                    self.report.record_admission();
                    ServeAction::Spawn
                },
            },
            ServeEvent::AcceptFailed(kind) => {
                self.stopping = true;
                ServeAction::Fail(
                    RelayError::Io { operation: "accepting relay client", kind: *kind },
                )
            },
            ServeEvent::Authenticated => {
                self.handshakes = self.handshakes - 1;
                ServeAction::Wait
            },
            ServeEvent::Joined { in_handshake, outcome } => {
                self.clients = self.clients - 1;
                if *in_handshake {
                    self.handshakes = self.handshakes - 1;
                }
                self.report.record_task(outcome);
                if self.stopping && self.clients == 0 {
                    ServeAction::Finish
                } else {
                    ServeAction::Wait
                }
            },
            ServeEvent::Shutdown => {
                self.stopping = true;
                if self.clients == 0 {
                    ServeAction::Finish
                } else {
                    ServeAction::AbortAll
                }
            },
        }
    }
}

/// A client from a source that is not allowed is refused for that reason, whatever the bounds.
pub proof fn law_source_is_checked_first(listener: ListenerView)
    ensures
        listener.admission(false) == Admission::Refuse(ConnectionCloseReason::SourceNotAllowed),
{
}

/// Every event keeps the bounds on clients and handshakes, and every admitted client either runs
/// or is counted once as completed, failed or cancelled.
pub proof fn law_clients_are_bounded(listener: ListenerView, event: ServeEvent)
    requires
        listener.wf(),
        listener.accepts(event),
    ensures
        listener.after(event).wf(),
        listener.after(event).limits == listener.limits,
{
}

/// When the report is handed out, no client runs and every admitted client has ended.
pub proof fn law_no_client_survives_the_listener(listener: ListenerView, event: ServeEvent)
    requires
        listener.wf(),
        listener.accepts(event),
        listener.action(event) == ServeAction::Finish,
    ensures
        listener.after(event).clients == 0,
        listener.after(event).report.accepted == ended(listener.after(event).report),
{
}

/// A stopping listener admits nobody and keeps stopping.
pub proof fn law_stopping_listener_admits_nobody(listener: ListenerView, event: ServeEvent)
    requires
        listener.stopping,
        listener.accepts(event),
    ensures
        listener.action(event) != ServeAction::Spawn,
        listener.after(event).stopping,
        listener.after(event).report.accepted == listener.report.accepted,
{
}

/// How the handshake of a client ended.
pub enum AuthenticationOutcome<'a> {
    /// The deadline passed.
    TimedOut,
    /// TLS failed.
    TlsFailed,
    /// TLS succeeded with this protocol, if any, and the Relay handshake ended like this.
    Tls {
        /// Negotiated protocol.
        protocol: Option<&'a [u8]>,
        /// Outcome of the Relay handshake.
        handshake: RelayResult<()>,
    },
    /// Without TLS, the Relay handshake ended like this.
    Plain(RelayResult<()>),
}

/// What has to be done next for a client.
#[derive(Clone, Copy, Debug, Eq, PartialEq)]
pub enum ClientStep {
    /// Connect to the upstream socket.
    ConnectUpstream,
    /// Run the bridge.
    Bridge,
    /// The client ended.
    End(TaskOutcome),
}

/// The decision on the handshake of a client.
pub open spec fn authentication_step(outcome: AuthenticationOutcome, relay_alpn: Seq<u8>) -> ClientStep {
    match outcome {
        AuthenticationOutcome::TimedOut => ClientStep::End(
            TaskOutcome::Failed(RelayError::RelayHandshakeTimeout),
        ),
        AuthenticationOutcome::TlsFailed => ClientStep::End(
            TaskOutcome::Failed(RelayError::TlsAuthentication),
        ),
        AuthenticationOutcome::Tls { protocol, handshake } => match protocol {
            Some(name) => if name@ == relay_alpn {
                handshake_step(handshake)
            } else {
                ClientStep::End(TaskOutcome::Failed(RelayError::RelayHandshake))
            },
            None => ClientStep::End(TaskOutcome::Failed(RelayError::RelayHandshake)),
        },
        AuthenticationOutcome::Plain(handshake) => handshake_step(handshake),
    }
}

/// The decision on the Relay handshake.
pub open spec fn handshake_step(handshake: RelayResult<()>) -> ClientStep {
    match handshake {
        Ok(_) => ClientStep::ConnectUpstream,
        Err(error) => ClientStep::End(TaskOutcome::Failed(error)),
    }
}

fn after_handshake(handshake: RelayResult<()>) -> (step: ClientStep)
    ensures
        step == handshake_step(handshake),
{
    match handshake {
        Ok(_) => ClientStep::ConnectUpstream,
        Err(error) => ClientStep::End(TaskOutcome::Failed(error)),
    }
}

/// Decides on the handshake of a client; `relay_alpn` is the protocol that TLS must negotiate.
pub fn client_authenticated(outcome: &AuthenticationOutcome, relay_alpn: &[u8]) -> (step: ClientStep)
    ensures
        step == authentication_step(*outcome, relay_alpn@),
{
    match outcome {
        AuthenticationOutcome::TimedOut => ClientStep::End(
            TaskOutcome::Failed(RelayError::RelayHandshakeTimeout),
        ),
        AuthenticationOutcome::TlsFailed => ClientStep::End(
            TaskOutcome::Failed(RelayError::TlsAuthentication),
        ),
        AuthenticationOutcome::Tls { protocol, handshake } => match protocol {
            Some(name) => if same_bytes(name, relay_alpn) {
                after_handshake(*handshake)
            } else {
                ClientStep::End(TaskOutcome::Failed(RelayError::RelayHandshake))
            },
            None => ClientStep::End(TaskOutcome::Failed(RelayError::RelayHandshake)),
        },
        AuthenticationOutcome::Plain(handshake) => after_handshake(*handshake),
    }
}

/// How connecting to the upstream socket ended.
#[derive(Clone, Copy, Debug, Eq, PartialEq)]
pub enum UpstreamOutcome {
    /// The deadline passed.
    TimedOut,
    /// It failed.
    Failed(RelayError),
    /// The socket is connected.
    Connected,
}

/// The decision on the upstream connection of a client.
pub open spec fn upstream_step(outcome: UpstreamOutcome) -> ClientStep {
    match outcome {
        UpstreamOutcome::Connected => ClientStep::Bridge,
        UpstreamOutcome::TimedOut => ClientStep::End(
            TaskOutcome::Failed(RelayError::UpstreamUnavailable),
        ),
        UpstreamOutcome::Failed(error) => ClientStep::End(TaskOutcome::Failed(error)),
    }
}

/// Decides on the upstream connection of a client.
pub fn upstream_connected(outcome: UpstreamOutcome) -> (step: ClientStep)
    ensures
        step == (match outcome {
            UpstreamOutcome::TimedOut => ClientStep::End(
                TaskOutcome::Failed(RelayError::UpstreamUnavailable),
            ),
            UpstreamOutcome::Failed(error) => ClientStep::End(TaskOutcome::Failed(error)),
            UpstreamOutcome::Connected => ClientStep::Bridge,
        }),
        step == upstream_step(outcome),
{
    match outcome {
        UpstreamOutcome::TimedOut => ClientStep::End(
            TaskOutcome::Failed(RelayError::UpstreamUnavailable),
        ),
        UpstreamOutcome::Failed(error) => ClientStep::End(TaskOutcome::Failed(error)),
        UpstreamOutcome::Connected => ClientStep::Bridge,
    }
}

/// How a client ended whose bridge ended like this.
pub open spec fn bridge_outcome(result: RelayResult<(u64, u64)>) -> TaskOutcome {
    match result {
        Ok(bytes) => TaskOutcome::Completed {
            network_to_unix_bytes: bytes.0,
            unix_to_network_bytes: bytes.1,
        },
        Err(error) => TaskOutcome::Failed(error),
    }
}

/// Decides on the bridge of a client; an ended bridge reports its bytes in both directions.
pub fn bridge_ended(result: RelayResult<(u64, u64)>) -> (step: ClientStep)
    ensures
        step == ClientStep::End(
            match result {
                Ok((network_to_unix_bytes, unix_to_network_bytes)) => TaskOutcome::Completed {
                    network_to_unix_bytes,
                    unix_to_network_bytes,
                },
                Err(error) => TaskOutcome::Failed(error),
            },
        ),
        step == ClientStep::End(bridge_outcome(result)),
{
    match result {
        Ok((network_to_unix_bytes, unix_to_network_bytes)) => ClientStep::End(
            TaskOutcome::Completed { network_to_unix_bytes, unix_to_network_bytes },
        ),
        Err(error) => ClientStep::End(TaskOutcome::Failed(error)),
    }
}

/// The upstream socket is opened only for a client whose Relay handshake succeeded, over TLS only
/// with the Relay protocol.
pub proof fn law_upstream_needs_authentication(
    outcome: AuthenticationOutcome,
    relay_alpn: Seq<u8>,
)
    requires
        authentication_step(outcome, relay_alpn) == ClientStep::ConnectUpstream,
    ensures
        match outcome {
            AuthenticationOutcome::Tls { protocol, handshake } => {
                &&& protocol matches Some(name) && name@ == relay_alpn
                &&& handshake is Ok
            },
            AuthenticationOutcome::Plain(handshake) => handshake is Ok,
            _ => false,
        },
{
}

/// A client is served if and only if its source is allowed and there is room below each of the
/// three bounds. One that is not is refused for the first of these that fails.
pub proof fn law_clients_are_served_while_there_is_room(
    listener: ListenerView,
    source_allowed: bool,
)
    ensures
        listener.admission(source_allowed) == Admission::Serve <==> source_allowed
            && listener.clients < listener.limits.max_clients && listener.clients
            < listener.limits.max_clients_per_listener && listener.handshakes
            < listener.limits.max_handshakes,
        source_allowed && listener.clients >= listener.limits.max_clients ==> listener.admission(
            source_allowed,
        ) == Admission::Refuse(ConnectionCloseReason::GlobalClientLimit),
        source_allowed && listener.limits.max_clients_per_listener <= listener.clients
            < listener.limits.max_clients ==> listener.admission(source_allowed)
            == Admission::Refuse(ConnectionCloseReason::ListenerClientLimit),
        source_allowed && listener.clients < listener.limits.max_clients && listener.clients
            < listener.limits.max_clients_per_listener && listener.handshakes
            >= listener.limits.max_handshakes ==> listener.admission(source_allowed)
            == Admission::Refuse(ConnectionCloseReason::HandshakeLimit),
{
}

/// A client that is served runs and is in its handshake, and is counted as admitted. A refused one
/// is counted as refused with its reason, and changes nothing else.
pub proof fn law_connecting_clients_are_counted(listener: ListenerView, source_allowed: bool)
    requires
        listener.wf(),
        listener.accepts(ServeEvent::Accepted(source_allowed)),
    ensures
        ({
            let event = ServeEvent::Accepted(source_allowed);
            let after = listener.after(event);
            &&& listener.action(event) == ServeAction::Spawn || listener.action(event)
                == ServeAction::Close
            &&& after.report.completed == listener.report.completed
            &&& after.report.failed == listener.report.failed
            &&& after.report.cancelled == listener.report.cancelled
            &&& after.report.network_to_unix_bytes == listener.report.network_to_unix_bytes
            &&& after.report.unix_to_network_bytes == listener.report.unix_to_network_bytes
            &&& after.stopping == listener.stopping
            &&& listener.action(event) == ServeAction::Spawn ==> {
                &&& listener.admission(source_allowed) == Admission::Serve
                &&& after.clients == listener.clients + 1
                &&& after.handshakes == listener.handshakes + 1
                &&& after.report.accepted == listener.report.accepted + 1
                &&& after.report.rejected == listener.report.rejected
                &&& after.report.last_close_reason == listener.report.last_close_reason
            }
            &&& listener.action(event) == ServeAction::Close ==> {
                &&& after.clients == listener.clients
                &&& after.handshakes == listener.handshakes
                &&& after.report.accepted == listener.report.accepted
                &&& after.report.rejected == listener.report.rejected + 1
                &&& (after.report.last_close_reason matches Some(reason)
                    && listener.admission(source_allowed) == Admission::Refuse(reason))
            }
        }),
{
}

/// A client whose task ends runs no more, and leaves its handshake if it was still in it. Nothing
/// else of the listener changes but the counters of its end.
pub proof fn law_ended_clients_make_room(
    listener: ListenerView,
    in_handshake: bool,
    outcome: TaskOutcome,
)
    requires
        listener.wf(),
        listener.accepts(ServeEvent::Joined { in_handshake, outcome }),
    ensures
        ({
            let after = listener.after(ServeEvent::Joined { in_handshake, outcome });
            &&& after.clients == listener.clients - 1
            &&& after.handshakes == listener.handshakes - (if in_handshake {
                1int
            } else {
                0int
            })
            &&& after.stopping == listener.stopping
            &&& after.plan == listener.plan
            &&& after.address == listener.address
            &&& after.limits == listener.limits
            &&& after.report.accepted == listener.report.accepted
            &&& after.report.rejected == listener.report.rejected
        }),
{
}

/// A client that completes its handshake keeps running and makes room for the handshake of another.
pub proof fn law_authentication_ends_a_handshake(listener: ListenerView)
    requires
        listener.wf(),
        listener.accepts(ServeEvent::Authenticated),
    ensures
        listener.after(ServeEvent::Authenticated).handshakes == listener.handshakes - 1,
        listener.after(ServeEvent::Authenticated).clients == listener.clients,
        listener.after(ServeEvent::Authenticated).report == listener.report,
        listener.after(ServeEvent::Authenticated).stopping == listener.stopping,
        listener.action(ServeEvent::Authenticated) == ServeAction::Wait,
{
}

/// Only a stop or a failure to accept stops a listener, and neither changes its clients or its
/// report.
pub proof fn law_listener_stops_for_a_reason(listener: ListenerView, event: ServeEvent)
    requires
        listener.accepts(event),
    ensures
        listener.after(event).stopping <==> listener.stopping || event is Shutdown
            || event is AcceptFailed,
        event is Shutdown || event is AcceptFailed ==> listener.after(event).clients
            == listener.clients && listener.after(event).handshakes == listener.handshakes
            && listener.after(event).report == listener.report,
        listener.after(event).plan == listener.plan,
        listener.after(event).address == listener.address,
{
}

/// The report is handed out if and only if the listener stops and its last client has ended. A stop
/// with clients aborts them, and a failure to accept is told with its cause.
pub proof fn law_report_is_handed_out_at_the_end(listener: ListenerView, event: ServeEvent)
    requires
        listener.wf(),
        listener.accepts(event),
    ensures
        listener.action(event) == ServeAction::Finish <==> listener.after(event).stopping
            && listener.after(event).clients == 0 && (event is Joined || event is Shutdown),
        listener.action(event) == ServeAction::AbortAll <==> event is Shutdown && listener.clients
            > 0,
        event matches ServeEvent::AcceptFailed(cause) ==> listener.action(event)
            == ServeAction::Fail(
            RelayError::Io { operation: "accepting relay client", kind: cause },
        ),
        listener.action(event) is Fail ==> event is AcceptFailed,
{
}

/// The counter that goes up is that of the way the task ended; the bytes are added only for a client
/// that was served to a clean end.
pub proof fn law_ends_are_told_apart(report: ReportView, outcome: TaskOutcome)
    requires
        countable(report, outcome),
    ensures
        ({
            let after = task_recorded(report, outcome);
            &&& after.completed == report.completed + (if outcome is Completed {
                1int
            } else {
                0int
            })
            &&& after.cancelled == report.cancelled + (if outcome is Cancelled {
                1int
            } else {
                0int
            })
            &&& after.failed == report.failed + (if outcome is Failed || outcome is Lost {
                1int
            } else {
                0int
            })
            &&& after.network_to_unix_bytes == report.network_to_unix_bytes + (match outcome {
                TaskOutcome::Completed { network_to_unix_bytes, .. } =>
                    network_to_unix_bytes as int,
                _ => 0int,
            })
            &&& after.unix_to_network_bytes == report.unix_to_network_bytes + (match outcome {
                TaskOutcome::Completed { unix_to_network_bytes, .. } =>
                    unix_to_network_bytes as int,
                _ => 0int,
            })
            &&& after.last_close_reason is Some
            &&& after.last_close_reason == Some(ConnectionCloseReason::CleanEof)
                <==> outcome is Completed
            &&& after.last_close_reason == Some(ConnectionCloseReason::Cancelled)
                <==> outcome is Cancelled
            &&& outcome is Lost ==> after.last_close_reason == Some(
                ConnectionCloseReason::Internal,
            )
            &&& outcome matches TaskOutcome::Failed(error) ==> after.last_close_reason == Some(
                close_reason(error),
            )
        }),
{
}

/// A counter never goes down.
pub proof fn law_counters_only_go_up(report: ReportView, outcome: TaskOutcome)
    requires
        countable(report, outcome),
    ensures
        task_recorded(report, outcome).completed >= report.completed,
        task_recorded(report, outcome).failed >= report.failed,
        task_recorded(report, outcome).cancelled >= report.cancelled,
        task_recorded(report, outcome).network_to_unix_bytes >= report.network_to_unix_bytes,
        task_recorded(report, outcome).unix_to_network_bytes >= report.unix_to_network_bytes,
{
}

/// Each failure has its own reason; the upstream socket counts as unavailable if it is said to be,
/// if its identity is wrong, or if opening it found no socket or no listener. Everything else is an
/// internal failure.
pub proof fn law_failures_have_their_reason(error: RelayError)
    ensures
        close_reason(error) == ConnectionCloseReason::SourceNotAllowed <==> error
            == RelayError::SourceNotAllowed,
        close_reason(error) == ConnectionCloseReason::GlobalClientLimit <==> error
            == RelayError::ClientLimit,
        close_reason(error) == ConnectionCloseReason::HandshakeLimit <==> error
            == RelayError::HandshakeLimit,
        close_reason(error) == ConnectionCloseReason::TlsAuthentication <==> error
            == RelayError::TlsAuthentication,
        close_reason(error) == ConnectionCloseReason::RelayHandshake <==> error
            == RelayError::RelayHandshake,
        close_reason(error) == ConnectionCloseReason::HandshakeTimeout <==> error
            == RelayError::RelayHandshakeTimeout,
        close_reason(error) == ConnectionCloseReason::IdleTimeout <==> error
            == RelayError::BridgeIdleTimeout,
        close_reason(error) == ConnectionCloseReason::UpstreamUnavailable <==> {
            ||| error == RelayError::UpstreamUnavailable
            ||| error is SocketIdentity
            ||| error matches RelayError::Io { operation, kind } && (kind == IoKind::NotFound
                || kind == IoKind::ConnectionRefused) && (operation@
                == "checking Herdr Unix socket"@ || operation@ == "checking Herdr socket parent"@
                || operation@ == "checking Herdr socket path"@ || operation@
                == "connecting to Herdr Unix socket"@)
        },
        close_reason(error) != ConnectionCloseReason::CleanEof,
        close_reason(error) != ConnectionCloseReason::ListenerClientLimit,
        close_reason(error) != ConnectionCloseReason::Cancelled,
{
}

/// A listener that has served nobody has counted nothing.
pub proof fn law_reports_start_empty()
    ensures
        ended(empty_report()) == 0,
        empty_report().accepted == 0,
        empty_report().rejected == 0,
        empty_report().network_to_unix_bytes == 0,
        empty_report().unix_to_network_bytes == 0,
        empty_report().last_close_reason is None,
{
}

/// A listener is planned if and only if its configuration is valid, no other listener is served,
/// the tailnet one is and has an address, and mutual TLS is configured if it is needed. It uses TLS
/// if and only if TLS is needed, and never waits longer than configured or than its bound.
pub proof fn law_listeners_are_planned_when_complete(
    settings: ListenerSettings,
    max_handshake_secs: u64,
    max_probe_secs: u64,
)
    ensures
        ({
            let plan = listener_plan(settings, max_handshake_secs, max_probe_secs);
            &&& plan is Ok <==> settings.validated is Ok && !settings.other_enabled
                && settings.tailscale_enabled && settings.has_bind_address && (settings.uses_tls
                ==> settings.has_security)
            &&& settings.validated matches Err(error) ==> plan == Err::<ListenerPlan, RelayError>(
                error,
            )
            &&& settings.validated is Ok && settings.other_enabled ==> plan == Err::<
                ListenerPlan,
                RelayError,
            >(RelayError::UnsupportedListenerClass)
            &&& plan matches Ok(made) ==> {
                &&& made.tls == settings.uses_tls
                &&& made.handshake_timeout_secs <= settings.handshake_timeout_secs
                &&& made.handshake_timeout_secs <= max_handshake_secs
                &&& made.handshake_timeout_secs == settings.handshake_timeout_secs
                    || made.handshake_timeout_secs == max_handshake_secs
                &&& made.upstream_timeout_secs <= settings.probe_timeout_secs
                &&& made.upstream_timeout_secs <= max_probe_secs
                &&& made.upstream_timeout_secs == settings.probe_timeout_secs
                    || made.upstream_timeout_secs == max_probe_secs
            }
        }),
{
}

/// A port that is bound ends the search at once, and so does an address that is unavailable: what
/// comes after it has no effect.
pub proof fn law_first_other_outcome_ends_the_search(
    candidates: Seq<u16>,
    outcomes: Seq<BindOutcome>,
    at: int,
)
    requires
        0 <= at < outcomes.len() <= candidates.len(),
        forall|i: int| 0 <= i < at ==> (#[trigger] outcomes[i]) == BindOutcome::InUse,
        outcomes[at] != BindOutcome::InUse,
    ensures
        outcomes[at] == BindOutcome::Bound ==> bind_result(candidates, outcomes)
            == BindStep::Bound,
        outcomes[at] == BindOutcome::Unavailable ==> bind_result(candidates, outcomes)
            == BindStep::Fail(RelayError::ListenerAddressUnavailable),
    decreases at,
{
    if at > 0 {
        assert(outcomes[0] == BindOutcome::InUse);
        let rest = outcomes.drop_first();
        assert forall|i: int| 0 <= i < at - 1 implies (#[trigger] rest[i])
            == BindOutcome::InUse by {
            assert(rest[i] == outcomes[i + 1]);
        }
        assert(rest[at - 1] == outcomes[at]);
        law_first_other_outcome_ends_the_search(candidates.drop_first(), rest, at - 1);
    }
}

/// A client is connected upstream if and only if its Relay handshake succeeded, over TLS only with
/// the Relay protocol. One that is not ends with the failure that was found.
pub proof fn law_authentication_failures_are_told_apart(
    outcome: AuthenticationOutcome,
    relay_alpn: Seq<u8>,
)
    ensures
        ({
            let step = authentication_step(outcome, relay_alpn);
            &&& step == ClientStep::ConnectUpstream <==> (match outcome {
                AuthenticationOutcome::Tls { protocol, handshake } => (match protocol {
                    Some(name) => name@ == relay_alpn,
                    None => false,
                }) && handshake is Ok,
                AuthenticationOutcome::Plain(handshake) => handshake is Ok,
                _ => false,
            })
            &&& outcome is TimedOut ==> step == ClientStep::End(
                TaskOutcome::Failed(RelayError::RelayHandshakeTimeout),
            )
            &&& outcome is TlsFailed ==> step == ClientStep::End(
                TaskOutcome::Failed(RelayError::TlsAuthentication),
            )
            &&& outcome matches AuthenticationOutcome::Plain(handshake) ==> (handshake matches Err(
                error,
            ) ==> step == ClientStep::End(TaskOutcome::Failed(error)))
            &&& outcome matches AuthenticationOutcome::Tls { protocol, handshake } ==> {
                &&& protocol is None ==> step == ClientStep::End(
                    TaskOutcome::Failed(RelayError::RelayHandshake),
                )
                &&& protocol matches Some(name) ==> (name@ != relay_alpn ==> step
                    == ClientStep::End(TaskOutcome::Failed(RelayError::RelayHandshake)))
                &&& protocol matches Some(name) ==> (name@ == relay_alpn ==> (handshake matches Err(
                    error,
                ) ==> step == ClientStep::End(TaskOutcome::Failed(error))))
            }
        }),
{
}

/// A client is bridged if and only if its upstream socket was connected; one that was not in time has
/// an upstream that is unavailable, and any other failure is told as it is.
pub proof fn law_connected_clients_are_bridged(outcome: UpstreamOutcome)
    ensures
        upstream_step(outcome) == ClientStep::Bridge <==> outcome == UpstreamOutcome::Connected,
        outcome == UpstreamOutcome::TimedOut ==> upstream_step(outcome) == ClientStep::End(
            TaskOutcome::Failed(RelayError::UpstreamUnavailable),
        ),
        outcome matches UpstreamOutcome::Failed(error) ==> upstream_step(outcome)
            == ClientStep::End(TaskOutcome::Failed(error)),
{
}

/// The bytes that a bridge forwarded are added to the report, each to its own direction; a bridge that
/// failed adds none and counts as a failure.
pub proof fn law_forwarded_bytes_are_reported(report: ReportView, result: RelayResult<(u64, u64)>)
    requires
        countable(report, bridge_outcome(result)),
    ensures
        ({
            let after = task_recorded(report, bridge_outcome(result));
            &&& result matches Ok(bytes) ==> after.network_to_unix_bytes
                == report.network_to_unix_bytes + bytes.0 && after.unix_to_network_bytes
                == report.unix_to_network_bytes + bytes.1 && after.completed == report.completed + 1
            &&& result is Err ==> after.network_to_unix_bytes == report.network_to_unix_bytes
                && after.unix_to_network_bytes == report.unix_to_network_bytes && after.failed
                == report.failed + 1
        }),
{
}

/// A listener takes every event that can happen to it: a client while it does not stop, the end of a
/// handshake while one is in flight, and the end of a client while one runs, in its handshake only if
/// one is in it.
pub proof fn law_listeners_take_what_can_happen(
    listener: ListenerView,
    in_handshake: bool,
    outcome: TaskOutcome,
    source_allowed: bool,
)
    requires
        listener.wf(),
        listener.report.accepted < u64::MAX,
        listener.report.rejected < u64::MAX,
        countable(listener.report, outcome),
    ensures
        listener.accepts(ServeEvent::Accepted(source_allowed)) <==> !listener.stopping,
        listener.accepts(ServeEvent::Shutdown) <==> !listener.stopping,
        listener.accepts(ServeEvent::Authenticated) <==> listener.handshakes > 0,
        listener.accepts(ServeEvent::Joined { in_handshake, outcome }) <==> if in_handshake {
            listener.handshakes > 0
        } else {
            listener.clients > listener.handshakes
        },
{
}

} // verus!
