//! The Manager: leases on sessions, and the children that serve them.

use crate::error::{RelayError, RelayResult};
use crate::manager::child::{ChildHandle, ChildSpec};
use crate::manager::config::ManagerConfig;
use crate::manager::names::{LeaseToken, SessionFingerprint, SessionName};
use crate::manager::ports::DataPortAllocator;
use crate::manager::resolver::{HerdrSessionResolver, ResolvedSession, UnixSocketIdentity};
use crate::manager::slots::{drop_expired, find_holder, find_insertion, find_slot, SessionSlot};
use crate::manager::state::{advance_generation, PersistedManagerState};
use crate::paths::join;
use crate::table::KeyTable;
use crate::text::write_decimal;
use vstd::prelude::*;
use vstd::string::*;

verus! {

/// Mathematical value of a lease grant.
#[verifier::ext_equal]
pub struct GrantView {
    /// Session name.
    pub session: Seq<char>,
    /// Session fingerprint.
    pub fingerprint: Seq<u8>,
    /// Generation of the Manager process.
    pub broker_generation: u64,
    /// Child generation.
    pub child_generation: u64,
    /// Configuration generation.
    pub configuration_generation: u64,
    /// Data port.
    pub data_port: u16,
    /// Lease token.
    pub token: Seq<u8>,
    /// End of the lease, in seconds since the epoch.
    pub expires_at: u64,
}

/// A lease on a session.
pub struct LeaseGrant {
    session: SessionName,
    fingerprint: SessionFingerprint,
    broker_generation: u64,
    child_generation: u64,
    configuration_generation: u64,
    data_port: u16,
    token: LeaseToken,
    expires_at: u64,
}

impl View for LeaseGrant {
    type V = GrantView;

    closed spec fn view(&self) -> GrantView {
        GrantView {
            session: self.session@,
            fingerprint: self.fingerprint@,
            broker_generation: self.broker_generation,
            child_generation: self.child_generation,
            configuration_generation: self.configuration_generation,
            data_port: self.data_port,
            token: self.token@,
            expires_at: self.expires_at,
        }
    }
}

impl LeaseGrant {
    /// The session name.
    pub fn session(&self) -> (session: &SessionName)
        ensures
            session@ == self@.session,
    {
        &self.session
    }

    /// The session fingerprint.
    pub fn fingerprint(&self) -> (fingerprint: SessionFingerprint)
        ensures
            fingerprint@ == self@.fingerprint,
    {
        self.fingerprint
    }

    /// The generation of the Manager process.
    pub fn broker_generation(&self) -> (generation: u64)
        ensures
            generation == self@.broker_generation,
    {
        self.broker_generation
    }

    /// The child generation.
    pub fn child_generation(&self) -> (generation: u64)
        ensures
            generation == self@.child_generation,
    {
        self.child_generation
    }

    /// The configuration generation.
    pub fn configuration_generation(&self) -> (generation: u64)
        ensures
            generation == self@.configuration_generation,
    {
        self.configuration_generation
    }

    /// The data port.
    pub fn data_port(&self) -> (port: u16)
        ensures
            port == self@.data_port,
    {
        self.data_port
    }

    /// The lease token.
    pub fn token(&self) -> (token: LeaseToken)
        ensures
            token@ == self@.token,
    {
        self.token
    }

    /// The end of the lease, in seconds since the epoch.
    pub fn expires_at(&self) -> (seconds: u64)
        ensures
            seconds == self@.expires_at,
    {
        self.expires_at
    }
}

/// Mathematical value of a child that is being started.
#[verifier::ext_equal]
pub struct StartView {
    /// Session as it was resolved.
    pub resolved: crate::manager::resolver::ResolvedView,
    /// Session fingerprint.
    pub fingerprint: Seq<u8>,
    /// Child generation.
    pub child_generation: u64,
    /// Data port.
    pub data_port: u16,
    /// Lease token.
    pub token: Seq<u8>,
    /// End of the lease.
    pub expires_at: u64,
}

struct StartingSlot {
    resolved: ResolvedSession,
    fingerprint: SessionFingerprint,
    child_generation: u64,
    data_port: u16,
    token: LeaseToken,
    expires_at: u64,
}

impl StartingSlot {
    spec fn value(&self) -> StartView {
        StartView {
            resolved: self.resolved@,
            fingerprint: self.fingerprint@,
            child_generation: self.child_generation,
            data_port: self.data_port,
            token: self.token@,
            expires_at: self.expires_at,
        }
    }
}

/// Mathematical value of a Manager.
#[verifier::ext_equal]
pub struct ManagerView {
    /// Configuration.
    pub config: crate::manager::config::ManagerConfigView,
    /// Resolver of sessions.
    pub resolver: crate::manager::resolver::ResolverView,
    /// Persistent state.
    pub state: PersistedManagerState,
    /// Reserved data ports.
    pub ports: Set<u16>,
    /// Session slots, ordered by name.
    pub slots: Seq<crate::manager::slots::SlotView>,
    /// The child that is being started, if any.
    pub starting: Option<StartView>,
    /// The persistent state has to be written.
    pub unsaved: bool,
    /// The child generations have started over since the Manager was opened.
    pub wrapped: bool,
}

/// A slot is idle exactly while it has no lease.
pub open spec fn slot_consistent(slot: crate::manager::slots::SlotView) -> bool {
    &&& slot.leases.dom().finite()
    &&& slot.idle_since is Some <==> slot.leases.dom() == Set::<Seq<u8>>::empty()
    &&& slot.resolved.session == slot.session
}

/// Until the child generations start over, the next one is larger than that of every child.
pub open spec fn generations_ascend(manager: ManagerView) -> bool {
    !manager.wrapped ==> {
        &&& forall|i: int|
            0 <= i < manager.slots.len() ==> (#[trigger] manager.slots[i]).child_generation
                < manager.state.next_child_generation
        &&& manager.starting matches Some(start) ==> start.child_generation
            < manager.state.next_child_generation
    }
}

/// What every operation keeps: one slot for a session, one data port for a slot, every port of a
/// slot reserved, and ascending child generations.
pub open spec fn consistent(manager: ManagerView) -> bool {
    &&& crate::manager::slots::slots_ordered(manager.slots)
    &&& forall|i: int|
        0 <= i < manager.slots.len() ==> {
            &&& slot_consistent(#[trigger] manager.slots[i])
            &&& manager.ports.contains(manager.slots[i].data_port)
        }
    &&& forall|i: int, j: int|
        0 <= i < j < manager.slots.len() ==> (#[trigger] manager.slots[i]).data_port != (
        #[trigger] manager.slots[j]).data_port
    &&& forall|port: u16| #[trigger]
        manager.ports.contains(port) ==> crate::manager::ports::is_data_port(port)
    &&& manager.starting matches Some(start) ==> {
        &&& manager.ports.contains(start.data_port)
        &&& crate::manager::slots::slot_place(manager.slots, start.resolved.session) is None
        &&& forall|i: int|
            0 <= i < manager.slots.len() ==> (#[trigger] manager.slots[i]).data_port
                != start.data_port
    }
    &&& generations_ascend(manager)
}

/// The end of a span that starts at `now`.
pub open spec fn deadline(now: u64, seconds: u64) -> RelayResult<u64> {
    if now + seconds > u64::MAX {
        Err(RelayError::Manager { reason: "lease deadline overflowed" })
    } else {
        Ok((now + seconds) as u64)
    }
}

/// Computes the end of a span that starts at `now`.
pub fn checked_add_seconds(now: u64, seconds: u64) -> (end: RelayResult<u64>)
    ensures
        end == deadline(now, seconds),
{
    match now.checked_add(seconds) {
        Some(end) => Ok(end),
        None => Err(RelayError::Manager { reason: "lease deadline overflowed" }),
    }
}

/// The grant of a lease on a slot.
pub open spec fn grant_of(
    slot: crate::manager::slots::SlotView,
    token: Seq<u8>,
    expires_at: u64,
    broker_generation: u64,
) -> GrantView {
    GrantView {
        session: slot.session,
        fingerprint: slot.fingerprint,
        broker_generation,
        child_generation: slot.child_generation,
        configuration_generation: slot.configuration_generation,
        data_port: slot.data_port,
        token,
        expires_at,
    }
}

/// What has to be done next to lease a session.
pub enum EnsureStep {
    /// Write the persistent state; the session is leased.
    Granted(LeaseGrant),
    /// Write the persistent state and the session configuration, and start a child.
    Start {
        /// Data port of the child.
        data_port: u16,
        /// Generation of the child.
        child_generation: u64,
    },
    /// The session cannot be leased.
    Fail(RelayError),
}

/// Mathematical value of a step.
#[verifier::ext_equal]
pub enum EnsureView {
    /// The session is leased.
    Granted(GrantView),
    /// A child has to be started.
    Start(u16, u64),
    /// The session cannot be leased.
    Fail(RelayError),
}

impl View for EnsureStep {
    type V = EnsureView;

    open spec fn view(&self) -> EnsureView {
        match self {
            EnsureStep::Granted(grant) => EnsureView::Granted(grant@),
            EnsureStep::Start { data_port, child_generation } => EnsureView::Start(
                *data_port,
                *child_generation,
            ),
            EnsureStep::Fail(error) => EnsureView::Fail(*error),
        }
    }
}

/// The data port that is handed out next, if any is free.
pub open spec fn next_port(ports: Set<u16>) -> Option<u16> {
    if exists|port: u16| crate::manager::ports::is_first_free(ports, port) {
        Some(choose|port: u16| crate::manager::ports::is_first_free(ports, port))
    } else {
        None
    }
}

/// Leasing a session that has a slot.
pub open spec fn lease_known(
    before: ManagerView,
    at: int,
    resolved: crate::manager::resolver::ResolvedView,
    fingerprint: Seq<u8>,
    token: Seq<u8>,
    now: u64,
) -> (ManagerView, EnsureView) {
    let slot = before.slots[at];
    if slot.fingerprint != fingerprint {
        (
            before,
            EnsureView::Fail(
                RelayError::Manager {
                    reason: "session fingerprint changed; explicit rebind is required",
                },
            ),
        )
    } else if slot.resolved.socket_identity != resolved.socket_identity {
        (
            before,
            EnsureView::Fail(
                RelayError::SocketIdentity {
                    operation: "checking Herdr Unix socket",
                    reason: "socket identity changed for active session",
                },
            ),
        )
    } else {
        match deadline(now, before.config.lease_expiry) {
            Err(error) => (before, EnsureView::Fail(error)),
            Ok(expires_at) => {
                let leased = crate::manager::slots::SlotView {
                    leases: slot.leases.insert(token, expires_at),
                    idle_since: None,
                    ..slot
                };
                (
                    ManagerView {
                        slots: before.slots.update(at, leased),
                        unsaved: true,
                        ..before
                    },
                    EnsureView::Granted(
                        grant_of(leased, token, expires_at, before.state.broker_generation),
                    ),
                )
            },
        }
    }
}

/// Leasing a session that has no slot: a port and a generation are set aside for its child.
pub open spec fn lease_new(
    before: ManagerView,
    resolved: crate::manager::resolver::ResolvedView,
    fingerprint: Seq<u8>,
    token: Seq<u8>,
    now: u64,
) -> (ManagerView, EnsureView) {
    match deadline(now, before.config.lease_expiry) {
        Err(error) => (before, EnsureView::Fail(error)),
        Ok(expires_at) => match next_port(before.ports) {
            None => (before, EnsureView::Fail(RelayError::PortRangeExhausted)),
            Some(data_port) => {
                let child_generation = before.state.next_child_generation;
                (
                    ManagerView {
                        state: PersistedManagerState {
                            next_child_generation: crate::manager::state::next_generation(
                                child_generation,
                            ),
                            ..before.state
                        },
                        ports: before.ports.insert(data_port),
                        starting: Some(
                            StartView {
                                resolved,
                                fingerprint,
                                child_generation,
                                data_port,
                                token,
                                expires_at,
                            },
                        ),
                        unsaved: true,
                        wrapped: before.wrapped || child_generation == u64::MAX,
                        ..before
                    },
                    EnsureView::Start(data_port, child_generation),
                )
            },
        },
    }
}

/// Leasing a session.
pub open spec fn ensured(
    before: ManagerView,
    resolved: crate::manager::resolver::ResolvedView,
    fingerprint: Seq<u8>,
    token: Seq<u8>,
    now: u64,
) -> (ManagerView, EnsureView) {
    match crate::manager::slots::slot_place(before.slots, resolved.session) {
        Some(at) => lease_known(before, at, resolved, fingerprint, token, now),
        None => lease_new(before, resolved, fingerprint, token, now),
    }
}

/// Giving up the child that is being started.
pub open spec fn start_cancelled(before: ManagerView) -> ManagerView {
    match before.starting {
        None => before,
        Some(start) => ManagerView {
            ports: before.ports.remove(start.data_port),
            starting: None,
            ..before
        },
    }
}

/// The slot of a child that was started.
pub open spec fn started_slot(
    start: StartView,
    child: crate::manager::child::ChildView,
) -> crate::manager::slots::SlotView {
    crate::manager::slots::SlotView {
        resolved: start.resolved,
        session: start.resolved.session,
        fingerprint: start.fingerprint,
        child_generation: start.child_generation,
        configuration_generation: 1,
        data_port: start.data_port,
        child,
        leases: Map::empty().insert(start.token, start.expires_at),
        idle_since: None,
    }
}

/// Keeping the child that was started.
pub open spec fn start_committed(before: ManagerView, child: crate::manager::child::ChildView) -> (
    ManagerView,
    RelayResult<GrantView>,
) {
    match before.starting {
        None => (before, Err(RelayError::Manager { reason: "new session slot disappeared" })),
        Some(start) => {
            let slot = started_slot(start, child);
            (
                ManagerView {
                    slots: before.slots.insert(
                        crate::manager::slots::insertion_place(before.slots, slot.session),
                        slot,
                    ),
                    starting: None,
                    unsaved: true,
                    ..before
                },
                Ok(
                    grant_of(
                        slot,
                        start.token,
                        start.expires_at,
                        before.state.broker_generation,
                    ),
                ),
            )
        },
    }
}

/// How the start of a child ended.
pub enum StartOutcome {
    /// The persistent state or the configuration of the session could not be written.
    NotPrepared(RelayError),
    /// The configuration was written, but the child could not be started.
    NotStarted(RelayError),
    /// The child runs.
    Started(ChildHandle),
}

/// What has to be done once the start of a child ended.
pub enum StartStep {
    /// Write the persistent state, and tell how that ended.
    Save(LeaseGrant),
    /// Report the failure.
    Fail {
        /// The failure.
        error: RelayError,
        /// The configuration of the session has to be removed first.
        remove_config: bool,
    },
}

/// Mathematical value of a step after a start.
#[verifier::ext_equal]
pub enum StartStepView {
    /// Write the persistent state.
    Save(GrantView),
    /// Report the failure, and remove the configuration before if the flag says so.
    Fail(RelayError, bool),
}

impl View for StartStep {
    type V = StartStepView;

    open spec fn view(&self) -> StartStepView {
        match self {
            StartStep::Save(grant) => StartStepView::Save(grant@),
            StartStep::Fail { error, remove_config } => StartStepView::Fail(*error, *remove_config),
        }
    }
}

/// The end of a start: a failed one is given up, and the child of any other is kept.
pub open spec fn start_concluded(before: ManagerView, outcome: StartOutcome) -> (
    ManagerView,
    StartStepView,
) {
    match outcome {
        StartOutcome::NotPrepared(error) => (
            start_cancelled(before),
            StartStepView::Fail(error, false),
        ),
        StartOutcome::NotStarted(error) => (
            start_cancelled(before),
            StartStepView::Fail(error, true),
        ),
        StartOutcome::Started(child) => {
            let (after, grant) = start_committed(before, child@);
            match grant {
                Ok(made) => (after, StartStepView::Save(made)),
                Err(error) => (after, StartStepView::Fail(error, false)),
            }
        },
    }
}

/// What has to be done once the state with a new session was written, or could not be.
pub enum LeaseStep {
    /// The session is leased.
    Leased(LeaseGrant),
    /// Stop the child, remove the configuration of the session, and report the failure.
    RollBack {
        /// The failure.
        error: RelayError,
        /// The child of the session.
        child: Option<ChildHandle>,
    },
}

/// Mathematical value of a step after a write.
#[verifier::ext_equal]
pub enum LeaseStepView {
    /// The session is leased.
    Leased(GrantView),
    /// Stop the child, remove the configuration, and report the failure.
    RollBack(RelayError, Option<crate::manager::child::ChildView>),
}

impl View for LeaseStep {
    type V = LeaseStepView;

    open spec fn view(&self) -> LeaseStepView {
        match self {
            LeaseStep::Leased(grant) => LeaseStepView::Leased(grant@),
            LeaseStep::RollBack { error, child } => LeaseStepView::RollBack(
                *error,
                match child {
                    Some(handle) => Some(handle@),
                    None => None,
                },
            ),
        }
    }
}

/// The end of the write after a start: a session whose state could not be written is removed.
pub open spec fn start_settled(before: ManagerView, grant: GrantView, saved: RelayResult<()>) -> (
    ManagerView,
    LeaseStepView,
) {
    match saved {
        Ok(_) => (before, LeaseStepView::Leased(grant)),
        Err(error) => (
            slot_taken(before, grant.session),
            LeaseStepView::RollBack(
                error,
                match crate::manager::slots::slot_place(before.slots, grant.session) {
                    Some(at) => Some(before.slots[at].child),
                    None => None,
                },
            ),
        ),
    }
}

/// Removing a slot: its port is free again.
pub open spec fn slot_taken(before: ManagerView, session: Seq<char>) -> ManagerView {
    match crate::manager::slots::slot_place(before.slots, session) {
        None => before,
        Some(at) => ManagerView {
            slots: before.slots.remove(at),
            ports: before.ports.remove(before.slots[at].data_port),
            ..before
        },
    }
}

/// The slot without one of its leases; without any it is idle from `now` on.
pub open spec fn lease_dropped(
    slot: crate::manager::slots::SlotView,
    token: Seq<u8>,
    now: u64,
) -> crate::manager::slots::SlotView {
    crate::manager::slots::SlotView {
        leases: slot.leases.remove(token),
        idle_since: if slot.leases.remove(token).dom() == Set::<Seq<u8>>::empty() {
            Some(now)
        } else {
            slot.idle_since
        },
        ..slot
    }
}

/// Renewing a lease.
pub open spec fn renewed(before: ManagerView, token: Seq<u8>, now: u64) -> (
    ManagerView,
    RelayResult<GrantView>,
) {
    match crate::manager::slots::holder_place(before.slots, token) {
        None => (before, Err(RelayError::InvalidLease)),
        Some(at) => {
            let slot = before.slots[at];
            if now >= slot.leases[token] {
                (
                    ManagerView {
                        slots: before.slots.update(at, lease_dropped(slot, token, now)),
                        unsaved: true,
                        ..before
                    },
                    Err(RelayError::InvalidLease),
                )
            } else {
                match deadline(now, before.config.lease_expiry) {
                    Err(error) => (before, Err(error)),
                    Ok(expires_at) => {
                        let leased = crate::manager::slots::SlotView {
                            leases: slot.leases.insert(token, expires_at),
                            ..slot
                        };
                        (
                            ManagerView {
                                slots: before.slots.update(at, leased),
                                unsaved: true,
                                ..before
                            },
                            Ok(
                                grant_of(leased, token, expires_at, before.state.broker_generation),
                            ),
                        )
                    },
                }
            }
        },
    }
}

/// Releasing a lease.
pub open spec fn released(before: ManagerView, token: Seq<u8>, now: u64) -> (
    ManagerView,
    RelayResult<()>,
) {
    match crate::manager::slots::holder_place(before.slots, token) {
        None => (before, Err(RelayError::InvalidLease)),
        Some(at) => (
            ManagerView {
                slots: before.slots.update(at, lease_dropped(before.slots[at], token, now)),
                unsaved: true,
                ..before
            },
            Ok(()),
        ),
    }
}

/// Some slot holds the lease, and it ends after `now`.
pub open spec fn lease_active(
    slots: Seq<crate::manager::slots::SlotView>,
    token: Seq<u8>,
    now: u64,
) -> bool {
    exists|i: int|
        0 <= i < slots.len() && (#[trigger] slots[i]).leases.dom().contains(token) && now
            < slots[i].leases[token]
}

/// The slot once its expired leases are gone.
pub open spec fn slot_reaped(
    slot: crate::manager::slots::SlotView,
    now: u64,
) -> crate::manager::slots::SlotView {
    let kept = crate::manager::slots::unexpired(slot.leases, now);
    crate::manager::slots::SlotView {
        leases: kept,
        idle_since: if crate::manager::slots::expired_count(slot.leases, now) > 0 && kept.dom()
            == Set::<Seq<u8>>::empty() && slot.idle_since is None {
            Some(now)
        } else {
            slot.idle_since
        },
        ..slot
    }
}

/// The slots once their expired leases are gone.
pub open spec fn slots_reaped(
    slots: Seq<crate::manager::slots::SlotView>,
    now: u64,
) -> Seq<crate::manager::slots::SlotView> {
    slots.map_values(|slot: crate::manager::slots::SlotView| slot_reaped(slot, now))
}

/// The number of leases that ended by `now`.
pub open spec fn expired_total(slots: Seq<crate::manager::slots::SlotView>, now: u64) -> nat
    decreases slots.len(),
{
    if slots.len() == 0 {
        0
    } else {
        expired_total(slots.drop_last(), now) + crate::manager::slots::expired_count(
            slots.last().leases,
            now,
        )
    }
}

/// The slot has been idle for its grace.
pub open spec fn grace_over(
    slot: crate::manager::slots::SlotView,
    now: u64,
    idle_grace: u64,
) -> bool {
    slot.idle_since matches Some(since) && since + idle_grace <= u64::MAX && now >= since
        + idle_grace
}

/// The names of the slots that have been idle for their grace.
pub open spec fn idle_names(
    slots: Seq<crate::manager::slots::SlotView>,
    now: u64,
    idle_grace: u64,
) -> Seq<Seq<char>>
    decreases slots.len(),
{
    if slots.len() == 0 {
        Seq::empty()
    } else {
        let earlier = idle_names(slots.drop_last(), now, idle_grace);
        if grace_over(slots.last(), now, idle_grace) {
            earlier.push(slots.last().session)
        } else {
            earlier
        }
    }
}

/// A number as the report can hold it.
pub open spec fn clamped(count: nat) -> usize {
    if count > usize::MAX {
        usize::MAX
    } else {
        count as usize
    }
}

/// What has to be stopped after expired leases were dropped.
pub struct ReapPlan {
    /// Leases that were dropped.
    pub expired_leases: usize,
    /// Sessions whose child has to be stopped.
    pub idle_sessions: Vec<SessionName>,
}

/// What a reap did.
#[derive(Debug, Eq, PartialEq)]
pub struct ReapReport {
    /// Leases that were dropped.
    pub expired_leases: usize,
    /// Sessions whose child was stopped.
    pub stopped_sessions: Vec<SessionName>,
}

impl Default for ReapReport {
    /// Nothing was done.
    fn default() -> (report: Self)
        ensures
            report.expired_leases == 0,
            report.stopped_sessions@.len() == 0,
    {
        ReapReport { expired_leases: 0, stopped_sessions: Vec::new() }
    }
}

/// Status of one session.
pub struct SessionStatusView {
    /// Session name.
    pub session: SessionName,
    /// Session fingerprint.
    pub fingerprint: SessionFingerprint,
    /// Configuration generation.
    pub configuration_generation: u64,
    /// A fingerprint is present.
    pub fingerprint_present: bool,
    /// Child generation.
    pub child_generation: u64,
    /// Data port.
    pub data_port: u16,
    /// Number of leases.
    pub active_leases: usize,
    /// When the last lease ended.
    pub idle_since: Option<u64>,
}

/// `status` is the status of `slot`.
pub open spec fn reports_slot(
    status: SessionStatusView,
    slot: crate::manager::slots::SlotView,
) -> bool {
    &&& status.session@ == slot.session
    &&& status.fingerprint@ == slot.fingerprint
    &&& status.configuration_generation == slot.configuration_generation
    &&& status.fingerprint_present
    &&& status.child_generation == slot.child_generation
    &&& status.data_port == slot.data_port
    &&& status.active_leases == slot.leases.dom().len()
    &&& status.idle_since == slot.idle_since
}

/// The upstream socket of a lease.
pub struct BoundSocket {
    /// Path of the socket.
    pub path: String,
    /// Identity that the socket must have.
    pub identity: UnixSocketIdentity,
}

/// What a diagnostic says of a Manager.
#[derive(Clone, Copy, Debug, Eq, PartialEq, Structural)]
pub struct ManagerSummary {
    /// Generation of the Manager process.
    pub broker_generation: u64,
    /// Number of sessions.
    pub session_count: usize,
    /// Number of reserved ports.
    pub reserved_port_count: usize,
}

/// The owner of sessions, leases and children.
pub struct Manager {
    config: ManagerConfig,
    resolver: HerdrSessionResolver,
    state: PersistedManagerState,
    ports: DataPortAllocator,
    slots: Vec<SessionSlot>,
    starting: Option<StartingSlot>,
    unsaved: bool,
    wrapped: Ghost<bool>,
}

impl View for Manager {
    type V = ManagerView;

    closed spec fn view(&self) -> ManagerView {
        ManagerView {
            config: self.config@,
            resolver: self.resolver@,
            state: self.state,
            ports: self.ports@,
            slots: crate::manager::slots::slot_views(self.slots@),
            starting: match self.starting {
                Some(start) => Some(start.value()),
                None => None,
            },
            unsaved: self.unsaved,
            wrapped: self.wrapped@,
        }
    }
}

proof fn lemma_next_port(ports: Set<u16>, port: u16)
    requires
        crate::manager::ports::is_first_free(ports, port),
    ensures
        next_port(ports) == Some(port),
{
    let found = choose|p: u16| crate::manager::ports::is_first_free(ports, p);
    assert(crate::manager::ports::is_first_free(ports, found));
    crate::manager::ports::law_reservation_is_determined(ports, found, port);
}

fn make_grant(slot: &SessionSlot, token: LeaseToken, expires_at: u64, broker_generation: u64) -> (
    grant: LeaseGrant)
    ensures
        grant@ == grant_of(slot@, token@, expires_at, broker_generation),
{
    LeaseGrant {
        session: slot.session.clone(),
        fingerprint: slot.fingerprint,
        broker_generation,
        child_generation: slot.child_generation,
        configuration_generation: slot.configuration_generation,
        data_port: slot.data_port,
        token,
        expires_at,
    }
}

impl Manager {
    /// The Manager is well formed.
    pub closed spec fn wf(&self) -> bool {
        &&& self.ports.wf()
        &&& crate::manager::slots::tables_wf(self.slots@)
        &&& consistent(self@)
    }

    /// A well-formed Manager is consistent.
    pub proof fn lemma_consistent(&self)
        requires
            self.wf(),
        ensures
            consistent(self@),
    {
    }

    /// Opens a Manager with the state that was loaded; its new state has to be written. It takes
    /// sessions of `expected_uid` below the configured Herdr root.
    pub fn with_spawner(config: ManagerConfig, expected_uid: u32, loaded: PersistedManagerState)
        -> (manager: RelayResult<Self>)
        ensures
            match manager {
                Ok(opened) => {
                    &&& crate::manager::config::config_check(config@) is Ok
                    &&& opened.wf()
                    &&& opened@ == (ManagerView {
                        config: config@,
                        resolver: crate::manager::resolver::ResolverView {
                            config_root: config@.herdr_config_root,
                            expected_uid,
                        },
                        state: crate::manager::state::opened_state(
                            loaded,
                            config@.preferred_broker_port,
                        ),
                        ports: Set::empty(),
                        slots: Seq::empty(),
                        starting: None,
                        unsaved: true,
                        wrapped: false,
                    })
                },
                Err(error) => crate::manager::config::config_check(config@) == Err::<
                    (),
                    RelayError,
                >(error),
            },
    {
        if let Err(error) = config.validate() {
            return Err(error);
        }
        let state = loaded.opened(config.preferred_broker_port());
        let (start, end) = config.data_port_range();
        let ports = match DataPortAllocator::new(start, end) {
            Ok(made) => made,
            Err(error) => {
                return Err(error);
            },
        };
        let resolver = match HerdrSessionResolver::new(
            config.herdr_config_root().to_owned(),
            expected_uid,
        ) {
            Ok(made) => made,
            Err(error) => {
                return Err(error);
            },
        };
        let manager = Manager {
            config,
            resolver,
            state,
            ports,
            slots: Vec::new(),
            starting: None,
            unsaved: true,
            wrapped: Ghost(false),
        };
        assert(manager@.slots =~= Seq::empty());
        Ok(manager)
    }

    /// The resolver of sessions.
    pub fn resolver(&self) -> (resolver: &HerdrSessionResolver)
        ensures
            resolver@ == self@.resolver,
    {
        &self.resolver
    }

    /// The configuration.
    pub fn config(&self) -> (config: &ManagerConfig)
        ensures
            config@ == self@.config,
    {
        &self.config
    }

    /// The generation of the Manager process.
    pub fn broker_generation(&self) -> (generation: u64)
        ensures
            generation == self@.state.broker_generation,
    {
        self.state.broker_generation
    }

    /// The state to be written.
    pub fn persistent_state(&self) -> (state: PersistedManagerState)
        ensures
            state == self@.state,
    {
        self.state
    }

    /// Tells whether the persistent state has to be written.
    pub fn unsaved(&self) -> (unsaved: bool)
        ensures
            unsaved == self@.unsaved,
    {
        self.unsaved
    }

    /// The persistent state was written, or could not be.
    pub fn saved(&mut self)
        requires
            old(self).wf(),
        ensures
            final(self).wf(),
            final(self)@ == (ManagerView { unsaved: false, ..old(self)@ }),
    {
        self.unsaved = false;
    }

    /// Tells whether a child is being started.
    pub fn is_starting(&self) -> (starting: bool)
        ensures
            starting == (self@.starting is Some),
    {
        self.starting.is_some()
    }

    /// What a diagnostic says of the Manager: no path, fingerprint or token.
    pub fn summary(&self) -> (summary: ManagerSummary)
        ensures
            summary == (ManagerSummary {
                broker_generation: self@.state.broker_generation,
                session_count: self@.slots.len() as usize,
                reserved_port_count: self@.ports.len() as usize,
            }),
    {
        ManagerSummary {
            broker_generation: self.state.broker_generation,
            session_count: self.slots.len(),
            reserved_port_count: self.ports.len(),
        }
    }

    /// Renders the LaunchAgent that starts the Manager.
    pub fn launch_agent_plist(&self, config_path: &str) -> (plist: RelayResult<String>)
        ensures
            crate::manager::config::plist_rendered(
                plist,
                self@.config.child_binary,
                config_path@,
            ),
    {
        self.config.launch_agent_plist(config_path)
    }

    /// The child of a session, to be asked whether it runs.
    pub fn child_of(&self, session: &SessionName) -> (child: Option<ChildHandle>)
        requires
            self.wf(),
        ensures
            match child {
                Some(found) => crate::manager::slots::slot_place(self@.slots, session@) matches Some(
                    at,
                ) && found@ == self@.slots[at].child,
                None => crate::manager::slots::slot_place(self@.slots, session@) is None,
            },
    {
        match find_slot(&self.slots, session) {
            Some(at) => Some(self.slots[at].child),
            None => None,
        }
    }

    /// Leases a session that was resolved, is reachable and has this fingerprint.
    ///
    /// A session that is served already gets another lease on the same child and port. For any
    /// other a port and a generation are set aside, and its child has to be started.
    pub fn ensure(
        &mut self,
        resolved: ResolvedSession,
        fingerprint: SessionFingerprint,
        token: LeaseToken,
        now: u64,
    ) -> (step: EnsureStep)
        requires
            old(self).wf(),
            old(self)@.starting is None,
        ensures
            final(self).wf(),
            (final(self)@, step@) == ensured(old(self)@, resolved@, fingerprint@, token@, now),
    {
        let ghost views = self@.slots;
        if let Some(at) = find_slot(&self.slots, resolved.session()) {
            assert(views[at as int] == self.slots@[at as int]@);
            if !self.slots[at].fingerprint.same(&fingerprint) {
                return EnsureStep::Fail(
                    RelayError::Manager {
                        reason: "session fingerprint changed; explicit rebind is required",
                    },
                );
            }
            if self.slots[at].resolved.socket_identity() != resolved.socket_identity() {
                return EnsureStep::Fail(
                    RelayError::SocketIdentity {
                        operation: "checking Herdr Unix socket",
                        reason: "socket identity changed for active session",
                    },
                );
            }
            let expires_at: u64 = match checked_add_seconds(now, self.config.lease_expiry()) {
                Ok(end) => end,
                Err(error) => {
                    return EnsureStep::Fail(error);
                },
            };
            let mut slot = self.slots.remove(at);
            slot.leases.set(*token.as_bytes(), expires_at);
            slot.idle_since = None;
            let grant = make_grant(&slot, token, expires_at, self.state.broker_generation);
            let ghost leased = slot@;
            self.slots.insert(at, slot);
            self.unsaved = true;
            proof {
                assert(self@.slots =~= views.update(at as int, leased));
                assert(leased.leases.dom().contains(token@));
                lemma_update(*old(self), *self, at as int);
            }
            return EnsureStep::Granted(grant);
        }
        let expires_at: u64 = match checked_add_seconds(now, self.config.lease_expiry()) {
            Ok(end) => end,
            Err(error) => {
                return EnsureStep::Fail(error);
            },
        };
        let data_port: u16 = match self.ports.reserve() {
            Ok(port) => port,
            Err(error) => {
                proof {
                    if next_port(old(self)@.ports) is Some {
                        let port = choose|p: u16|
                            crate::manager::ports::is_first_free(old(self)@.ports, p);
                        assert(crate::manager::ports::is_first_free(old(self)@.ports, port));
                        assert(old(self)@.ports.contains(port));
                    }
                }
                return EnsureStep::Fail(error);
            },
        };
        proof {
            lemma_next_port(old(self)@.ports, data_port);
        }
        let child_generation: u64 = self.state.next_child_generation;
        self.state.next_child_generation = advance_generation(child_generation);
        self.starting = Some(
            StartingSlot { resolved, fingerprint, child_generation, data_port, token, expires_at },
        );
        self.unsaved = true;
        let ghost wrapped = self.wrapped@ || child_generation == u64::MAX;
        self.wrapped = Ghost(wrapped);
        EnsureStep::Start { data_port, child_generation }
    }

    /// The launch request of the child that is being started; its endpoint lies in the Manager's
    /// directory of the session.
    pub fn child_spec(&self, parent_pid: u32) -> (spec: Option<ChildSpec>)
        ensures
            match spec {
                None => self@.starting is None,
                Some(request) => {
                    &&& self@.starting matches Some(start)
                    &&& request@ == (crate::manager::child::ChildSpecView {
                        session: start.resolved.session,
                        generation: start.child_generation,
                        data_port: start.data_port,
                        ipc_path: crate::paths::joined(
                            crate::manager::resolver::session_state_directory(
                                self@.config.manager_root,
                                start.resolved.session,
                            ),
                            endpoint_name(start.child_generation),
                        ),
                        parent_pid,
                        token: start.token,
                    })
                },
            },
    {
        match &self.starting {
            None => None,
            Some(start) => {
                let mut name = ".child-".to_owned();
                name.append(write_decimal(start.child_generation).as_str());
                name.append(".sock");
                let directory = start.resolved.state_directory(self.config.manager_root());
                Some(
                    ChildSpec::new(
                        start.resolved.session().clone(),
                        start.child_generation,
                        start.data_port,
                        join(directory.as_str(), name.as_str()),
                        parent_pid,
                        start.token,
                    ),
                )
            },
        }
    }

    /// Gives up the child that is being started; its port is free again.
    pub fn cancel_start(&mut self)
        requires
            old(self).wf(),
        ensures
            final(self).wf(),
            final(self)@ == start_cancelled(old(self)@),
    {
        let port = match &self.starting {
            None => {
                return;
            },
            Some(start) => start.data_port,
        };
        self.ports.release(port);
        self.starting = None;
    }

    /// Keeps the child that was started, with the first lease on it.
    pub fn commit_start(&mut self, child: ChildHandle) -> (grant: RelayResult<LeaseGrant>)
        requires
            old(self).wf(),
        ensures
            final(self).wf(),
            final(self)@ == start_committed(old(self)@, child@).0,
            match grant {
                Ok(made) => start_committed(old(self)@, child@).1 == Ok::<GrantView, RelayError>(
                    made@,
                ),
                Err(error) => start_committed(old(self)@, child@).1 == Err::<GrantView, RelayError>(
                    error,
                ),
            },
    {
        let start = match self.starting.take() {
            Some(begun) => begun,
            None => {
                return Err(RelayError::Manager { reason: "new session slot disappeared" });
            },
        };
        let ghost views = old(self)@.slots;
        let mut leases: KeyTable<u64> = KeyTable::new();
        leases.set(*start.token.as_bytes(), start.expires_at);
        let token = start.token;
        let expires_at: u64 = start.expires_at;
        let slot = SessionSlot {
            session: start.resolved.session().clone(),
            resolved: start.resolved,
            fingerprint: start.fingerprint,
            child_generation: start.child_generation,
            configuration_generation: 1,
            data_port: start.data_port,
            child,
            leases,
            idle_since: None,
        };
        let grant = make_grant(&slot, token, expires_at, self.state.broker_generation);
        let at: usize = find_insertion(&self.slots, &slot.session);
        let ghost added = slot@;
        self.slots.insert(at, slot);
        self.unsaved = true;
        proof {
            assert(added.leases.dom().contains(token@));
            assert(self@.slots =~= views.insert(at as int, added));
            crate::manager::slots::lemma_insertion(views, added);
            lemma_inserted(*old(self), *self, at as int);
        }
        Ok(grant)
    }

    /// Decides on the end of a start: a failed one is given up with its own error, and the child of
    /// any other is kept.
    pub fn start_ended(&mut self, outcome: StartOutcome) -> (step: StartStep)
        requires
            old(self).wf(),
        ensures
            final(self).wf(),
            (final(self)@, step@) == start_concluded(old(self)@, outcome),
    {
        match outcome {
            StartOutcome::NotPrepared(error) => {
                self.cancel_start();
                StartStep::Fail { error, remove_config: false }
            },
            StartOutcome::NotStarted(error) => {
                self.cancel_start();
                StartStep::Fail { error, remove_config: true }
            },
            StartOutcome::Started(child) => match self.commit_start(child) {
                Ok(grant) => StartStep::Save(grant),
                Err(error) => StartStep::Fail { error, remove_config: false },
            },
        }
    }

    /// Decides on the write of the state after a start: the session is removed if its state could
    /// not be written.
    pub fn start_saved(&mut self, grant: LeaseGrant, saved: RelayResult<()>) -> (step: LeaseStep)
        requires
            old(self).wf(),
        ensures
            final(self).wf(),
            (final(self)@, step@) == start_settled(old(self)@, grant@, saved),
    {
        match saved {
            Ok(_) => LeaseStep::Leased(grant),
            Err(error) => {
                let child = self.take_session(&grant.session);
                LeaseStep::RollBack { error, child }
            },
        }
    }

    /// Removes a session: its child has to be stopped, and its port is free again.
    pub fn take_session(&mut self, session: &SessionName) -> (child: Option<ChildHandle>)
        requires
            old(self).wf(),
        ensures
            final(self).wf(),
            final(self)@ == slot_taken(old(self)@, session@),
            match child {
                Some(found) => crate::manager::slots::slot_place(
                    old(self)@.slots,
                    session@,
                ) matches Some(at) && found@ == old(self)@.slots[at].child,
                None => crate::manager::slots::slot_place(old(self)@.slots, session@) is None,
            },
    {
        let ghost views = self@.slots;
        match find_slot(&self.slots, session) {
            None => None,
            Some(at) => {
                let slot = self.slots.remove(at);
                self.ports.release(slot.data_port);
                proof {
                    assert(self@.slots =~= views.remove(at as int));
                    lemma_removed(*old(self), *self, at as int);
                }
                Some(slot.child)
            },
        }
    }

    /// Renews a lease; one that has ended is dropped and refused.
    pub fn heartbeat(&mut self, token: LeaseToken, now: u64) -> (grant: RelayResult<LeaseGrant>)
        requires
            old(self).wf(),
        ensures
            final(self).wf(),
            final(self)@ == renewed(old(self)@, token@, now).0,
            match grant {
                Ok(made) => renewed(old(self)@, token@, now).1 == Ok::<GrantView, RelayError>(
                    made@,
                ),
                Err(error) => renewed(old(self)@, token@, now).1 == Err::<GrantView, RelayError>(
                    error,
                ),
            },
    {
        let ghost views = self@.slots;
        let at: usize = match find_holder(&self.slots, &token) {
            Some(place) => place,
            None => {
                return Err(RelayError::InvalidLease);
            },
        };
        assert(views[at as int] == self.slots@[at as int]@);
        let expires_at: u64 = match self.slots[at].leases.get(token.as_bytes()) {
            Some(end) => *end,
            None => {
                return Err(RelayError::InvalidLease);
            },
        };
        if now >= expires_at {
            self.drop_lease(at, &token, now);
            return Err(RelayError::InvalidLease);
        }
        let new_expiry: u64 = match checked_add_seconds(now, self.config.lease_expiry()) {
            Ok(end) => end,
            Err(error) => {
                return Err(error);
            },
        };
        let mut slot = self.slots.remove(at);
        slot.leases.set(*token.as_bytes(), new_expiry);
        let grant = make_grant(&slot, token, new_expiry, self.state.broker_generation);
        let ghost leased = slot@;
        self.slots.insert(at, slot);
        self.unsaved = true;
        proof {
            assert(self@.slots =~= views.update(at as int, leased));
            assert(views[at as int].leases.dom().contains(token@));
            assert(leased.leases.dom().contains(token@));
            assert(leased.leases.dom() =~= views[at as int].leases.dom());
            lemma_update(*old(self), *self, at as int);
        }
        Ok(grant)
    }

    fn drop_lease(&mut self, at: usize, token: &LeaseToken, now: u64)
        requires
            old(self).wf(),
            at < old(self)@.slots.len(),
            old(self)@.slots[at as int].leases.dom().contains(token@),
        ensures
            final(self).wf(),
            final(self)@ == (ManagerView {
                slots: old(self)@.slots.update(
                    at as int,
                    lease_dropped(old(self)@.slots[at as int], token@, now),
                ),
                unsaved: true,
                ..old(self)@
            }),
    {
        let ghost views = self@.slots;
        let mut slot = self.slots.remove(at);
        slot.leases.remove(token.as_bytes());
        let left: usize = slot.leases.len();
        if left == 0 {
            slot.idle_since = Some(now);
        }
        proof {
            if slot.leases@.dom().len() == 0 {
                assert(slot.leases@.dom() =~= Set::<Seq<u8>>::empty());
            }
            assert(views[at as int].idle_since is None);
        }
        let ghost dropped = slot@;
        self.slots.insert(at, slot);
        self.unsaved = true;
        proof {
            assert(dropped =~= lease_dropped(views[at as int], token@, now));
            assert(self@.slots =~= views.update(at as int, dropped));
            lemma_update(*old(self), *self, at as int);
        }
    }

    /// Releases a lease; the child stays for its grace.
    pub fn release(&mut self, token: LeaseToken, now: u64) -> (result: RelayResult<()>)
        requires
            old(self).wf(),
        ensures
            final(self).wf(),
            (final(self)@, result) == released(old(self)@, token@, now),
    {
        match find_holder(&self.slots, &token) {
            Some(at) => {
                assert(self@.slots[at as int] == self.slots@[at as int]@);
                self.drop_lease(at, &token, now);
                Ok(())
            },
            None => Err(RelayError::InvalidLease),
        }
    }

    /// Tells whether a lease is active at `now`.
    pub fn lease_is_active(&self, token: LeaseToken, now: u64) -> (active: bool)
        requires
            self.wf(),
        ensures
            active == lease_active(self@.slots, token@, now),
    {
        let ghost views = self@.slots;
        let mut i: usize = 0;
        while i < self.slots.len()
            invariant
                self.wf(),
                views == self@.slots,
                i <= self.slots@.len(),
                forall|j: int|
                    0 <= j < i ==> !((#[trigger] views[j]).leases.dom().contains(token@) && now
                        < views[j].leases[token@]),
            decreases self.slots@.len() - i,
        {
            assert(views[i as int] == self.slots@[i as int]@);
            if let Some(expires_at) = self.slots[i].leases.get(token.as_bytes()) {
                if now < *expires_at {
                    assert(views[i as int].leases.dom().contains(token@));
                    return true;
                }
            }
            i = i + 1;
        }
        false
    }

    /// The socket that an active lease on a session is bound to.
    pub fn open_bound_stream(&self, token: LeaseToken, session: &SessionName, now: u64) -> (socket:
        RelayResult<BoundSocket>)
        requires
            self.wf(),
        ensures
            match crate::manager::slots::slot_place(self@.slots, session@) {
                None => socket matches Err(error) && error == RelayError::InvalidLease,
                Some(at) => {
                    let slot = self@.slots[at];
                    if slot.leases.dom().contains(token@) && now < slot.leases[token@] {
                        socket matches Ok(bound) && bound.path@ == slot.resolved.socket
                            && bound.identity == slot.resolved.socket_identity
                    } else {
                        socket matches Err(error) && error == RelayError::InvalidLease
                    }
                },
            },
    {
        let at: usize = match find_slot(&self.slots, session) {
            Some(place) => place,
            None => {
                return Err(RelayError::InvalidLease);
            },
        };
        assert(self@.slots[at as int] == self.slots@[at as int]@);
        match self.slots[at].leases.get(token.as_bytes()) {
            None => Err(RelayError::InvalidLease),
            Some(expires_at) => if now >= *expires_at {
                Err(RelayError::InvalidLease)
            } else {
                Ok(
                    BoundSocket {
                        path: self.slots[at].resolved.socket().to_owned(),
                        identity: self.slots[at].resolved.socket_identity(),
                    },
                )
            },
        }
    }

    /// Drops the leases that ended by `now` and names the sessions that have been idle for their
    /// grace.
    pub fn reap(&mut self, now: u64) -> (plan: ReapPlan)
        requires
            old(self).wf(),
        ensures
            final(self).wf(),
            final(self)@ == (ManagerView {
                slots: slots_reaped(old(self)@.slots, now),
                ..old(self)@
            }),
            plan.expired_leases == clamped(expired_total(old(self)@.slots, now)),
            plan.idle_sessions@.len() == idle_names(
                slots_reaped(old(self)@.slots, now),
                now,
                old(self)@.config.idle_grace,
            ).len(),
            forall|i: int|
                0 <= i < plan.idle_sessions@.len() ==> (#[trigger] plan.idle_sessions@[i])@
                    == idle_names(
                    slots_reaped(old(self)@.slots, now),
                    now,
                    old(self)@.config.idle_grace,
                )[i],
    {
        let expired_leases: usize = self.reap_leases(now);
        let idle_sessions = self.idle_sessions(now);
        ReapPlan { expired_leases, idle_sessions }
    }

    fn reap_leases(&mut self, now: u64) -> (expired: usize)
        requires
            old(self).wf(),
        ensures
            final(self).wf(),
            final(self)@ == (ManagerView {
                slots: slots_reaped(old(self)@.slots, now),
                ..old(self)@
            }),
            expired == clamped(expired_total(old(self)@.slots, now)),
    {
        let ghost before = self@;
        let mut expired: usize = 0;
        let mut i: usize = 0;
        proof {
            assert(before.slots.take(0) =~= Seq::empty());
        }
        while i < self.slots.len()
            invariant
                self.wf(),
                before == old(self)@,
                i <= self.slots@.len(),
                self.slots@.len() == before.slots.len(),
                expired == clamped(expired_total(before.slots.take(i as int), now)),
                self@ == (ManagerView { slots: self@.slots, ..before }),
                forall|j: int|
                    0 <= j < i ==> (#[trigger] self@.slots[j]) == slot_reaped(
                        before.slots[j],
                        now,
                    ),
                forall|j: int|
                    i <= j < before.slots.len() ==> (#[trigger] self@.slots[j])
                        == before.slots[j],
            decreases self.slots@.len() - i,
        {
            let ghost earlier = *self;
            let mut slot = self.slots.remove(i);
            proof {
                assert(earlier@.slots[i as int] == slot@);
                assert(slot@ == before.slots[i as int]);
            }
            let (kept, dropped) = drop_expired(&slot.leases, now);
            let left: usize = kept.len();
            if dropped > 0 && left == 0 && slot.idle_since.is_none() {
                slot.idle_since = Some(now);
            }
            slot.leases = kept;
            expired = expired.saturating_add(dropped);
            let ghost reaped = slot@;
            proof {
                if reaped.leases.dom().len() == 0 {
                    assert(reaped.leases.dom() =~= Set::<Seq<u8>>::empty());
                }
                assert(reaped =~= slot_reaped(before.slots[i as int], now));
                let prefix = before.slots.take(i + 1);
                assert(prefix.drop_last() =~= before.slots.take(i as int));
                lemma_reaped_consistent(before.slots[i as int], now);
            }
            self.slots.insert(i, slot);
            proof {
                assert(self@.slots =~= earlier@.slots.update(i as int, reaped));
                lemma_update(earlier, *self, i as int);
            }
            i = i + 1;
        }
        proof {
            assert(before.slots.take(before.slots.len() as int) =~= before.slots);
            assert(self@.slots =~= slots_reaped(before.slots, now));
        }
        expired
    }

    fn idle_sessions(&self, now: u64) -> (names: Vec<SessionName>)
        requires
            self.wf(),
        ensures
            names@.len() == idle_names(self@.slots, now, self@.config.idle_grace).len(),
            forall|i: int|
                0 <= i < names@.len() ==> (#[trigger] names@[i])@ == idle_names(
                    self@.slots,
                    now,
                    self@.config.idle_grace,
                )[i],
    {
        let ghost views = self@.slots;
        let grace: u64 = self.config.idle_grace();
        let mut names: Vec<SessionName> = Vec::new();
        let mut i: usize = 0;
        proof {
            assert(views.take(0) =~= Seq::empty());
        }
        while i < self.slots.len()
            invariant
                views == self@.slots,
                i <= self.slots@.len(),
                views.len() == self.slots@.len(),
                names@.len() == idle_names(views.take(i as int), now, grace).len(),
                forall|j: int|
                    0 <= j < names@.len() ==> (#[trigger] names@[j])@ == idle_names(
                        views.take(i as int),
                        now,
                        grace,
                    )[j],
            decreases self.slots@.len() - i,
        {
            proof {
                assert(views[i as int] == self.slots@[i as int]@);
                assert(views.take(i + 1).drop_last() =~= views.take(i as int));
            }
            let over = match self.slots[i].idle_since {
                None => false,
                Some(since) => match checked_add_seconds(since, grace) {
                    Ok(end) => now >= end,
                    Err(_) => false,
                },
            };
            if over {
                names.push(self.slots[i].session.clone());
            }
            i = i + 1;
        }
        assert(views.take(views.len() as int) =~= views);
        names
    }

    /// Reports a reap once the idle children were stopped; the persistent state is written if
    /// anything was done.
    pub fn reap_finished(&mut self, expired_leases: usize, stopped_sessions: Vec<SessionName>) -> (
        report: ReapReport)
        requires
            old(self).wf(),
        ensures
            final(self).wf(),
            report.expired_leases == expired_leases,
            report.stopped_sessions == stopped_sessions,
            final(self)@ == (ManagerView {
                unsaved: old(self)@.unsaved || expired_leases > 0 || stopped_sessions@.len() > 0,
                ..old(self)@
            }),
    {
        if expired_leases > 0 || stopped_sessions.len() > 0 {
            self.unsaved = true;
        }
        ReapReport { expired_leases, stopped_sessions }
    }

    /// The status of every session, ordered by name.
    pub fn status(&self) -> (status: Vec<SessionStatusView>)
        requires
            self.wf(),
        ensures
            status@.len() == self@.slots.len(),
            forall|i: int|
                0 <= i < status@.len() ==> reports_slot(#[trigger] status@[i], self@.slots[i]),
    {
        let ghost views = self@.slots;
        let mut status: Vec<SessionStatusView> = Vec::new();
        let mut i: usize = 0;
        while i < self.slots.len()
            invariant
                self.wf(),
                views == self@.slots,
                views.len() == self.slots@.len(),
                i <= self.slots@.len(),
                status@.len() == i,
                forall|j: int| 0 <= j < i ==> reports_slot(#[trigger] status@[j], views[j]),
            decreases self.slots@.len() - i,
        {
            assert(views[i as int] == self.slots@[i as int]@);
            let slot = &self.slots[i];
            let view = SessionStatusView {
                session: slot.session.clone(),
                fingerprint: slot.fingerprint,
                configuration_generation: slot.configuration_generation,
                fingerprint_present: true,
                child_generation: slot.child_generation,
                data_port: slot.data_port,
                active_leases: slot.leases.len(),
                idle_since: slot.idle_since,
            };
            assert(reports_slot(view, views[i as int]));
            status.push(view);
            i = i + 1;
        }
        status
    }
}

/// Name of the endpoint of a child.
pub open spec fn endpoint_name(child_generation: u64) -> Seq<char> {
    ".child-"@ + crate::text::decimal_text(child_generation as nat) + ".sock"@
}

proof fn lemma_update(before: Manager, after: Manager, at: int)
    requires
        before.wf(),
        0 <= at < before@.slots.len(),
        after.ports.wf(),
        after@.slots == before@.slots.update(at, after@.slots[at]),
        after@.ports == before@.ports,
        after@.starting == before@.starting,
        after@.state == before@.state,
        after@.wrapped == before@.wrapped,
        after@.slots[at].child_generation == before@.slots[at].child_generation,
        slot_consistent(after@.slots[at]),
        after@.slots[at].session == before@.slots[at].session,
        after@.slots[at].data_port == before@.slots[at].data_port,
        crate::manager::slots::tables_wf(after.slots@),
    ensures
        after.wf(),
{
    let old_slots = before@.slots;
    let new_slots = after@.slots;
    assert forall|i: int, j: int| 0 <= i < j < new_slots.len() implies crate::text::precedes(
        (#[trigger] new_slots[i]).session,
        (#[trigger] new_slots[j]).session,
    ) by {
        assert(crate::text::precedes(old_slots[i].session, old_slots[j].session));
    }
    assert forall|i: int, j: int| 0 <= i < j < new_slots.len() implies (
    #[trigger] new_slots[i]).data_port != (#[trigger] new_slots[j]).data_port by {
        assert(old_slots[i].data_port != old_slots[j].data_port);
    }
    assert forall|i: int| 0 <= i < new_slots.len() implies slot_consistent(
        #[trigger] new_slots[i],
    ) && after@.ports.contains(new_slots[i].data_port) by {
        assert(slot_consistent(old_slots[i]));
    }
    if let Some(start) = after@.starting {
        assert(crate::manager::slots::slot_place(new_slots, start.resolved.session) is None) by {
            if crate::manager::slots::slot_place(new_slots, start.resolved.session) is Some {
                let found = choose|place: int|
                    crate::manager::slots::slot_is_at(new_slots, start.resolved.session, place);
                assert(crate::manager::slots::slot_is_at(
                    new_slots,
                    start.resolved.session,
                    found,
                ));
                assert(crate::manager::slots::slot_is_at(
                    old_slots,
                    start.resolved.session,
                    found,
                ));
            }
        }
        assert forall|i: int| 0 <= i < new_slots.len() implies (#[trigger] new_slots[i]).data_port
            != start.data_port by {
            assert(old_slots[i].data_port != start.data_port);
        }
    }
}

proof fn lemma_inserted(before: Manager, after: Manager, at: int)
    requires
        before.wf(),
        before@.starting is Some,
        after@.starting is None,
        0 <= at <= before@.slots.len(),
        after.ports.wf(),
        after@.ports == before@.ports,
        after@.slots == before@.slots.insert(at, after@.slots[at]),
        crate::manager::slots::slots_ordered(after@.slots),
        slot_consistent(after@.slots[at]),
        after@.slots[at].data_port == before@.starting->Some_0.data_port,
        after@.state == before@.state,
        after@.wrapped == before@.wrapped,
        after@.slots[at].child_generation == before@.starting->Some_0.child_generation,
        crate::manager::slots::tables_wf(after.slots@),
    ensures
        after.wf(),
{
    let old_slots = before@.slots;
    let new_slots = after@.slots;
    let port = before@.starting->Some_0.data_port;
    assert forall|i: int, j: int| 0 <= i < j < new_slots.len() implies (
    #[trigger] new_slots[i]).data_port != (#[trigger] new_slots[j]).data_port by {
        let i0 = if i < at {
            i
        } else {
            i - 1
        };
        let j0 = if j < at {
            j
        } else {
            j - 1
        };
        if i == at {
            assert(new_slots[j] == old_slots[j0]);
            assert(old_slots[j0].data_port != port);
        } else if j == at {
            assert(new_slots[i] == old_slots[i0]);
            assert(old_slots[i0].data_port != port);
        } else {
            assert(new_slots[i] == old_slots[i0] && new_slots[j] == old_slots[j0]);
            assert(old_slots[i0].data_port != old_slots[j0].data_port);
        }
    }
    assert forall|i: int| 0 <= i < new_slots.len() implies slot_consistent(
        #[trigger] new_slots[i],
    ) && after@.ports.contains(new_slots[i].data_port) by {
        if i < at {
            assert(new_slots[i] == old_slots[i]);
            assert(slot_consistent(old_slots[i]));
        } else if i > at {
            assert(new_slots[i] == old_slots[i - 1]);
            assert(slot_consistent(old_slots[i - 1]));
        }
    }
}

proof fn lemma_removed(before: Manager, after: Manager, at: int)
    requires
        before.wf(),
        0 <= at < before@.slots.len(),
        after.ports.wf(),
        after@.ports == before@.ports.remove(before@.slots[at].data_port),
        after@.starting == before@.starting,
        after@.state == before@.state,
        after@.wrapped == before@.wrapped,
        after@.slots == before@.slots.remove(at),
        crate::manager::slots::tables_wf(after.slots@),
    ensures
        after.wf(),
{
    let old_slots = before@.slots;
    let new_slots = after@.slots;
    assert(slot_consistent(old_slots[at]));
    assert forall|i: int, j: int| 0 <= i < j < new_slots.len() implies crate::text::precedes(
        (#[trigger] new_slots[i]).session,
        (#[trigger] new_slots[j]).session,
    ) && new_slots[i].data_port != new_slots[j].data_port by {
        let i0 = if i < at {
            i
        } else {
            i + 1
        };
        let j0 = if j < at {
            j
        } else {
            j + 1
        };
        assert(new_slots[i] == old_slots[i0] && new_slots[j] == old_slots[j0]);
        assert(crate::text::precedes(old_slots[i0].session, old_slots[j0].session));
    }
    assert forall|i: int| 0 <= i < new_slots.len() implies slot_consistent(
        #[trigger] new_slots[i],
    ) && after@.ports.contains(new_slots[i].data_port) by {
        let i0 = if i < at {
            i
        } else {
            i + 1
        };
        assert(new_slots[i] == old_slots[i0]);
        assert(slot_consistent(old_slots[i0]));
        if i0 < at {
            assert(old_slots[i0].data_port != old_slots[at].data_port);
        } else {
            assert(old_slots[at].data_port != old_slots[i0].data_port);
        }
    }
    if let Some(start) = after@.starting {
        assert(old_slots[at].data_port != start.data_port);
        assert(crate::manager::slots::slot_place(new_slots, start.resolved.session) is None) by {
            if crate::manager::slots::slot_place(new_slots, start.resolved.session) is Some {
                let found = choose|place: int|
                    crate::manager::slots::slot_is_at(new_slots, start.resolved.session, place);
                assert(crate::manager::slots::slot_is_at(
                    new_slots,
                    start.resolved.session,
                    found,
                ));
                let was = if found < at {
                    found
                } else {
                    found + 1
                };
                assert(new_slots[found] == old_slots[was]);
                assert(crate::manager::slots::slot_is_at(
                    old_slots,
                    start.resolved.session,
                    was,
                ));
            }
        }
        assert forall|i: int| 0 <= i < new_slots.len() implies (#[trigger] new_slots[i]).data_port
            != start.data_port by {
            let i0 = if i < at {
                i
            } else {
                i + 1
            };
            assert(new_slots[i] == old_slots[i0]);
            assert(old_slots[i0].data_port != start.data_port);
        }
    }
}

proof fn lemma_reaped_consistent(slot: crate::manager::slots::SlotView, now: u64)
    requires
        slot_consistent(slot),
    ensures
        slot_consistent(slot_reaped(slot, now)),
{
    let kept = crate::manager::slots::unexpired(slot.leases, now);
    assert(kept.dom().subset_of(slot.leases.dom()));
    vstd::set_lib::lemma_len_subset(kept.dom(), slot.leases.dom());
    if kept.dom() == Set::<Seq<u8>>::empty() && slot.idle_since is None {
        assert(slot.leases.dom().len() > 0) by {
            if slot.leases.dom().len() == 0 {
                assert(slot.leases.dom() =~= Set::<Seq<u8>>::empty());
            }
        }
    }
    if slot.idle_since is Some {
        assert(kept.dom() =~= Set::<Seq<u8>>::empty());
    }
}

/// A start that is given up leaves no trace: the sessions and the reserved ports are as before.
pub proof fn law_cancelled_start_leaves_no_trace(
    before: ManagerView,
    resolved: crate::manager::resolver::ResolvedView,
    fingerprint: Seq<u8>,
    token: Seq<u8>,
    now: u64,
)
    requires
        ensured(before, resolved, fingerprint, token, now).1 is Start,
    ensures
        ({
            let after = start_cancelled(ensured(before, resolved, fingerprint, token, now).0);
            &&& after.slots == before.slots
            &&& after.ports == before.ports
            &&& after.starting is None
        }),
{
    let port = next_port(before.ports)->Some_0;
    assert(crate::manager::ports::is_first_free(before.ports, port));
    assert(before.ports.insert(port).remove(port) =~= before.ports);
}

/// A session that is removed right after its child was started leaves no trace either.
pub proof fn law_rolled_back_start_leaves_no_trace(
    before: ManagerView,
    resolved: crate::manager::resolver::ResolvedView,
    fingerprint: Seq<u8>,
    token: Seq<u8>,
    now: u64,
    child: crate::manager::child::ChildView,
)
    requires
        consistent(before),
        ensured(before, resolved, fingerprint, token, now).1 is Start,
    ensures
        ({
            let started = start_committed(
                ensured(before, resolved, fingerprint, token, now).0,
                child,
            ).0;
            let after = slot_taken(started, resolved.session);
            &&& after.slots == before.slots
            &&& after.ports == before.ports
            &&& after.starting is None
        }),
{
    let begun = ensured(before, resolved, fingerprint, token, now).0;
    let slot = started_slot(begun.starting->Some_0, child);
    let place = crate::manager::slots::insertion_place(before.slots, slot.session);
    let started = start_committed(begun, child).0;
    let port = next_port(before.ports)->Some_0;
    assert(crate::manager::ports::is_first_free(before.ports, port));
    crate::manager::slots::lemma_insertion(before.slots, slot);
    assert(started.slots[place] == slot);
    assert(crate::manager::slots::slot_is_at(started.slots, resolved.session, place));
    crate::manager::slots::lemma_slot_place(started.slots, resolved.session, place);
    assert(started.slots.remove(place) =~= before.slots);
    assert(before.ports.insert(port).remove(port) =~= before.ports);
}

/// A start that fails gives its own error back and leaves no trace: the sessions and the reserved
/// ports are as before, so that the next start gets the same port, and the configuration is removed
/// if it was written.
pub proof fn law_failed_start_is_rolled_back(
    before: ManagerView,
    resolved: crate::manager::resolver::ResolvedView,
    fingerprint: Seq<u8>,
    token: Seq<u8>,
    now: u64,
    error: RelayError,
    written: bool,
)
    requires
        ensured(before, resolved, fingerprint, token, now).1 is Start,
    ensures
        ({
            let outcome = if written {
                StartOutcome::NotStarted(error)
            } else {
                StartOutcome::NotPrepared(error)
            };
            let (after, step) = start_concluded(
                ensured(before, resolved, fingerprint, token, now).0,
                outcome,
            );
            &&& step == StartStepView::Fail(error, written)
            &&& after.slots == before.slots
            &&& after.ports == before.ports
            &&& next_port(after.ports) == next_port(before.ports)
            &&& after.starting is None
        }),
{
    law_cancelled_start_leaves_no_trace(before, resolved, fingerprint, token, now);
}

/// A start whose state cannot be written afterwards gives that error back, has its child stopped, and
/// leaves no trace.
pub proof fn law_unsaved_start_is_rolled_back(
    before: ManagerView,
    resolved: crate::manager::resolver::ResolvedView,
    fingerprint: Seq<u8>,
    token: Seq<u8>,
    now: u64,
    child: ChildHandle,
    error: RelayError,
)
    requires
        consistent(before),
        ensured(before, resolved, fingerprint, token, now).1 is Start,
    ensures
        ({
            let (started, step) = start_concluded(
                ensured(before, resolved, fingerprint, token, now).0,
                StartOutcome::Started(child),
            );
            let (after, settled) = start_settled(started, step->Save_0, Err(error));
            &&& step is Save
            &&& settled == LeaseStepView::RollBack(error, Some(child@))
            &&& after.slots == before.slots
            &&& after.ports == before.ports
            &&& after.starting is None
        }),
{
    law_rolled_back_start_leaves_no_trace(before, resolved, fingerprint, token, now, child@);
    let begun = ensured(before, resolved, fingerprint, token, now).0;
    let slot = started_slot(begun.starting->Some_0, child@);
    let place = crate::manager::slots::insertion_place(before.slots, slot.session);
    let started = start_committed(begun, child@).0;
    crate::manager::slots::lemma_insertion(before.slots, slot);
    assert(started.slots[place] == slot);
    assert(crate::manager::slots::slot_is_at(started.slots, resolved.session, place));
    crate::manager::slots::lemma_slot_place(started.slots, resolved.session, place);
}

/// Another lease on a served session shares its child and its port, and touches no other session.
pub proof fn law_leases_share_the_child(
    before: ManagerView,
    resolved: crate::manager::resolver::ResolvedView,
    fingerprint: Seq<u8>,
    token: Seq<u8>,
    now: u64,
)
    requires
        ensured(before, resolved, fingerprint, token, now).1 is Granted,
    ensures
        ({
            let (after, step) = ensured(before, resolved, fingerprint, token, now);
            let at = crate::manager::slots::slot_place(before.slots, resolved.session)->Some_0;
            &&& crate::manager::slots::slot_place(before.slots, resolved.session) is Some
            &&& step->Granted_0.data_port == before.slots[at].data_port
            &&& step->Granted_0.child_generation == before.slots[at].child_generation
            &&& after.ports == before.ports
            &&& after.slots.len() == before.slots.len()
            &&& after.slots[at].child == before.slots[at].child
            &&& forall|i: int|
                0 <= i < before.slots.len() && i != at ==> (#[trigger] after.slots[i])
                    == before.slots[i]
        }),
{
    let at = crate::manager::slots::slot_place(before.slots, resolved.session)->Some_0;
    assert(crate::manager::slots::slot_is_at(before.slots, resolved.session, at));
}

/// A session with another fingerprint or another socket than before is refused, and nothing
/// changes.
pub proof fn law_changed_session_is_refused(
    before: ManagerView,
    resolved: crate::manager::resolver::ResolvedView,
    fingerprint: Seq<u8>,
    token: Seq<u8>,
    now: u64,
)
    requires
        crate::manager::slots::slot_place(before.slots, resolved.session) matches Some(at) && (
        before.slots[at].fingerprint != fingerprint || before.slots[at].resolved.socket_identity
            != resolved.socket_identity),
    ensures
        ensured(before, resolved, fingerprint, token, now).1 is Fail,
        ensured(before, resolved, fingerprint, token, now).0 == before,
{
}

/// The child of a new session gets a data port that no other session has.
pub proof fn law_new_session_has_its_own_port(
    before: ManagerView,
    resolved: crate::manager::resolver::ResolvedView,
    fingerprint: Seq<u8>,
    token: Seq<u8>,
    now: u64,
    at: int,
)
    requires
        consistent(before),
        ensured(before, resolved, fingerprint, token, now).1 is Start,
        0 <= at < before.slots.len(),
    ensures
        ensured(before, resolved, fingerprint, token, now).1->Start_0 != before.slots[at].data_port,
        crate::manager::ports::is_data_port(
            ensured(before, resolved, fingerprint, token, now).1->Start_0,
        ),
{
    let port = next_port(before.ports)->Some_0;
    assert(crate::manager::ports::is_first_free(before.ports, port));
    assert(slot_consistent(before.slots[at]));
}

/// A granted lease is active until its end.
pub proof fn law_granted_lease_is_active(
    before: ManagerView,
    resolved: crate::manager::resolver::ResolvedView,
    fingerprint: Seq<u8>,
    token: Seq<u8>,
    now: u64,
    child: crate::manager::child::ChildView,
    later: u64,
)
    requires
        consistent(before),
        !(ensured(before, resolved, fingerprint, token, now).1 is Fail),
        later < now + before.config.lease_expiry,
    ensures
        ({
            let (after, step) = ensured(before, resolved, fingerprint, token, now);
            match step {
                EnsureView::Granted(_) => lease_active(after.slots, token, later),
                _ => lease_active(start_committed(after, child).0.slots, token, later),
            }
        }),
{
    let (after, step) = ensured(before, resolved, fingerprint, token, now);
    if step is Granted {
        let at = crate::manager::slots::slot_place(before.slots, resolved.session)->Some_0;
        assert(crate::manager::slots::slot_is_at(before.slots, resolved.session, at));
        assert(after.slots[at].leases.dom().contains(token));
    } else {
        let slot = started_slot(after.starting->Some_0, child);
        let place = crate::manager::slots::insertion_place(before.slots, slot.session);
        crate::manager::slots::lemma_insertion(before.slots, slot);
        let slots = start_committed(after, child).0.slots;
        assert(slots[place] == slot);
        assert(slots[place].leases.dom().contains(token));
    }
}

/// A lease that has ended cannot be renewed: it is refused and dropped.
pub proof fn law_expired_lease_cannot_be_renewed(before: ManagerView, token: Seq<u8>, now: u64)
    requires
        crate::manager::slots::holder_place(before.slots, token) matches Some(at) && now
            >= before.slots[at].leases[token],
    ensures
        renewed(before, token, now).1 == Err::<GrantView, RelayError>(RelayError::InvalidLease),
        ({
            let at = crate::manager::slots::holder_place(before.slots, token)->Some_0;
            !renewed(before, token, now).0.slots[at].leases.dom().contains(token)
        }),
{
    let at = crate::manager::slots::holder_place(before.slots, token)->Some_0;
    assert(crate::manager::slots::holder_is_at(before.slots, token, at));
}

/// A renewed lease is active until its new end.
pub proof fn law_renewed_lease_is_active(
    before: ManagerView,
    token: Seq<u8>,
    now: u64,
    later: u64,
)
    requires
        renewed(before, token, now).1 is Ok,
        later < now + before.config.lease_expiry,
    ensures
        lease_active(renewed(before, token, now).0.slots, token, later),
        renewed(before, token, now).1->Ok_0.expires_at == now + before.config.lease_expiry,
{
    let at = crate::manager::slots::holder_place(before.slots, token)->Some_0;
    assert(crate::manager::slots::holder_is_at(before.slots, token, at));
    assert(renewed(before, token, now).0.slots[at].leases.dom().contains(token));
}

/// A released lease is active no more, provided that no other session holds the same token.
pub proof fn law_released_lease_is_inactive(
    before: ManagerView,
    token: Seq<u8>,
    now: u64,
    later: u64,
)
    requires
        released(before, token, now).1 is Ok,
        forall|i: int|
            0 <= i < before.slots.len() && Some(i) != crate::manager::slots::holder_place(
                before.slots,
                token,
            ) ==> !(#[trigger] before.slots[i]).leases.dom().contains(token),
    ensures
        !lease_active(released(before, token, now).0.slots, token, later),
{
    let at = crate::manager::slots::holder_place(before.slots, token)->Some_0;
    assert(crate::manager::slots::holder_is_at(before.slots, token, at));
    let after = released(before, token, now).0.slots;
    if lease_active(after, token, later) {
        let i = choose|i: int|
            0 <= i < after.len() && (#[trigger] after[i]).leases.dom().contains(token) && later
                < after[i].leases[token];
        if i != at {
            assert(after[i] == before.slots[i]);
        }
    }
}

/// Reaping changes no answer about a lease: what has ended is gone, and what has not is kept.
pub proof fn law_reap_drops_exactly_the_expired(
    slots: Seq<crate::manager::slots::SlotView>,
    token: Seq<u8>,
    now: u64,
    later: u64,
)
    requires
        now <= later,
    ensures
        lease_active(slots_reaped(slots, now), token, later) == lease_active(slots, token, later),
        forall|i: int, held: Seq<u8>|
            0 <= i < slots.len() && (#[trigger] slots_reaped(slots, now)[i].leases.dom().contains(
                held,
            )) ==> slots[i].leases[held] > now,
{
    let reaped = slots_reaped(slots, now);
    if lease_active(slots, token, later) {
        let i = choose|i: int|
            0 <= i < slots.len() && (#[trigger] slots[i]).leases.dom().contains(token) && later
                < slots[i].leases[token];
        assert(reaped[i] == slot_reaped(slots[i], now));
        assert(reaped[i].leases.dom().contains(token));
    }
    if lease_active(reaped, token, later) {
        let i = choose|i: int|
            0 <= i < reaped.len() && (#[trigger] reaped[i]).leases.dom().contains(token) && later
                < reaped[i].leases[token];
        assert(reaped[i] == slot_reaped(slots[i], now));
        assert(slots[i].leases.dom().contains(token));
    }
    assert forall|i: int, held: Seq<u8>|
        0 <= i < slots.len() && (#[trigger] reaped[i].leases.dom().contains(
            held,
        )) implies slots[i].leases[held] > now by {
        assert(reaped[i] == slot_reaped(slots[i], now));
    }
}

/// A child is stopped only if its session has no lease and has had none for its whole grace.
pub proof fn law_only_idle_children_are_stopped(
    slots: Seq<crate::manager::slots::SlotView>,
    now: u64,
    idle_grace: u64,
    place: int,
)
    requires
        forall|i: int| 0 <= i < slots.len() ==> slot_consistent(#[trigger] slots[i]),
        0 <= place < idle_names(slots, now, idle_grace).len(),
    ensures
        exists|i: int|
            0 <= i < slots.len() && (#[trigger] slots[i]).session == idle_names(
                slots,
                now,
                idle_grace,
            )[place] && slots[i].leases.dom() == Set::<Seq<u8>>::empty() && grace_over(
                slots[i],
                now,
                idle_grace,
            ),
    decreases slots.len(),
{
    if slots.len() > 0 {
        let rest = slots.drop_last();
        let last = slots.len() - 1;
        let earlier = idle_names(rest, now, idle_grace);
        if place < earlier.len() {
            assert forall|i: int| 0 <= i < rest.len() implies slot_consistent(
                #[trigger] rest[i],
            ) by {
                assert(rest[i] == slots[i]);
            }
            law_only_idle_children_are_stopped(rest, now, idle_grace, place);
            let i = choose|i: int|
                0 <= i < rest.len() && (#[trigger] rest[i]).session == earlier[place]
                    && rest[i].leases.dom() == Set::<Seq<u8>>::empty() && grace_over(
                    rest[i],
                    now,
                    idle_grace,
                );
            assert(slots[i] == rest[i]);
        } else {
            assert(slots[last] == slots.last());
            assert(slot_consistent(slots[last]));
        }
    }
}

/// There are never more sessions than data ports.
pub proof fn law_sessions_are_bounded(manager: ManagerView)
    requires
        consistent(manager),
    ensures
        manager.slots.len() <= crate::manager::ports::BROKER_DATA_PORT_LAST
            - crate::manager::ports::BROKER_DATA_PORT_BASE + 1,
{
    let first = crate::manager::ports::BROKER_DATA_PORT_BASE as int;
    let last = crate::manager::ports::BROKER_DATA_PORT_LAST as int;
    let ports = Seq::new(manager.slots.len(), |i: int| manager.slots[i].data_port as int);
    assert(ports.no_duplicates()) by {
        assert forall|i: int, j: int| 0 <= i < j < ports.len() implies ports[i] != ports[j] by {
            assert(manager.slots[i].data_port != manager.slots[j].data_port);
        }
    }
    ports.unique_seq_to_set();
    vstd::set_lib::lemma_int_range(first, last + 1);
    assert(ports.to_set().subset_of(vstd::set_lib::set_int_range(first, last + 1))) by {
        assert forall|port: int| ports.to_set().contains(port) implies first <= port <= last by {
            let i = choose|i: int| 0 <= i < ports.len() && ports[i] == port;
            assert(slot_consistent(manager.slots[i]));
        }
    }
    vstd::set_lib::lemma_len_subset(
        ports.to_set(),
        vstd::set_lib::set_int_range(first, last + 1),
    );
}

} // verus!
