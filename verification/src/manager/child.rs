//! Children that serve sessions: how they are started and how they prove their authority.

use crate::bytes::{copy_32, push_be, read_be, same_bytes};
use crate::certificates::text_from_utf8;
use crate::error::{IoKind, RelayError, RelayResult};
use crate::manager::names::{LeaseToken, SessionName};
use crate::manager::ports::validate_data_port;
use crate::paths::validate_absolute_path;
use crate::text::write_decimal;
use std::collections::BTreeSet;
use vstd::prelude::*;

verus! {

/// Seconds that a child has for its bootstrap.
pub const CHILD_BOOTSTRAP_TIMEOUT_SECS: u64 = 5;

/// The letters `HDBI`.
pub const CHILD_BOOTSTRAP_MAGIC: [u8; 4] = [72, 68, 66, 73];

/// Version of the bootstrap frame.
pub const CHILD_BOOTSTRAP_VERSION: u16 = 1;

/// The letters `HDBA` and a zero byte.
pub const CHILD_ACK: [u8; 5] = [72, 68, 66, 65, 0];

/// Bytes of a bootstrap frame before its session.
pub const CHILD_PREFIX_BYTES: usize = 49;

/// Bytes of the longest bootstrap frame.
pub const MAX_CHILD_FRAME_BYTES: usize = 113;

/// Mathematical value of a child launch request.
#[verifier::ext_equal]
pub struct ChildSpecView {
    /// Session.
    pub session: Seq<char>,
    /// Child generation.
    pub generation: u64,
    /// Data port.
    pub data_port: u16,
    /// Bootstrap endpoint.
    pub ipc_path: Seq<char>,
    /// Manager process.
    pub parent_pid: u32,
    /// Lease token.
    pub token: Seq<u8>,
}

/// A child launch request; its token travels over the bootstrap endpoint only.
pub struct ChildSpec {
    session: SessionName,
    generation: u64,
    data_port: u16,
    ipc_path: String,
    parent_pid: u32,
    token: LeaseToken,
}

impl View for ChildSpec {
    type V = ChildSpecView;

    closed spec fn view(&self) -> ChildSpecView {
        ChildSpecView {
            session: self.session@,
            generation: self.generation,
            data_port: self.data_port,
            ipc_path: self.ipc_path@,
            parent_pid: self.parent_pid,
            token: self.token@,
        }
    }
}

/// The arguments of a child process.
pub open spec fn child_arguments(spec: ChildSpecView) -> Seq<Seq<char>> {
    seq![
        "relay-child"@,
        "--ipc"@,
        spec.ipc_path,
        "--session"@,
        spec.session,
        "--generation"@,
        crate::text::decimal_text(spec.generation as nat),
        "--data-port"@,
        crate::text::decimal_text(spec.data_port as nat),
        "--parent-pid"@,
        crate::text::decimal_text(spec.parent_pid as nat),
    ]
}

impl ChildSpec {
    /// Makes a launch request.
    pub fn new(
        session: SessionName,
        generation: u64,
        data_port: u16,
        ipc_path: String,
        parent_pid: u32,
        token: LeaseToken,
    ) -> (spec: Self)
        ensures
            spec@ == (ChildSpecView {
                session: session@,
                generation,
                data_port,
                ipc_path: ipc_path@,
                parent_pid,
                token: token@,
            }),
    {
        ChildSpec { session, generation, data_port, ipc_path, parent_pid, token }
    }

    /// The session.
    pub fn session(&self) -> (session: &SessionName)
        ensures
            session@ == self@.session,
    {
        &self.session
    }

    /// The child generation.
    pub fn generation(&self) -> (generation: u64)
        ensures
            generation == self@.generation,
    {
        self.generation
    }

    /// The data port.
    pub fn data_port(&self) -> (port: u16)
        ensures
            port == self@.data_port,
    {
        self.data_port
    }

    /// The bootstrap endpoint.
    pub fn ipc_path(&self) -> (path: &str)
        ensures
            path@ == self@.ipc_path,
    {
        self.ipc_path.as_str()
    }

    /// The arguments of the child process; the token is not among them.
    pub fn arguments(&self) -> (arguments: Vec<String>)
        ensures
            arguments@.len() == child_arguments(self@).len(),
            forall|i: int|
                0 <= i < arguments@.len() ==> (#[trigger] arguments@[i])@ == child_arguments(
                    self@,
                )[i],
    {
        let mut arguments: Vec<String> = Vec::new();
        arguments.push("relay-child".to_owned());
        arguments.push("--ipc".to_owned());
        arguments.push(self.ipc_path.as_str().to_owned());
        arguments.push("--session".to_owned());
        arguments.push(self.session.as_str().to_owned());
        arguments.push("--generation".to_owned());
        arguments.push(write_decimal(self.generation));
        arguments.push("--data-port".to_owned());
        arguments.push(write_decimal(self.data_port as u64));
        arguments.push("--parent-pid".to_owned());
        arguments.push(write_decimal(self.parent_pid as u64));
        arguments
    }
}

/// The token has no part in the arguments: two requests that differ in it alone start the same
/// command.
pub proof fn law_arguments_hold_no_token(first: ChildSpecView, second: ChildSpecView)
    requires
        (ChildSpecView { token: second.token, ..first }) == second,
    ensures
        child_arguments(first) == child_arguments(second),
{
}

/// A child that the Manager owns.
#[derive(Clone, Copy, Debug, Eq, PartialEq, Structural)]
pub struct ChildHandle {
    pid: u32,
    generation: u64,
    data_port: u16,
}

/// Mathematical value of a child.
pub struct ChildView {
    /// Process.
    pub pid: u32,
    /// Child generation.
    pub generation: u64,
    /// Data port.
    pub data_port: u16,
}

impl View for ChildHandle {
    type V = ChildView;

    closed spec fn view(&self) -> ChildView {
        ChildView { pid: self.pid, generation: self.generation, data_port: self.data_port }
    }
}

impl ChildHandle {
    /// The child that a launch request led to.
    pub fn started(pid: u32, spec: &ChildSpec) -> (child: Self)
        ensures
            child@ == (ChildView {
                pid,
                generation: spec@.generation,
                data_port: spec@.data_port,
            }),
    {
        ChildHandle { pid, generation: spec.generation, data_port: spec.data_port }
    }

    /// The process.
    pub fn pid(&self) -> (pid: u32)
        ensures
            pid == self@.pid,
    {
        self.pid
    }

    /// The child generation.
    pub fn generation(&self) -> (generation: u64)
        ensures
            generation == self@.generation,
    {
        self.generation
    }

    /// The data port.
    pub fn data_port(&self) -> (port: u16)
        ensures
            port == self@.data_port,
    {
        self.data_port
    }
}

/// What is known of the bootstrap endpoint and its directory.
pub struct IpcFacts {
    /// The endpoint has a parent directory.
    pub has_parent: bool,
    /// Outcome of checking the components of the parent.
    pub components: RelayResult<()>,
    /// The parent, if it can be looked at: whether it is a directory, whether it is a symlink, and
    /// its mode bits.
    pub parent: Option<(bool, bool, u32)>,
    /// The endpoint, if it exists: whether it is a symlink, whether it is a socket, and its mode
    /// bits.
    pub existing: Option<(bool, bool, u32)>,
}

/// The outcome of checking a bootstrap endpoint.
pub open spec fn ipc_check(path: Seq<char>, facts: IpcFacts) -> RelayResult<()> {
    if !crate::paths::absolute(path) {
        crate::paths::path_check("child_ipc", path)
    } else if !facts.has_parent {
        Err(RelayError::ChildLifecycle { reason: "child bootstrap IPC has no parent" })
    } else if facts.components is Err {
        facts.components
    } else {
        match facts.parent {
            None => Err(
                RelayError::ChildLifecycle { reason: "child bootstrap IPC parent is unavailable" },
            ),
            Some((is_dir, is_symlink, mode)) => if !is_dir || is_symlink || mode & 0o077 != 0
                || mode & 0o700 != 0o700 {
                Err(
                    RelayError::ChildLifecycle {
                        reason: "child bootstrap IPC parent boundary is invalid",
                    },
                )
            } else {
                match facts.existing {
                    None => Ok(()),
                    Some((is_symlink, is_socket, mode)) => if is_symlink || !is_socket || mode
                        & 0o777 != 0o600 {
                        Err(
                            RelayError::ChildLifecycle {
                                reason: "child bootstrap IPC boundary is invalid",
                            },
                        )
                    } else {
                        Ok(())
                    },
                }
            },
        }
    }
}

/// Checks a bootstrap endpoint: a private directory, and at most a private socket in it.
pub fn validate_ipc_path(path: &str, facts: &IpcFacts) -> (valid: RelayResult<()>)
    ensures
        valid == ipc_check(path@, *facts),
{
    if let Err(error) = validate_absolute_path("child_ipc", path) {
        return Err(error);
    }
    if !facts.has_parent {
        return Err(RelayError::ChildLifecycle { reason: "child bootstrap IPC has no parent" });
    }
    if let Err(error) = facts.components {
        return Err(error);
    }
    match facts.parent {
        None => {
            return Err(
                RelayError::ChildLifecycle { reason: "child bootstrap IPC parent is unavailable" },
            );
        },
        Some((is_dir, is_symlink, mode)) => {
            if !is_dir || is_symlink || mode & 0o077 != 0 || mode & 0o700 != 0o700 {
                return Err(
                    RelayError::ChildLifecycle {
                        reason: "child bootstrap IPC parent boundary is invalid",
                    },
                );
            }
        },
    }
    if let Some((is_symlink, is_socket, mode)) = facts.existing {
        if is_symlink || !is_socket || mode & 0o777 != 0o600 {
            return Err(
                RelayError::ChildLifecycle { reason: "child bootstrap IPC boundary is invalid" },
            );
        }
    }
    Ok(())
}

/// What has to be done next to start a child.
#[derive(Clone, Copy, Debug, Eq, PartialEq)]
pub enum SpawnStep {
    /// Remove a stale endpoint and bind a new one.
    Bind,
    /// Give the endpoint mode 0600.
    Protect,
    /// Start the process.
    Start,
    /// Accept the child's connection.
    Accept,
    /// Send the bootstrap frame and read the acknowledgement.
    Exchange,
    /// Remove the endpoint; the child runs.
    Running,
    /// Give up, after undoing what is named.
    Fail {
        /// The failure.
        error: RelayError,
        /// The child is killed.
        kill: bool,
        /// The endpoint is removed.
        remove_endpoint: bool,
    },
}

/// How one stage of a start ended.
#[derive(Clone, Copy, Debug, Eq, PartialEq)]
pub enum StageOutcome {
    /// It succeeded.
    Done,
    /// The host refused it.
    Failed(IoKind),
    /// The deadline passed.
    TimedOut,
    /// It was refused for a reason of its own.
    Refused(RelayError),
}

/// The failure of a stage.
pub open spec fn stage_failure(step: SpawnStep, outcome: StageOutcome) -> RelayError {
    match (step, outcome) {
        (_, StageOutcome::Refused(error)) => error,
        (SpawnStep::Accept, StageOutcome::TimedOut) => RelayError::ChildLifecycle {
            reason: "child bootstrap timed out",
        },
        (_, StageOutcome::TimedOut) => RelayError::ChildLifecycle {
            reason: "child bootstrap exchange timed out",
        },
        (_, StageOutcome::Failed(kind)) => RelayError::Io {
            operation: match step {
                SpawnStep::Bind => "binding child bootstrap IPC",
                SpawnStep::Protect => "protecting child bootstrap IPC",
                SpawnStep::Start => "starting relay child",
                SpawnStep::Accept => "accepting child bootstrap IPC",
                _ => "sending child bootstrap",
            },
            kind,
        },
        (_, StageOutcome::Done) => RelayError::ChildLifecycle {
            reason: "child bootstrap exchange timed out",
        },
    }
}

/// The first step of starting a child: its port and its endpoint are checked.
pub open spec fn spawn_checked(spec: ChildSpecView, facts: IpcFacts) -> SpawnStep {
    if !crate::manager::ports::is_data_port(spec.data_port) {
        SpawnStep::Fail {
            error: RelayError::InvalidConfiguration {
                field: "data_port",
                reason: "must remain in 18753..18852",
            },
            kill: false,
            remove_endpoint: false,
        }
    } else {
        match ipc_check(spec.ipc_path, facts) {
            Err(error) => SpawnStep::Fail { error, kill: false, remove_endpoint: false },
            Ok(_) => SpawnStep::Bind,
        }
    }
}

/// What comes of the exchange with a child.
pub open spec fn exchanged(outcome: ExchangeOutcome) -> StageOutcome {
    match outcome {
        ExchangeOutcome::TimedOut => StageOutcome::TimedOut,
        ExchangeOutcome::SendFailed(kind) => StageOutcome::Failed(kind),
        ExchangeOutcome::ReadFailed(kind) => StageOutcome::Refused(
            RelayError::Io { operation: "reading child bootstrap acknowledgement", kind },
        ),
        ExchangeOutcome::Acknowledged(ack) => if ack@ == CHILD_ACK@ {
            StageOutcome::Done
        } else {
            StageOutcome::Refused(
                RelayError::ChildLifecycle {
                    reason: "child bootstrap acknowledgement is invalid",
                },
            )
        },
    }
}

/// The spawner once it started a child.
pub open spec fn spawned(before: FakeSpawnerView) -> FakeSpawnerView {
    FakeSpawnerView {
        next_pid: if before.next_pid == u32::MAX {
            0
        } else {
            (before.next_pid + 1) as u32
        },
        live: before.live.insert(before.next_pid),
    }
}

/// The spawner once it stopped the child of this process.
pub open spec fn stopped(before: FakeSpawnerView, pid: u32) -> FakeSpawnerView {
    FakeSpawnerView { live: before.live.remove(pid), ..before }
}

/// The step that follows `step` when it ended with `outcome`.
pub open spec fn spawn_next(step: SpawnStep, outcome: StageOutcome) -> SpawnStep {
    match (step, outcome) {
        (SpawnStep::Running, _) => SpawnStep::Running,
        (SpawnStep::Fail { error, kill, remove_endpoint }, _) => SpawnStep::Fail {
            error,
            kill,
            remove_endpoint,
        },
        (SpawnStep::Bind, StageOutcome::Done) => SpawnStep::Protect,
        (SpawnStep::Protect, StageOutcome::Done) => SpawnStep::Start,
        (SpawnStep::Start, StageOutcome::Done) => SpawnStep::Accept,
        (SpawnStep::Accept, StageOutcome::Done) => SpawnStep::Exchange,
        (SpawnStep::Exchange, StageOutcome::Done) => SpawnStep::Running,
        _ => SpawnStep::Fail {
            error: stage_failure(step, outcome),
            kill: step is Accept || step is Exchange,
            remove_endpoint: !(step is Bind),
        },
    }
}

/// What happens next in the stop of a child.
#[derive(Clone, Copy, Debug, Eq, PartialEq)]
pub enum StopStep {
    /// Ask whether the process has exited.
    Check,
    /// Kill the process.
    Kill,
    /// Wait for the process.
    Wait,
    /// The process is gone.
    Stopped,
    /// The stop failed.
    Fail(RelayError),
}

/// How a step of a stop ended.
#[derive(Clone, Copy, Debug, Eq, PartialEq)]
pub enum StopOutcome {
    /// The host refused it.
    Failed(IoKind),
    /// It succeeded.
    Done {
        /// The process has exited.
        exited: bool,
    },
}

/// The step that follows `step` when it ended with `outcome`.
pub open spec fn stop_next(step: StopStep, outcome: StopOutcome) -> StopStep {
    match (step, outcome) {
        (StopStep::Stopped, _) => step,
        (StopStep::Fail(_), _) => step,
        (_, StopOutcome::Failed(kind)) => StopStep::Fail(
            RelayError::Io {
                operation: match step {
                    StopStep::Check => "checking relay child",
                    StopStep::Kill => "stopping relay child",
                    _ => "waiting for relay child",
                },
                kind,
            },
        ),
        (StopStep::Check, StopOutcome::Done { exited }) => if exited {
            StopStep::Stopped
        } else {
            StopStep::Kill
        },
        (StopStep::Kill, StopOutcome::Done { .. }) => StopStep::Wait,
        (StopStep::Wait, StopOutcome::Done { .. }) => StopStep::Stopped,
    }
}

/// A child is reported as stopped only when its process had exited before or was waited for, and a
/// process that had exited is not killed.
pub proof fn law_stopped_child_is_gone(step: StopStep, outcome: StopOutcome)
    requires
        !(step is Stopped),
    ensures
        stop_next(step, outcome) is Stopped ==> {
            ||| step is Check && outcome == (StopOutcome::Done { exited: true })
            ||| step is Wait && outcome is Done
        },
        stop_next(step, outcome) is Kill ==> step is Check && outcome == (StopOutcome::Done {
            exited: false,
        }),
{
}

/// Mathematical value of a spawner.
#[verifier::ext_equal]
pub struct SpawnerView {
    /// Child binary.
    pub binary: Seq<char>,
}

/// The spawner that starts the same binary in child mode.
pub struct ProcessChildSpawner {
    binary: String,
}

impl View for ProcessChildSpawner {
    type V = SpawnerView;

    closed spec fn view(&self) -> SpawnerView {
        SpawnerView { binary: self.binary@ }
    }
}

impl ProcessChildSpawner {
    /// A spawner of an absolute binary.
    pub fn new(binary: String) -> (spawner: RelayResult<Self>)
        ensures
            match spawner {
                Ok(made) => crate::paths::absolute(binary@) && made@.binary == binary@,
                Err(error) => Err::<(), RelayError>(error) == crate::paths::path_check(
                    "child_binary",
                    binary@,
                ),
            },
    {
        match validate_absolute_path("child_binary", binary.as_str()) {
            Ok(_) => Ok(ProcessChildSpawner { binary }),
            Err(error) => Err(error),
        }
    }

    /// The binary.
    pub fn binary(&self) -> (path: &str)
        ensures
            path@ == self@.binary,
    {
        self.binary.as_str()
    }

    /// Checks a launch request before anything is done for it.
    pub fn check(&self, spec: &ChildSpec, facts: &IpcFacts) -> (step: SpawnStep)
        ensures
            if !crate::manager::ports::is_data_port(spec@.data_port) {
                step == (SpawnStep::Fail {
                    error: RelayError::InvalidConfiguration {
                        field: "data_port",
                        reason: "must remain in 18753..18852",
                    },
                    kill: false,
                    remove_endpoint: false,
                })
            } else {
                match ipc_check(spec@.ipc_path, *facts) {
                    Err(error) => step == (SpawnStep::Fail {
                        error,
                        kill: false,
                        remove_endpoint: false,
                    }),
                    Ok(_) => step == SpawnStep::Bind,
                }
            },
            step == spawn_checked(spec@, *facts),
    {
        if let Err(error) = validate_data_port(spec.data_port) {
            return SpawnStep::Fail { error, kill: false, remove_endpoint: false };
        }
        match validate_ipc_path(spec.ipc_path.as_str(), facts) {
            Err(error) => SpawnStep::Fail { error, kill: false, remove_endpoint: false },
            Ok(_) => SpawnStep::Bind,
        }
    }

    /// Decides how a start goes on once `step` ended with `outcome`.
    pub fn spawn(&self, step: SpawnStep, outcome: StageOutcome) -> (next: SpawnStep)
        ensures
            next == spawn_next(step, outcome),
    {
        match (step, outcome) {
            (SpawnStep::Running, _) => SpawnStep::Running,
            (SpawnStep::Fail { error, kill, remove_endpoint }, _) => SpawnStep::Fail {
                error,
                kill,
                remove_endpoint,
            },
            (SpawnStep::Bind, StageOutcome::Done) => SpawnStep::Protect,
            (SpawnStep::Protect, StageOutcome::Done) => SpawnStep::Start,
            (SpawnStep::Start, StageOutcome::Done) => SpawnStep::Accept,
            (SpawnStep::Accept, StageOutcome::Done) => SpawnStep::Exchange,
            (SpawnStep::Exchange, StageOutcome::Done) => SpawnStep::Running,
            (SpawnStep::Bind, failed) => SpawnStep::Fail {
                error: Self::failure("binding child bootstrap IPC", false, failed),
                kill: false,
                remove_endpoint: false,
            },
            (SpawnStep::Protect, failed) => SpawnStep::Fail {
                error: Self::failure("protecting child bootstrap IPC", false, failed),
                kill: false,
                remove_endpoint: true,
            },
            (SpawnStep::Start, failed) => SpawnStep::Fail {
                error: Self::failure("starting relay child", false, failed),
                kill: false,
                remove_endpoint: true,
            },
            (SpawnStep::Accept, failed) => SpawnStep::Fail {
                error: Self::failure("accepting child bootstrap IPC", true, failed),
                kill: true,
                remove_endpoint: true,
            },
            (SpawnStep::Exchange, failed) => SpawnStep::Fail {
                error: Self::failure("sending child bootstrap", false, failed),
                kill: true,
                remove_endpoint: true,
            },
        }
    }

    /// Decides how the stop of a child goes on once `step` ended with `outcome`; it starts with
    /// [`StopStep::Check`].
    pub fn stop(&self, step: StopStep, outcome: StopOutcome) -> (next: StopStep)
        ensures
            next == stop_next(step, outcome),
    {
        match (step, outcome) {
            (StopStep::Stopped, _) => step,
            (StopStep::Fail(_), _) => step,
            (StopStep::Check, StopOutcome::Failed(kind)) => StopStep::Fail(
                RelayError::Io { operation: "checking relay child", kind },
            ),
            (StopStep::Kill, StopOutcome::Failed(kind)) => StopStep::Fail(
                RelayError::Io { operation: "stopping relay child", kind },
            ),
            (StopStep::Wait, StopOutcome::Failed(kind)) => StopStep::Fail(
                RelayError::Io { operation: "waiting for relay child", kind },
            ),
            (StopStep::Check, StopOutcome::Done { exited }) => if exited {
                StopStep::Stopped
            } else {
                StopStep::Kill
            },
            (StopStep::Kill, StopOutcome::Done { .. }) => StopStep::Wait,
            (StopStep::Wait, StopOutcome::Done { .. }) => StopStep::Stopped,
        }
    }

    fn failure(operation: &'static str, accepting: bool, outcome: StageOutcome) -> (error:
        RelayError)
        ensures
            error == (match outcome {
                StageOutcome::Refused(reported) => reported,
                StageOutcome::Failed(kind) => RelayError::Io { operation, kind },
                StageOutcome::TimedOut | StageOutcome::Done => RelayError::ChildLifecycle {
                    reason: if accepting && outcome == StageOutcome::TimedOut {
                        "child bootstrap timed out"
                    } else {
                        "child bootstrap exchange timed out"
                    },
                },
            }),
    {
        match outcome {
            StageOutcome::Refused(reported) => reported,
            StageOutcome::Failed(kind) => RelayError::Io { operation, kind },
            StageOutcome::TimedOut => if accepting {
                RelayError::ChildLifecycle { reason: "child bootstrap timed out" }
            } else {
                RelayError::ChildLifecycle { reason: "child bootstrap exchange timed out" }
            },
            StageOutcome::Done => RelayError::ChildLifecycle {
                reason: "child bootstrap exchange timed out",
            },
        }
    }
}

/// A start that fails after its process was started kills it, and one that fails after the
/// endpoint was bound removes it.
pub proof fn law_failed_start_is_undone(step: SpawnStep, outcome: StageOutcome)
    requires
        !(step is Running) && !(step is Fail),
        outcome != StageOutcome::Done,
    ensures
        spawn_next(step, outcome) is Fail,
        spawn_next(step, outcome)->kill == (step is Accept || step is Exchange),
        spawn_next(step, outcome)->remove_endpoint == !(step is Bind),
{
}

/// How the bootstrap exchange ended on the Manager's side.
pub enum ExchangeOutcome {
    /// The deadline passed.
    TimedOut,
    /// Sending the frame failed.
    SendFailed(IoKind),
    /// Reading the acknowledgement failed.
    ReadFailed(IoKind),
    /// The acknowledgement.
    Acknowledged([u8; 5]),
}

/// Decides on the bootstrap exchange on the Manager's side.
pub fn exchange_child_bootstrap(outcome: &ExchangeOutcome) -> (result: StageOutcome)
    ensures
        result == (match outcome {
            ExchangeOutcome::TimedOut => StageOutcome::TimedOut,
            ExchangeOutcome::SendFailed(kind) => StageOutcome::Failed(*kind),
            ExchangeOutcome::ReadFailed(kind) => StageOutcome::Refused(
                RelayError::Io {
                    operation: "reading child bootstrap acknowledgement",
                    kind: *kind,
                },
            ),
            ExchangeOutcome::Acknowledged(ack) => if ack@ == CHILD_ACK@ {
                StageOutcome::Done
            } else {
                StageOutcome::Refused(
                    RelayError::ChildLifecycle {
                        reason: "child bootstrap acknowledgement is invalid",
                    },
                )
            },
        }),
        result == exchanged(*outcome),
{
    match outcome {
        ExchangeOutcome::TimedOut => StageOutcome::TimedOut,
        ExchangeOutcome::SendFailed(kind) => StageOutcome::Failed(*kind),
        ExchangeOutcome::ReadFailed(kind) => StageOutcome::Refused(
            RelayError::Io { operation: "reading child bootstrap acknowledgement", kind: *kind },
        ),
        ExchangeOutcome::Acknowledged(ack) => {
            let expected = CHILD_ACK;
            if same_bytes(ack, &expected) {
                StageOutcome::Done
            } else {
                StageOutcome::Refused(
                    RelayError::ChildLifecycle {
                        reason: "child bootstrap acknowledgement is invalid",
                    },
                )
            }
        },
    }
}

/// Mathematical value of a bootstrap frame.
#[verifier::ext_equal]
pub struct BootstrapView {
    /// Lease token.
    pub token: Seq<u8>,
    /// Child generation.
    pub generation: u64,
    /// Data port.
    pub data_port: u16,
    /// Session.
    pub session: Seq<char>,
}

/// A decoded bootstrap frame.
pub struct ChildBootstrap {
    token: LeaseToken,
    generation: u64,
    data_port: u16,
    session: SessionName,
}

impl View for ChildBootstrap {
    type V = BootstrapView;

    closed spec fn view(&self) -> BootstrapView {
        BootstrapView {
            token: self.token@,
            generation: self.generation,
            data_port: self.data_port,
            session: self.session@,
        }
    }
}

/// What a diagnostic says of a bootstrap frame.
#[derive(Debug)]
pub struct BootstrapSummary {
    /// Child generation.
    pub generation: u64,
    /// Data port.
    pub data_port: u16,
    /// Session.
    pub session: SessionName,
    /// The frame carries a token.
    pub token_present: bool,
}

/// The bytes of a bootstrap frame.
pub open spec fn bootstrap_bytes(frame: BootstrapView) -> Seq<u8> {
    CHILD_BOOTSTRAP_MAGIC@ + crate::bytes::be_bytes(CHILD_BOOTSTRAP_VERSION as nat, 2) + frame.token
        + crate::bytes::be_bytes(frame.generation as nat, 8) + crate::bytes::be_bytes(
        frame.data_port as nat,
        2,
    ) + seq![vstd::utf8::encode_utf8(frame.session).len() as u8] + vstd::utf8::encode_utf8(
        frame.session,
    )
}

/// The frame that a launch request is sent as.
pub open spec fn bootstrap_of(spec: ChildSpecView) -> BootstrapView {
    BootstrapView {
        token: spec.token,
        generation: spec.generation,
        data_port: spec.data_port,
        session: spec.session,
    }
}

/// The failure of decoding a bootstrap frame, if any.
pub open spec fn bootstrap_failure(input: Seq<u8>) -> Option<RelayError> {
    if input.len() < CHILD_PREFIX_BYTES || input.len() > MAX_CHILD_FRAME_BYTES || input.subrange(
        0,
        4,
    ) != CHILD_BOOTSTRAP_MAGIC@ || crate::bytes::be_value(input.subrange(4, 6))
        != CHILD_BOOTSTRAP_VERSION {
        Some(RelayError::ChildLifecycle { reason: "child bootstrap frame is invalid" })
    } else if !crate::manager::ports::is_data_port(
        crate::bytes::be_value(input.subrange(46, 48)) as u16,
    ) {
        Some(
            RelayError::InvalidConfiguration {
                field: "data_port",
                reason: "must remain in 18753..18852",
            },
        )
    } else if CHILD_PREFIX_BYTES + input[48] != input.len() {
        Some(RelayError::ChildLifecycle { reason: "child bootstrap session length is invalid" })
    } else if !vstd::utf8::valid_utf8(bootstrap_session(input)) {
        Some(RelayError::ChildLifecycle { reason: "child bootstrap session is not UTF-8" })
    } else if !crate::text::session_text(
        crate::manager::names::normalized(vstd::utf8::decode_utf8(bootstrap_session(input))),
    ) {
        Some(
            RelayError::InvalidConfiguration {
                field: "session",
                reason: "must be default or 1..64 ASCII letters, numbers, '.', '_' or '-'",
            },
        )
    } else {
        None
    }
}

/// The session bytes of a bootstrap frame.
pub open spec fn bootstrap_session(input: Seq<u8>) -> Seq<u8> {
    input.subrange(CHILD_PREFIX_BYTES as int, input.len() as int)
}

/// The frame that well-formed bytes hold.
pub open spec fn bootstrap_frame(input: Seq<u8>) -> BootstrapView {
    BootstrapView {
        token: input.subrange(6, 38),
        generation: crate::bytes::be_value(input.subrange(38, 46)) as u64,
        data_port: crate::bytes::be_value(input.subrange(46, 48)) as u16,
        session: crate::manager::names::normalized(
            vstd::utf8::decode_utf8(bootstrap_session(input)),
        ),
    }
}

proof fn lemma_session_bytes(session: Seq<char>)
    requires
        crate::text::session_text(session),
    ensures
        vstd::utf8::encode_utf8(session).len() == session.len(),
{
    assert(vstd::utf8::is_ascii_chars(session)) by {
        assert forall|i: int| 0 <= i < session.len() implies 0 <= (#[trigger] session[i]) as u32
            <= 127 by {
            assert(crate::text::session_char(session[i]));
        }
    }
    vstd::utf8::is_ascii_chars_encode_utf8(session);
}

impl ChildBootstrap {
    /// Encodes the frame of a launch request.
    pub fn encode(spec: &ChildSpec) -> (frame: RelayResult<Vec<u8>>)
        ensures
            frame matches Ok(bytes) && bytes@ == bootstrap_bytes(bootstrap_of(spec@)) && bytes@.len()
                <= MAX_CHILD_FRAME_BYTES,
    {
        let session = spec.session.as_str().as_bytes();
        proof {
            lemma_session_bytes(spec.session@);
            crate::bytes::lemma_be_bytes_len(CHILD_BOOTSTRAP_VERSION as nat, 2);
            crate::bytes::lemma_be_bytes_len(spec.generation as nat, 8);
            crate::bytes::lemma_be_bytes_len(spec.data_port as nat, 2);
        }
        let mut frame: Vec<u8> = Vec::new();
        let magic = CHILD_BOOTSTRAP_MAGIC;
        frame.extend_from_slice(&magic);
        push_be(&mut frame, CHILD_BOOTSTRAP_VERSION as u64, 2);
        frame.extend_from_slice(spec.token.as_bytes());
        push_be(&mut frame, spec.generation, 8);
        push_be(&mut frame, spec.data_port as u64, 2);
        frame.push(session.len() as u8);
        frame.extend_from_slice(session);
        assert(frame@ =~= bootstrap_bytes(bootstrap_of(spec@)));
        Ok(frame)
    }

    /// Decodes one bootstrap frame.
    pub fn decode(input: &[u8]) -> (frame: RelayResult<Self>)
        ensures
            match frame {
                Ok(decoded) => bootstrap_failure(input@) is None && decoded@ == bootstrap_frame(
                    input@,
                ),
                Err(error) => bootstrap_failure(input@) == Some(error),
            },
    {
        let invalid = RelayError::ChildLifecycle { reason: "child bootstrap frame is invalid" };
        if input.len() < CHILD_PREFIX_BYTES || input.len() > MAX_CHILD_FRAME_BYTES {
            return Err(invalid);
        }
        assert(input.len() == input@.len());
        let magic = CHILD_BOOTSTRAP_MAGIC;
        if !same_bytes(vstd::slice::slice_subrange(input, 0, 4), &magic) {
            return Err(invalid);
        }
        if read_be(input, 4, 2) != CHILD_BOOTSTRAP_VERSION as u64 {
            return Err(invalid);
        }
        let token = LeaseToken::from_bytes(copy_32(input, 6));
        let generation: u64 = read_be(input, 38, 8);
        let port: u64 = read_be(input, 46, 2);
        proof {
            crate::bytes::lemma_be_value_bound(input@.subrange(46, 48));
            reveal_with_fuel(crate::bytes::radix_pow, 3);
        }
        let data_port: u16 = port as u16;
        if let Err(error) = validate_data_port(data_port) {
            return Err(error);
        }
        let end: usize = CHILD_PREFIX_BYTES + input[48] as usize;
        if end != input.len() {
            return Err(
                RelayError::ChildLifecycle { reason: "child bootstrap session length is invalid" },
            );
        }
        let text = match text_from_utf8(
            vstd::slice::slice_subrange(input, CHILD_PREFIX_BYTES, input.len()),
        ) {
            Some(found) => found,
            None => {
                return Err(
                    RelayError::ChildLifecycle { reason: "child bootstrap session is not UTF-8" },
                );
            },
        };
        proof {
            vstd::utf8::encode_utf8_decode_utf8(text@);
        }
        match SessionName::normalize(text) {
            Ok(session) => Ok(ChildBootstrap { token, generation, data_port, session }),
            Err(error) => Err(error),
        }
    }

    /// The session.
    pub fn session(&self) -> (session: &SessionName)
        ensures
            session@ == self@.session,
    {
        &self.session
    }

    /// The child generation.
    pub fn generation(&self) -> (generation: u64)
        ensures
            generation == self@.generation,
    {
        self.generation
    }

    /// The data port.
    pub fn data_port(&self) -> (port: u16)
        ensures
            port == self@.data_port,
    {
        self.data_port
    }

    /// The lease token.
    pub fn token(&self) -> (token: LeaseToken)
        ensures
            token@ == self@.token,
    {
        self.token
    }

    /// What a diagnostic says of the frame: no byte of its token.
    pub fn summary(&self) -> (summary: BootstrapSummary)
        ensures
            summary.generation == self@.generation,
            summary.data_port == self@.data_port,
            summary.session@ == self@.session,
            summary.token_present,
    {
        BootstrapSummary {
            generation: self.generation,
            data_port: self.data_port,
            session: self.session.clone(),
            token_present: true,
        }
    }
}

/// What the Manager sends, the child reads back: the same token, generation, port and session.
pub proof fn law_bootstrap_round_trip(spec: ChildSpecView)
    requires
        crate::text::session_text(spec.session),
        crate::manager::ports::is_data_port(spec.data_port),
        spec.token.len() == 32,
    ensures
        bootstrap_failure(bootstrap_bytes(bootstrap_of(spec))) is None,
        bootstrap_frame(bootstrap_bytes(bootstrap_of(spec))) == bootstrap_of(spec),
{
    let bytes = bootstrap_bytes(bootstrap_of(spec));
    let session = vstd::utf8::encode_utf8(spec.session);
    lemma_session_bytes(spec.session);
    crate::bytes::lemma_be_bytes_len(CHILD_BOOTSTRAP_VERSION as nat, 2);
    crate::bytes::lemma_be_bytes_len(spec.generation as nat, 8);
    crate::bytes::lemma_be_bytes_len(spec.data_port as nat, 2);
    reveal_with_fuel(crate::bytes::radix_pow, 9);
    crate::bytes::lemma_be_value_of_bytes(CHILD_BOOTSTRAP_VERSION as nat, 2);
    crate::bytes::lemma_be_value_of_bytes(spec.generation as nat, 8);
    crate::bytes::lemma_be_value_of_bytes(spec.data_port as nat, 2);
    assert(bytes.subrange(0, 4) =~= CHILD_BOOTSTRAP_MAGIC@);
    assert(bytes.subrange(4, 6) =~= crate::bytes::be_bytes(CHILD_BOOTSTRAP_VERSION as nat, 2));
    assert(bytes.subrange(6, 38) =~= spec.token);
    assert(bytes.subrange(38, 46) =~= crate::bytes::be_bytes(spec.generation as nat, 8));
    assert(bytes.subrange(46, 48) =~= crate::bytes::be_bytes(spec.data_port as nat, 2));
    assert(bytes[48] == session.len());
    assert(bootstrap_session(bytes) =~= session);
    vstd::utf8::encode_utf8_valid_utf8(spec.session);
    vstd::utf8::encode_utf8_decode_utf8(spec.session);
}

/// Why a prefix announces no frame; `None` where it does.
pub open spec fn prefix_failure(prefix: Seq<u8>) -> Option<RelayError> {
    if prefix.len() != CHILD_PREFIX_BYTES {
        Some(RelayError::ChildLifecycle { reason: "child bootstrap prefix is invalid" })
    } else if CHILD_PREFIX_BYTES + prefix[48] > MAX_CHILD_FRAME_BYTES {
        Some(RelayError::ChildLifecycle { reason: "child bootstrap exceeds its bound" })
    } else {
        None
    }
}

/// Bytes of the whole frame that a prefix announces, held to the bound.
pub fn bootstrap_total(prefix: &[u8]) -> (total: RelayResult<usize>)
    ensures
        match total {
            Ok(bytes) => prefix_failure(prefix@) is None && bytes == CHILD_PREFIX_BYTES
                + prefix@[48],
            Err(error) => prefix_failure(prefix@) == Some(error),
        },
{
    if prefix.len() != CHILD_PREFIX_BYTES {
        return Err(RelayError::ChildLifecycle { reason: "child bootstrap prefix is invalid" });
    }
    let total: usize = CHILD_PREFIX_BYTES + prefix[48] as usize;
    if total > MAX_CHILD_FRAME_BYTES {
        return Err(RelayError::ChildLifecycle { reason: "child bootstrap exceeds its bound" });
    }
    Ok(total)
}

/// The frame gives the child the authority that its command line names.
pub open spec fn authority_matches(
    frame: BootstrapView,
    session: Seq<char>,
    generation: u64,
    data_port: u16,
) -> bool {
    frame.session == session && frame.generation == generation && frame.data_port == data_port
}

/// The session that a child serves, if it may connect to its manager.
pub fn run_relay_child(session: &str, data_port: u16, ipc_path: &str, facts: &IpcFacts) -> (expected:
    RelayResult<SessionName>)
    ensures
        match expected {
            Ok(name) => {
                &&& crate::manager::names::normalizes(Ok(name), session@)
                &&& crate::manager::ports::is_data_port(data_port)
                &&& ipc_check(ipc_path@, *facts) is Ok
            },
            Err(error) => if !crate::text::session_text(
                crate::manager::names::normalized(session@),
            ) {
                crate::manager::names::normalizes(Err(error), session@)
            } else if !crate::manager::ports::is_data_port(data_port) {
                error == (RelayError::InvalidConfiguration {
                    field: "data_port",
                    reason: "must remain in 18753..18852",
                })
            } else {
                ipc_check(ipc_path@, *facts) == Err::<(), RelayError>(error)
            },
        },
{
    let expected = match SessionName::normalize(session) {
        Ok(name) => name,
        Err(error) => {
            return Err(error);
        },
    };
    if let Err(error) = validate_data_port(data_port) {
        return Err(error);
    }
    if let Err(error) = validate_ipc_path(ipc_path, facts) {
        return Err(error);
    }
    Ok(expected)
}

/// Why a child could not connect to its manager; `None` says that the time was up.
pub fn child_connect_failure(kind: Option<IoKind>) -> (error: RelayError)
    ensures
        error == (match kind {
            None => RelayError::ChildLifecycle {
                reason: "child could not connect to Manager bootstrap IPC",
            },
            Some(failure) => RelayError::Io {
                operation: "connecting child bootstrap IPC",
                kind: failure,
            },
        }),
{
    match kind {
        None => RelayError::ChildLifecycle {
            reason: "child could not connect to Manager bootstrap IPC",
        },
        Some(failure) => RelayError::Io {
            operation: "connecting child bootstrap IPC",
            kind: failure,
        },
    }
}

/// What a child does next in the bootstrap exchange.
#[derive(Clone, Copy, Debug, Eq, PartialEq)]
pub enum ReceiveStep {
    /// Read the prefix of the frame.
    ReadPrefix,
    /// Read the session, so that the frame has as many bytes.
    ReadSession {
        /// Bytes of the whole frame.
        total: usize,
    },
    /// Send the acknowledgement.
    Acknowledge,
    /// Serve the session.
    Serve,
    /// Give up.
    Fail(RelayError),
}

/// How one step of the bootstrap exchange ended on the child's side.
pub enum ReceiveOutcome {
    /// The deadline passed.
    TimedOut,
    /// The host refused it.
    Failed(IoKind),
    /// It succeeded; the bytes of the frame read so far.
    Done(Vec<u8>),
}

/// The step that follows the whole frame.
pub open spec fn frame_step(
    frame: Seq<u8>,
    session: Seq<char>,
    generation: u64,
    data_port: u16,
) -> ReceiveStep {
    match bootstrap_failure(frame) {
        Some(error) => ReceiveStep::Fail(error),
        None => if authority_matches(bootstrap_frame(frame), session, generation, data_port) {
            ReceiveStep::Acknowledge
        } else {
            ReceiveStep::Fail(
                RelayError::ChildLifecycle {
                    reason: "child bootstrap authority does not match command",
                },
            )
        },
    }
}

/// The step that follows `step` when it ended with `outcome`.
pub open spec fn receive_next(
    step: ReceiveStep,
    outcome: ReceiveOutcome,
    session: Seq<char>,
    generation: u64,
    data_port: u16,
) -> ReceiveStep {
    match (step, outcome) {
        (ReceiveStep::Serve, _) => step,
        (ReceiveStep::Fail(_), _) => step,
        (_, ReceiveOutcome::TimedOut) => ReceiveStep::Fail(
            RelayError::ChildLifecycle { reason: "child bootstrap exchange timed out" },
        ),
        (_, ReceiveOutcome::Failed(kind)) => ReceiveStep::Fail(
            RelayError::Io {
                operation: match step {
                    ReceiveStep::ReadPrefix => "reading child bootstrap",
                    ReceiveStep::ReadSession { .. } => "reading child bootstrap session",
                    _ => "acknowledging child bootstrap",
                },
                kind,
            },
        ),
        (ReceiveStep::ReadPrefix, ReceiveOutcome::Done(bytes)) => match prefix_failure(bytes@) {
            Some(error) => ReceiveStep::Fail(error),
            None => ReceiveStep::ReadSession {
                total: (CHILD_PREFIX_BYTES + bytes@[48]) as usize,
            },
        },
        (ReceiveStep::ReadSession { .. }, ReceiveOutcome::Done(bytes)) => frame_step(
            bytes@,
            session,
            generation,
            data_port,
        ),
        (ReceiveStep::Acknowledge, ReceiveOutcome::Done(_)) => ReceiveStep::Serve,
    }
}

fn receive_frame(
    frame: &[u8],
    expected_session: &SessionName,
    generation: u64,
    data_port: u16,
) -> (next: ReceiveStep)
    ensures
        next == frame_step(frame@, expected_session@, generation, data_port),
{
    let bootstrap = match ChildBootstrap::decode(frame) {
        Ok(decoded) => decoded,
        Err(error) => {
            return ReceiveStep::Fail(error);
        },
    };
    if !bootstrap.session.same(expected_session) || bootstrap.generation != generation
        || bootstrap.data_port != data_port {
        return ReceiveStep::Fail(
            RelayError::ChildLifecycle {
                reason: "child bootstrap authority does not match command",
            },
        );
    }
    ReceiveStep::Acknowledge
}

/// Decides how a child goes on once `step` of the exchange ended with `outcome`. It starts with
/// [`ReceiveStep::ReadPrefix`] and has one deadline for the whole exchange.
pub fn receive_child_bootstrap(
    step: ReceiveStep,
    outcome: &ReceiveOutcome,
    expected_session: &SessionName,
    generation: u64,
    data_port: u16,
) -> (next: ReceiveStep)
    ensures
        next == receive_next(step, *outcome, expected_session@, generation, data_port),
{
    let operation = match step {
        ReceiveStep::Serve | ReceiveStep::Fail(_) => {
            return step;
        },
        ReceiveStep::ReadPrefix => "reading child bootstrap",
        ReceiveStep::ReadSession { .. } => "reading child bootstrap session",
        ReceiveStep::Acknowledge => "acknowledging child bootstrap",
    };
    let bytes = match outcome {
        ReceiveOutcome::TimedOut => {
            return ReceiveStep::Fail(
                RelayError::ChildLifecycle { reason: "child bootstrap exchange timed out" },
            );
        },
        ReceiveOutcome::Failed(kind) => {
            return ReceiveStep::Fail(RelayError::Io { operation, kind: *kind });
        },
        ReceiveOutcome::Done(bytes) => bytes,
    };
    match step {
        ReceiveStep::ReadPrefix => match bootstrap_total(bytes.as_slice()) {
            Ok(total) => ReceiveStep::ReadSession { total },
            Err(error) => ReceiveStep::Fail(error),
        },
        ReceiveStep::ReadSession { .. } => receive_frame(
            bytes.as_slice(),
            expected_session,
            generation,
            data_port,
        ),
        _ => ReceiveStep::Serve,
    }
}

/// A child acknowledges only a frame that gives it the session, generation and port of its own
/// command line, and serves only once the acknowledgement is sent.
pub proof fn law_child_serves_its_own_authority(
    step: ReceiveStep,
    outcome: ReceiveOutcome,
    session: Seq<char>,
    generation: u64,
    data_port: u16,
)
    requires
        !(step is Serve) && !(step is Acknowledge),
    ensures
        !(receive_next(step, outcome, session, generation, data_port) is Serve),
        receive_next(step, outcome, session, generation, data_port) is Acknowledge ==> {
            &&& step is ReadSession
            &&& outcome matches ReceiveOutcome::Done(frame)
            &&& bootstrap_failure(frame@) is None
            &&& authority_matches(bootstrap_frame(frame@), session, generation, data_port)
        },
{
}

/// The frame that a Manager sends for a child's own launch request takes the child from the
/// prefix to the acknowledgement.
pub proof fn law_own_frame_is_acknowledged(spec: ChildSpecView, prefix: Vec<u8>, frame: Vec<u8>)
    requires
        crate::text::session_text(spec.session),
        crate::manager::ports::is_data_port(spec.data_port),
        spec.token.len() == 32,
        frame@ == bootstrap_bytes(bootstrap_of(spec)),
        prefix@ == frame@.subrange(0, CHILD_PREFIX_BYTES as int),
    ensures
        ({
            let read = receive_next(
                ReceiveStep::ReadPrefix,
                ReceiveOutcome::Done(prefix),
                spec.session,
                spec.generation,
                spec.data_port,
            );
            &&& read == (ReceiveStep::ReadSession { total: frame@.len() as usize })
            &&& receive_next(
                read,
                ReceiveOutcome::Done(frame),
                spec.session,
                spec.generation,
                spec.data_port,
            ) is Acknowledge
        }),
{
    law_bootstrap_round_trip(spec);
}

/// Mathematical value of a fake spawner.
#[verifier::ext_equal]
pub struct FakeSpawnerView {
    /// Next process.
    pub next_pid: u32,
    /// Processes that run.
    pub live: Set<u32>,
}

/// A spawner without processes, for local tests.
#[derive(Debug)]
pub struct FakeChildSpawner {
    next_pid: u32,
    live: BTreeSet<u32>,
}

impl View for FakeChildSpawner {
    type V = FakeSpawnerView;

    closed spec fn view(&self) -> FakeSpawnerView {
        FakeSpawnerView { next_pid: self.next_pid, live: self.live@ }
    }
}

impl Default for FakeChildSpawner {
    /// An empty spawner.
    fn default() -> (spawner: Self)
        ensures
            spawner@ == (FakeSpawnerView { next_pid: 10_000, live: Set::empty() }),
    {
        Self::new()
    }
}

impl FakeChildSpawner {
    /// An empty spawner.
    pub fn new() -> (spawner: Self)
        ensures
            spawner@ == (FakeSpawnerView { next_pid: 10_000, live: Set::empty() }),
    {
        FakeChildSpawner { next_pid: 10_000, live: BTreeSet::new() }
    }

    /// The number of children that run.
    pub fn live_count(&self) -> (count: usize)
        ensures
            count == self@.live.len(),
    {
        self.live.len()
    }

    /// Starts a child.
    pub fn spawn(&mut self, spec: &ChildSpec) -> (child: ChildHandle)
        ensures
            child@ == (ChildView {
                pid: old(self)@.next_pid,
                generation: spec@.generation,
                data_port: spec@.data_port,
            }),
            final(self)@ == (FakeSpawnerView {
                next_pid: if old(self)@.next_pid == u32::MAX {
                    0
                } else {
                    (old(self)@.next_pid + 1) as u32
                },
                live: old(self)@.live.insert(old(self)@.next_pid),
            }),
            final(self)@ == spawned(old(self)@),
    {
        let pid: u32 = self.next_pid;
        self.next_pid = pid.wrapping_add(1);
        self.live.insert(pid);
        ChildHandle::started(pid, spec)
    }

    /// Stops a child.
    pub fn stop(&mut self, child: &ChildHandle)
        ensures
            final(self)@ == (FakeSpawnerView {
                live: old(self)@.live.remove(child@.pid),
                ..old(self)@
            }),
            final(self)@ == stopped(old(self)@, child@.pid),
    {
        self.live.remove(&child.pid);
    }

    /// Tells whether a child runs.
    pub fn is_alive(&self, child: &ChildHandle) -> (alive: bool)
        ensures
            alive == self@.live.contains(child@.pid),
    {
        self.live.contains(&child.pid)
    }
}

/// A child is started with eleven arguments: its command, and its endpoint, session, generation,
/// port and parent, each behind its own flag. The numbers read back from them.
pub proof fn law_child_arguments_name_the_child(spec: ChildSpecView)
    ensures
        ({
            let arguments = child_arguments(spec);
            &&& arguments.len() == 11
            &&& arguments[0] == "relay-child"@
            &&& arguments[1] == "--ipc"@ && arguments[2] == spec.ipc_path
            &&& arguments[3] == "--session"@ && arguments[4] == spec.session
            &&& arguments[5] == "--generation"@ && crate::material::decimal_value(arguments[6])
                == spec.generation
            &&& arguments[7] == "--data-port"@ && crate::material::decimal_value(arguments[8])
                == spec.data_port
            &&& arguments[9] == "--parent-pid"@ && crate::material::decimal_value(arguments[10])
                == spec.parent_pid
        }),
{
    crate::text::law_decimal_text_reads_back(spec.generation as nat);
    crate::text::law_decimal_text_reads_back(spec.data_port as nat);
    crate::text::law_decimal_text_reads_back(spec.parent_pid as nat);
}

/// An endpoint is used if and only if its path is absolute and plain, the directory that it stands in
/// is the owner's alone, and what stands there already is a socket of the owner alone.
pub proof fn law_endpoints_are_private(path: Seq<char>, facts: IpcFacts)
    ensures
        ipc_check(path, facts) is Ok <==> {
            &&& path.len() > 0 && path[0] == '/'
            &&& facts.has_parent
            &&& facts.components is Ok
            &&& (facts.parent matches Some(parent) && parent.0 && !parent.1 && parent.2 & 0o777
                == 0o700)
            &&& (facts.existing matches Some(existing) ==> !existing.0 && existing.1 && existing.2
                & 0o777 == 0o600)
        },
        path.len() > 0 && path[0] == '/' && facts.has_parent ==> (facts.components matches Err(
            error,
        ) ==> ipc_check(path, facts) == Err::<(), RelayError>(error)),
{
    if facts.parent is Some {
        let mode = facts.parent->Some_0.2;
        assert(mode & 0o077 == 0 && mode & 0o700 == 0o700 <==> mode & 0o777 == 0o700)
            by (bit_vector);
    }
}

/// A child is running after its endpoint was bound and protected, it was started and accepted, and
/// the exchange was done, in this order and no other.
pub proof fn law_children_start_in_order(step: SpawnStep, outcome: StageOutcome)
    ensures
        spawn_next(SpawnStep::Bind, StageOutcome::Done) == SpawnStep::Protect,
        spawn_next(SpawnStep::Protect, StageOutcome::Done) == SpawnStep::Start,
        spawn_next(SpawnStep::Start, StageOutcome::Done) == SpawnStep::Accept,
        spawn_next(SpawnStep::Accept, StageOutcome::Done) == SpawnStep::Exchange,
        spawn_next(SpawnStep::Exchange, StageOutcome::Done) == SpawnStep::Running,
        spawn_next(step, outcome) == SpawnStep::Running <==> step == SpawnStep::Running || (step
            == SpawnStep::Exchange && outcome == StageOutcome::Done),
        step is Fail || step is Running ==> spawn_next(step, outcome) == step,
{
}

/// The failure of a start is that of its stage: a refusal as it is, a timeout as one, and a failure
/// of the host under the name of the stage.
pub proof fn law_start_failures_name_their_stage(
    step: SpawnStep,
    outcome: StageOutcome,
    kind: IoKind,
)
    requires
        !(step is Running) && !(step is Fail),
    ensures
        outcome matches StageOutcome::Refused(error) ==> (spawn_next(step, outcome) matches
            SpawnStep::Fail { error: told, .. } && told == error),
        outcome == StageOutcome::TimedOut ==> (spawn_next(step, outcome) matches SpawnStep::Fail {
            error: told,
            ..
        } && told == (RelayError::ChildLifecycle {
            reason: if step == SpawnStep::Accept {
                "child bootstrap timed out"
            } else {
                "child bootstrap exchange timed out"
            },
        })),
        outcome == StageOutcome::Failed(kind) ==> (spawn_next(step, outcome) matches
            SpawnStep::Fail { error: told, .. } && (told matches RelayError::Io {
            operation,
            kind: cause,
        } && cause == kind && {
            &&& step == SpawnStep::Bind ==> operation == "binding child bootstrap IPC"
            &&& step == SpawnStep::Protect ==> operation == "protecting child bootstrap IPC"
            &&& step == SpawnStep::Start ==> operation == "starting relay child"
            &&& step == SpawnStep::Accept ==> operation == "accepting child bootstrap IPC"
            &&& step == SpawnStep::Exchange ==> operation == "sending child bootstrap"
        })),
{
}

/// A start begins if and only if the port of the child is a data port and its endpoint can be used;
/// nothing has to be undone where it does not.
pub proof fn law_starts_begin_where_they_can(spec: ChildSpecView, facts: IpcFacts)
    ensures
        spawn_checked(spec, facts) == SpawnStep::Bind <==> 18753 <= spec.data_port <= 18852
            && ipc_check(spec.ipc_path, facts) is Ok,
        spawn_checked(spec, facts) != SpawnStep::Bind ==> (spawn_checked(spec, facts) matches
            SpawnStep::Fail { error, kill, remove_endpoint } && !kill && !remove_endpoint),
{
}

/// The exchange is done if and only if the child acknowledged it with the five bytes of an
/// acknowledgement; any other bytes are refused.
pub proof fn law_exchanges_are_acknowledged(outcome: ExchangeOutcome)
    ensures
        exchanged(outcome) == StageOutcome::Done <==> (outcome matches
            ExchangeOutcome::Acknowledged(ack) && ack@ == seq![72u8, 68u8, 66u8, 65u8, 0u8]),
        outcome is TimedOut <==> exchanged(outcome) == StageOutcome::TimedOut,
        outcome matches ExchangeOutcome::SendFailed(kind) ==> exchanged(outcome)
            == StageOutcome::Failed(kind),
        outcome is ReadFailed || (outcome is Acknowledged && exchanged(outcome)
            != StageOutcome::Done) ==> exchanged(outcome) is Refused,
{
    assert(CHILD_ACK@ =~= seq![72u8, 68u8, 66u8, 65u8, 0u8]);
}

/// A child is checked, killed if it still runs, and waited for; each failure is named by its step.
pub proof fn law_children_are_stopped_in_order(step: StopStep, kind: IoKind, exited: bool)
    ensures
        stop_next(StopStep::Check, StopOutcome::Done { exited }) == (if exited {
            StopStep::Stopped
        } else {
            StopStep::Kill
        }),
        stop_next(StopStep::Kill, StopOutcome::Done { exited }) == StopStep::Wait,
        stop_next(StopStep::Wait, StopOutcome::Done { exited }) == StopStep::Stopped,
        step == StopStep::Check ==> stop_next(step, StopOutcome::Failed(kind)) == StopStep::Fail(
            RelayError::Io { operation: "checking relay child", kind },
        ),
        step == StopStep::Kill ==> stop_next(step, StopOutcome::Failed(kind)) == StopStep::Fail(
            RelayError::Io { operation: "stopping relay child", kind },
        ),
        step == StopStep::Wait ==> stop_next(step, StopOutcome::Failed(kind)) == StopStep::Fail(
            RelayError::Io { operation: "waiting for relay child", kind },
        ),
{
}

/// A bootstrap frame is the four letters of its protocol, the version one, the token, the
/// generation, the port, and the session behind its length.
pub proof fn law_bootstrap_frame_layout(frame: BootstrapView)
    requires
        crate::text::session_text(frame.session),
        frame.token.len() == 32,
    ensures
        ({
            let bytes = bootstrap_bytes(frame);
            let name = vstd::utf8::encode_utf8(frame.session);
            &&& bytes.len() == 49 + name.len()
            &&& bytes[0] == 72 && bytes[1] == 68 && bytes[2] == 66 && bytes[3] == 73
            &&& bytes[4] == 0 && bytes[5] == 1
            &&& bytes.subrange(6, 38) == frame.token
            &&& crate::bytes::be_value(bytes.subrange(38, 46)) == frame.generation
            &&& 256 * bytes[46] + bytes[47] == frame.data_port
            &&& bytes[48] == name.len() as u8
            &&& bytes.subrange(49, bytes.len() as int) == name
        }),
{
    let bytes = bootstrap_bytes(frame);
    let name = vstd::utf8::encode_utf8(frame.session);
    let generation = crate::bytes::be_bytes(frame.generation as nat, 8);
    let port = crate::bytes::be_bytes(frame.data_port as nat, 2);
    crate::bytes::lemma_be_bytes_len(CHILD_BOOTSTRAP_VERSION as nat, 2);
    crate::bytes::lemma_be_bytes_len(frame.generation as nat, 8);
    crate::bytes::lemma_be_bytes_len(frame.data_port as nat, 2);
    reveal_with_fuel(crate::bytes::radix_pow, 9);
    crate::bytes::lemma_be_value_of_bytes(frame.generation as nat, 8);
    reveal_with_fuel(crate::bytes::be_bytes, 3);
    assert(crate::bytes::be_bytes(1, 2) =~= seq![0u8, 1u8]);
    assert(CHILD_BOOTSTRAP_MAGIC@ =~= seq![72u8, 68u8, 66u8, 73u8]);
    assert(bytes.subrange(6, 38) =~= frame.token);
    assert(bytes.subrange(38, 46) =~= generation);
    assert(port[0] == bytes[46] && port[1] == bytes[47]);
    assert(bytes.subrange(49, bytes.len() as int) =~= name);
}

/// A bootstrap frame is accepted if and only if it is within its bounds, starts with the letters and
/// the version of its protocol, names a data port, holds exactly the session that it announces, and
/// that is a session name.
pub proof fn law_bootstrap_frames_are_checked(input: Seq<u8>)
    ensures
        bootstrap_failure(input) is None <==> {
            &&& 49 <= input.len() <= 113
            &&& input[0] == 72 && input[1] == 68 && input[2] == 66 && input[3] == 73
            &&& input[4] == 0 && input[5] == 1
            &&& 18753 <= 256 * input[46] + input[47] <= 18852
            &&& input.len() == 49 + input[48]
            &&& vstd::utf8::valid_utf8(input.subrange(49, input.len() as int))
            &&& (input.len() == 49 || crate::text::session_text(
                vstd::utf8::decode_utf8(input.subrange(49, input.len() as int)),
            ))
        },
        bootstrap_failure(input) is None ==> {
            let frame = bootstrap_frame(input);
            &&& frame.token == input.subrange(6, 38)
            &&& frame.data_port == 256 * input[46] + input[47]
            &&& frame.generation == crate::bytes::be_value(input.subrange(38, 46))
            &&& input.len() > 49 ==> frame.session == vstd::utf8::decode_utf8(
                input.subrange(49, input.len() as int),
            )
            &&& input.len() == 49 ==> frame.session == "default"@
        },
{
    if 49 <= input.len() <= 113 {
        reveal_with_fuel(crate::bytes::be_value, 3);
        reveal_with_fuel(crate::bytes::radix_pow, 9);
        let magic = input.subrange(0, 4);
        let version = input.subrange(4, 6);
        let port = input.subrange(46, 48);
        let session = input.subrange(49, input.len() as int);
        assert(CHILD_BOOTSTRAP_MAGIC@ =~= seq![72u8, 68u8, 66u8, 73u8]);
        if input[0] == 72 && input[1] == 68 && input[2] == 66 && input[3] == 73 {
            assert(magic =~= CHILD_BOOTSTRAP_MAGIC@);
        } else {
            assert(magic[0] == input[0] && magic[1] == input[1] && magic[2] == input[2] && magic[3]
                == input[3]);
        }
        assert(version.drop_last().last() == input[4]);
        assert(port.drop_last().last() == input[46]);
        crate::bytes::lemma_be_value_bound(input.subrange(38, 46));
        lemma_empty_session(session);
        reveal_strlit("default");
        let text = "default"@;
        assert forall|i: int| 0 <= i < text.len() implies crate::text::session_char(
            #[trigger] text[i],
        ) by {}
        assert(crate::text::session_text(text));
    }
}

/// A session without bytes is the empty text, and one with bytes is not.
proof fn lemma_empty_session(session: Seq<u8>)
    ensures
        vstd::utf8::valid_utf8(session) ==> (vstd::utf8::decode_utf8(session).len() == 0
            <==> session.len() == 0),
{
    if vstd::utf8::valid_utf8(session) {
        vstd::utf8::decode_utf8_encode_utf8(session);
        let text = vstd::utf8::decode_utf8(session);
        if text.len() == 0 {
            assert(text =~= Seq::<char>::empty());
            assert(vstd::utf8::encode_utf8(text) =~= Seq::<u8>::empty());
        }
        if session.len() == 0 && text.len() > 0 {
            assert(vstd::utf8::encode_utf8(text).len() > 0);
        }
    }
}

/// The rest of a frame is read if and only if its prefix is whole and what it announces is within the
/// bound; exactly that is read.
pub proof fn law_announced_frames_are_bounded(prefix: Seq<u8>)
    ensures
        prefix_failure(prefix) is None <==> prefix.len() == 49 && prefix[48] <= 64,
        prefix.len() != 49 ==> prefix_failure(prefix) == Some(
            RelayError::ChildLifecycle { reason: "child bootstrap prefix is invalid" },
        ),
        prefix.len() == 49 && prefix[48] > 64 ==> prefix_failure(prefix) == Some(
            RelayError::ChildLifecycle { reason: "child bootstrap exceeds its bound" },
        ),
{
}

/// A child serves if and only if it acknowledged a frame for exactly the session, the generation and
/// the port that it was started for. A frame for another is refused.
pub proof fn law_children_serve_what_they_were_started_for(
    step: ReceiveStep,
    outcome: ReceiveOutcome,
    session: Seq<char>,
    generation: u64,
    data_port: u16,
)
    ensures
        ({
            let next = receive_next(step, outcome, session, generation, data_port);
            &&& next is Serve <==> step is Serve || (step is Acknowledge && outcome is Done)
            &&& step is Fail ==> next == step
            &&& step is ReadSession ==> (outcome matches ReceiveOutcome::Done(frame) ==> {
                &&& next is Acknowledge <==> bootstrap_failure(frame@) is None && bootstrap_frame(
                    frame@,
                ).session == session && bootstrap_frame(frame@).generation == generation
                    && bootstrap_frame(frame@).data_port == data_port
                &&& bootstrap_failure(frame@) matches Some(error) ==> next == ReceiveStep::Fail(
                    error,
                )
                &&& !(next is Acknowledge) ==> next is Fail
            })
            &&& step is ReadPrefix ==> (outcome matches ReceiveOutcome::Done(prefix) ==> {
                &&& next is ReadSession <==> prefix_failure(prefix@) is None
                &&& next matches ReceiveStep::ReadSession { total } ==> total == 49 + prefix@[48]
            })
            &&& !(step is Serve) && !(step is Fail) && !(outcome is Done) ==> next is Fail
            &&& !(step is Serve) && !(step is Fail) ==> (outcome matches ReceiveOutcome::Failed(kind)
                ==> (next matches ReceiveStep::Fail(error) && (error matches RelayError::Io {
                operation,
                kind: cause,
            } && cause == kind)))
        }),
{
}

/// Starting a child adds its process to those that live, and stopping one takes that one away.
pub proof fn law_processes_live_until_they_are_stopped(
    before: FakeSpawnerView,
    pid: u32,
    other: u32,
)
    ensures
        spawned(before).live.contains(other) <==> before.live.contains(other) || other
            == before.next_pid,
        before.next_pid < u32::MAX ==> spawned(before).next_pid == before.next_pid + 1,
        spawned(before).next_pid != before.next_pid,
        stopped(before, pid).live.contains(other) <==> before.live.contains(other) && other != pid,
        stopped(before, pid).next_pid == before.next_pid,
{
}

} // verus!
