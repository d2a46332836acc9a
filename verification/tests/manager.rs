use herdogrelay::error::{IoKind, RelayError, RelayResult};
use herdogrelay::manager::child::{
    bootstrap_total, child_connect_failure, exchange_child_bootstrap, receive_child_bootstrap,
    run_relay_child, validate_ipc_path, ExchangeOutcome, IpcFacts, ReceiveOutcome, ReceiveStep,
    SpawnStep, StageOutcome, StopOutcome, StopStep,
};
use herdogrelay::manager::config::{xml_escape, HostPaths};
use herdogrelay::manager::files::{atomic_write, replaced, ReplaceStep};
use herdogrelay::manager::generated::{session_relay_config, write_session_relay_config};
use herdogrelay::manager::lifecycle::{EnsureStep, LeaseStep, StartOutcome, StartStep};
use herdogrelay::manager::names::{
    decode_fingerprint, encode_fingerprint, FileFacts, FingerprintStep,
};
use herdogrelay::manager::ports::validate_data_port;
use herdogrelay::manager::resolver::{
    check_lock_file, check_private_directory, herdr_app_dir, map_missing_socket,
    validate_existing_path_components, ComponentFacts, DirectoryFacts,
};
use herdogrelay::manager::state::{advance_generation, epoch_from};
use herdogrelay::manager::{
    epoch_seconds, ChildBootstrap, ChildSpec, DataPortAllocator, FakeChildSpawner,
    FingerprintStore, HerdrSessionResolver, LeaseGrant, LeaseToken, Manager, ManagerConfig,
    ManagerSettings, PersistedManagerState, ProcessChildSpawner, ResolvedSession,
    SessionFingerprint, SessionName, UnixSocketIdentity, BROKER_DATA_PORT_BASE,
    BROKER_DATA_PORT_LAST, LAUNCH_AGENT_LABEL, SESSION_FINGERPRINT_FILE,
};

const UID: u32 = 501;

fn host() -> HostPaths<'static> {
    HostPaths {
        config_parent: None,
        home: Some("/home/me"),
        xdg_config_home: None,
        current_exe: Some("/opt/herdogrelay"),
    }
}

fn settings() -> ManagerSettings {
    let mut settings = ManagerSettings::default();
    settings.manager_root = "/tmp/root/manager".to_owned();
    settings.herdr_config_root = "/tmp/root/config".to_owned();
    settings.child_binary = "/bin/true".to_owned();
    settings
}

fn config() -> ManagerConfig {
    ManagerConfig::from_wire(settings(), &host()).expect("configuration")
}

fn manager() -> Manager {
    Manager::with_spawner(config(), UID, PersistedManagerState::default()).expect("manager")
}

fn identity(inode: u64) -> UnixSocketIdentity {
    UnixSocketIdentity { device: 1, inode, owner_uid: UID }
}

fn resolved(manager: &Manager, session: &str, inode: u64) -> ResolvedSession {
    let name = SessionName::normalize(session).expect("session");
    let directory = DirectoryFacts { is_dir: true, uid: UID, mode: 0o700 };
    let found = manager.resolver().resolve(
        &name,
        herdr_app_dir(false),
        Ok(()),
        Some(directory),
        Ok(identity(inode)),
    );
    found.expect("resolved")
}

fn ensure(
    manager: &mut Manager,
    children: &mut FakeChildSpawner,
    session: &str,
    fingerprint: u8,
    token: u8,
    now: u64,
) -> RelayResult<LeaseGrant> {
    let found = resolved(manager, session, 7);
    let step = manager.ensure(
        found,
        SessionFingerprint::from_bytes([fingerprint; 32]),
        LeaseToken::from_bytes([token; 32]),
        now,
    );
    match step {
        EnsureStep::Granted(grant) => Ok(grant),
        EnsureStep::Fail(error) => Err(error),
        EnsureStep::Start { .. } => {
            let spec = manager.child_spec(42).expect("child of the start");
            let child = children.spawn(&spec);
            match manager.start_ended(StartOutcome::Started(child)) {
                StartStep::Save(grant) => match manager.start_saved(grant, Ok(())) {
                    LeaseStep::Leased(grant) => Ok(grant),
                    LeaseStep::RollBack { error, .. } => Err(error),
                },
                StartStep::Fail { error, .. } => Err(error),
            }
        }
    }
}

fn reap(manager: &mut Manager, children: &mut FakeChildSpawner, now: u64) -> Vec<SessionName> {
    let plan = manager.reap(now);
    let mut stopped = Vec::new();
    for session in plan.idle_sessions {
        let child = manager.take_session(&session).expect("child of an idle session");
        children.stop(&child);
        stopped.push(session);
    }
    manager.reap_finished(plan.expired_leases, stopped).stopped_sessions
}

fn bootstrap_test_spec() -> ChildSpec {
    ChildSpec::new(
        SessionName::normalize("work").expect("session"),
        7,
        BROKER_DATA_PORT_BASE,
        "/tmp/child.sock".to_owned(),
        42,
        LeaseToken::from_bytes([9; 32]),
    )
}

fn private_ipc() -> IpcFacts {
    IpcFacts {
        has_parent: true,
        components: Ok(()),
        parent: Some((true, false, 0o40700)),
        existing: None,
    }
}

fn refused(change: fn(&mut ManagerSettings), expected: &str) {
    let mut changed = settings();
    change(&mut changed);
    match ManagerConfig::from_wire(changed, &host()) {
        Err(RelayError::InvalidConfiguration { field, .. }) => assert_eq!(field, expected),
        _ => panic!("{expected} is fixed"),
    }
}

fn reason(frame: &[u8]) -> &'static str {
    match ChildBootstrap::decode(frame) {
        Err(RelayError::ChildLifecycle { reason }) => reason,
        Err(RelayError::InvalidConfiguration { field, .. }) => field,
        _ => panic!("the frame is refused"),
    }
}

#[test]
fn session_normalization_is_source_aligned() {
    assert_eq!(SessionName::normalize("").expect("default").as_str(), "default");
    assert!(SessionName::normalize("work_1").is_ok());
    assert!(SessionName::normalize("../work").is_err());
    assert!(SessionName::normalize("中文").is_err());
    assert!(SessionName::normalize(".").is_err());
}

#[test]
fn session_names_are_bounded_and_idempotent() {
    let longest = "a".repeat(64);
    let name = SessionName::normalize(&longest).expect("longest name");
    assert_eq!(SessionName::normalize(name.as_str()).expect("again"), name);
    assert!(matches!(
        SessionName::normalize(&"a".repeat(65)),
        Err(RelayError::InvalidConfiguration { field: "session", .. })
    ));
    assert!(SessionName::normalize("..").is_err());
    assert!(SessionName::normalize("").expect("default").is_default());
    assert!(!name.is_default());
    assert!(name.same(&name.clone()));
}

#[test]
fn default_manager_template_is_valid() {
    let config =
        ManagerConfig::from_wire(ManagerSettings::default(), &host()).expect("default settings");
    assert_eq!(config.data_port_range(), (BROKER_DATA_PORT_BASE, BROKER_DATA_PORT_LAST));
    assert_eq!(config.heartbeat_interval(), 30);
    assert_eq!(config.lease_expiry(), 90);
    assert_eq!(config.idle_grace(), 300);
    assert_eq!(config.manager_root(), "/home/me/.config/herdr-dog/manager");
    assert_eq!(config.child_binary(), "/opt/herdogrelay");
    assert_eq!(config.preferred_broker_port(), 18743);
}

#[test]
fn automatic_paths_need_a_host() {
    let nothing =
        HostPaths { config_parent: None, home: None, xdg_config_home: None, current_exe: None };
    assert!(matches!(
        ManagerConfig::from_wire(ManagerSettings::default(), &nothing),
        Err(RelayError::InvalidConfiguration { field: "manager_root", .. })
    ));
    let mut relative = settings();
    relative.child_binary = "herdogrelay".to_owned();
    assert!(matches!(
        ManagerConfig::from_wire(relative, &nothing),
        Err(RelayError::InvalidConfiguration { field: "child_binary", .. })
    ));
}

#[test]
fn manager_configuration_rejects_widened_ranges() {
    let mut wide = settings();
    wide.data_port_end += 1;
    assert!(ManagerConfig::from_wire(wide, &host()).is_err());
}

#[test]
fn every_fixed_policy_is_enforced() {
    refused(|s| s.preferred_broker_port = 18742, "preferred_broker_port");
    refused(|s| s.preferred_broker_port = 18753, "preferred_broker_port");
    refused(|s| s.broker_port_attempts = 11, "broker_port_attempts");
    refused(|s| s.data_port_start = 18754, "data_port_start");
    refused(|s| s.data_port_end = 18853, "data_port_end");
    refused(|s| s.heartbeat_interval_secs = 31, "heartbeat_interval_secs");
    refused(|s| s.lease_expiry_secs = 91, "lease_expiry_secs");
    refused(|s| s.idle_grace_secs = 301, "idle_grace_secs");
    assert!(config().validate().is_ok());
}

#[test]
fn fingerprint_is_private_and_redacted() {
    let store = FingerprintStore::new(UID);
    let drawn = match store.load_or_create(false) {
        FingerprintStep::Create(fingerprint) => fingerprint,
        _ => panic!("a new fingerprint is drawn"),
    };
    assert!(matches!(store.created(drawn, Ok(())), FingerprintStep::Done(kept) if kept == drawn));
    assert!(matches!(store.load_or_create(true), FingerprintStep::Read));
    let facts = FileFacts { is_file: true, uid: UID, mode: 0o100600 };
    let text = encode_fingerprint(drawn);
    assert!(matches!(
        store.read(Ok(facts), Ok(text.clone().into_bytes())),
        FingerprintStep::Done(kept) if kept == drawn
    ));
    for unsafe_facts in [
        FileFacts { mode: 0o100644, ..facts },
        FileFacts { uid: UID + 1, ..facts },
        FileFacts { is_file: false, ..facts },
    ] {
        assert!(matches!(
            store.read(Ok(unsafe_facts), Ok(text.clone().into_bytes())),
            FingerprintStep::Fail(RelayError::InvalidFingerprint)
        ));
    }
    assert!(matches!(
        store.created(drawn, Err(IoKind::AlreadyExists)),
        FingerprintStep::Read
    ));
    assert!(matches!(
        store.created(drawn, Err(IoKind::PermissionDenied)),
        FingerprintStep::Fail(RelayError::Io { .. })
    ));
    assert!(matches!(
        store.read(Err(IoKind::NotFound), Err(IoKind::NotFound)),
        FingerprintStep::Fail(RelayError::Io { operation: "reading session fingerprint", .. })
    ));
}

#[test]
fn fingerprints_round_trip_through_text() {
    let fingerprint = SessionFingerprint::from_bytes([0xa7; 32]);
    let text = encode_fingerprint(fingerprint);
    assert_eq!(text, "a7".repeat(32));
    assert!(decode_fingerprint(text.as_bytes()).expect("decode") == fingerprint);
    assert!(decode_fingerprint(text.to_uppercase().as_bytes()).expect("upper") == fingerprint);
    assert!(matches!(
        decode_fingerprint(&text.as_bytes()[1..]),
        Err(RelayError::InvalidFingerprint)
    ));
    assert!(matches!(
        decode_fingerprint("g".repeat(64).as_bytes()),
        Err(RelayError::InvalidFingerprint)
    ));
}

#[test]
fn drawn_identifiers_differ() {
    assert!(SessionFingerprint::generate() != SessionFingerprint::generate());
    assert!(LeaseToken::generate() != LeaseToken::generate());
}

#[test]
fn ensure_shares_child_and_port_across_leases() {
    let mut manager = manager();
    let mut children = FakeChildSpawner::new();
    let first = ensure(&mut manager, &mut children, "", 1, 1, 100).expect("first ensure");
    let second = ensure(&mut manager, &mut children, "default", 1, 2, 110).expect("second ensure");
    assert_eq!(first.data_port(), second.data_port());
    assert!(first.token() != second.token());
    assert_eq!(children.live_count(), 1);
    assert_eq!(manager.status()[0].active_leases, 2);
    manager.release(first.token(), 120).expect("release first");
    assert_eq!(manager.status()[0].active_leases, 1);
    manager.release(second.token(), 130).expect("release second");
    assert!(reap(&mut manager, &mut children, 429).is_empty());
    assert_eq!(
        reap(&mut manager, &mut children, 430),
        vec![SessionName::normalize("default").expect("name")]
    );
    assert_eq!(children.live_count(), 0);
}

#[test]
fn ensure_rejects_changed_fingerprint() {
    let mut manager = manager();
    let mut children = FakeChildSpawner::new();
    ensure(&mut manager, &mut children, "default", 1, 1, 100).expect("initial ensure");
    assert!(matches!(
        ensure(&mut manager, &mut children, "default", 0x11, 2, 110),
        Err(RelayError::Manager { .. })
    ));
}

#[test]
fn ensure_rejects_changed_socket_identity() {
    let mut manager = manager();
    let mut children = FakeChildSpawner::new();
    ensure(&mut manager, &mut children, "default", 1, 1, 100).expect("initial ensure");
    let moved = resolved(&manager, "default", 8);
    assert!(matches!(
        manager.ensure(
            moved,
            SessionFingerprint::from_bytes([1; 32]),
            LeaseToken::from_bytes([2; 32]),
            110
        ),
        EnsureStep::Fail(RelayError::SocketIdentity { .. })
    ));
}

#[test]
fn ensure_rejects_unreachable_socket() {
    let manager = manager();
    let name = SessionName::normalize("default").expect("session");
    let directory = DirectoryFacts { is_dir: true, uid: UID, mode: 0o700 };
    let missing = RelayError::Io { operation: "checking Herdr socket path", kind: IoKind::NotFound };
    assert!(matches!(
        manager.resolver().resolve(&name, "herdr", Ok(()), Some(directory), Err(missing)),
        Err(RelayError::UpstreamUnavailable)
    ));
    assert!(matches!(
        manager.resolver().resolve(&name, "herdr", Ok(()), None, Ok(identity(7))),
        Err(RelayError::UpstreamUnavailable)
    ));
    let foreign = DirectoryFacts { uid: UID + 1, ..directory };
    assert!(matches!(
        manager.resolver().resolve(&name, "herdr", Ok(()), Some(foreign), Ok(identity(7))),
        Err(RelayError::SocketIdentity { .. })
    ));
    assert!(matches!(
        manager.resolver().resolve(
            &name,
            "herdr",
            Err(RelayError::ConfigurationRead),
            Some(directory),
            Ok(identity(7))
        ),
        Err(RelayError::ConfigurationRead)
    ));
}

#[test]
fn ensure_spawn_failure_rolls_back_port_and_config() {
    let mut manager = manager();
    let found = resolved(&manager, "default", 7);
    let step = manager.ensure(
        found,
        SessionFingerprint::from_bytes([1; 32]),
        LeaseToken::from_bytes([1; 32]),
        100,
    );
    assert!(matches!(step, EnsureStep::Start { data_port: BROKER_DATA_PORT_BASE, .. }));
    assert!(manager.is_starting());
    let failure = RelayError::ChildLifecycle { reason: "injected child failure" };
    match manager.start_ended(StartOutcome::NotStarted(failure)) {
        StartStep::Fail { error, remove_config } => {
            assert_eq!(error, failure);
            assert!(remove_config);
        }
        StartStep::Save(_) => panic!("a failed start is not saved"),
    }
    assert!(!manager.is_starting());
    assert!(manager.status().is_empty());
    assert_eq!(manager.summary().reserved_port_count, 0);
    let mut children = FakeChildSpawner::new();
    let grant = ensure(&mut manager, &mut children, "default", 1, 2, 100).expect("ensure again");
    assert_eq!(grant.data_port(), BROKER_DATA_PORT_BASE);
}

fn begin(manager: &mut Manager) {
    let found = resolved(manager, "default", 7);
    let fingerprint = SessionFingerprint::from_bytes([1; 32]);
    let step = manager.ensure(found, fingerprint, LeaseToken::from_bytes([1; 32]), 100);
    assert!(matches!(step, EnsureStep::Start { .. }));
}

#[test]
fn unprepared_start_keeps_the_old_configuration() {
    let mut manager = manager();
    begin(&mut manager);
    let failure = RelayError::Manager { reason: "manager state could not be encoded" };
    assert!(matches!(
        manager.start_ended(StartOutcome::NotPrepared(failure)),
        StartStep::Fail { error, remove_config: false } if error == failure
    ));
    assert_eq!(manager.summary().reserved_port_count, 0);
    begin(&mut manager);
    manager.cancel_start();
    assert!(!manager.is_starting());
}

#[test]
fn unsaved_start_is_rolled_back() {
    let mut manager = manager();
    let mut children = FakeChildSpawner::new();
    begin(&mut manager);
    let child = children.spawn(&manager.child_spec(42).expect("child of the start"));
    let grant = match manager.start_ended(StartOutcome::Started(child)) {
        StartStep::Save(grant) => grant,
        StartStep::Fail { .. } => panic!("a running child is kept"),
    };
    assert_eq!(manager.status().len(), 1);
    let failure = RelayError::Io { operation: "writing atomic Manager file", kind: IoKind::Other };
    match manager.start_saved(grant, Err(failure)) {
        LeaseStep::RollBack { error, child: Some(stopped) } => {
            assert_eq!(error, failure);
            assert_eq!(stopped.pid(), child.pid());
        }
        _ => panic!("the session is removed"),
    }
    assert!(manager.status().is_empty());
    assert_eq!(manager.summary().reserved_port_count, 0);
}

#[test]
fn child_generations_grow() {
    let mut manager = manager();
    let mut children = FakeChildSpawner::new();
    let first = ensure(&mut manager, &mut children, "default", 1, 1, 100).expect("first");
    let shared = ensure(&mut manager, &mut children, "default", 1, 2, 101).expect("shared");
    assert_eq!(first.child_generation(), shared.child_generation());
    manager.release(first.token(), 110).expect("release");
    manager.release(shared.token(), 110).expect("release");
    assert_eq!(reap(&mut manager, &mut children, 410).len(), 1);
    let again = ensure(&mut manager, &mut children, "default", 1, 3, 420).expect("again");
    assert!(again.child_generation() > first.child_generation());
}

#[test]
fn sessions_of_other_owners_are_refused() {
    let manager = manager();
    let name = SessionName::normalize("default").expect("session");
    let foreign = DirectoryFacts { is_dir: true, uid: UID + 1, mode: 0o700 };
    assert_eq!(
        manager.resolver().directory(&name, herdr_app_dir(false)),
        "/tmp/root/config/herdr"
    );
    assert!(matches!(
        manager.resolver().resolve(
            &name,
            herdr_app_dir(false),
            Ok(()),
            Some(foreign),
            Ok(identity(7))
        ),
        Err(RelayError::SocketIdentity { .. })
    ));
}

#[test]
fn expired_lease_cannot_heartbeat() {
    let mut manager = manager();
    let mut children = FakeChildSpawner::new();
    let grant = ensure(&mut manager, &mut children, "default", 1, 1, 100).expect("ensure");
    assert!(matches!(
        manager.heartbeat(grant.token(), 190),
        Err(RelayError::InvalidLease)
    ));
}

#[test]
fn heartbeat_extends_a_lease() {
    let mut manager = manager();
    let mut children = FakeChildSpawner::new();
    let grant = ensure(&mut manager, &mut children, "default", 1, 1, 100).expect("ensure");
    assert_eq!(grant.expires_at(), 190);
    let renewed = manager.heartbeat(grant.token(), 189).expect("renewed");
    assert_eq!(renewed.expires_at(), 279);
    assert!(manager.lease_is_active(grant.token(), 278));
    assert!(!manager.lease_is_active(grant.token(), 279));
    manager.release(grant.token(), 200).expect("released");
    assert!(!manager.lease_is_active(grant.token(), 201));
    assert!(matches!(manager.release(grant.token(), 202), Err(RelayError::InvalidLease)));
    assert!(matches!(
        manager.heartbeat(LeaseToken::from_bytes([8; 32]), 200),
        Err(RelayError::InvalidLease)
    ));
}

#[test]
fn bound_stream_needs_the_lease_of_its_session() {
    let mut manager = manager();
    let mut children = FakeChildSpawner::new();
    let grant = ensure(&mut manager, &mut children, "default", 1, 1, 100).expect("ensure");
    let name = SessionName::normalize("default").expect("session");
    let socket = manager.open_bound_stream(grant.token(), &name, 101).expect("socket");
    assert_eq!(socket.path, "/tmp/root/config/herdr/herdr.sock");
    assert_eq!(socket.identity, identity(7));
    let other = SessionName::normalize("work").expect("session");
    assert!(manager.open_bound_stream(grant.token(), &other, 101).is_err());
    assert!(manager.open_bound_stream(grant.token(), &name, 190).is_err());
}

#[test]
fn reap_drops_expired_leases() {
    let mut manager = manager();
    let mut children = FakeChildSpawner::new();
    ensure(&mut manager, &mut children, "default", 1, 1, 100).expect("first");
    ensure(&mut manager, &mut children, "default", 1, 2, 150).expect("second");
    let plan = manager.reap(190);
    assert_eq!(plan.expired_leases, 1);
    assert!(plan.idle_sessions.is_empty());
    assert_eq!(manager.status()[0].active_leases, 1);
    assert_eq!(manager.reap(240).expired_leases, 1);
    assert_eq!(manager.status()[0].idle_since, Some(240));
}

#[test]
fn multiple_sessions_have_independent_slots() {
    let mut manager = manager();
    let mut children = FakeChildSpawner::new();
    let default_grant =
        ensure(&mut manager, &mut children, "default", 1, 1, 100).expect("default ensure");
    let work_grant = ensure(&mut manager, &mut children, "work", 2, 2, 100).expect("work ensure");
    assert_ne!(default_grant.data_port(), work_grant.data_port());
    assert_eq!(manager.status().len(), 2);
    manager.release(default_grant.token(), 130).expect("release default");
    manager.release(work_grant.token(), 130).expect("release work");
    assert_eq!(reap(&mut manager, &mut children, 430).len(), 2);
    assert_eq!(children.live_count(), 0);
}

#[test]
fn reopened_manager_has_a_new_generation() {
    let first = manager();
    assert!(first.unsaved());
    let second = Manager::with_spawner(config(), UID, first.persistent_state()).expect("reopened");
    assert!(second.broker_generation() > first.broker_generation());
    let spoiled = PersistedManagerState {
        broker_generation: 1,
        next_child_generation: 0,
        preferred_broker_port: 18743,
    };
    assert!(matches!(spoiled.accept(), Err(RelayError::Manager { .. })));
    assert_eq!(advance_generation(1), 2);
    assert_ne!(advance_generation(u64::MAX), u64::MAX);
}

#[test]
fn data_port_allocator_fails_closed_at_capacity() {
    let mut allocator =
        DataPortAllocator::new(BROKER_DATA_PORT_BASE, BROKER_DATA_PORT_LAST).expect("allocator");
    for _ in 0..100 {
        allocator.reserve().expect("reserve data port");
    }
    assert!(matches!(allocator.reserve(), Err(RelayError::PortRangeExhausted)));
    allocator.release(BROKER_DATA_PORT_BASE);
    assert_eq!(allocator.reserve().expect("reuse released port"), BROKER_DATA_PORT_BASE);
}

#[test]
fn data_ports_are_reserved_in_order() {
    let mut allocator =
        DataPortAllocator::new(BROKER_DATA_PORT_BASE, BROKER_DATA_PORT_LAST).expect("allocator");
    assert_eq!(allocator.reserve().expect("first"), 18753);
    assert_eq!(allocator.reserve().expect("second"), 18754);
    assert_eq!(allocator.reserve().expect("third"), 18755);
    allocator.release(18754);
    assert!(!allocator.contains(18754));
    assert_eq!(allocator.reserve().expect("released"), 18754);
    assert_eq!(allocator.len(), 3);
    assert!(DataPortAllocator::new(18753, 18851).is_err());
    assert!(validate_data_port(18752).is_err());
    assert!(validate_data_port(18852).is_ok());
    assert!(validate_data_port(18853).is_err());
}

#[test]
fn state_excludes_tokens_and_fingerprints() {
    let mut manager = manager();
    let mut children = FakeChildSpawner::new();
    ensure(&mut manager, &mut children, "default", 0xab, 0xcd, 100).expect("ensure");
    let state = format!("{:?}", manager.persistent_state());
    assert!(!state.contains("205"));
    assert!(!state.contains("171"));
    assert!(!state.contains(SESSION_FINGERPRINT_FILE));
    assert!(manager.unsaved());
    manager.saved();
    assert!(!manager.unsaved());
}

#[test]
fn launch_agent_contains_no_runtime_secret() {
    let manager = manager();
    let plist = manager.launch_agent_plist("/tmp/root/manager.toml").expect("render plist");
    assert!(plist.contains(LAUNCH_AGENT_LABEL));
    assert!(!plist.contains("lease"));
    assert!(!plist.contains("fingerprint"));
}

#[test]
fn launch_agent_escapes_its_paths() {
    let plist = config().launch_agent_plist("/tmp/<a>&\"b\"'c'").expect("render plist");
    assert!(plist.contains("/tmp/&lt;a&gt;&amp;&quot;b&quot;&apos;c&apos;"));
    assert!(plist.contains("/bin/true"));
    assert!(config().launch_agent_plist("manager.toml").is_err());
    assert_eq!(xml_escape("a<b").expect("escaped"), "a&lt;b");
    assert!(matches!(
        xml_escape("a\nb"),
        Err(RelayError::InvalidConfiguration { field: "manager_launch_agent_path", .. })
    ));
}

#[test]
fn child_bootstrap_round_trip_redacts_token() {
    let spec = bootstrap_test_spec();
    let frame = ChildBootstrap::encode(&spec).expect("encode");
    let decoded = ChildBootstrap::decode(&frame).expect("decode");
    assert_eq!(decoded.session(), spec.session());
    assert_eq!(decoded.generation(), spec.generation());
    assert_eq!(decoded.data_port(), spec.data_port());
    assert!(decoded.token() == LeaseToken::from_bytes([9; 32]));
    assert!(!format!("{:?}", decoded.summary()).contains("9"));
}

#[test]
fn child_bootstrap_faults_are_told_apart() {
    let frame = ChildBootstrap::encode(&bootstrap_test_spec()).expect("encode");
    assert_eq!(&frame[..6], b"HDBI\x00\x01");
    let mut magic = frame.clone();
    magic[0] = 0;
    assert_eq!(reason(&magic), "child bootstrap frame is invalid");
    let mut version = frame.clone();
    version[5] = 2;
    assert_eq!(reason(&version), "child bootstrap frame is invalid");
    let mut port = frame.clone();
    port[46] = 0;
    assert_eq!(reason(&port), "data_port");
    let mut length = frame.clone();
    length[48] = 3;
    assert_eq!(reason(&length), "child bootstrap session length is invalid");
    let mut text = frame.clone();
    text[49] = 0xff;
    assert_eq!(reason(&text), "child bootstrap session is not UTF-8");
    let mut name = frame.clone();
    name[49] = b'/';
    assert_eq!(reason(&name), "session");
    assert_eq!(reason(&frame[..20]), "child bootstrap frame is invalid");
    let mut prefix = [0_u8; 49];
    prefix.copy_from_slice(&frame[..49]);
    assert_eq!(bootstrap_total(&prefix).expect("total"), frame.len());
    prefix[48] = 65;
    assert!(bootstrap_total(&prefix).is_err());
}

fn receive(step: ReceiveStep, outcome: ReceiveOutcome) -> ReceiveStep {
    let work = SessionName::normalize("work").expect("session");
    receive_child_bootstrap(step, &outcome, &work, 7, BROKER_DATA_PORT_BASE)
}

#[test]
fn child_accepts_only_its_own_authority() {
    let frame = ChildBootstrap::encode(&bootstrap_test_spec()).expect("encode");
    let read = ReceiveStep::ReadSession { total: frame.len() };
    assert_eq!(
        receive(ReceiveStep::ReadPrefix, ReceiveOutcome::Done(frame[..49].to_vec())),
        read
    );
    assert_eq!(
        receive(read, ReceiveOutcome::Done(frame.clone())),
        ReceiveStep::Acknowledge
    );
    assert_eq!(
        receive(ReceiveStep::Acknowledge, ReceiveOutcome::Done(frame.clone())),
        ReceiveStep::Serve
    );
    let work = SessionName::normalize("work").expect("session");
    let other = SessionName::normalize("other").expect("session");
    let whole = ReceiveOutcome::Done(frame.clone());
    for refused in [
        receive_child_bootstrap(read, &whole, &other, 7, BROKER_DATA_PORT_BASE),
        receive_child_bootstrap(read, &whole, &work, 8, BROKER_DATA_PORT_BASE),
        receive_child_bootstrap(read, &whole, &work, 7, BROKER_DATA_PORT_BASE + 1),
    ] {
        assert_eq!(
            refused,
            ReceiveStep::Fail(RelayError::ChildLifecycle {
                reason: "child bootstrap authority does not match command"
            })
        );
    }
    assert_eq!(
        receive(read, ReceiveOutcome::Done(frame[..48].to_vec())),
        ReceiveStep::Fail(RelayError::ChildLifecycle {
            reason: "child bootstrap frame is invalid"
        })
    );
}

#[test]
fn child_bootstrap_read_timeout_is_bounded() {
    for step in [
        ReceiveStep::ReadPrefix,
        ReceiveStep::ReadSession { total: 53 },
        ReceiveStep::Acknowledge,
    ] {
        assert_eq!(
            receive(step, ReceiveOutcome::TimedOut),
            ReceiveStep::Fail(RelayError::ChildLifecycle {
                reason: "child bootstrap exchange timed out"
            })
        );
    }
    assert_eq!(receive(ReceiveStep::Serve, ReceiveOutcome::TimedOut), ReceiveStep::Serve);
}

#[test]
fn child_bootstrap_failures_name_their_step() {
    for (step, operation) in [
        (ReceiveStep::ReadPrefix, "reading child bootstrap"),
        (ReceiveStep::ReadSession { total: 53 }, "reading child bootstrap session"),
        (ReceiveStep::Acknowledge, "acknowledging child bootstrap"),
    ] {
        assert_eq!(
            receive(step, ReceiveOutcome::Failed(IoKind::Other)),
            ReceiveStep::Fail(RelayError::Io { operation, kind: IoKind::Other })
        );
    }
    assert_eq!(
        receive(ReceiveStep::ReadPrefix, ReceiveOutcome::Done(vec![0; 48])),
        ReceiveStep::Fail(RelayError::ChildLifecycle {
            reason: "child bootstrap prefix is invalid"
        })
    );
    let mut prefix = vec![0_u8; 49];
    prefix[48] = 65;
    assert_eq!(
        receive(ReceiveStep::ReadPrefix, ReceiveOutcome::Done(prefix)),
        ReceiveStep::Fail(RelayError::ChildLifecycle {
            reason: "child bootstrap exceeds its bound"
        })
    );
}

#[test]
fn child_start_is_checked_before_it_connects() {
    let started = run_relay_child("work", 18753, "/run/child.sock", &private_ipc());
    assert_eq!(started.expect("session").as_str(), "work");
    assert!(matches!(
        run_relay_child("a/b", 1, "/run/child.sock", &private_ipc()),
        Err(RelayError::InvalidConfiguration { field: "session", .. })
    ));
    assert!(matches!(
        run_relay_child("work", 1, "child.sock", &private_ipc()),
        Err(RelayError::InvalidConfiguration { field: "data_port", .. })
    ));
    assert!(matches!(
        run_relay_child("work", 18753, "child.sock", &private_ipc()),
        Err(RelayError::InvalidConfiguration { field: "child_ipc", .. })
    ));
    assert!(matches!(child_connect_failure(None), RelayError::ChildLifecycle { .. }));
    assert!(matches!(
        child_connect_failure(Some(IoKind::NotFound)),
        RelayError::Io { operation: "connecting child bootstrap IPC", kind: IoKind::NotFound }
    ));
}

#[test]
fn child_arguments_hold_no_token() {
    assert_eq!(
        bootstrap_test_spec().arguments().join(" "),
        "relay-child --ipc /tmp/child.sock --session work --generation 7 --data-port 18753 \
         --parent-pid 42"
    );
}

#[test]
fn child_bootstrap_exchange_timeout_is_bounded() {
    let spawner = ProcessChildSpawner::new("/bin/true".to_owned()).expect("spawner");
    let outcome = exchange_child_bootstrap(&ExchangeOutcome::TimedOut);
    assert_eq!(
        spawner.spawn(SpawnStep::Exchange, outcome),
        SpawnStep::Fail {
            error: RelayError::ChildLifecycle { reason: "child bootstrap exchange timed out" },
            kill: true,
            remove_endpoint: true,
        }
    );
    assert_eq!(
        spawner.spawn(SpawnStep::Accept, StageOutcome::TimedOut),
        SpawnStep::Fail {
            error: RelayError::ChildLifecycle { reason: "child bootstrap timed out" },
            kill: true,
            remove_endpoint: true,
        }
    );
}

#[test]
fn child_bootstrap_ack_mismatch_is_terminal() {
    let spawner = ProcessChildSpawner::new("/bin/true".to_owned()).expect("spawner");
    let outcome = exchange_child_bootstrap(&ExchangeOutcome::Acknowledged(*b"BAD!!"));
    let step = spawner.spawn(SpawnStep::Exchange, outcome);
    let failure = SpawnStep::Fail {
        error: RelayError::ChildLifecycle { reason: "child bootstrap acknowledgement is invalid" },
        kill: true,
        remove_endpoint: true,
    };
    assert_eq!(step, failure);
    assert_eq!(spawner.spawn(step, StageOutcome::Done), failure);
}

#[test]
fn child_start_goes_through_every_stage() {
    assert!(ProcessChildSpawner::new("true".to_owned()).is_err());
    let spawner = ProcessChildSpawner::new("/bin/true".to_owned()).expect("spawner");
    assert_eq!(spawner.binary(), "/bin/true");
    let mut step = spawner.check(&bootstrap_test_spec(), &private_ipc());
    let mut stages = vec![step];
    while step != SpawnStep::Running {
        let outcome = if step == SpawnStep::Exchange {
            exchange_child_bootstrap(&ExchangeOutcome::Acknowledged(*b"HDBA\0"))
        } else {
            StageOutcome::Done
        };
        step = spawner.spawn(step, outcome);
        stages.push(step);
    }
    assert_eq!(
        stages,
        vec![
            SpawnStep::Bind,
            SpawnStep::Protect,
            SpawnStep::Start,
            SpawnStep::Accept,
            SpawnStep::Exchange,
            SpawnStep::Running,
        ]
    );
    assert_eq!(
        spawner.spawn(SpawnStep::Start, StageOutcome::Failed(IoKind::NotFound)),
        SpawnStep::Fail {
            error: RelayError::Io { operation: "starting relay child", kind: IoKind::NotFound },
            kill: false,
            remove_endpoint: true,
        }
    );
}

#[test]
fn bootstrap_endpoint_is_private() {
    assert!(validate_ipc_path("/run/child.sock", &private_ipc()).is_ok());
    assert!(validate_ipc_path("child.sock", &private_ipc()).is_err());
    let mut shared = private_ipc();
    shared.parent = Some((true, false, 0o40750));
    assert!(validate_ipc_path("/run/child.sock", &shared).is_err());
    let mut missing = private_ipc();
    missing.parent = None;
    assert!(validate_ipc_path("/run/child.sock", &missing).is_err());
    let mut orphan = private_ipc();
    orphan.has_parent = false;
    assert!(validate_ipc_path("/run/child.sock", &orphan).is_err());
    let mut present = private_ipc();
    present.existing = Some((false, true, 0o140600));
    assert!(validate_ipc_path("/run/child.sock", &present).is_ok());
    present.existing = Some((false, false, 0o100600));
    assert!(validate_ipc_path("/run/child.sock", &present).is_err());
}

#[test]
fn manager_paths_are_checked() {
    assert!(validate_existing_path_components(&vec![
        ComponentFacts::Plain,
        ComponentFacts::Failed(IoKind::NotFound),
        ComponentFacts::Symlink,
    ])
    .is_ok());
    assert!(matches!(
        validate_existing_path_components(&vec![ComponentFacts::Plain, ComponentFacts::Symlink]),
        Err(RelayError::SocketIdentity { .. })
    ));
    assert!(matches!(
        validate_existing_path_components(&vec![ComponentFacts::Failed(IoKind::PermissionDenied)]),
        Err(RelayError::Io { operation: "checking Manager path", kind: IoKind::PermissionDenied })
    ));
    let private = DirectoryFacts { is_dir: true, uid: UID, mode: 0o40700 };
    assert!(check_private_directory(&private, UID).is_ok());
    assert!(check_private_directory(&DirectoryFacts { mode: 0o40770, ..private }, UID).is_err());
    assert!(check_lock_file(UID, 0o100600, UID).is_ok());
    assert!(matches!(
        check_lock_file(UID, 0o100640, UID),
        Err(RelayError::Manager { reason: "Manager lock owner or permissions are invalid" })
    ));
    let denied = RelayError::Io { operation: "x", kind: IoKind::PermissionDenied };
    assert_eq!(map_missing_socket(denied), denied);
}

#[test]
fn session_paths_follow_the_layout() {
    let resolver = HerdrSessionResolver::new("/cfg".to_owned(), UID).expect("resolver");
    let default = SessionName::normalize("").expect("session");
    let work = SessionName::normalize("work").expect("session");
    assert_eq!(resolver.socket(&default, "herdr"), "/cfg/herdr/herdr.sock");
    assert_eq!(resolver.directory(&work, "herdr"), "/cfg/herdr/sessions/work");
    assert_eq!(resolver.socket(&work, "herdr"), "/cfg/herdr/sessions/work/herdr.sock");
    assert!(HerdrSessionResolver::new("cfg".to_owned(), UID).is_err());
    assert_eq!(resolver.verify_reachable(Ok(())), Ok(()));
    assert_eq!(
        resolver.verify_reachable(Err(RelayError::Io { operation: "x", kind: IoKind::NotFound })),
        Err(RelayError::UpstreamUnavailable)
    );
    let refused = RelayError::Io { operation: "x", kind: IoKind::ConnectionRefused };
    assert_eq!(resolver.verify_reachable(Err(refused)), Err(refused));
    assert_ne!(herdr_app_dir(false), herdr_app_dir(true));
    let found = resolved(&manager(), "work", 7);
    assert_eq!(
        found.fingerprint_path(),
        "/tmp/root/config/herdr/sessions/work/.herdr-dog-session-fingerprint"
    );
    assert_eq!(found.relay_config_path("/m"), "/m/sessions/work/relay.toml");
    assert_eq!(found.state_directory("/m"), "/m/sessions/work");
}

#[test]
fn generated_config_contains_explicit_safe_values() {
    let mut manager = manager();
    let mut children = FakeChildSpawner::new();
    let grant = ensure(&mut manager, &mut children, "default", 1, 1, 100).expect("ensure");
    assert_eq!(grant.configuration_generation(), 1);
    let config = session_relay_config(&resolved(&manager, "default", 7), 900, 65536);
    assert_eq!(config.port_base, 18743);
    assert_eq!(config.port_attempts, 10);
    assert!(!config.tailscale.enabled);
    assert!(!config.lan.enabled);
    assert!(!config.public.enabled);
    assert_eq!(config.herdr_socket, "/tmp/root/config/herdr/herdr.sock");
    assert_eq!(config.limits.max_clients, 64);
    let text = write_session_relay_config(18753, 18743, "port_base = 18743\nenabled = false\n");
    assert!(text.contains("# manager_data_port = 18753\n# manager_broker_port = 18743\n\n"));
    assert!(text.ends_with("port_base = 18743\nenabled = false\n"));
}

#[test]
fn clock_readings_are_used() {
    assert_eq!(epoch_from(Some(5)).expect("reading"), 5);
    assert!(epoch_from(None).is_err());
    assert!(epoch_seconds().expect("clock") > 1_700_000_000);
}

#[test]
fn child_is_killed_only_while_it_runs() {
    let spawner = ProcessChildSpawner::new("/usr/bin/relay".to_owned()).expect("spawner");
    let done = |exited: bool| StopOutcome::Done { exited };
    assert_eq!(spawner.stop(StopStep::Check, done(true)), StopStep::Stopped);
    assert_eq!(spawner.stop(StopStep::Check, done(false)), StopStep::Kill);
    assert_eq!(spawner.stop(StopStep::Kill, done(true)), StopStep::Wait);
    assert_eq!(spawner.stop(StopStep::Wait, done(true)), StopStep::Stopped);
    for (step, operation) in [
        (StopStep::Check, "checking relay child"),
        (StopStep::Kill, "stopping relay child"),
        (StopStep::Wait, "waiting for relay child"),
    ] {
        assert_eq!(
            spawner.stop(step, StopOutcome::Failed(IoKind::Other)),
            StopStep::Fail(RelayError::Io { operation, kind: IoKind::Other })
        );
    }
}

#[test]
fn files_are_replaced_beside_themselves() {
    assert_eq!(
        atomic_write("/srv/manager/state.json", 42, "17"),
        Ok("/srv/manager/.state.json.tmp-42-17".to_owned())
    );
    assert_eq!(
        atomic_write("/", 42, "17"),
        Err(RelayError::Manager { reason: "atomic file has no parent" })
    );
    assert_eq!(
        atomic_write("/srv/..", 42, "17"),
        Err(RelayError::Manager { reason: "atomic file has no name" })
    );
    assert_eq!(replaced(ReplaceStep::Write, Ok(())), ReplaceStep::Install);
    assert_eq!(replaced(ReplaceStep::Install, Ok(())), ReplaceStep::Protect);
    assert_eq!(replaced(ReplaceStep::Protect, Ok(())), ReplaceStep::Replaced);
    for (step, operation) in [
        (ReplaceStep::Write, "writing atomic Manager file"),
        (ReplaceStep::Install, "installing atomic Manager file"),
        (ReplaceStep::Protect, "protecting Manager file"),
    ] {
        assert_eq!(
            replaced(step, Err(IoKind::AlreadyExists)),
            ReplaceStep::Fail(RelayError::Io { operation, kind: IoKind::AlreadyExists })
        );
    }
}
