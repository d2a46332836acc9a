//! Existing Herdr sessions: where they live and which socket is theirs.

use crate::error::{IoKind, RelayError, RelayResult};
use crate::manager::names::SessionName;
use crate::paths::{join, validate_absolute_path};
use vstd::prelude::*;

verus! {

/// File of the fingerprint in a session directory.
pub const SESSION_FINGERPRINT_FILE: &'static str = ".herdr-dog-session-fingerprint";

/// File of the generated Relay configuration of a session.
pub const SESSION_RELAY_CONFIG_FILE: &'static str = "relay.toml";

/// Identity of a Unix socket.
#[derive(Clone, Copy, Debug, Eq, PartialEq, Structural)]
pub struct UnixSocketIdentity {
    /// Device of the socket file.
    pub device: u64,
    /// Inode of the socket file.
    pub inode: u64,
    /// Owner of the socket file.
    pub owner_uid: u32,
}

/// Mathematical value of a resolved session.
#[verifier::ext_equal]
pub struct ResolvedView {
    /// Session name.
    pub session: Seq<char>,
    /// Session directory.
    pub directory: Seq<char>,
    /// Socket path.
    pub socket: Seq<char>,
    /// Socket identity.
    pub socket_identity: UnixSocketIdentity,
}

/// A resolved session and its validated socket.
pub struct ResolvedSession {
    session: SessionName,
    directory: String,
    socket: String,
    socket_identity: UnixSocketIdentity,
}

impl View for ResolvedSession {
    type V = ResolvedView;

    closed spec fn view(&self) -> ResolvedView {
        ResolvedView {
            session: self.session@,
            directory: self.directory@,
            socket: self.socket@,
            socket_identity: self.socket_identity,
        }
    }
}

impl ResolvedSession {
    /// The session name.
    pub fn session(&self) -> (session: &SessionName)
        ensures
            session@ == self@.session,
    {
        &self.session
    }

    /// The validated socket identity.
    pub fn socket_identity(&self) -> (identity: UnixSocketIdentity)
        ensures
            identity == self@.socket_identity,
    {
        self.socket_identity
    }

    /// The socket path.
    pub fn socket(&self) -> (path: &str)
        ensures
            path@ == self@.socket,
    {
        self.socket.as_str()
    }

    /// Where the fingerprint of the session is stored.
    pub fn fingerprint_path(&self) -> (path: String)
        ensures
            path@ == crate::paths::joined(self@.directory, SESSION_FINGERPRINT_FILE@),
    {
        join(self.directory.as_str(), SESSION_FINGERPRINT_FILE)
    }

    /// Where the generated Relay configuration of the session is written.
    pub fn relay_config_path(&self, manager_root: &str) -> (path: String)
        ensures
            path@ == crate::paths::joined(
                session_state_directory(manager_root@, self@.session),
                SESSION_RELAY_CONFIG_FILE@,
            ),
    {
        join(self.state_directory(manager_root).as_str(), SESSION_RELAY_CONFIG_FILE)
    }

    /// The Manager's directory of the session.
    pub fn state_directory(&self, manager_root: &str) -> (path: String)
        ensures
            path@ == session_state_directory(manager_root@, self@.session),
    {
        join(join(manager_root, "sessions").as_str(), self.session.as_str())
    }
}

/// The Manager's directory of a session.
pub open spec fn session_state_directory(manager_root: Seq<char>, session: Seq<char>) -> Seq<char> {
    crate::paths::joined(crate::paths::joined(manager_root, "sessions"@), session)
}

/// The directory of a session below a configuration root.
pub open spec fn session_directory(root: Seq<char>, app: Seq<char>, session: Seq<char>) -> Seq<
    char,
> {
    let herdr = crate::paths::joined(root, app);
    if session == "default"@ {
        herdr
    } else {
        crate::paths::joined(crate::paths::joined(herdr, "sessions"@), session)
    }
}

/// A socket that does not exist means that the session is not served.
pub open spec fn missing_socket_mapped(error: RelayError) -> RelayError {
    match error {
        RelayError::Io { kind: IoKind::NotFound, .. } => RelayError::UpstreamUnavailable,
        other => other,
    }
}

/// Maps the failure of a missing socket to the readiness category.
pub fn map_missing_socket(error: RelayError) -> (mapped: RelayError)
    ensures
        mapped == missing_socket_mapped(error),
{
    match error {
        RelayError::Io { kind: IoKind::NotFound, .. } => RelayError::UpstreamUnavailable,
        other => other,
    }
}

/// Type and owner of a directory.
#[derive(Clone, Copy, Debug, Eq, PartialEq, Structural)]
pub struct DirectoryFacts {
    /// It is a directory.
    pub is_dir: bool,
    /// Its owner.
    pub uid: u32,
    /// Its mode bits.
    pub mode: u32,
}

/// Name of the Herdr application directory of a build.
pub fn herdr_app_dir(development: bool) -> (name: &'static str)
    ensures
        name == (if development {
            "herdr-dev"
        } else {
            "herdr"
        }),
{
    if development {
        "herdr-dev"
    } else {
        "herdr"
    }
}

/// Mathematical value of a resolver.
#[verifier::ext_equal]
pub struct ResolverView {
    /// Root that holds the Herdr directory.
    pub config_root: Seq<char>,
    /// Owner that sessions must have.
    pub expected_uid: u32,
}

/// Resolver of existing sessions of one owner.
pub struct HerdrSessionResolver {
    config_root: String,
    expected_uid: u32,
}

impl View for HerdrSessionResolver {
    type V = ResolverView;

    closed spec fn view(&self) -> ResolverView {
        ResolverView { config_root: self.config_root@, expected_uid: self.expected_uid }
    }
}

/// `found` is what resolving a session gives.
///
/// `components` is the outcome of checking the directory's path, `directory` what the directory is,
/// if it exists, and `socket` the identity of its socket.
pub open spec fn session_resolved(
    found: RelayResult<ResolvedSession>,
    resolver: ResolverView,
    session: Seq<char>,
    app: Seq<char>,
    components: RelayResult<()>,
    directory: Option<DirectoryFacts>,
    socket: RelayResult<UnixSocketIdentity>,
) -> bool {
    let path = session_directory(resolver.config_root, app, session);
    match components {
        Err(error) => found matches Err(failure) && failure == error,
        Ok(_) => match directory {
            None => found matches Err(failure) && failure == RelayError::UpstreamUnavailable,
            Some(facts) => if !facts.is_dir || facts.uid != resolver.expected_uid {
                found matches Err(failure) && failure == (RelayError::SocketIdentity {
                    operation: "checking Herdr session directory",
                    reason: "session directory owner or type is invalid",
                })
            } else {
                match socket {
                    Err(error) => found matches Err(failure) && failure == missing_socket_mapped(
                        error,
                    ),
                    Ok(socket_identity) => found matches Ok(resolved) && resolved@ == (
                    ResolvedView {
                        session,
                        directory: path,
                        socket: crate::paths::joined(path, "herdr.sock"@),
                        socket_identity,
                    }),
                }
            },
        },
    }
}

impl HerdrSessionResolver {
    /// A resolver below an absolute root.
    pub fn new(config_root: String, expected_uid: u32) -> (resolver: RelayResult<Self>)
        ensures
            match resolver {
                Ok(made) => crate::paths::absolute(config_root@) && made@ == (ResolverView {
                    config_root: config_root@,
                    expected_uid,
                }),
                Err(error) => Err::<(), RelayError>(error) == crate::paths::path_check(
                    "herdr_config_root",
                    config_root@,
                ),
            },
    {
        match validate_absolute_path("herdr_config_root", config_root.as_str()) {
            Ok(_) => Ok(HerdrSessionResolver { config_root, expected_uid }),
            Err(error) => Err(error),
        }
    }

    /// The directory of a session; `app` is the Herdr application directory.
    pub fn directory(&self, session: &SessionName, app: &str) -> (path: String)
        ensures
            path@ == session_directory(self@.config_root, app@, session@),
    {
        let herdr = join(self.config_root.as_str(), app);
        if session.is_default() {
            herdr
        } else {
            join(join(herdr.as_str(), "sessions").as_str(), session.as_str())
        }
    }

    /// The socket of a session.
    pub fn socket(&self, session: &SessionName, app: &str) -> (path: String)
        ensures
            path@ == crate::paths::joined(
                session_directory(self@.config_root, app@, session@),
                "herdr.sock"@,
            ),
    {
        join(self.directory(session, app).as_str(), "herdr.sock")
    }

    /// Decides whether a session exists and is the owner's.
    pub fn resolve(
        &self,
        session: &SessionName,
        app: &str,
        components: RelayResult<()>,
        directory: Option<DirectoryFacts>,
        socket: RelayResult<UnixSocketIdentity>,
    ) -> (found: RelayResult<ResolvedSession>)
        ensures
            session_resolved(found, self@, session@, app@, components, directory, socket),
    {
        if let Err(error) = components {
            return Err(error);
        }
        let facts = match directory {
            Some(found) => found,
            None => {
                return Err(RelayError::UpstreamUnavailable);
            },
        };
        if !facts.is_dir || facts.uid != self.expected_uid {
            return Err(
                RelayError::SocketIdentity {
                    operation: "checking Herdr session directory",
                    reason: "session directory owner or type is invalid",
                },
            );
        }
        match socket {
            Err(error) => Err(map_missing_socket(error)),
            Ok(socket_identity) => Ok(
                ResolvedSession {
                    session: session.clone(),
                    directory: self.directory(session, app),
                    socket: self.socket(session, app),
                    socket_identity,
                },
            ),
        }
    }

    /// Decides on a probe of a resolved session's socket; `connected` is what came of connecting
    /// to the socket with the identity that was seen when the session was resolved.
    pub fn verify_reachable(&self, connected: RelayResult<()>) -> (reachable: RelayResult<()>)
        ensures
            reachable is Ok <==> connected is Ok,
            connected matches Err(error) ==> reachable == Err::<(), RelayError>(
                missing_socket_mapped(error),
            ),
    {
        match connected {
            Ok(_) => Ok(()),
            Err(error) => Err(map_missing_socket(error)),
        }
    }
}

/// What one component of a path is.
#[derive(Clone, Copy, Debug, Eq, PartialEq, Structural)]
pub enum ComponentFacts {
    /// A symlink.
    Symlink,
    /// Anything else that exists.
    Plain,
    /// It cannot be looked at.
    Failed(IoKind),
}

/// The outcome of checking the components of a path, from the root on.
pub open spec fn components_check(components: Seq<ComponentFacts>) -> RelayResult<()>
    decreases components.len(),
{
    if components.len() == 0 {
        Ok(())
    } else {
        match components[0] {
            ComponentFacts::Symlink => Err(
                RelayError::SocketIdentity {
                    operation: "checking Manager path",
                    reason: "path contains a symlink component",
                },
            ),
            ComponentFacts::Failed(IoKind::NotFound) => Ok(()),
            ComponentFacts::Failed(kind) => Err(
                RelayError::Io { operation: "checking Manager path", kind },
            ),
            ComponentFacts::Plain => components_check(components.drop_first()),
        }
    }
}

/// Checks the components of a path, from the root on, up to the first that does not exist: none may
/// be a symlink.
pub fn validate_existing_path_components(components: &Vec<ComponentFacts>) -> (valid: RelayResult<
    (),
>)
    ensures
        valid == components_check(components@),
{
    let mut i: usize = 0;
    assert(components@.subrange(0, components@.len() as int) =~= components@);
    while i < components.len()
        invariant
            i <= components@.len(),
            components_check(components@) == components_check(
                components@.subrange(i as int, components@.len() as int),
            ),
        decreases components@.len() - i,
    {
        let ghost rest = components@.subrange(i as int, components@.len() as int);
        match components[i] {
            ComponentFacts::Symlink => {
                return Err(
                    RelayError::SocketIdentity {
                        operation: "checking Manager path",
                        reason: "path contains a symlink component",
                    },
                );
            },
            ComponentFacts::Failed(IoKind::NotFound) => {
                return Ok(());
            },
            ComponentFacts::Failed(kind) => {
                return Err(RelayError::Io { operation: "checking Manager path", kind });
            },
            ComponentFacts::Plain => {},
        }
        assert(rest.drop_first() =~= components@.subrange(i + 1, components@.len() as int));
        i = i + 1;
    }
    Ok(())
}

/// An accepted path has no symlink before its first missing component.
pub proof fn law_accepted_path_has_no_symlink(components: Seq<ComponentFacts>, at: int)
    requires
        components_check(components) is Ok,
        0 <= at < components.len(),
        forall|i: int| 0 <= i < at ==> (#[trigger] components[i]) == ComponentFacts::Plain,
    ensures
        components[at] != ComponentFacts::Symlink,
    decreases at,
{
    if at > 0 {
        let rest = components.drop_first();
        assert(components[0] == ComponentFacts::Plain);
        assert forall|i: int| 0 <= i < at - 1 implies (#[trigger] rest[i])
            == ComponentFacts::Plain by {
            assert(rest[i] == components[i + 1]);
        }
        law_accepted_path_has_no_symlink(rest, at - 1);
        assert(rest[at - 1] == components[at]);
    }
}

/// The directory is the owner's and nobody else has access.
pub open spec fn private_directory(facts: DirectoryFacts, expected_uid: u32) -> bool {
    &&& facts.is_dir
    &&& facts.uid == expected_uid
    &&& facts.mode & 0o077 == 0
    &&& facts.mode & 0o700 == 0o700
}

/// Holds a Manager directory to be private.
pub fn check_private_directory(facts: &DirectoryFacts, expected_uid: u32) -> (valid: RelayResult<
    (),
>)
    ensures
        match valid {
            Ok(_) => private_directory(*facts, expected_uid),
            Err(error) => !private_directory(*facts, expected_uid) && error == (
            RelayError::SocketIdentity {
                operation: "checking Manager directory",
                reason: "directory owner, type, or permissions are invalid",
            }),
        },
{
    if !facts.is_dir || facts.uid != expected_uid || facts.mode & 0o077 != 0 || facts.mode & 0o700
        != 0o700 {
        return Err(
            RelayError::SocketIdentity {
                operation: "checking Manager directory",
                reason: "directory owner, type, or permissions are invalid",
            },
        );
    }
    Ok(())
}

/// Holds the Manager lock file to be the owner's and private.
pub fn check_lock_file(uid: u32, mode: u32, expected_uid: u32) -> (valid: RelayResult<()>)
    ensures
        match valid {
            Ok(_) => uid == expected_uid && mode & 0o777 == 0o600,
            Err(error) => !(uid == expected_uid && mode & 0o777 == 0o600) && error == (
            RelayError::Manager { reason: "Manager lock owner or permissions are invalid" }),
        },
{
    if uid != expected_uid || mode & 0o777 != 0o600 {
        return Err(
            RelayError::Manager { reason: "Manager lock owner or permissions are invalid" },
        );
    }
    Ok(())
}

/// The default session has the directory of the application itself, and every other session a
/// directory of its own name below it. What the manager keeps of a session stands in a directory of
/// the same name below its own root.
pub proof fn law_sessions_have_their_directories(
    root: Seq<char>,
    app: Seq<char>,
    session: Seq<char>,
)
    requires
        root.len() > 0,
        root.last() != '/',
        app.len() > 0,
        app[0] != '/',
        app.last() != '/',
        crate::text::session_text(session),
    ensures
        session == "default"@ ==> session_directory(root, app, session) == root + "/"@ + app,
        session != "default"@ ==> session_directory(root, app, session) == root + "/"@ + app
            + "/sessions/"@ + session,
        session_state_directory(root, session) == root + "/sessions/"@ + session,
{
    reveal_strlit("/");
    reveal_strlit("sessions");
    reveal_strlit("/sessions/");
    assert(crate::text::session_char(session[0]));
    let own = crate::paths::joined(root, app);
    assert(own =~= root + "/"@ + app);
    assert(own.last() == app.last());
    assert(session_directory(root, app, session) =~= (if session == "default"@ {
        own
    } else {
        own + "/sessions/"@ + session
    }));
    assert(root + "/"@ + app + "/sessions/"@ + session =~= own + "/sessions/"@ + session);
    assert(session_state_directory(root, session) =~= root + "/sessions/"@ + session);
}

/// A session is found if and only if its path is in order, its directory is one of its owner, and
/// its socket was reached. It is the session that was asked for, in its own directory, with its
/// socket in it and the identity that was found.
pub proof fn law_sessions_are_found_in_their_directory(
    found: RelayResult<ResolvedSession>,
    resolver: ResolverView,
    session: Seq<char>,
    app: Seq<char>,
    components: RelayResult<()>,
    directory: Option<DirectoryFacts>,
    socket: RelayResult<UnixSocketIdentity>,
)
    requires
        session_resolved(found, resolver, session, app, components, directory, socket),
    ensures
        found is Ok <==> components is Ok && (directory matches Some(facts) && facts.is_dir
            && facts.uid == resolver.expected_uid) && socket is Ok,
        found matches Ok(resolved) ==> {
            &&& resolved@.session == session
            &&& resolved@.directory == session_directory(resolver.config_root, app, session)
            &&& resolved@.socket == crate::paths::joined(resolved@.directory, "herdr.sock"@)
            &&& socket == Ok::<UnixSocketIdentity, RelayError>(resolved@.socket_identity)
        },
        components matches Err(error) ==> (found matches Err(told) && told == error),
        components is Ok && directory is None ==> (found matches Err(told) && told
            == RelayError::UpstreamUnavailable),
        components is Ok && (directory matches Some(facts) && (!facts.is_dir || facts.uid
            != resolver.expected_uid)) ==> (found matches Err(told) && told is SocketIdentity),
{
}

/// A missing socket is an upstream that is unavailable; every other failure stays what it is.
pub proof fn law_missing_sockets_are_unavailable(error: RelayError, operation: &'static str)
    ensures
        missing_socket_mapped(RelayError::Io { operation, kind: IoKind::NotFound })
            == RelayError::UpstreamUnavailable,
        !(error matches RelayError::Io { kind, .. } && kind == IoKind::NotFound)
            ==> missing_socket_mapped(error) == error,
{
}

/// A path is in order if and only if its components are plain up to its end or to the first that
/// does not exist. A link in the way is refused, and so is a component that cannot be read.
pub proof fn law_paths_are_plain_as_far_as_they_exist(components: Seq<ComponentFacts>, at: int)
    requires
        0 <= at <= components.len(),
        forall|i: int| 0 <= i < at ==> (#[trigger] components[i]) == ComponentFacts::Plain,
    ensures
        at == components.len() ==> components_check(components) is Ok,
        at < components.len() && components[at] == ComponentFacts::Failed(IoKind::NotFound)
            ==> components_check(components) is Ok,
        at < components.len() && components[at] == ComponentFacts::Symlink ==> (components_check(
            components,
        ) matches Err(error) && error is SocketIdentity),
        at < components.len() ==> (components[at] matches ComponentFacts::Failed(kind) ==> (kind
            != IoKind::NotFound ==> components_check(components) == Err::<(), RelayError>(
            RelayError::Io { operation: "checking Manager path", kind },
        ))),
    decreases at,
{
    if at > 0 {
        assert(components[0] == ComponentFacts::Plain);
        let rest = components.drop_first();
        assert forall|i: int| 0 <= i < at - 1 implies (#[trigger] rest[i])
            == ComponentFacts::Plain by {
            assert(rest[i] == components[i + 1]);
        }
        if at < components.len() {
            assert(rest[at - 1] == components[at]);
        }
        law_paths_are_plain_as_far_as_they_exist(rest, at - 1);
    }
}

/// A directory is private if and only if it is one of its owner, who may do everything with it, and
/// nobody else anything.
pub proof fn law_private_directories_are_the_owners(facts: DirectoryFacts, expected_uid: u32)
    ensures
        private_directory(facts, expected_uid) <==> facts.is_dir && facts.uid == expected_uid
            && facts.mode & 0o777 == 0o700,
{
    let mode = facts.mode;
    assert(mode & 0o077 == 0 && mode & 0o700 == 0o700 <==> mode & 0o777 == 0o700) by (bit_vector);
}

} // verus!
