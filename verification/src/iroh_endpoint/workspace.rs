//! Pairing verifiers: the one that refuses everything, and the one that shows its code in a
//! verification workspace.

use crate::bytes::same_secret;
use crate::iroh_endpoint::config::IrohEndpointError;
use crate::iroh_endpoint::pairing::MAX_PAIRING_RECORDS;
use crate::paths::same_text;
use crate::table::KeyTable;
use vstd::prelude::*;

verus! {

/// Seconds that a human has to submit a code after a challenge was created.
pub const PAIRING_CHALLENGE_TTL_SECS: u64 = 300;

/// The same span in nanoseconds.
pub const PAIRING_CHALLENGE_TTL: u64 = 300_000_000_000;

/// The verifier of an endpoint without a pairing backend: it refuses everything.
#[derive(Clone, Copy, Debug, Default)]
pub struct RejectAllPairing;

impl RejectAllPairing {
    /// Refuses every challenge.
    pub fn begin(&self, _peer: &[u8; 32]) -> (begun: bool)
        ensures
            !begun,
    {
        false
    }

    /// Refuses every code.
    pub fn verify(&self, _peer: &[u8; 32], _code: &[u8; 6]) -> (accepted: bool)
        ensures
            !accepted,
    {
        false
    }
}

/// A challenge that waits for its code.
pub struct PendingPairing {
    /// The code that the workspace shows.
    pub code: [u8; 6],
    /// The workspace.
    pub workspace_id: String,
    /// End of the challenge, in nanoseconds of the monotonic clock.
    pub expires_at: u64,
}

/// Mathematical value of a challenge.
#[verifier::ext_equal]
pub struct PendingView {
    /// The code that the workspace shows.
    pub code: Seq<u8>,
    /// The workspace.
    pub workspace_id: Seq<char>,
    /// End of the challenge.
    pub expires_at: u64,
}

impl View for PendingPairing {
    type V = PendingView;

    open spec fn view(&self) -> PendingView {
        PendingView {
            code: self.code@,
            workspace_id: self.workspace_id@,
            expires_at: self.expires_at,
        }
    }
}

/// What follows from creating a workspace for a challenge.
pub enum BeginAction {
    /// The challenge waits for its code.
    Challenge,
    /// The workspace has to be closed and the challenge is refused.
    CloseAndRefuse {
        /// The workspace.
        workspace_id: String,
    },
}

/// What a submitted code leads to.
pub enum VerifyAction {
    /// The code is refused and the challenge stays.
    Refuse,
    /// The workspace has to be closed first.
    CloseWorkspace {
        /// The workspace.
        workspace_id: String,
        /// The challenge is over, so the code is refused anyway.
        expired: bool,
    },
}

/// What a diagnostic says of a workspace verifier.
#[derive(Clone, Copy, Debug, Eq, PartialEq, Structural)]
pub struct VerifierSummary {
    /// The verifier has a workspace client.
    pub workspace_verifier_present: bool,
    /// The verifier keeps challenges.
    pub attempts_present: bool,
}

/// The pairing verifier that shows its code in a verification workspace.
pub struct HerdrWorkspacePairingVerifier {
    attempts: KeyTable<PendingPairing>,
}

impl View for HerdrWorkspacePairingVerifier {
    type V = Map<Seq<u8>, PendingView>;

    closed spec fn view(&self) -> Map<Seq<u8>, PendingView> {
        self.attempts@.map_values(|pending: PendingPairing| pending@)
    }
}

/// The peer may be challenged: it has no challenge and there is room for one.
pub open spec fn challengeable(attempts: Map<Seq<u8>, PendingView>, peer: Seq<u8>) -> bool {
    attempts.dom().len() < MAX_PAIRING_RECORDS && !attempts.dom().contains(peer)
}

/// `action` is what a submitted code leads to.
pub open spec fn code_decided(
    action: VerifyAction,
    attempts: Map<Seq<u8>, PendingView>,
    peer: Seq<u8>,
    code: Seq<u8>,
    now: u64,
) -> bool {
    let pending = attempts[peer];
    if attempts.dom().contains(peer) && (now >= pending.expires_at || pending.code == code) {
        action matches VerifyAction::CloseWorkspace { workspace_id, expired } && workspace_id@
            == pending.workspace_id && expired == (now >= pending.expires_at)
    } else {
        action is Refuse
    }
}

/// The challenges once the workspace of a peer was asked to close.
pub open spec fn closed_attempts(
    attempts: Map<Seq<u8>, PendingView>,
    peer: Seq<u8>,
    workspace_id: Seq<char>,
    closed: bool,
) -> Map<Seq<u8>, PendingView> {
    if closed && attempts.dom().contains(peer) && attempts[peer].workspace_id == workspace_id {
        attempts.remove(peer)
    } else {
        attempts
    }
}

/// The challenges after one was begun for the peer, and whether it could be.
pub open spec fn attempt_begun(
    attempts: Map<Seq<u8>, PendingView>,
    peer: Seq<u8>,
    code: Seq<u8>,
    workspace_id: Seq<char>,
    now: u64,
) -> (Map<Seq<u8>, PendingView>, bool) {
    if challengeable(attempts, peer) && now + PAIRING_CHALLENGE_TTL <= u64::MAX {
        (
            attempts.insert(
                peer,
                PendingView {
                    code,
                    workspace_id,
                    expires_at: (now + PAIRING_CHALLENGE_TTL) as u64,
                },
            ),
            true,
        )
    } else {
        (attempts, false)
    }
}

/// A code counts once the workspace of its challenge was closed, if the challenge had not ended.
pub open spec fn code_accepted(expired: bool, closed: bool) -> bool {
    closed && !expired
}

/// The second at which a challenge that is opened now ends.
pub open spec fn expiry_of(now: Option<u64>) -> Option<u64> {
    match now {
        Some(seconds) => if seconds + PAIRING_CHALLENGE_TTL_SECS <= u64::MAX {
            Some((seconds + PAIRING_CHALLENGE_TTL_SECS) as u64)
        } else {
            None
        },
        None => None,
    }
}

impl HerdrWorkspacePairingVerifier {
    /// The verifier is well formed: no more challenges than pairing records.
    pub closed spec fn wf(&self) -> bool {
        &&& self.attempts.wf()
        &&& self.attempts@.dom().finite()
        &&& self.attempts@.dom().len() <= MAX_PAIRING_RECORDS
    }

    /// A well-formed verifier keeps a bounded number of challenges.
    pub proof fn lemma_bounded(&self)
        requires
            self.wf(),
        ensures
            self@.dom().finite(),
            self@.dom().len() <= MAX_PAIRING_RECORDS,
    {
        assert(self@.dom() =~= self.attempts@.dom());
    }

    /// Makes the verifier of a Relay configuration; `workspace_usable` says that the workspace
    /// client accepts the configured session and directory.
    pub fn from_relay_config(enrollment_enabled: bool, workspace_usable: bool) -> (verifier: Result<
        Self,
        IrohEndpointError,
    >)
        ensures
            match verifier {
                Ok(made) => {
                    &&& enrollment_enabled && workspace_usable
                    &&& made.wf()
                    &&& made@ == Map::<Seq<u8>, PendingView>::empty()
                },
                Err(error) => {
                    &&& !enrollment_enabled || !workspace_usable
                    &&& error == (IrohEndpointError::InvalidConfiguration {
                        field: if !enrollment_enabled {
                            "enrollment.enabled"
                        } else {
                            "enrollment.bootstrap_verification_cwd"
                        },
                    })
                },
            },
    {
        if !enrollment_enabled {
            return Err(IrohEndpointError::InvalidConfiguration { field: "enrollment.enabled" });
        }
        if !workspace_usable {
            return Err(
                IrohEndpointError::InvalidConfiguration {
                    field: "enrollment.bootstrap_verification_cwd",
                },
            );
        }
        let verifier = HerdrWorkspacePairingVerifier { attempts: KeyTable::new() };
        assert(verifier@ =~= Map::<Seq<u8>, PendingView>::empty());
        Ok(verifier)
    }

    /// What a diagnostic says of the verifier: no code and no workspace.
    pub fn summary(&self) -> (summary: VerifierSummary)
        ensures
            summary == (VerifierSummary {
                workspace_verifier_present: true,
                attempts_present: true,
            }),
    {
        VerifierSummary { workspace_verifier_present: true, attempts_present: true }
    }

    /// The number of challenges.
    pub fn attempt_count(&self) -> (count: usize)
        requires
            self.wf(),
        ensures
            count == self@.dom().len(),
    {
        assert(self@.dom() =~= self.attempts@.dom());
        self.attempts.len()
    }

    /// Tells whether a peer may be challenged; asked before a workspace is created, so that
    /// reconnects cannot create workspaces once the verifier is full.
    pub fn may_begin(&self, peer: &[u8; 32]) -> (allowed: bool)
        requires
            self.wf(),
        ensures
            allowed == challengeable(self@, peer@),
    {
        assert(self@.dom() =~= self.attempts@.dom());
        self.attempts.len() < MAX_PAIRING_RECORDS && !self.attempts.contains(peer)
    }

    /// Keeps the challenge whose workspace was created at `now` of the monotonic clock.
    pub fn begin_attempt(
        &mut self,
        peer: [u8; 32],
        code: [u8; 6],
        workspace_id: String,
        now: u64,
    ) -> (action: BeginAction)
        requires
            old(self).wf(),
        ensures
            final(self).wf(),
            if challengeable(old(self)@, peer@) && now + PAIRING_CHALLENGE_TTL <= u64::MAX {
                &&& action is Challenge
                &&& final(self)@ == old(self)@.insert(
                    peer@,
                    PendingView {
                        code: code@,
                        workspace_id: workspace_id@,
                        expires_at: (now + PAIRING_CHALLENGE_TTL) as u64,
                    },
                )
            } else {
                &&& action matches BeginAction::CloseAndRefuse { workspace_id: opened }
                    && opened@ == workspace_id@
                &&& final(self)@ == old(self)@
            },
            (final(self)@, action is Challenge) == attempt_begun(
                old(self)@,
                peer@,
                code@,
                workspace_id@,
                now,
            ),
    {
        assert(self@.dom() =~= self.attempts@.dom());
        let expires_at: u64 = match now.checked_add(PAIRING_CHALLENGE_TTL) {
            Some(deadline) => deadline,
            None => {
                return BeginAction::CloseAndRefuse { workspace_id };
            },
        };
        if self.attempts.len() >= MAX_PAIRING_RECORDS || self.attempts.contains(&peer) {
            return BeginAction::CloseAndRefuse { workspace_id };
        }
        let pending = PendingPairing { code, workspace_id, expires_at };
        let ghost kept = pending@;
        self.attempts.set(peer, pending);
        assert(self@ =~= old(self)@.insert(peer@, kept));
        BeginAction::Challenge
    }

    /// Decides on a submitted code at `now` of the monotonic clock.
    ///
    /// The challenge stays until its workspace is closed, so a failed close can be repeated.
    pub fn verify_attempt(&self, peer: &[u8; 32], code: &[u8; 6], now: u64) -> (action:
        VerifyAction)
        requires
            self.wf(),
        ensures
            code_decided(action, self@, peer@, code@, now),
    {
        match self.attempts.get(peer) {
            None => VerifyAction::Refuse,
            Some(pending) => {
                if now >= pending.expires_at {
                    VerifyAction::CloseWorkspace {
                        workspace_id: pending.workspace_id.as_str().to_owned(),
                        expired: true,
                    }
                } else if same_secret(&pending.code, code) {
                    VerifyAction::CloseWorkspace {
                        workspace_id: pending.workspace_id.as_str().to_owned(),
                        expired: false,
                    }
                } else {
                    VerifyAction::Refuse
                }
            },
        }
    }

    /// The workspace of a submitted code was asked to close; tells whether the code is accepted.
    pub fn verify_closed(&mut self, peer: &[u8; 32], workspace_id: &str, expired: bool, closed: bool)
        -> (accepted: bool)
        requires
            old(self).wf(),
        ensures
            final(self).wf(),
            final(self)@ == closed_attempts(old(self)@, peer@, workspace_id@, closed),
            accepted == (closed && !expired),
            accepted == code_accepted(expired, closed),
    {
        self.cancel_closed(peer, workspace_id, closed);
        closed && !expired
    }

    /// The workspace that has to be closed when the challenge of a peer is cancelled.
    pub fn cancel_attempt(&self, peer: &[u8; 32]) -> (workspace_id: Option<String>)
        requires
            self.wf(),
        ensures
            match workspace_id {
                Some(found) => self@.dom().contains(peer@) && found@ == self@[peer@].workspace_id,
                None => !self@.dom().contains(peer@),
            },
    {
        match self.attempts.get(peer) {
            None => None,
            Some(pending) => Some(pending.workspace_id.as_str().to_owned()),
        }
    }

    /// The workspace of a cancelled challenge was asked to close.
    pub fn cancel_closed(&mut self, peer: &[u8; 32], workspace_id: &str, closed: bool)
        requires
            old(self).wf(),
        ensures
            final(self).wf(),
            final(self)@ == closed_attempts(old(self)@, peer@, workspace_id@, closed),
    {
        if closed {
            let current = match self.attempts.get(peer) {
                None => false,
                Some(pending) => same_text(pending.workspace_id.as_str(), workspace_id),
            };
            if current {
                self.attempts.remove(peer);
            }
        }
        assert(self@ =~= closed_attempts(old(self)@, peer@, workspace_id@, closed));
    }
}

/// The end of a challenge that is created at `now`, in seconds since the epoch.
pub fn challenge_expiry(now: Option<u64>) -> (expires_at: Option<u64>)
    ensures
        expires_at == (match now {
            None => None::<u64>,
            Some(seconds) => if seconds + PAIRING_CHALLENGE_TTL_SECS > u64::MAX {
                None
            } else {
                Some((seconds + PAIRING_CHALLENGE_TTL_SECS) as u64)
            },
        }),
        expires_at == expiry_of(now),
{
    match now {
        None => None,
        Some(seconds) => seconds.checked_add(PAIRING_CHALLENGE_TTL_SECS),
    }
}

/// A code is accepted only for the challenge of its own peer, before its end, and once: after a
/// successful close the challenge is gone.
pub proof fn law_code_is_used_once(
    attempts: Map<Seq<u8>, PendingView>,
    peer: Seq<u8>,
    code: Seq<u8>,
    now: u64,
    action: VerifyAction,
    workspace_id: Seq<char>,
    closed: bool,
)
    requires
        code_decided(action, attempts, peer, code, now),
        action matches VerifyAction::CloseWorkspace { workspace_id: opened, expired: false }
            && opened@ == workspace_id,
        closed,
    ensures
        attempts.dom().contains(peer),
        attempts[peer].code == code,
        now < attempts[peer].expires_at,
        !closed_attempts(attempts, peer, workspace_id, closed).dom().contains(peer),
{
}

/// A failed close keeps the challenge, so that a later cleanup finds its workspace again.
pub proof fn law_failed_close_is_retried(
    attempts: Map<Seq<u8>, PendingView>,
    peer: Seq<u8>,
    workspace_id: Seq<char>,
)
    ensures
        closed_attempts(attempts, peer, workspace_id, false) == attempts,
{
}

/// A challenge is opened if and only if the peer has none and fewer than 1024 are open.
pub proof fn law_one_challenge_for_each_peer(attempts: Map<Seq<u8>, PendingView>, peer: Seq<u8>)
    ensures
        challengeable(attempts, peer) <==> attempts.dom().len() < 1024 && !attempts.contains_key(
            peer,
        ),
{
}

/// A code is accepted if and only if the peer has a challenge that has not ended and the code is its
/// code. A challenge that has ended is closed as such, whatever the code, and in every other case the
/// code is refused.
pub proof fn law_codes_are_decided_by_their_challenge(
    attempts: Map<Seq<u8>, PendingView>,
    peer: Seq<u8>,
    code: Seq<u8>,
    now: u64,
    action: VerifyAction,
)
    requires
        code_decided(action, attempts, peer, code, now),
    ensures
        action matches VerifyAction::CloseWorkspace { workspace_id, expired } ==> {
            &&& attempts.contains_key(peer)
            &&& workspace_id@ == attempts[peer].workspace_id
            &&& expired <==> attempts[peer].expires_at <= now
            &&& !expired ==> attempts[peer].code == code
        },
        action is Refuse <==> !attempts.contains_key(peer) || (now < attempts[peer].expires_at
            && attempts[peer].code != code),
{
}

/// Closing the workspace of a challenge drops that challenge alone, and only if the workspace is
/// still the one of the challenge.
pub proof fn law_closing_drops_one_challenge(
    attempts: Map<Seq<u8>, PendingView>,
    peer: Seq<u8>,
    workspace_id: Seq<char>,
    closed: bool,
    other: Seq<u8>,
)
    ensures
        ({
            let after = closed_attempts(attempts, peer, workspace_id, closed);
            &&& other != peer ==> after.contains_key(other) == attempts.contains_key(other)
            &&& after.contains_key(other) ==> attempts.contains_key(other) && after[other]
                == attempts[other]
            &&& after.contains_key(peer) <==> attempts.contains_key(peer) && !(closed
                && attempts[peer].workspace_id == workspace_id)
        }),
{
}

/// A challenge that was begun is answered by its own code for 300 seconds, and by no other. It ends
/// then, whatever is submitted. No challenge of another peer changes, and where none can be begun
/// nothing changes at all.
pub proof fn law_begun_challenge_is_answered_by_its_code(
    attempts: Map<Seq<u8>, PendingView>,
    peer: Seq<u8>,
    code: Seq<u8>,
    workspace_id: Seq<char>,
    now: u64,
    later: u64,
    submitted: Seq<u8>,
    action: VerifyAction,
    other: Seq<u8>,
)
    requires
        code_decided(
            action,
            attempt_begun(attempts, peer, code, workspace_id, now).0,
            peer,
            submitted,
            later,
        ),
    ensures
        ({
            let (after, begun) = attempt_begun(attempts, peer, code, workspace_id, now);
            &&& begun <==> !attempts.contains_key(peer) && attempts.dom().len() < 1024 && now + 300
                * 1000000000 <= u64::MAX
            &&& !begun ==> after == attempts
            &&& other != peer ==> after.contains_key(other) == attempts.contains_key(other)
                && after[other] == attempts[other]
            &&& begun && later < now + 300 * 1000000000 && submitted == code ==> (
            action matches VerifyAction::CloseWorkspace { workspace_id: closing, expired }
                && closing@ == workspace_id && !expired)
            &&& begun && later < now + 300 * 1000000000 && submitted != code ==> action is Refuse
            &&& begun && later >= now + 300 * 1000000000 ==> (
            action matches VerifyAction::CloseWorkspace { workspace_id: closing, expired }
                && closing@ == workspace_id && expired)
        }),
{
}

/// A peer is accepted if and only if its workspace was closed before its challenge ended.
pub proof fn law_acceptance_needs_a_close_in_time(expired: bool, closed: bool)
    ensures
        code_accepted(expired, closed) <==> closed && !expired,
        !code_accepted(true, closed),
        !code_accepted(expired, false),
        code_accepted(false, true),
{
}

/// The end that a peer is told is 300 seconds from now, and none if the clock is not known.
pub proof fn law_challenge_ends_in_300_seconds(now: Option<u64>)
    ensures
        expiry_of(now) is Some <==> (now matches Some(seconds) && seconds + 300 <= u64::MAX),
        expiry_of(now) matches Some(expires_at) ==> (now matches Some(seconds) && expires_at
            == seconds + 300),
{
}

} // verus!
