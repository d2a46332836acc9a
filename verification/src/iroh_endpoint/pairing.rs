//! Admission of peers: one connection each, bounded pairing records and bounded challenges.

use crate::table::KeyTable;
use vstd::prelude::*;

verus! {

/// Largest number of pairing records of one Relay process.
pub const MAX_PAIRING_RECORDS: usize = 1024;

/// Failed pairing submissions after which a challenge is spent.
pub const MAX_PAIRING_ATTEMPTS: usize = 5;

/// Pairing challenges that one peer may start in one window.
pub const MAX_PAIRING_CHALLENGES_PER_WINDOW: usize = 3;

/// Length of the challenge window of a peer, in nanoseconds.
pub const PAIRING_CHALLENGE_WINDOW: u64 = 60_000_000_000;

/// Pairing metadata of one authenticated peer.
#[derive(Clone, Copy, Debug, Eq, PartialEq, Structural)]
pub struct PairingRecord {
    /// Pairing generation of the peer.
    pub generation: u64,
    /// Sessions of the peer are admitted.
    pub paired: bool,
    /// Failed code attempts of the current challenge.
    pub failed_attempts: usize,
    /// Start of the challenge window, in nanoseconds of the monotonic clock.
    pub challenge_window_started: u64,
    /// Challenges of the current window.
    pub challenge_count: usize,
}

/// Mathematical value of the admission state.
#[verifier::ext_equal]
pub struct RelayStateView {
    /// Connections at once, and pairing records at once.
    pub max_connections: usize,
    /// Pairing metadata by peer.
    pub pairings: Map<Seq<u8>, PairingRecord>,
    /// Generation of the one connection of a peer.
    pub active: Map<Seq<u8>, u64>,
    /// Generation of the next connection.
    pub next_generation: u64,
}

impl RelayStateView {
    /// Every count is within its bound.
    pub open spec fn within_bounds(self) -> bool {
        &&& self.pairings.dom().finite()
        &&& self.pairings.dom().len() <= self.max_connections
        &&& self.active.dom().finite()
        &&& self.active.dom().len() <= self.max_connections
        &&& forall|peer: Seq<u8>| #[trigger]
            self.pairings.dom().contains(peer) ==> {
                &&& self.pairings[peer].failed_attempts <= MAX_PAIRING_ATTEMPTS
                &&& self.pairings[peer].challenge_count <= MAX_PAIRING_CHALLENGES_PER_WINDOW
            }
    }

    /// The peer has a pairing relationship.
    pub open spec fn is_paired(self, peer: Seq<u8>) -> bool {
        self.pairings.dom().contains(peer) && self.pairings[peer].paired
    }

    /// No record of the peer exists and none can be made.
    pub open spec fn has_no_room(self, peer: Seq<u8>) -> bool {
        !self.pairings.dom().contains(peer) && self.pairings.dom().len() >= self.max_connections
    }

    /// The record of the peer, or a new one of this generation.
    pub open spec fn record_or(self, peer: Seq<u8>, generation: u64, now: u64) -> PairingRecord {
        if self.pairings.dom().contains(peer) {
            self.pairings[peer]
        } else {
            PairingRecord {
                generation,
                paired: false,
                failed_attempts: 0,
                challenge_window_started: now,
                challenge_count: 0,
            }
        }
    }

    /// The state with this record of the peer.
    pub open spec fn with_record(self, peer: Seq<u8>, record: PairingRecord) -> RelayStateView {
        RelayStateView { pairings: self.pairings.insert(peer, record), ..self }
    }

    /// The peers with a pairing relationship.
    pub open spec fn paired_peers(self) -> Set<Seq<u8>> {
        self.pairings.dom().filter(|peer: Seq<u8>| self.pairings[peer].paired)
    }
}

/// The next pairing generation, which is never zero.
pub open spec fn next_pairing_generation(generation: u64) -> u64 {
    if generation == u64::MAX {
        generation
    } else {
        (generation + 1) as u64
    }
}

/// The record once its window was renewed if it is over.
pub open spec fn in_window(record: PairingRecord, now: u64) -> PairingRecord {
    if now - record.challenge_window_started >= PAIRING_CHALLENGE_WINDOW {
        PairingRecord { challenge_window_started: now, challenge_count: 0, ..record }
    } else {
        record
    }
}

/// Reserving a challenge: the state that results and whether the peer may be challenged.
pub open spec fn challenge_reserved(before: RelayStateView, peer: Seq<u8>, now: u64) -> (
    RelayStateView,
    bool,
) {
    let record = in_window(before.record_or(peer, 1, now), now);
    if before.has_no_room(peer) || before.is_paired(peer) {
        (before, false)
    } else if record.challenge_count >= MAX_PAIRING_CHALLENGES_PER_WINDOW {
        (before.with_record(peer, record), false)
    } else {
        (
            before.with_record(
                peer,
                PairingRecord {
                    challenge_count: (record.challenge_count + 1) as usize,
                    failed_attempts: 0,
                    ..record
                },
            ),
            true,
        )
    }
}

/// Recording a failed submission: the state that results and whether another may follow.
pub open spec fn failure_recorded(before: RelayStateView, peer: Seq<u8>, now: u64) -> (
    RelayStateView,
    bool,
) {
    let record = before.record_or(peer, 1, now);
    if before.has_no_room(peer) {
        (before, false)
    } else if record.failed_attempts >= MAX_PAIRING_ATTEMPTS {
        (before.with_record(peer, record), false)
    } else {
        (
            before.with_record(
                peer,
                PairingRecord { failed_attempts: (record.failed_attempts + 1) as usize, ..record },
            ),
            record.failed_attempts + 1 < MAX_PAIRING_ATTEMPTS,
        )
    }
}

/// Marking a peer paired: the state that results and whether there was room.
pub open spec fn marked_paired(before: RelayStateView, peer: Seq<u8>, now: u64) -> (
    RelayStateView,
    bool,
) {
    let record = before.record_or(peer, 0, now);
    if before.has_no_room(peer) {
        (before, false)
    } else {
        (
            before.with_record(
                peer,
                PairingRecord {
                    generation: next_pairing_generation(record.generation),
                    paired: true,
                    failed_attempts: 0,
                    ..record
                },
            ),
            true,
        )
    }
}

/// Revoking a peer: the state that results.
pub open spec fn revoked(before: RelayStateView, peer: Seq<u8>) -> RelayStateView {
    if before.pairings.dom().contains(peer) {
        let record = before.pairings[peer];
        before.with_record(
            peer,
            PairingRecord {
                generation: next_pairing_generation(record.generation),
                paired: false,
                failed_attempts: 0,
                ..record
            },
        )
    } else {
        before
    }
}

/// Admitting a connection: the state that results and the generation of the connection.
pub open spec fn admitted(before: RelayStateView, peer: Seq<u8>) -> (RelayStateView, Option<u64>) {
    if before.active.dom().len() >= before.max_connections {
        (before, None)
    } else {
        let taken = RelayStateView {
            next_generation: if before.next_generation == u64::MAX {
                0
            } else {
                (before.next_generation + 1) as u64
            },
            ..before
        };
        if before.active.dom().contains(peer) {
            (taken, None)
        } else {
            (
                RelayStateView {
                    active: before.active.insert(peer, before.next_generation),
                    ..taken
                },
                Some(before.next_generation),
            )
        }
    }
}

/// Ending a connection: the peer's slot is free again, and with it an unpaired record.
pub open spec fn released(before: RelayStateView, peer: Seq<u8>, generation: u64) -> RelayStateView {
    if before.active.dom().contains(peer) && before.active[peer] == generation {
        RelayStateView {
            active: before.active.remove(peer),
            pairings: if before.pairings.dom().contains(peer) && !before.pairings[peer].paired {
                before.pairings.remove(peer)
            } else {
                before.pairings
            },
            ..before
        }
    } else {
        before
    }
}

/// What revoking a peer found.
#[derive(Clone, Copy, Debug, Eq, PartialEq, Structural)]
pub struct Revocation {
    /// The peer had a pairing relationship.
    pub was_paired: bool,
    /// The peer has a connection, which has to be closed.
    pub close_connection: bool,
}

/// Admission state of one endpoint.
pub struct IrohRelayState {
    max_connections: usize,
    pairings: KeyTable<PairingRecord>,
    active: KeyTable<u64>,
    next_generation: u64,
}

impl View for IrohRelayState {
    type V = RelayStateView;

    closed spec fn view(&self) -> RelayStateView {
        RelayStateView {
            max_connections: self.max_connections,
            pairings: self.pairings@,
            active: self.active@,
            next_generation: self.next_generation,
        }
    }
}

proof fn lemma_count_paired(
    order: Seq<Seq<u8>>,
    pairings: Map<Seq<u8>, PairingRecord>,
    peer: Seq<u8>,
)
    requires
        !order.contains(peer),
    ensures
        order.push(peer).to_set().filter(|p: Seq<u8>| pairings[p].paired).len()
            == order.to_set().filter(|p: Seq<u8>| pairings[p].paired).len() + (
        if pairings[peer].paired {
            1int
        } else {
            0
        }),
        order.to_set().finite(),
{
    let chosen = |p: Seq<u8>| pairings[p].paired;
    let before = order.to_set().filter(chosen);
    let after = order.push(peer).to_set().filter(chosen);
    vstd::seq_lib::seq_to_set_is_finite(order);
    assert(order.push(peer).to_set() =~= order.to_set().insert(peer)) by {
        assert forall|p: Seq<u8>| order.push(peer).contains(p) == (order.contains(p) || p
            == peer) by {
            if order.contains(p) {
                let i = choose|i: int| 0 <= i < order.len() && order[i] == p;
                assert(order.push(peer)[i] == p);
            }
            if p == peer {
                assert(order.push(peer)[order.len() as int] == p);
            }
        }
    }
    if pairings[peer].paired {
        assert(after =~= before.insert(peer));
    } else {
        assert(after =~= before);
    }
}

impl IrohRelayState {
    /// The state is well formed: its tables are, and every count is within its bound.
    pub closed spec fn wf(&self) -> bool {
        self.pairings.wf() && self.active.wf() && self@.within_bounds()
    }

    /// A well-formed state is within its bounds.
    pub proof fn lemma_within_bounds(&self)
        requires
            self.wf(),
        ensures
            self@.within_bounds(),
    {
    }

    /// The state of an endpoint that was just made.
    pub fn new(max_connections: usize) -> (state: Self)
        ensures
            state.wf(),
            state@ == (RelayStateView {
                max_connections,
                pairings: Map::empty(),
                active: Map::empty(),
                next_generation: 1,
            }),
    {
        IrohRelayState {
            max_connections,
            pairings: KeyTable::new(),
            active: KeyTable::new(),
            next_generation: 1,
        }
    }

    /// Reserves the one connection of a peer; the connection counts until it is released.
    pub fn try_admit(&mut self, peer: [u8; 32]) -> (generation: Option<u64>)
        requires
            old(self).wf(),
        ensures
            final(self).wf(),
            (final(self)@, generation) == admitted(old(self)@, peer@),
    {
        if self.active.len() >= self.max_connections {
            return None;
        }
        let generation: u64 = self.next_generation;
        self.next_generation = generation.wrapping_add(1);
        if self.active.contains(&peer) {
            return None;
        }
        self.active.set(peer, generation);
        Some(generation)
    }

    /// Ends the connection of this generation; an unpaired peer gives its record back.
    pub fn release(&mut self, peer: &[u8; 32], generation: u64)
        requires
            old(self).wf(),
        ensures
            final(self).wf(),
            final(self)@ == released(old(self)@, peer@, generation),
    {
        let current = match self.active.get(peer) {
            Some(found) => *found == generation,
            None => false,
        };
        if current {
            self.active.remove(peer);
            let unpaired = match self.pairings.get(peer) {
                Some(record) => !record.paired,
                None => false,
            };
            if unpaired {
                self.pairings.remove(peer);
            }
        }
    }

    /// Generation of the connection of a peer.
    pub fn connection_generation(&self, peer: &[u8; 32]) -> (generation: Option<u64>)
        requires
            self.wf(),
        ensures
            generation == (if self@.active.dom().contains(peer@) {
                Some(self@.active[peer@])
            } else {
                None
            }),
    {
        match self.active.get(peer) {
            Some(generation) => Some(*generation),
            None => None,
        }
    }

    /// Tells whether a peer has a pairing relationship.
    pub fn is_paired(&self, peer: &[u8; 32]) -> (paired: bool)
        requires
            self.wf(),
        ensures
            paired == self@.is_paired(peer@),
    {
        match self.pairings.get(peer) {
            Some(record) => record.paired,
            None => false,
        }
    }

    /// Reserves one pairing challenge under the limits of the peer and of the registry.
    ///
    /// `now` is a reading of the monotonic clock in nanoseconds.
    pub fn reserve_pairing_challenge(&mut self, peer: [u8; 32], now: u64) -> (reserved: bool)
        requires
            old(self).wf(),
        ensures
            final(self).wf(),
            (final(self)@, reserved) == challenge_reserved(old(self)@, peer@, now),
    {
        let known = match self.pairings.get(&peer) {
            Some(record) => Some(*record),
            None => None,
        };
        let mut record = match known {
            Some(found) => found,
            None => {
                if self.pairings.len() >= self.max_connections {
                    return false;
                }
                PairingRecord {
                    generation: 1,
                    paired: false,
                    failed_attempts: 0,
                    challenge_window_started: now,
                    challenge_count: 0,
                }
            },
        };
        if record.paired {
            return false;
        }
        if now >= record.challenge_window_started && now - record.challenge_window_started
            >= PAIRING_CHALLENGE_WINDOW {
            record.challenge_window_started = now;
            record.challenge_count = 0;
        }
        if record.challenge_count >= MAX_PAIRING_CHALLENGES_PER_WINDOW {
            self.pairings.set(peer, record);
            return false;
        }
        record.challenge_count = record.challenge_count + 1;
        record.failed_attempts = 0;
        self.pairings.set(peer, record);
        true
    }

    /// Records one failed pairing submission and tells whether another may follow.
    pub fn record_pairing_failure(&mut self, peer: [u8; 32], now: u64) -> (may_continue: bool)
        requires
            old(self).wf(),
        ensures
            final(self).wf(),
            (final(self)@, may_continue) == failure_recorded(old(self)@, peer@, now),
    {
        let known = match self.pairings.get(&peer) {
            Some(record) => Some(*record),
            None => None,
        };
        let mut record = match known {
            Some(found) => found,
            None => {
                if self.pairings.len() >= self.max_connections {
                    return false;
                }
                PairingRecord {
                    generation: 1,
                    paired: false,
                    failed_attempts: 0,
                    challenge_window_started: now,
                    challenge_count: 0,
                }
            },
        };
        if record.failed_attempts >= MAX_PAIRING_ATTEMPTS {
            self.pairings.set(peer, record);
            return false;
        }
        record.failed_attempts = record.failed_attempts + 1;
        let may_continue = record.failed_attempts < MAX_PAIRING_ATTEMPTS;
        self.pairings.set(peer, record);
        may_continue
    }

    /// Marks a peer paired if its record exists or can be made.
    pub fn mark_paired(&mut self, peer: [u8; 32], now: u64) -> (marked: bool)
        requires
            old(self).wf(),
        ensures
            final(self).wf(),
            (final(self)@, marked) == marked_paired(old(self)@, peer@, now),
    {
        let known = match self.pairings.get(&peer) {
            Some(record) => Some(*record),
            None => None,
        };
        let mut record = match known {
            Some(found) => found,
            None => {
                if self.pairings.len() >= self.max_connections {
                    return false;
                }
                PairingRecord {
                    generation: 0,
                    paired: false,
                    failed_attempts: 0,
                    challenge_window_started: now,
                    challenge_count: 0,
                }
            },
        };
        record.generation = record.generation.saturating_add(1);
        record.paired = true;
        record.failed_attempts = 0;
        self.pairings.set(peer, record);
        true
    }

    /// Revokes a peer and says whether its connection has to be closed.
    pub fn revoke_peer(&mut self, peer: [u8; 32]) -> (revocation: Revocation)
        requires
            old(self).wf(),
        ensures
            final(self).wf(),
            final(self)@ == revoked(old(self)@, peer@),
            revocation.was_paired == old(self)@.is_paired(peer@),
            revocation.close_connection == old(self)@.active.dom().contains(peer@),
    {
        let close_connection = self.active.contains(&peer);
        let known = match self.pairings.get(&peer) {
            Some(record) => Some(*record),
            None => None,
        };
        match known {
            None => Revocation { was_paired: false, close_connection },
            Some(found) => {
                let mut record = found;
                record.paired = false;
                record.generation = record.generation.saturating_add(1);
                record.failed_attempts = 0;
                self.pairings.set(peer, record);
                Revocation { was_paired: found.paired, close_connection }
            },
        }
    }

    /// The number of connections.
    pub fn active_count(&self) -> (count: usize)
        requires
            self.wf(),
        ensures
            count == self@.active.dom().len(),
    {
        self.active.len()
    }

    /// The number of pairing records.
    pub fn record_count(&self) -> (count: usize)
        requires
            self.wf(),
        ensures
            count == self@.pairings.dom().len(),
    {
        self.pairings.len()
    }

    /// The number of peers with a pairing relationship.
    pub fn paired_count(&self) -> (count: usize)
        requires
            self.wf(),
        ensures
            count == self@.paired_peers().len(),
    {
        let total: usize = self.pairings.len();
        let mut count: usize = 0;
        let mut i: usize = 0;
        let ghost order = self.pairings.order();
        let ghost records = self.pairings@;
        proof {
            self.pairings.lemma_order();
            assert(order.take(0).to_set() =~= Set::empty());
            assert(order.take(0).to_set().filter(|p: Seq<u8>| records[p].paired) =~= Set::empty());
        }
        while i < total
            invariant
                self.pairings.wf(),
                order == self.pairings.order(),
                records == self.pairings@,
                order.no_duplicates(),
                order.len() == total,
                count <= i <= total,
                count == order.take(i as int).to_set().filter(|p: Seq<u8>| records[p].paired).len(),
            decreases total - i,
        {
            let record = self.pairings.value_at(i);
            proof {
                let prefix = order.take(i as int);
                let peer = order[i as int];
                assert(!prefix.contains(peer)) by {
                    if prefix.contains(peer) {
                        let j = choose|j: int| 0 <= j < prefix.len() && prefix[j] == peer;
                        assert(order[j] == peer);
                    }
                }
                lemma_count_paired(prefix, records, peer);
                assert(prefix.push(peer) =~= order.take(i + 1));
            }
            if record.paired {
                count = count + 1;
            }
            i = i + 1;
        }
        proof {
            self.pairings.lemma_order();
            assert(order.take(total as int) =~= order);
            assert(self@.paired_peers() =~= order.to_set().filter(
                |p: Seq<u8>| records[p].paired,
            ));
        }
        count
    }
}

/// No operation on the admission state ever exceeds a bound: neither the connections, nor the
/// pairing records, nor the attempts and challenges of a peer.
pub proof fn law_operations_keep_bounds(
    before: RelayStateView,
    peer: Seq<u8>,
    generation: u64,
    now: u64,
)
    requires
        before.within_bounds(),
    ensures
        challenge_reserved(before, peer, now).0.within_bounds(),
        failure_recorded(before, peer, now).0.within_bounds(),
        marked_paired(before, peer, now).0.within_bounds(),
        revoked(before, peer).within_bounds(),
        admitted(before, peer).0.within_bounds(),
        released(before, peer, generation).within_bounds(),
{
}

/// The number of challenges that a peer is granted when it asks at these times.
pub open spec fn challenges_granted(before: RelayStateView, peer: Seq<u8>, times: Seq<u64>) -> nat
    decreases times.len(),
{
    if times.len() == 0 {
        0
    } else {
        let (after, reserved) = challenge_reserved(before, peer, times[0]);
        challenges_granted(after, peer, times.drop_first()) + if reserved {
            1nat
        } else {
            0nat
        }
    }
}

/// The time lies in the challenge window that starts at `started`.
pub open spec fn inside_window(started: u64, now: u64) -> bool {
    0 <= now - started < PAIRING_CHALLENGE_WINDOW
}

/// However often a peer asks within one window, it is granted no more challenges than a window
/// allows, and none that the window has already used. The window of a new peer starts with its
/// first request.
pub proof fn law_challenge_rate_is_bounded(before: RelayStateView, peer: Seq<u8>, times: Seq<u64>)
    requires
        before.within_bounds(),
        times.len() > 0,
        forall|i: int|
            0 <= i < times.len() ==> inside_window(
                before.record_or(peer, 1, times[0]).challenge_window_started,
                #[trigger] times[i],
            ),
    ensures
        challenges_granted(before, peer, times) + before.record_or(
            peer,
            1,
            times[0],
        ).challenge_count <= MAX_PAIRING_CHALLENGES_PER_WINDOW,
{
    if before.pairings.dom().contains(peer) {
        lemma_challenges(before, peer, times);
    } else if before.has_no_room(peer) {
        lemma_no_room(before, peer, times);
    } else {
        let after = challenge_reserved(before, peer, times[0]).0;
        let rest = times.drop_first();
        assert forall|i: int| 0 <= i < rest.len() implies inside_window(
            after.pairings[peer].challenge_window_started,
            #[trigger] rest[i],
        ) by {
            assert(rest[i] == times[i + 1]);
        }
        lemma_challenges(after, peer, rest);
    }
}

proof fn lemma_no_room(before: RelayStateView, peer: Seq<u8>, times: Seq<u64>)
    requires
        before.has_no_room(peer),
    ensures
        challenges_granted(before, peer, times) == 0,
    decreases times.len(),
{
    if times.len() > 0 {
        lemma_no_room(before, peer, times.drop_first());
    }
}

proof fn lemma_challenges(before: RelayStateView, peer: Seq<u8>, times: Seq<u64>)
    requires
        before.within_bounds(),
        before.pairings.dom().contains(peer),
        forall|i: int|
            0 <= i < times.len() ==> inside_window(
                before.pairings[peer].challenge_window_started,
                #[trigger] times[i],
            ),
    ensures
        challenges_granted(before, peer, times) + before.pairings[peer].challenge_count
            <= MAX_PAIRING_CHALLENGES_PER_WINDOW,
    decreases times.len(),
{
    if times.len() > 0 {
        let after = challenge_reserved(before, peer, times[0]).0;
        assert(inside_window(before.pairings[peer].challenge_window_started, times[0]));
        let rest = times.drop_first();
        assert forall|i: int| 0 <= i < rest.len() implies inside_window(
            after.pairings[peer].challenge_window_started,
            #[trigger] rest[i],
        ) by {
            assert(rest[i] == times[i + 1]);
        }
        lemma_challenges(after, peer, rest);
    }
}

/// The number of failed submissions after which a peer may go on, when it fails at these times.
pub open spec fn failures_forgiven(before: RelayStateView, peer: Seq<u8>, times: Seq<u64>) -> nat
    decreases times.len(),
{
    if times.len() == 0 {
        0
    } else {
        let (after, may_continue) = failure_recorded(before, peer, times[0]);
        failures_forgiven(after, peer, times.drop_first()) + if may_continue {
            1nat
        } else {
            0nat
        }
    }
}

/// However often a peer fails within one challenge, it may go on after fewer than the allowed
/// number of failures.
pub proof fn law_failed_attempts_are_bounded(before: RelayStateView, peer: Seq<u8>, times: Seq<u64>)
    requires
        before.within_bounds(),
    ensures
        failures_forgiven(before, peer, times) < MAX_PAIRING_ATTEMPTS,
{
    lemma_failures(before, peer, times);
}

proof fn lemma_failures(before: RelayStateView, peer: Seq<u8>, times: Seq<u64>)
    requires
        before.within_bounds(),
    ensures
        ({
            let used = before.record_or(peer, 1, 0).failed_attempts;
            failures_forgiven(before, peer, times) <= if used < MAX_PAIRING_ATTEMPTS {
                MAX_PAIRING_ATTEMPTS - 1 - used
            } else {
                0
            }
        }),
    decreases times.len(),
{
    if times.len() > 0 {
        let (after, may_continue) = failure_recorded(before, peer, times[0]);
        lemma_failures(after, peer, times.drop_first());
    }
}

/// A granted challenge starts with no failed attempt, and its peer is not paired yet.
pub proof fn law_challenge_renews_attempts(before: RelayStateView, peer: Seq<u8>, now: u64)
    requires
        challenge_reserved(before, peer, now).1,
    ensures
        ({
            let after = challenge_reserved(before, peer, now).0;
            &&& after.pairings.dom().contains(peer)
            &&& after.pairings[peer].failed_attempts == 0
            &&& !after.is_paired(peer)
        }),
{
}

/// Revoking a peer ends its pairing and leaves every other peer as it is.
pub proof fn law_revoked_peer_is_unpaired(before: RelayStateView, peer: Seq<u8>, other: Seq<u8>)
    ensures
        !revoked(before, peer).is_paired(peer),
        other != peer ==> revoked(before, peer).is_paired(other) == before.is_paired(other),
        before.is_paired(peer) && before.pairings[peer].generation < u64::MAX ==> revoked(
            before,
            peer,
        ).pairings[peer].generation > before.pairings[peer].generation,
{
}

/// A peer that disconnects without being paired keeps no record, a paired one keeps its own, and
/// no other peer is touched.
pub proof fn law_disconnect_releases_the_slot(
    before: RelayStateView,
    peer: Seq<u8>,
    generation: u64,
    other: Seq<u8>,
)
    requires
        before.active.dom().contains(peer),
        before.active[peer] == generation,
        other != peer,
    ensures
        ({
            let after = released(before, peer, generation);
            &&& !after.active.dom().contains(peer)
            &&& after.pairings.dom().contains(peer) == before.is_paired(peer)
            &&& after.is_paired(peer) == before.is_paired(peer)
            &&& after.active.dom().contains(other) == before.active.dom().contains(other)
            &&& after.pairings.dom().contains(other) == before.pairings.dom().contains(other)
            &&& after.pairings.dom().contains(other) ==> after.pairings[other]
                == before.pairings[other]
        }),
{
}

/// A peer that has a connection gets no second one, and a late end of an earlier connection does
/// not end its successor.
pub proof fn law_one_connection_per_peer(before: RelayStateView, peer: Seq<u8>, stale: u64)
    requires
        before.active.dom().contains(peer),
        stale != before.active[peer],
    ensures
        admitted(before, peer).1 is None,
        admitted(before, peer).0.active == before.active,
        released(before, peer, stale) == before,
{
}

/// What an operation on one peer leaves alone: every record and every connection of the others.
pub open spec fn others_untouched(
    before: RelayStateView,
    after: RelayStateView,
    peer: Seq<u8>,
) -> bool {
    &&& after.max_connections == before.max_connections
    &&& forall|other: Seq<u8>|
        other != peer ==> (#[trigger] after.pairings.dom().contains(other)
            <==> before.pairings.dom().contains(other))
    &&& forall|other: Seq<u8>|
        other != peer && before.pairings.dom().contains(other) ==> #[trigger] after.pairings[other]
            == before.pairings[other]
    &&& forall|other: Seq<u8>|
        other != peer ==> (#[trigger] after.active.dom().contains(other)
            <==> before.active.dom().contains(other))
    &&& forall|other: Seq<u8>|
        other != peer && before.active.dom().contains(other) ==> #[trigger] after.active[other]
            == before.active[other]
}

/// No operation on a peer touches another one: neither its record, nor its pairing, nor its
/// connection.
pub proof fn law_operations_touch_one_peer(
    before: RelayStateView,
    peer: Seq<u8>,
    generation: u64,
    now: u64,
)
    ensures
        others_untouched(before, challenge_reserved(before, peer, now).0, peer),
        others_untouched(before, failure_recorded(before, peer, now).0, peer),
        others_untouched(before, marked_paired(before, peer, now).0, peer),
        others_untouched(before, revoked(before, peer), peer),
        others_untouched(before, admitted(before, peer).0, peer),
        others_untouched(before, released(before, peer, generation), peer),
{
}

/// Pairing and connecting are apart: no operation on pairings opens or ends a connection, and
/// admitting a connection changes no pairing.
pub proof fn law_pairing_and_connecting_are_apart(before: RelayStateView, peer: Seq<u8>, now: u64)
    ensures
        challenge_reserved(before, peer, now).0.active == before.active,
        failure_recorded(before, peer, now).0.active == before.active,
        marked_paired(before, peer, now).0.active == before.active,
        revoked(before, peer).active == before.active,
        challenge_reserved(before, peer, now).0.next_generation == before.next_generation,
        failure_recorded(before, peer, now).0.next_generation == before.next_generation,
        marked_paired(before, peer, now).0.next_generation == before.next_generation,
        revoked(before, peer).next_generation == before.next_generation,
        admitted(before, peer).0.pairings == before.pairings,
{
}

/// A peer is marked paired exactly if it has a record or the registry has room for one. It is paired
/// then, with no failed attempt, with a later generation than before, and with its challenges as
/// they were; without room nothing changes.
pub proof fn law_marked_peer_is_paired(before: RelayStateView, peer: Seq<u8>, now: u64)
    ensures
        marked_paired(before, peer, now).1 <==> before.pairings.dom().contains(peer)
            || before.pairings.dom().len() < before.max_connections,
        !marked_paired(before, peer, now).1 ==> marked_paired(before, peer, now).0 == before,
        marked_paired(before, peer, now).1 ==> {
            let after = marked_paired(before, peer, now).0;
            &&& after.pairings.dom().contains(peer)
            &&& after.pairings[peer].paired
            &&& after.pairings[peer].failed_attempts == 0
            &&& before.pairings.dom().contains(peer) ==> {
                let was = before.pairings[peer];
                &&& was.generation < u64::MAX ==> after.pairings[peer].generation
                    == was.generation + 1
                &&& was.generation == u64::MAX ==> after.pairings[peer].generation == u64::MAX
                &&& after.pairings[peer].challenge_count == was.challenge_count
                &&& after.pairings[peer].challenge_window_started == was.challenge_window_started
            }
            &&& !before.pairings.dom().contains(peer) ==> {
                &&& after.pairings[peer].generation == 1
                &&& after.pairings[peer].challenge_count == 0
                &&& after.pairings[peer].challenge_window_started == now
            }
        },
{
}

/// Marking one more peer paired raises the number of paired peers by one, and marking it again
/// changes no number.
pub proof fn law_paired_peers_are_counted(before: RelayStateView, peer: Seq<u8>, now: u64)
    requires
        before.pairings.dom().finite(),
        marked_paired(before, peer, now).1,
    ensures
        marked_paired(before, peer, now).0.paired_peers() == before.paired_peers().insert(peer),
        marked_paired(before, peer, now).0.paired_peers().len() == before.paired_peers().len() + (
        if before.is_paired(peer) {
            0int
        } else {
            1
        }),
        revoked(before, peer).paired_peers() == before.paired_peers().remove(peer),
{
    assert(marked_paired(before, peer, now).0.paired_peers() =~= before.paired_peers().insert(
        peer,
    ));
    assert(revoked(before, peer).paired_peers() =~= before.paired_peers().remove(peer));
}

/// The peers that count as paired are those whose record says so.
pub proof fn law_paired_means_recorded(state: RelayStateView, peer: Seq<u8>)
    ensures
        state.is_paired(peer) <==> state.pairings.dom().contains(peer)
            && state.pairings[peer].paired,
        state.paired_peers().contains(peer) <==> state.pairings.dom().contains(peer)
            && state.pairings[peer].paired,
{
}

/// A challenge is granted exactly to a peer that is not paired, that has a record or room for one,
/// and that was granted fewer than three within the minute that its window lasts. A granted challenge
/// is counted, forgets earlier failures and starts a new window if the old one is over; a refused one
/// changes at most a window that is over.
pub proof fn law_challenges_are_granted_at_their_rate(
    before: RelayStateView,
    peer: Seq<u8>,
    now: u64,
)
    ensures
        ({
            let known = before.pairings.dom().contains(peer);
            let was = before.pairings[peer];
            let over = now - was.challenge_window_started >= 60_000_000_000;
            let (after, granted) = challenge_reserved(before, peer, now);
            &&& granted <==> if known {
                !was.paired && (over || was.challenge_count < 3)
            } else {
                before.pairings.dom().len() < before.max_connections
            }
            &&& granted ==> {
                let record = after.pairings[peer];
                &&& after.pairings.dom().contains(peer)
                &&& !record.paired
                &&& record.failed_attempts == 0
                &&& record.generation == if known {
                    was.generation
                } else {
                    1
                }
                &&& known && !over ==> {
                    &&& record.challenge_count == was.challenge_count + 1
                    &&& record.challenge_window_started == was.challenge_window_started
                }
                &&& !known || over ==> {
                    &&& record.challenge_count == 1
                    &&& record.challenge_window_started == now
                }
            }
            &&& !granted ==> after.pairings =~= before.pairings
        }),
{
}

/// A failed submission is counted until five are, and another may follow exactly while fewer than
/// five are. It changes neither the pairing nor the challenges of the peer; without room for a record
/// nothing changes and nothing may follow.
pub proof fn law_failures_are_counted(before: RelayStateView, peer: Seq<u8>, now: u64)
    ensures
        ({
            let known = before.pairings.dom().contains(peer);
            let was = before.pairings[peer];
            let (after, may_continue) = failure_recorded(before, peer, now);
            let record = after.pairings[peer];
            &&& !known && before.pairings.dom().len() >= before.max_connections ==> {
                &&& !may_continue
                &&& after == before
            }
            &&& !known && before.pairings.dom().len() < before.max_connections ==> {
                &&& may_continue
                &&& after.pairings.dom().contains(peer)
                &&& record.failed_attempts == 1
                &&& !record.paired
                &&& record.challenge_count == 0
                &&& record.challenge_window_started == now
                &&& record.generation == 1
            }
            &&& known ==> {
                &&& after.pairings.dom().contains(peer)
                &&& may_continue <==> was.failed_attempts < 4
                &&& record.failed_attempts == if was.failed_attempts < 5 {
                    was.failed_attempts + 1
                } else {
                    was.failed_attempts as int
                }
                &&& record.paired == was.paired
                &&& record.generation == was.generation
                &&& record.challenge_count == was.challenge_count
                &&& record.challenge_window_started == was.challenge_window_started
            }
        }),
{
}

/// A peer without a connection is admitted exactly while fewer connections are open than allowed, and
/// gets a generation of its own that its end has to name.
pub proof fn law_connections_are_admitted_while_there_is_room(
    before: RelayStateView,
    peer: Seq<u8>,
)
    ensures
        ({
            let (after, generation) = admitted(before, peer);
            &&& generation is Some <==> !before.active.dom().contains(peer)
                && before.active.dom().len() < before.max_connections
            &&& generation matches Some(own) ==> {
                &&& own == before.next_generation
                &&& after.active.dom().contains(peer)
                &&& after.active[peer] == own
                &&& before.next_generation < u64::MAX ==> after.next_generation == own + 1
            }
            &&& generation is None ==> after.active == before.active
        }),
{
}

/// A connection that was admitted and ended leaves the connections as they were, and a paired peer
/// stays paired through it.
pub proof fn law_admission_and_end_cancel(before: RelayStateView, peer: Seq<u8>)
    requires
        admitted(before, peer).1 is Some,
    ensures
        ({
            let (during, generation) = admitted(before, peer);
            let after = released(during, peer, generation->Some_0);
            &&& after.active == before.active
            &&& after.is_paired(peer) == before.is_paired(peer)
            &&& before.is_paired(peer) ==> after.pairings == before.pairings
            &&& after.next_generation == during.next_generation
        }),
{
    let (during, generation) = admitted(before, peer);
    let after = released(during, peer, generation->Some_0);
    assert(after.active =~= before.active);
}

/// A connection that this peer does not have cannot be ended.
pub proof fn law_unknown_connection_is_not_ended(
    before: RelayStateView,
    peer: Seq<u8>,
    generation: u64,
)
    requires
        !before.active.dom().contains(peer) || before.active[peer] != generation,
    ensures
        released(before, peer, generation) == before,
{
}

/// A revoked peer keeps its challenges and loses its failures, and a peer without a record is left
/// alone.
pub proof fn law_revocation_keeps_the_rate(before: RelayStateView, peer: Seq<u8>)
    ensures
        !before.pairings.dom().contains(peer) ==> revoked(before, peer) == before,
        before.pairings.dom().contains(peer) ==> {
            let was = before.pairings[peer];
            let record = revoked(before, peer).pairings[peer];
            &&& revoked(before, peer).pairings.dom() == before.pairings.dom()
            &&& !record.paired
            &&& record.failed_attempts == 0
            &&& record.challenge_count == was.challenge_count
            &&& record.challenge_window_started == was.challenge_window_started
            &&& was.generation < u64::MAX ==> record.generation == was.generation + 1
        },
{
    if before.pairings.dom().contains(peer) {
        assert(revoked(before, peer).pairings.dom() =~= before.pairings.dom());
    }
}

} // verus!
