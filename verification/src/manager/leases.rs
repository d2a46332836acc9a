//! What the operations of a Manager promise to the holders of leases.

use crate::error::RelayError;
use crate::manager::lifecycle::{EnsureView, ManagerView};
use crate::manager::slots::SlotView;
use vstd::prelude::*;

verus! {

/// Everything of a slot but its leases and its idle time is as before.
pub open spec fn same_service(before: SlotView, after: SlotView) -> bool {
    &&& after.session == before.session
    &&& after.resolved == before.resolved
    &&& after.fingerprint == before.fingerprint
    &&& after.child_generation == before.child_generation
    &&& after.configuration_generation == before.configuration_generation
    &&& after.data_port == before.data_port
    &&& after.child == before.child
}

/// Every slot serves its session as before, and holds the leases of all tokens but `token` as
/// before.
pub open spec fn other_leases_kept(
    before: Seq<SlotView>,
    after: Seq<SlotView>,
    token: Seq<u8>,
) -> bool {
    &&& after.len() == before.len()
    &&& forall|i: int| 0 <= i < before.len() ==> same_service(before[i], #[trigger] after[i])
    &&& forall|i: int, other: Seq<u8>|
        0 <= i < before.len() && other != token ==> (#[trigger] after[i].leases.dom().contains(
            other,
        ) <==> before[i].leases.dom().contains(other))
    &&& forall|i: int, other: Seq<u8>|
        0 <= i < before.len() && other != token && before[i].leases.dom().contains(other)
            ==> #[trigger] after[i].leases[other] == before[i].leases[other]
}

/// What no operation on a lease changes: the configuration, the resolver, the state but for its
/// being written, the ports and the start under way.
pub open spec fn surroundings_kept(before: ManagerView, after: ManagerView) -> bool {
    &&& after.config == before.config
    &&& after.resolver == before.resolver
    &&& after.state == before.state
    &&& after.ports == before.ports
    &&& after.starting == before.starting
    &&& after.wrapped == before.wrapped
}

/// Whether a lease is active is read off the slots: one of them holds it with a later end.
pub proof fn law_active_lease_is_held(slots: Seq<SlotView>, token: Seq<u8>, now: u64)
    ensures
        forall|i: int|
            0 <= i < slots.len() && (#[trigger] slots[i]).leases.dom().contains(token)
                && slots[i].leases[token] > now ==> crate::manager::lifecycle::lease_active(
                slots,
                token,
                now,
            ),
        (forall|i: int|
            0 <= i < slots.len() ==> !((#[trigger] slots[i]).leases.dom().contains(token)
                && slots[i].leases[token] > now)) ==> !crate::manager::lifecycle::lease_active(
            slots,
            token,
            now,
        ),
{
}

proof fn lemma_activity_kept(
    before: Seq<SlotView>,
    after: Seq<SlotView>,
    token: Seq<u8>,
    other: Seq<u8>,
    time: u64,
)
    requires
        other_leases_kept(before, after, token),
        other != token,
    ensures
        crate::manager::lifecycle::lease_active(after, other, time)
            == crate::manager::lifecycle::lease_active(before, other, time),
{
    if crate::manager::lifecycle::lease_active(before, other, time) {
        let i = choose|i: int|
            0 <= i < before.len() && (#[trigger] before[i]).leases.dom().contains(other) && time
                < before[i].leases[other];
        assert(after[i].leases.dom().contains(other));
        assert(after[i].leases[other] == before[i].leases[other]);
    }
    if crate::manager::lifecycle::lease_active(after, other, time) {
        let i = choose|i: int|
            0 <= i < after.len() && (#[trigger] after[i]).leases.dom().contains(other) && time
                < after[i].leases[other];
        assert(before[i].leases.dom().contains(other));
        assert(after[i].leases[other] == before[i].leases[other]);
    }
}

proof fn lemma_holder(slots: Seq<SlotView>, token: Seq<u8>)
    ensures
        crate::manager::slots::holder_place(slots, token) is Some <==> exists|i: int|
            0 <= i < slots.len() && (#[trigger] slots[i]).leases.dom().contains(token),
        crate::manager::slots::holder_place(slots, token) matches Some(at) ==> 0 <= at
            < slots.len() && slots[at].leases.dom().contains(token),
    decreases slots.len(),
{
    if exists|i: int| 0 <= i < slots.len() && (#[trigger] slots[i]).leases.dom().contains(token) {
        let i = choose|i: int|
            0 <= i < slots.len() && (#[trigger] slots[i]).leases.dom().contains(token);
        lemma_first_holder(slots, token, i);
    }
    if crate::manager::slots::holder_place(slots, token) is Some {
        let at = crate::manager::slots::holder_place(slots, token)->Some_0;
        assert(crate::manager::slots::holder_is_at(slots, token, at));
        assert(slots[at].leases.dom().contains(token));
    }
}

proof fn lemma_first_holder(slots: Seq<SlotView>, token: Seq<u8>, i: int)
    requires
        0 <= i < slots.len(),
        slots[i].leases.dom().contains(token),
    ensures
        crate::manager::slots::holder_place(slots, token) is Some,
    decreases i,
{
    if exists|j: int| 0 <= j < i && (#[trigger] slots[j]).leases.dom().contains(token) {
        let j = choose|j: int| 0 <= j < i && (#[trigger] slots[j]).leases.dom().contains(token);
        lemma_first_holder(slots, token, j);
    } else {
        assert(crate::manager::slots::holder_is_at(slots, token, i));
    }
}

/// Renewing a lease changes the end of that lease only: every session keeps the set of its leases,
/// every other lease keeps its end and stays as active as it was, and no session becomes idle.
pub proof fn law_renewal_changes_one_lease(
    before: ManagerView,
    token: Seq<u8>,
    now: u64,
    other: Seq<u8>,
    time: u64,
)
    requires
        crate::manager::lifecycle::renewed(before, token, now).1 is Ok,
    ensures
        ({
            let after = crate::manager::lifecycle::renewed(before, token, now).0;
            &&& surroundings_kept(before, after)
            &&& other_leases_kept(before.slots, after.slots, token)
            &&& forall|i: int|
                0 <= i < before.slots.len() ==> (#[trigger] after.slots[i]).leases.dom()
                    == before.slots[i].leases.dom() && after.slots[i].idle_since
                    == before.slots[i].idle_since
            &&& other != token ==> crate::manager::lifecycle::lease_active(
                after.slots,
                other,
                time,
            ) == crate::manager::lifecycle::lease_active(before.slots, other, time)
        }),
{
    lemma_holder(before.slots, token);
    let at = crate::manager::slots::holder_place(before.slots, token)->Some_0;
    let after = crate::manager::lifecycle::renewed(before, token, now).0;
    assert forall|i: int| 0 <= i < before.slots.len() implies (#[trigger] after.slots[i]).leases.dom()
        == before.slots[i].leases.dom() && after.slots[i].idle_since
        == before.slots[i].idle_since by {
        assert(after.slots[i].leases.dom() =~= before.slots[i].leases.dom());
    }
    if other != token {
        lemma_activity_kept(before.slots, after.slots, token, other, time);
    }
}

/// A lease is renewed exactly if a session holds it, it has not ended, and its new end can be
/// stated; it then ends one lease time after `now`, in a session that held it, and the grant says
/// so.
pub proof fn law_renewal_succeeds_for_held_leases(before: ManagerView, token: Seq<u8>, now: u64)
    ensures
        ({
            let held = crate::manager::slots::holder_place(before.slots, token);
            let (after, grant) = crate::manager::lifecycle::renewed(before, token, now);
            &&& held is None <==> forall|i: int|
                0 <= i < before.slots.len() ==> !(#[trigger] before.slots[i]).leases.dom().contains(
                    token,
                )
            &&& held is None ==> grant == Err::<
                crate::manager::lifecycle::GrantView,
                RelayError,
            >(RelayError::InvalidLease) && after == before
            &&& held matches Some(at) ==> {
                let was = before.slots[at];
                let ended = was.leases[token] <= now;
                &&& was.leases.dom().contains(token)
                &&& ended ==> grant == Err::<crate::manager::lifecycle::GrantView, RelayError>(
                    RelayError::InvalidLease,
                )
                &&& !ended && now + before.config.lease_expiry > u64::MAX ==> grant is Err && after
                    == before
                &&& !ended && now + before.config.lease_expiry <= u64::MAX ==> {
                    &&& grant matches Ok(made)
                    &&& made.token == token
                    &&& made.expires_at == now + before.config.lease_expiry
                    &&& made.session == was.session
                    &&& made.fingerprint == was.fingerprint
                    &&& made.data_port == was.data_port
                    &&& made.child_generation == was.child_generation
                    &&& made.configuration_generation == was.configuration_generation
                    &&& made.broker_generation == before.state.broker_generation
                    &&& after.slots[at].leases[token] == now + before.config.lease_expiry
                    &&& after.unsaved
                }
            }
        }),
{
    lemma_holder(before.slots, token);
}

/// A lease that is renewed too late is dropped from its session, and nothing else is: every other
/// lease is kept, the session stays with its child and its port, and it is idle from `now` on if it
/// has no lease left.
pub proof fn law_late_renewal_drops_one_lease(before: ManagerView, token: Seq<u8>, now: u64)
    requires
        crate::manager::slots::holder_place(before.slots, token) matches Some(at)
            && before.slots[at].leases[token] <= now,
    ensures
        ({
            let at = crate::manager::slots::holder_place(before.slots, token)->Some_0;
            let after = crate::manager::lifecycle::renewed(before, token, now).0;
            dropped_from(before, after, at, token, now)
        }),
{
    lemma_holder(before.slots, token);
    let at = crate::manager::slots::holder_place(before.slots, token)->Some_0;
    let after = crate::manager::lifecycle::renewed(before, token, now).0;
    lemma_dropped(before, after, at, token, now);
}

/// The lease of `token` is gone from the slot at `at`, and nothing else changed but that the slot is
/// idle from `now` on if this was its last lease.
pub open spec fn dropped_from(
    before: ManagerView,
    after: ManagerView,
    at: int,
    token: Seq<u8>,
    now: u64,
) -> bool {
    &&& surroundings_kept(before, after)
    &&& after.unsaved
    &&& 0 <= at < before.slots.len()
    &&& other_leases_kept(before.slots, after.slots, token)
    &&& !after.slots[at].leases.dom().contains(token)
    &&& forall|i: int|
        0 <= i < before.slots.len() && i != at ==> (#[trigger] after.slots[i]) == before.slots[i]
    &&& (forall|left: Seq<u8>| #[trigger]
        before.slots[at].leases.dom().contains(left) ==> left == token)
        ==> after.slots[at].idle_since == Some(now)
    &&& (exists|left: Seq<u8>| #[trigger]
        before.slots[at].leases.dom().contains(left) && left != token)
        ==> after.slots[at].idle_since == before.slots[at].idle_since
}

proof fn lemma_dropped(
    before: ManagerView,
    after: ManagerView,
    at: int,
    token: Seq<u8>,
    now: u64,
)
    requires
        0 <= at < before.slots.len(),
        before.slots[at].leases.dom().contains(token),
        after == (ManagerView {
            slots: before.slots.update(
                at,
                crate::manager::lifecycle::lease_dropped(before.slots[at], token, now),
            ),
            unsaved: true,
            ..before
        }),
    ensures
        dropped_from(before, after, at, token, now),
{
    let was = before.slots[at].leases;
    if forall|left: Seq<u8>| #[trigger] was.dom().contains(left) ==> left == token {
        assert(was.remove(token).dom() =~= Set::<Seq<u8>>::empty());
    }
    if exists|left: Seq<u8>| #[trigger] was.dom().contains(left) && left != token {
        let left = choose|left: Seq<u8>| #[trigger] was.dom().contains(left) && left != token;
        assert(was.remove(token).dom().contains(left));
    }
}

/// Releasing a lease drops that lease only, from the session that holds it, and fails exactly if no
/// session does. The session stays with its child and its port.
pub proof fn law_release_drops_one_lease(
    before: ManagerView,
    token: Seq<u8>,
    now: u64,
    other: Seq<u8>,
    time: u64,
)
    ensures
        ({
            let (after, result) = crate::manager::lifecycle::released(before, token, now);
            &&& result is Ok <==> exists|i: int|
                0 <= i < before.slots.len() && (#[trigger] before.slots[i]).leases.dom().contains(
                    token,
                )
            &&& result matches Err(error) ==> error == RelayError::InvalidLease && after == before
            &&& result is Ok ==> dropped_from(
                before,
                after,
                crate::manager::slots::holder_place(before.slots, token)->Some_0,
                token,
                now,
            )
            &&& other != token ==> crate::manager::lifecycle::lease_active(
                after.slots,
                other,
                time,
            ) == crate::manager::lifecycle::lease_active(before.slots, other, time)
        }),
{
    lemma_holder(before.slots, token);
    let (after, result) = crate::manager::lifecycle::released(before, token, now);
    if result is Ok {
        let at = crate::manager::slots::holder_place(before.slots, token)->Some_0;
        lemma_dropped(before, after, at, token, now);
        if other != token {
            lemma_activity_kept(before.slots, after.slots, token, other, time);
        }
    }
}

/// The first session in order that holds a token is the one that a renewal or a release speaks of.
pub proof fn law_holder_is_the_first(slots: Seq<SlotView>, token: Seq<u8>, i: int)
    requires
        0 <= i < slots.len(),
        slots[i].leases.dom().contains(token),
    ensures
        crate::manager::slots::holder_place(slots, token) matches Some(at) && 0 <= at <= i
            && slots[at].leases.dom().contains(token),
{
    lemma_first_holder(slots, token, i);
    let at = crate::manager::slots::holder_place(slots, token)->Some_0;
    assert(crate::manager::slots::holder_is_at(slots, token, at));
    if at > i {
        assert(!slots[i].leases.dom().contains(token));
    }
}

/// A lease on a served session is added to that session and to nothing else: every other lease is
/// kept, the session is idle no more, and the lease ends one lease time after `now`.
pub proof fn law_grant_adds_one_lease(
    before: ManagerView,
    resolved: crate::manager::resolver::ResolvedView,
    fingerprint: Seq<u8>,
    token: Seq<u8>,
    now: u64,
    other: Seq<u8>,
    time: u64,
)
    requires
        crate::manager::lifecycle::ensured(
            before,
            resolved,
            fingerprint,
            token,
            now,
        ).1 is Granted,
    ensures
        ({
            let (after, step) = crate::manager::lifecycle::ensured(
                before,
                resolved,
                fingerprint,
                token,
                now,
            );
            let at = crate::manager::slots::slot_place(before.slots, resolved.session)->Some_0;
            let grant = step->Granted_0;
            &&& 0 <= at < before.slots.len()
            &&& before.slots[at].session == resolved.session
            &&& surroundings_kept(before, after)
            &&& after.unsaved
            &&& other_leases_kept(before.slots, after.slots, token)
            &&& forall|i: int|
                0 <= i < before.slots.len() && i != at ==> (#[trigger] after.slots[i])
                    == before.slots[i]
            &&& after.slots[at].leases.dom().contains(token)
            &&& after.slots[at].leases[token] == now + before.config.lease_expiry
            &&& after.slots[at].idle_since is None
            &&& grant.session == resolved.session
            &&& grant.fingerprint == fingerprint
            &&& grant.token == token
            &&& grant.expires_at == now + before.config.lease_expiry
            &&& grant.data_port == before.slots[at].data_port
            &&& grant.child_generation == before.slots[at].child_generation
            &&& grant.configuration_generation == before.slots[at].configuration_generation
            &&& grant.broker_generation == before.state.broker_generation
            &&& other != token ==> crate::manager::lifecycle::lease_active(
                after.slots,
                other,
                time,
            ) == crate::manager::lifecycle::lease_active(before.slots, other, time)
        }),
{
    let (after, step) = crate::manager::lifecycle::ensured(
        before,
        resolved,
        fingerprint,
        token,
        now,
    );
    let at = crate::manager::slots::slot_place(before.slots, resolved.session)->Some_0;
    assert(crate::manager::slots::slot_is_at(before.slots, resolved.session, at));
    if other != token {
        lemma_activity_kept(before.slots, after.slots, token, other, time);
    }
}

/// When a session is leased: a served one exactly if its fingerprint and its socket are those that it
/// is served with, any other exactly if a data port is free, and either only if the end of the lease
/// can be stated. A refusal changes nothing, and each has its own reason.
pub proof fn law_sessions_are_leased_when_they_can_be(
    before: ManagerView,
    resolved: crate::manager::resolver::ResolvedView,
    fingerprint: Seq<u8>,
    token: Seq<u8>,
    now: u64,
)
    ensures
        ({
            let (after, step) = crate::manager::lifecycle::ensured(
                before,
                resolved,
                fingerprint,
                token,
                now,
            );
            let place = crate::manager::slots::slot_place(before.slots, resolved.session);
            let statable = now + before.config.lease_expiry <= u64::MAX;
            let free = exists|port: u16|
                18753 <= port <= 18852 && !(#[trigger] before.ports.contains(port));
            &&& place is None <==> forall|i: int|
                0 <= i < before.slots.len() ==> (#[trigger] before.slots[i]).session
                    != resolved.session
            &&& step is Fail ==> after == before
            &&& place matches Some(at) ==> {
                let same_print = before.slots[at].fingerprint == fingerprint;
                let same_socket = before.slots[at].resolved.socket_identity
                    == resolved.socket_identity;
                &&& step is Granted <==> same_print && same_socket && statable
                &&& !(step is Start)
                &&& !same_print ==> step == EnsureView::Fail(
                    RelayError::Manager {
                        reason: "session fingerprint changed; explicit rebind is required",
                    },
                )
                &&& same_print && !same_socket ==> step == EnsureView::Fail(
                    RelayError::SocketIdentity {
                        operation: "checking Herdr Unix socket",
                        reason: "socket identity changed for active session",
                    },
                )
                &&& same_print && same_socket && !statable ==> step == EnsureView::Fail(
                    RelayError::Manager { reason: "lease deadline overflowed" },
                )
            }
            &&& place is None ==> {
                &&& step is Start <==> statable && free
                &&& !(step is Granted)
                &&& !statable ==> step == EnsureView::Fail(
                    RelayError::Manager { reason: "lease deadline overflowed" },
                )
                &&& statable && !free ==> step == EnsureView::Fail(RelayError::PortRangeExhausted)
            }
        }),
{
    let place = crate::manager::slots::slot_place(before.slots, resolved.session);
    if exists|i: int|
        0 <= i < before.slots.len() && (#[trigger] before.slots[i]).session == resolved.session {
        let i = choose|i: int|
            0 <= i < before.slots.len() && (#[trigger] before.slots[i]).session == resolved.session;
        assert(crate::manager::slots::slot_is_at(before.slots, resolved.session, i));
    }
    if place is Some {
        let at = choose|at: int|
            crate::manager::slots::slot_is_at(before.slots, resolved.session, at);
        assert(crate::manager::slots::slot_is_at(before.slots, resolved.session, at));
        assert(before.slots[at].session == resolved.session);
    }
    lemma_free_port(before.ports);
}

proof fn lemma_free_port(ports: Set<u16>)
    ensures
        crate::manager::lifecycle::next_port(ports) is Some <==> exists|port: u16|
            18753 <= port <= 18852 && !(#[trigger] ports.contains(port)),
        crate::manager::lifecycle::next_port(ports) matches Some(port) ==> {
            &&& 18753 <= port <= 18852
            &&& !ports.contains(port)
            &&& forall|lower: u16| 18753 <= lower < port ==> #[trigger] ports.contains(lower)
        },
{
    if exists|port: u16| 18753 <= port <= 18852 && !(#[trigger] ports.contains(port)) {
        let port = choose|port: u16| 18753 <= port <= 18852 && !(#[trigger] ports.contains(port));
        lemma_least_free(ports, port);
    }
    if crate::manager::lifecycle::next_port(ports) is Some {
        let port = crate::manager::lifecycle::next_port(ports)->Some_0;
        assert(crate::manager::ports::is_first_free(ports, port));
        assert(!ports.contains(port));
    }
}

proof fn lemma_least_free(ports: Set<u16>, port: u16)
    requires
        18753 <= port <= 18852,
        !ports.contains(port),
    ensures
        crate::manager::lifecycle::next_port(ports) is Some,
    decreases port,
{
    if exists|lower: u16| 18753 <= lower < port && !(#[trigger] ports.contains(lower)) {
        let lower = choose|lower: u16| 18753 <= lower < port && !(#[trigger] ports.contains(lower));
        lemma_least_free(ports, lower);
    } else {
        assert(crate::manager::ports::is_first_free(ports, port));
    }
}

/// A new session gets the lowest free data port and the next child generation; both are set aside, and
/// no session changes until its child runs.
pub proof fn law_start_sets_aside_port_and_generation(
    before: ManagerView,
    resolved: crate::manager::resolver::ResolvedView,
    fingerprint: Seq<u8>,
    token: Seq<u8>,
    now: u64,
)
    requires
        crate::manager::lifecycle::ensured(before, resolved, fingerprint, token, now).1 is Start,
    ensures
        ({
            let (after, step) = crate::manager::lifecycle::ensured(
                before,
                resolved,
                fingerprint,
                token,
                now,
            );
            let port = step->Start_0;
            let start = after.starting->Some_0;
            &&& 18753 <= port <= 18852
            &&& !before.ports.contains(port)
            &&& forall|lower: u16|
                18753 <= lower < port ==> #[trigger] before.ports.contains(lower)
            &&& after.ports == before.ports.insert(port)
            &&& after.slots == before.slots
            &&& after.config == before.config
            &&& after.resolver == before.resolver
            &&& after.unsaved
            &&& step->Start_1 == before.state.next_child_generation
            &&& after.wrapped <==> before.wrapped || before.state.next_child_generation == u64::MAX
            &&& after.state.broker_generation == before.state.broker_generation
            &&& after.state.preferred_broker_port == before.state.preferred_broker_port
            &&& before.state.next_child_generation < u64::MAX
                ==> after.state.next_child_generation == before.state.next_child_generation + 1
            &&& before.state.next_child_generation == u64::MAX
                ==> after.state.next_child_generation == 1
            &&& after.starting is Some
            &&& start.resolved == resolved
            &&& start.fingerprint == fingerprint
            &&& start.child_generation == before.state.next_child_generation
            &&& start.data_port == port
            &&& start.token == token
            &&& start.expires_at == now + before.config.lease_expiry
        }),
{
    lemma_free_port(before.ports);
}

/// A child that was started serves the session it was started for, with the port, generation and lease
/// that were set aside, and changes no other session. Nothing is kept without a start.
pub proof fn law_started_child_serves_its_session(
    before: ManagerView,
    child: crate::manager::child::ChildView,
)
    requires
        crate::manager::lifecycle::consistent(before),
    ensures
        ({
            let (after, grant) = crate::manager::lifecycle::start_committed(before, child);
            &&& grant is Ok <==> before.starting is Some
            &&& before.starting is None ==> after == before
            &&& before.starting matches Some(start) ==> {
                let at = crate::manager::slots::slot_place(
                    after.slots,
                    start.resolved.session,
                )->Some_0;
                let slot = after.slots[at];
                let made = grant->Ok_0;
                &&& after.starting is None
                &&& after.unsaved
                &&& after.config == before.config
                &&& after.resolver == before.resolver
                &&& after.state == before.state
                &&& after.ports == before.ports
                &&& 0 <= at < after.slots.len()
                &&& after.slots.remove(at) == before.slots
                &&& slot.session == start.resolved.session
                &&& slot.resolved == start.resolved
                &&& slot.fingerprint == start.fingerprint
                &&& slot.child == child
                &&& slot.child_generation == start.child_generation
                &&& slot.configuration_generation == 1
                &&& slot.data_port == start.data_port
                &&& slot.idle_since is None
                &&& slot.leases.dom() == set![start.token]
                &&& slot.leases[start.token] == start.expires_at
                &&& made.session == start.resolved.session
                &&& made.fingerprint == start.fingerprint
                &&& made.broker_generation == before.state.broker_generation
                &&& made.child_generation == start.child_generation
                &&& made.configuration_generation == 1
                &&& made.data_port == start.data_port
                &&& made.token == start.token
                &&& made.expires_at == start.expires_at
            }
        }),
{
    if before.starting is Some {
        let start = before.starting->Some_0;
        let (after, grant) = crate::manager::lifecycle::start_committed(before, child);
        let slot = crate::manager::lifecycle::started_slot(start, child);
        let put = crate::manager::slots::insertion_place(before.slots, slot.session);
        crate::manager::slots::lemma_insertion(before.slots, slot);
        assert(after.slots[put] == slot);
        assert(crate::manager::slots::slot_is_at(after.slots, slot.session, put));
        crate::manager::slots::lemma_slot_place(after.slots, slot.session, put);
        assert(after.slots.remove(put) =~= before.slots);
        assert(slot.leases.dom() =~= set![start.token]);
    }
}

/// Giving up a start frees the port that was set aside for it and nothing else.
pub proof fn law_cancelled_start_frees_its_port(before: ManagerView)
    ensures
        ({
            let after = crate::manager::lifecycle::start_cancelled(before);
            &&& before.starting is None ==> after == before
            &&& before.starting matches Some(start) ==> {
                &&& after.starting is None
                &&& after.ports == before.ports.remove(start.data_port)
                &&& after.slots == before.slots
                &&& after.state == before.state
                &&& after.config == before.config
                &&& after.resolver == before.resolver
                &&& after.unsaved == before.unsaved
            }
        }),
{
}

/// Removing a session removes that session and frees its port; every other session stays as it is, in
/// its order. A session that is not served is not removed.
pub proof fn law_removal_touches_one_session(before: ManagerView, session: Seq<char>)
    requires
        crate::manager::slots::slots_ordered(before.slots),
    ensures
        ({
            let after = crate::manager::lifecycle::slot_taken(before, session);
            let place = crate::manager::slots::slot_place(before.slots, session);
            &&& after.config == before.config
            &&& after.resolver == before.resolver
            &&& after.state == before.state
            &&& after.starting == before.starting
            &&& place is None <==> forall|i: int|
                0 <= i < before.slots.len() ==> (#[trigger] before.slots[i]).session != session
            &&& place is None ==> after == before
            &&& place matches Some(at) ==> {
                &&& 0 <= at < before.slots.len()
                &&& before.slots[at].session == session
                &&& after.ports == before.ports.remove(before.slots[at].data_port)
                &&& after.slots.len() == before.slots.len() - 1
                &&& forall|i: int|
                    0 <= i < at ==> (#[trigger] after.slots[i]) == before.slots[i]
                &&& forall|i: int|
                    at <= i < after.slots.len() ==> (#[trigger] after.slots[i])
                        == before.slots[i + 1]
                &&& forall|i: int|
                    0 <= i < after.slots.len() ==> (#[trigger] after.slots[i]).session != session
            }
        }),
{
    let place = crate::manager::slots::slot_place(before.slots, session);
    let after = crate::manager::lifecycle::slot_taken(before, session);
    if exists|i: int| 0 <= i < before.slots.len() && (#[trigger] before.slots[i]).session == session {
        let i = choose|i: int|
            0 <= i < before.slots.len() && (#[trigger] before.slots[i]).session == session;
        assert(crate::manager::slots::slot_is_at(before.slots, session, i));
    }
    if place is Some {
        let at = place->Some_0;
        assert(crate::manager::slots::slot_is_at(before.slots, session, at));
        assert(before.slots[at].session == session);
        assert forall|i: int| 0 <= i < after.slots.len() implies (#[trigger] after.slots[i]).session
            != session by {
            let was = if i < at {
                i
            } else {
                i + 1
            };
            assert(after.slots[i] == before.slots[was]);
            if before.slots[was].session == session {
                assert(crate::manager::slots::slot_is_at(before.slots, session, was));
                crate::manager::slots::lemma_slot_place(before.slots, session, was);
            }
        }
    }
}

/// Reaping drops the leases that have ended and no other, and changes nothing else of a session but
/// that one which loses its last lease is idle from then on.
pub proof fn law_reap_touches_only_ended_leases(slots: Seq<SlotView>, now: u64)
    requires
        forall|i: int| 0 <= i < slots.len() ==> (#[trigger] slots[i]).leases.dom().finite(),
    ensures
        ({
            let after = crate::manager::lifecycle::slots_reaped(slots, now);
            &&& after.len() == slots.len()
            &&& forall|i: int| 0 <= i < slots.len() ==> same_service(slots[i], #[trigger] after[i])
            &&& forall|i: int, token: Seq<u8>|
                0 <= i < slots.len() ==> (#[trigger] after[i].leases.dom().contains(token)
                    <==> slots[i].leases.dom().contains(token) && slots[i].leases[token] > now)
            &&& forall|i: int, token: Seq<u8>|
                0 <= i < slots.len() && slots[i].leases.dom().contains(token)
                    && slots[i].leases[token] > now ==> #[trigger] after[i].leases[token]
                    == slots[i].leases[token]
            &&& forall|i: int|
                0 <= i < slots.len() && slots[i].idle_since is Some ==> (
                #[trigger] after[i]).idle_since == slots[i].idle_since
            &&& forall|i: int|
                0 <= i < slots.len() && slots[i].idle_since is None && slots[i].leases.dom().len()
                    > 0 ==> (#[trigger] after[i]).idle_since == if after[i].leases.dom().len()
                    == 0 {
                    Some(now)
                } else {
                    None
                }
            &&& forall|i: int|
                0 <= i < slots.len() && slots[i].leases.dom().len() == 0 ==> (
                #[trigger] after[i]).idle_since == slots[i].idle_since
        }),
{
    let after = crate::manager::lifecycle::slots_reaped(slots, now);
    assert forall|i: int| 0 <= i < slots.len() implies (#[trigger] after[i])
        == crate::manager::lifecycle::slot_reaped(slots[i], now) && after[i].leases.dom().subset_of(
        slots[i].leases.dom(),
    ) && (slots[i].idle_since is None && slots[i].leases.dom().len() > 0 ==> after[i].idle_since
        == if after[i].leases.dom().len() == 0 {
        Some(now)
    } else {
        None
    }) && (slots[i].leases.dom().len() == 0 ==> after[i].idle_since == slots[i].idle_since) by {
        let kept = crate::manager::slots::unexpired(slots[i].leases, now);
        assert(kept.dom().subset_of(slots[i].leases.dom()));
        vstd::set_lib::lemma_len_subset(kept.dom(), slots[i].leases.dom());
        if kept.dom().len() == 0 {
            assert(kept.dom() =~= Set::<Seq<u8>>::empty());
        }
    }
}

/// The count of a reap is the number of leases that are there before and not after.
pub proof fn law_reap_counts_what_it_drops(slots: Seq<SlotView>, now: u64)
    requires
        forall|i: int| 0 <= i < slots.len() ==> (#[trigger] slots[i]).leases.dom().finite(),
    ensures
        crate::manager::lifecycle::expired_total(slots, now) + lease_total(
            crate::manager::lifecycle::slots_reaped(slots, now),
        ) == lease_total(slots),
    decreases slots.len(),
{
    let after = crate::manager::lifecycle::slots_reaped(slots, now);
    if slots.len() > 0 {
        let rest = slots.drop_last();
        assert forall|i: int| 0 <= i < rest.len() implies (
        #[trigger] rest[i]).leases.dom().finite() by {
            assert(rest[i] == slots[i]);
        }
        law_reap_counts_what_it_drops(rest, now);
        assert(after.drop_last() =~= crate::manager::lifecycle::slots_reaped(rest, now));
        let kept = crate::manager::slots::unexpired(slots.last().leases, now);
        assert(slots[slots.len() - 1] == slots.last());
        assert(kept.dom().subset_of(slots.last().leases.dom()));
        vstd::set_lib::lemma_len_subset(kept.dom(), slots.last().leases.dom());
        assert(after.last() == crate::manager::lifecycle::slot_reaped(slots.last(), now));
    } else {
        assert(after =~= Seq::empty());
    }
}

/// The number of leases of all sessions.
pub open spec fn lease_total(slots: Seq<SlotView>) -> nat
    decreases slots.len(),
{
    if slots.len() == 0 {
        0
    } else {
        lease_total(slots.drop_last()) + slots.last().leases.dom().len()
    }
}

/// Every session that has been idle for its whole grace is named for its child to be stopped, and
/// none is named twice where every session has its own name.
pub proof fn law_idle_sessions_are_named(
    slots: Seq<SlotView>,
    now: u64,
    idle_grace: u64,
    at: int,
)
    requires
        0 <= at < slots.len(),
        slots[at].idle_since matches Some(since) && since + idle_grace <= u64::MAX && since
            + idle_grace <= now,
    ensures
        crate::manager::lifecycle::idle_names(slots, now, idle_grace).contains(slots[at].session),
    decreases slots.len(),
{
    let names = crate::manager::lifecycle::idle_names(slots, now, idle_grace);
    let earlier = crate::manager::lifecycle::idle_names(slots.drop_last(), now, idle_grace);
    if at == slots.len() - 1 {
        assert(names.last() == slots[at].session);
    } else {
        law_idle_sessions_are_named(slots.drop_last(), now, idle_grace, at);
        let i = choose|i: int| 0 <= i < earlier.len() && earlier[i] == slots[at].session;
        assert(names[i] == earlier[i]);
    }
}

/// A session is named only if it has been idle for its whole grace.
pub proof fn law_only_long_idle_sessions_are_named(
    slots: Seq<SlotView>,
    now: u64,
    idle_grace: u64,
    session: Seq<char>,
)
    requires
        crate::manager::lifecycle::idle_names(slots, now, idle_grace).contains(session),
    ensures
        exists|i: int|
            0 <= i < slots.len() && (#[trigger] slots[i]).session == session && (
            slots[i].idle_since matches Some(since) && since + idle_grace <= now),
        crate::manager::lifecycle::idle_names(slots, now, idle_grace).len() <= slots.len(),
    decreases slots.len(),
{
    let names = crate::manager::lifecycle::idle_names(slots, now, idle_grace);
    lemma_idle_names_bounded(slots, now, idle_grace);
    if slots.len() > 0 {
        let earlier = crate::manager::lifecycle::idle_names(slots.drop_last(), now, idle_grace);
        let i = choose|i: int| 0 <= i < names.len() && names[i] == session;
        if i < earlier.len() {
            assert(earlier[i] == session);
            law_only_long_idle_sessions_are_named(slots.drop_last(), now, idle_grace, session);
            let j = choose|j: int|
                0 <= j < slots.drop_last().len() && (#[trigger] slots.drop_last()[j]).session
                    == session && (slots.drop_last()[j].idle_since matches Some(since) && since
                    + idle_grace <= now);
            assert(slots[j] == slots.drop_last()[j]);
        } else {
            assert(slots[slots.len() - 1].session == session);
        }
    }
}

proof fn lemma_idle_names_bounded(slots: Seq<SlotView>, now: u64, idle_grace: u64)
    ensures
        crate::manager::lifecycle::idle_names(slots, now, idle_grace).len() <= slots.len(),
    decreases slots.len(),
{
    if slots.len() > 0 {
        lemma_idle_names_bounded(slots.drop_last(), now, idle_grace);
    }
}

/// A status tells the leases, the child and the port of its session.
pub proof fn law_status_tells_its_session(
    status: crate::manager::lifecycle::SessionStatusView,
    slot: SlotView,
)
    requires
        crate::manager::lifecycle::reports_slot(status, slot),
    ensures
        status.session@ == slot.session,
        status.fingerprint@ == slot.fingerprint,
        status.fingerprint_present,
        status.active_leases == slot.leases.dom().len(),
        status.child_generation == slot.child_generation,
        status.configuration_generation == slot.configuration_generation,
        status.data_port == slot.data_port,
        status.idle_since == slot.idle_since,
{
}

/// The outcome of a start decides what follows: each failure is reported as it is, only a start that
/// wrote its configuration has it removed, and a running child is kept.
pub proof fn law_start_outcomes_are_told_apart(
    before: ManagerView,
    outcome: crate::manager::lifecycle::StartOutcome,
)
    requires
        before.starting is Some,
    ensures
        ({
            let (after, step) = crate::manager::lifecycle::start_concluded(before, outcome);
            &&& after.starting is None
            &&& outcome matches crate::manager::lifecycle::StartOutcome::NotPrepared(failure)
                ==> step == crate::manager::lifecycle::StartStepView::Fail(failure, false)
                && after.slots == before.slots
            &&& outcome matches crate::manager::lifecycle::StartOutcome::NotStarted(failure)
                ==> step == crate::manager::lifecycle::StartStepView::Fail(failure, true)
                && after.slots == before.slots
            &&& outcome matches crate::manager::lifecycle::StartOutcome::Started(child) ==> {
                &&& step is Save
                &&& after.slots.len() == before.slots.len() + 1
                &&& step->Save_0.token == before.starting->Some_0.token
                &&& step->Save_0.data_port == before.starting->Some_0.data_port
            }
        }),
{
    let start = before.starting->Some_0;
    crate::manager::slots::lemma_insertion_bound(before.slots, start.resolved.session);
}

/// A state that was written leases the session and changes nothing; one that was not gives back the
/// failure.
pub proof fn law_saved_start_is_leased(
    before: ManagerView,
    grant: crate::manager::lifecycle::GrantView,
    error: RelayError,
)
    ensures
        crate::manager::lifecycle::start_settled(before, grant, Ok(())) == (
            before,
            crate::manager::lifecycle::LeaseStepView::Leased(grant),
        ),
        crate::manager::lifecycle::start_settled(before, grant, Err(error)).1 matches
            crate::manager::lifecycle::LeaseStepView::RollBack(told, _) && told == error,
{
}

/// The endpoint of a child has a hidden name that its generation makes its own.
pub proof fn law_endpoints_are_named_by_generation(first: u64, second: u64)
    ensures
        crate::manager::lifecycle::endpoint_name(first) == crate::manager::lifecycle::endpoint_name(
            second,
        ) <==> first == second,
        crate::manager::lifecycle::endpoint_name(first) == ".child-"@ + crate::text::decimal_text(
            first as nat,
        ) + ".sock"@,
{
    reveal_strlit(".child-");
    reveal_strlit(".sock");
    crate::text::law_decimal_text_reads_back(first as nat);
    crate::text::law_decimal_text_reads_back(second as nat);
    let one = crate::manager::lifecycle::endpoint_name(first);
    let other = crate::manager::lifecycle::endpoint_name(second);
    if one == other {
        let shown = crate::text::decimal_text(first as nat);
        assert(one.subrange(7, one.len() - 5) =~= shown);
        assert(other.subrange(7, other.len() - 5) =~= crate::text::decimal_text(second as nat));
    }
}

} // verus!
