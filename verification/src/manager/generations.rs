//! What the child generations of a Manager promise over any number of operations.

use crate::manager::lifecycle::{EnsureView, GrantView, ManagerView};
use vstd::prelude::*;

verus! {

/// One operation on a Manager.
pub enum ManagerEvent {
    /// A session is leased.
    Ensure {
        /// Session as it was resolved.
        resolved: crate::manager::resolver::ResolvedView,
        /// Session fingerprint.
        fingerprint: Seq<u8>,
        /// Lease token.
        token: Seq<u8>,
        /// Time.
        now: u64,
    },
    /// A start is given up.
    Cancel,
    /// A child was started.
    Commit {
        /// The child.
        child: crate::manager::child::ChildView,
    },
    /// A session is removed, and its child stopped.
    Take {
        /// Session name.
        session: Seq<char>,
    },
    /// A lease is renewed.
    Renew {
        /// Lease token.
        token: Seq<u8>,
        /// Time.
        now: u64,
    },
    /// A lease is released.
    Release {
        /// Lease token.
        token: Seq<u8>,
        /// Time.
        now: u64,
    },
    /// Expired leases are dropped.
    Reap {
        /// Time.
        now: u64,
    },
    /// The persistent state has to be written, or was.
    Mark {
        /// It has to be written.
        unsaved: bool,
    },
}

/// The Manager after an operation.
pub open spec fn manager_next(before: ManagerView, event: ManagerEvent) -> ManagerView {
    match event {
        ManagerEvent::Ensure { resolved, fingerprint, token, now } =>
            crate::manager::lifecycle::ensured(before, resolved, fingerprint, token, now).0,
        ManagerEvent::Cancel => crate::manager::lifecycle::start_cancelled(before),
        ManagerEvent::Commit { child } => crate::manager::lifecycle::start_committed(
            before,
            child,
        ).0,
        ManagerEvent::Take { session } => crate::manager::lifecycle::slot_taken(before, session),
        ManagerEvent::Renew { token, now } => crate::manager::lifecycle::renewed(
            before,
            token,
            now,
        ).0,
        ManagerEvent::Release { token, now } => crate::manager::lifecycle::released(
            before,
            token,
            now,
        ).0,
        ManagerEvent::Reap { now } => ManagerView {
            slots: crate::manager::lifecycle::slots_reaped(before.slots, now),
            ..before
        },
        ManagerEvent::Mark { unsaved } => ManagerView { unsaved, ..before },
    }
}

/// The Manager after a sequence of operations.
pub open spec fn manager_run(before: ManagerView, events: Seq<ManagerEvent>) -> ManagerView
    decreases events.len(),
{
    if events.len() == 0 {
        before
    } else {
        manager_next(manager_run(before, events.drop_last()), events.last())
    }
}

/// A lease on a session, and the Manager that granted it: at once where the session is served, and
/// once `child` was started where it is not.
pub open spec fn leased(
    before: ManagerView,
    resolved: crate::manager::resolver::ResolvedView,
    fingerprint: Seq<u8>,
    token: Seq<u8>,
    now: u64,
    child: crate::manager::child::ChildView,
) -> Option<(ManagerView, GrantView)> {
    let (after, step) = crate::manager::lifecycle::ensured(
        before,
        resolved,
        fingerprint,
        token,
        now,
    );
    match step {
        EnsureView::Granted(grant) => Some((after, grant)),
        EnsureView::Start(_, _) => match crate::manager::lifecycle::start_committed(after, child) {
            (started, Ok(grant)) => Some((started, grant)),
            (_, Err(_)) => None,
        },
        EnsureView::Fail(_) => None,
    }
}

/// A session that is leased again after its child was stopped gets a child with a larger generation,
/// whatever happened in between, as long as the generations have not started over.
pub proof fn law_later_child_has_a_larger_generation(
    before: ManagerView,
    resolved: crate::manager::resolver::ResolvedView,
    fingerprint: Seq<u8>,
    token: Seq<u8>,
    now: u64,
    child: crate::manager::child::ChildView,
    events: Seq<ManagerEvent>,
    again: crate::manager::resolver::ResolvedView,
    later_fingerprint: Seq<u8>,
    later_token: Seq<u8>,
    later: u64,
    later_child: crate::manager::child::ChildView,
)
    requires
        crate::manager::lifecycle::consistent(before),
        leased(before, resolved, fingerprint, token, now, child) is Some,
        ({
            let first = leased(before, resolved, fingerprint, token, now, child)->Some_0;
            let between = manager_run(first.0, events);
            &&& !between.wrapped
            &&& crate::manager::slots::slot_place(between.slots, again.session) is None
            &&& leased(
                between,
                again,
                later_fingerprint,
                later_token,
                later,
                later_child,
            ) is Some
        }),
    ensures
        ({
            let first = leased(before, resolved, fingerprint, token, now, child)->Some_0;
            let between = manager_run(first.0, events);
            let second = leased(
                between,
                again,
                later_fingerprint,
                later_token,
                later,
                later_child,
            )->Some_0;
            second.1.child_generation > first.1.child_generation
        }),
{
    let first = leased(before, resolved, fingerprint, token, now, child)->Some_0;
    lemma_generation_advances(first.0, events);
    let place = crate::manager::slots::slot_place(before.slots, resolved.session);
    if place is Some {
        assert(crate::manager::slots::slot_is_at(before.slots, resolved.session, place->Some_0));
        assert(before.slots[place->Some_0].child_generation < before.state.next_child_generation);
    }
}

proof fn lemma_generation_advances(before: ManagerView, events: Seq<ManagerEvent>)
    ensures
        before.wrapped ==> manager_run(before, events).wrapped,
        !manager_run(before, events).wrapped ==> before.state.next_child_generation <= manager_run(
            before,
            events,
        ).state.next_child_generation,
    decreases events.len(),
{
    if events.len() > 0 {
        lemma_generation_advances(before, events.drop_last());
    }
}

/// The session is served by a child of this generation, and no other child is being started for it.
pub open spec fn served_with(manager: ManagerView, session: Seq<char>, generation: u64) -> bool {
    &&& exists|at: int| crate::manager::slots::slot_is_at(manager.slots, session, at)
    &&& forall|at: int| #[trigger]
        crate::manager::slots::slot_is_at(manager.slots, session, at)
            ==> manager.slots[at].child_generation == generation
    &&& manager.starting matches Some(start) ==> start.resolved.session != session
}

/// As long as the child of a session is not stopped, every lease on the session names the same child
/// generation, whatever happens in between.
pub proof fn law_running_child_keeps_its_generation(
    before: ManagerView,
    resolved: crate::manager::resolver::ResolvedView,
    fingerprint: Seq<u8>,
    token: Seq<u8>,
    now: u64,
    child: crate::manager::child::ChildView,
    events: Seq<ManagerEvent>,
    again: crate::manager::resolver::ResolvedView,
    later_fingerprint: Seq<u8>,
    later_token: Seq<u8>,
    later: u64,
    later_child: crate::manager::child::ChildView,
)
    requires
        crate::manager::lifecycle::consistent(before),
        before.starting is None,
        leased(before, resolved, fingerprint, token, now, child) is Some,
        again.session == resolved.session,
        forall|i: int|
            0 <= i < events.len() ==> (#[trigger] events[i]) != (ManagerEvent::Take {
                session: resolved.session,
            }),
        ({
            let first = leased(before, resolved, fingerprint, token, now, child)->Some_0;
            let between = manager_run(first.0, events);
            leased(
                between,
                again,
                later_fingerprint,
                later_token,
                later,
                later_child,
            ) is Some
        }),
    ensures
        ({
            let first = leased(before, resolved, fingerprint, token, now, child)->Some_0;
            let between = manager_run(first.0, events);
            let second = leased(
                between,
                again,
                later_fingerprint,
                later_token,
                later,
                later_child,
            )->Some_0;
            second.1.child_generation == first.1.child_generation
        }),
{
    let session = resolved.session;
    let (after, step) = crate::manager::lifecycle::ensured(
        before,
        resolved,
        fingerprint,
        token,
        now,
    );
    let first = leased(before, resolved, fingerprint, token, now, child)->Some_0;
    let generation = first.1.child_generation;
    let place = crate::manager::slots::slot_place(before.slots, session);
    if place is Some {
        let at = place->Some_0;
        assert(crate::manager::slots::slot_is_at(before.slots, session, at));
        assert(crate::manager::slots::slot_is_at(first.0.slots, session, at));
        assert forall|other: int| #[trigger]
            crate::manager::slots::slot_is_at(
                first.0.slots,
                session,
                other,
            ) implies first.0.slots[other].child_generation == generation by {
            if other != at {
                assert(crate::manager::slots::slot_is_at(before.slots, session, other));
                crate::manager::slots::lemma_slot_place(before.slots, session, other);
            }
        }
    } else {
        let slot = crate::manager::lifecycle::started_slot(after.starting->Some_0, child);
        let put = crate::manager::slots::insertion_place(before.slots, session);
        crate::manager::slots::lemma_insertion(before.slots, slot);
        assert(first.0.slots[put] == slot);
        assert(crate::manager::slots::slot_is_at(first.0.slots, session, put));
        assert forall|other: int| #[trigger]
            crate::manager::slots::slot_is_at(
                first.0.slots,
                session,
                other,
            ) implies first.0.slots[other].child_generation == generation by {
            if other != put {
                let was = if other < put {
                    other
                } else {
                    other - 1
                };
                assert(first.0.slots[other] == before.slots[was]);
                assert(crate::manager::slots::slot_is_at(before.slots, session, was));
            }
        }
    }
    lemma_stays_served(first.0, events, session, generation);
    let between = manager_run(first.0, events);
    let found = choose|at: int| crate::manager::slots::slot_is_at(between.slots, session, at);
    assert(crate::manager::slots::slot_is_at(between.slots, session, found));
}

proof fn lemma_stays_served(
    before: ManagerView,
    events: Seq<ManagerEvent>,
    session: Seq<char>,
    generation: u64,
)
    requires
        served_with(before, session, generation),
        forall|i: int|
            0 <= i < events.len() ==> (#[trigger] events[i]) != (ManagerEvent::Take { session }),
    ensures
        served_with(manager_run(before, events), session, generation),
    decreases events.len(),
{
    if events.len() > 0 {
        let earlier = events.drop_last();
        assert forall|i: int| 0 <= i < earlier.len() implies (#[trigger] earlier[i]) != (
        ManagerEvent::Take { session }) by {
            assert(earlier[i] == events[i]);
        }
        lemma_stays_served(before, earlier, session, generation);
        assert(events[events.len() - 1] == events.last());
        lemma_event_keeps(manager_run(before, earlier), events.last(), session, generation);
    }
}

proof fn lemma_event_keeps(
    before: ManagerView,
    event: ManagerEvent,
    session: Seq<char>,
    generation: u64,
)
    requires
        served_with(before, session, generation),
        event != (ManagerEvent::Take { session }),
    ensures
        served_with(manager_next(before, event), session, generation),
{
    let after = manager_next(before, event);
    let at = choose|at: int| crate::manager::slots::slot_is_at(before.slots, session, at);
    assert(crate::manager::slots::slot_is_at(before.slots, session, at));
    match event {
        ManagerEvent::Commit { child } => {
            if before.starting is Some {
                let slot = crate::manager::lifecycle::started_slot(before.starting->Some_0, child);
                let put = crate::manager::slots::insertion_place(before.slots, slot.session);
                crate::manager::slots::lemma_insertion_bound(before.slots, slot.session);
                let moved = if at < put {
                    at
                } else {
                    at + 1
                };
                assert(after.slots[moved] == before.slots[at]);
                assert(crate::manager::slots::slot_is_at(after.slots, session, moved));
                assert forall|other: int| #[trigger]
                    crate::manager::slots::slot_is_at(
                        after.slots,
                        session,
                        other,
                    ) implies after.slots[other].child_generation == generation by {
                    let was = if other < put {
                        other
                    } else {
                        other - 1
                    };
                    if other != put {
                        assert(after.slots[other] == before.slots[was]);
                        assert(crate::manager::slots::slot_is_at(before.slots, session, was));
                    }
                }
            }
        },
        ManagerEvent::Take { session: taken } => {
            let place = crate::manager::slots::slot_place(before.slots, taken);
            if place is Some {
                let gone = place->Some_0;
                assert(crate::manager::slots::slot_is_at(before.slots, taken, gone));
                let moved = if at < gone {
                    at
                } else {
                    at - 1
                };
                assert(after.slots[moved] == before.slots[at]);
                assert(crate::manager::slots::slot_is_at(after.slots, session, moved));
                assert forall|other: int| #[trigger]
                    crate::manager::slots::slot_is_at(
                        after.slots,
                        session,
                        other,
                    ) implies after.slots[other].child_generation == generation by {
                    let was = if other < gone {
                        other
                    } else {
                        other + 1
                    };
                    assert(after.slots[other] == before.slots[was]);
                    assert(crate::manager::slots::slot_is_at(before.slots, session, was));
                }
            }
        },
        _ => {
            lemma_slots_keep_their_names(before, event);
            assert(crate::manager::slots::slot_is_at(after.slots, session, at));
            assert forall|other: int| #[trigger]
                crate::manager::slots::slot_is_at(
                    after.slots,
                    session,
                    other,
                ) implies after.slots[other].child_generation == generation by {
                assert(crate::manager::slots::slot_is_at(before.slots, session, other));
            }
        },
    }
}

proof fn lemma_slots_keep_their_names(before: ManagerView, event: ManagerEvent)
    requires
        !(event is Commit) && !(event is Take),
    ensures
        manager_next(before, event).slots.len() == before.slots.len(),
        forall|i: int|
            0 <= i < before.slots.len() ==> (#[trigger] manager_next(before, event).slots[i]).session
                == before.slots[i].session && manager_next(before, event).slots[i].child_generation
                == before.slots[i].child_generation,
{
    match event {
        ManagerEvent::Ensure { resolved, fingerprint, token, now } => {
            let place = crate::manager::slots::slot_place(before.slots, resolved.session);
            if place is Some {
                assert(crate::manager::slots::slot_is_at(
                    before.slots,
                    resolved.session,
                    place->Some_0,
                ));
            }
        },
        ManagerEvent::Renew { token, now } | ManagerEvent::Release { token, now } => {
            let place = crate::manager::slots::holder_place(before.slots, token);
            if place is Some {
                assert(crate::manager::slots::holder_is_at(before.slots, token, place->Some_0));
            }
        },
        _ => {},
    }
}

} // verus!
