//! Session slots and their leases.

use crate::manager::child::ChildHandle;
use crate::manager::names::{LeaseToken, SessionFingerprint, SessionName};
use crate::manager::resolver::ResolvedSession;
use crate::table::KeyTable;
use crate::text::comes_before;
use vstd::prelude::*;

verus! {

/// Mathematical value of a slot.
#[verifier::ext_equal]
pub struct SlotView {
    /// Session as it was resolved.
    pub resolved: crate::manager::resolver::ResolvedView,
    /// Session name, by which slots are ordered.
    pub session: Seq<char>,
    /// Session fingerprint.
    pub fingerprint: Seq<u8>,
    /// Child generation.
    pub child_generation: u64,
    /// Configuration generation.
    pub configuration_generation: u64,
    /// Data port.
    pub data_port: u16,
    /// Child.
    pub child: crate::manager::child::ChildView,
    /// End of each lease, by token.
    pub leases: Map<Seq<u8>, u64>,
    /// When the last lease ended.
    pub idle_since: Option<u64>,
}

/// One session that the Manager serves.
pub struct SessionSlot {
    /// Session name.
    pub session: SessionName,
    /// Session as it was resolved.
    pub resolved: ResolvedSession,
    /// Session fingerprint.
    pub fingerprint: SessionFingerprint,
    /// Child generation.
    pub child_generation: u64,
    /// Configuration generation.
    pub configuration_generation: u64,
    /// Data port.
    pub data_port: u16,
    /// Child.
    pub child: ChildHandle,
    /// End of each lease, by token.
    pub leases: KeyTable<u64>,
    /// When the last lease ended.
    pub idle_since: Option<u64>,
}

impl View for SessionSlot {
    type V = SlotView;

    open spec fn view(&self) -> SlotView {
        SlotView {
            resolved: self.resolved@,
            session: self.session@,
            fingerprint: self.fingerprint@,
            child_generation: self.child_generation,
            configuration_generation: self.configuration_generation,
            data_port: self.data_port,
            child: self.child@,
            leases: self.leases@,
            idle_since: self.idle_since,
        }
    }
}

/// The slots are ordered by name, and no name occurs twice.
pub open spec fn slots_ordered(slots: Seq<SlotView>) -> bool {
    forall|i: int, j: int|
        0 <= i < j < slots.len() ==> crate::text::precedes(
            (#[trigger] slots[i]).session,
            (#[trigger] slots[j]).session,
        )
}

/// The slot of a session is at this place.
pub open spec fn slot_is_at(slots: Seq<SlotView>, session: Seq<char>, at: int) -> bool {
    0 <= at < slots.len() && slots[at].session == session
}

/// The place of the slot of a session, if it has one.
pub open spec fn slot_place(slots: Seq<SlotView>, session: Seq<char>) -> Option<int> {
    if exists|at: int| slot_is_at(slots, session, at) {
        Some(choose|at: int| slot_is_at(slots, session, at))
    } else {
        None
    }
}

/// The first slot that holds a lease is at this place.
pub open spec fn holder_is_at(slots: Seq<SlotView>, token: Seq<u8>, at: int) -> bool {
    &&& 0 <= at < slots.len()
    &&& slots[at].leases.dom().contains(token)
    &&& forall|earlier: int|
        0 <= earlier < at ==> !(#[trigger] slots[earlier]).leases.dom().contains(token)
}

/// The place of the first slot that holds a lease, if any.
pub open spec fn holder_place(slots: Seq<SlotView>, token: Seq<u8>) -> Option<int> {
    if exists|at: int| holder_is_at(slots, token, at) {
        Some(choose|at: int| holder_is_at(slots, token, at))
    } else {
        None
    }
}

/// The place at which a new session is put: after every session whose name comes before its own.
pub open spec fn insertion_place(slots: Seq<SlotView>, session: Seq<char>) -> int
    decreases slots.len(),
{
    if slots.len() == 0 || !crate::text::precedes(slots[0].session, session) {
        0
    } else {
        1 + insertion_place(slots.drop_first(), session)
    }
}

/// The place of a slot is determined.
pub proof fn lemma_slot_place(slots: Seq<SlotView>, session: Seq<char>, at: int)
    requires
        slots_ordered(slots),
        slot_is_at(slots, session, at),
    ensures
        slot_place(slots, session) == Some(at),
{
    let found = choose|place: int| slot_is_at(slots, session, place);
    assert(slot_is_at(slots, session, found));
    crate::text::lemma_precedes(session, session, session);
    if found < at {
        assert(crate::text::precedes(slots[found].session, slots[at].session));
    }
    if at < found {
        assert(crate::text::precedes(slots[at].session, slots[found].session));
    }
}

/// The place of a holder is determined.
pub proof fn lemma_holder_place(slots: Seq<SlotView>, token: Seq<u8>, at: int)
    requires
        holder_is_at(slots, token, at),
    ensures
        holder_place(slots, token) == Some(at),
{
    let found = choose|place: int| holder_is_at(slots, token, place);
    assert(holder_is_at(slots, token, found));
    if found < at {
        assert(!slots[found].leases.dom().contains(token));
    }
    if at < found {
        assert(!slots[at].leases.dom().contains(token));
    }
}

/// Inserting a session at its place keeps the order.
pub proof fn lemma_insertion(slots: Seq<SlotView>, slot: SlotView)
    requires
        slots_ordered(slots),
        slot_place(slots, slot.session) is None,
    ensures
        0 <= insertion_place(slots, slot.session) <= slots.len(),
        slots_ordered(slots.insert(insertion_place(slots, slot.session), slot)),
        forall|i: int|
            0 <= i < insertion_place(slots, slot.session) ==> crate::text::precedes(
                (#[trigger] slots[i]).session,
                slot.session,
            ),
    decreases slots.len(),
{
    let place = insertion_place(slots, slot.session);
    if slots.len() > 0 && crate::text::precedes(slots[0].session, slot.session) {
        let rest = slots.drop_first();
        assert forall|i: int, j: int| 0 <= i < j < rest.len() implies crate::text::precedes(
            (#[trigger] rest[i]).session,
            (#[trigger] rest[j]).session,
        ) by {
            assert(rest[i] == slots[i + 1] && rest[j] == slots[j + 1]);
        }
        assert(slot_place(rest, slot.session) is None) by {
            if slot_place(rest, slot.session) is Some {
                let at = choose|at: int| slot_is_at(rest, slot.session, at);
                assert(slot_is_at(rest, slot.session, at));
                assert(rest[at] == slots[at + 1]);
                assert(slot_is_at(slots, slot.session, at + 1));
            }
        }
        lemma_insertion(rest, slot);
        assert forall|i: int| 0 <= i < place implies crate::text::precedes(
            (#[trigger] slots[i]).session,
            slot.session,
        ) by {
            if i > 0 {
                assert(rest[i - 1] == slots[i]);
            }
        }
    }
    let after = slots.insert(place, slot);
    assert forall|i: int, j: int| 0 <= i < j < after.len() implies crate::text::precedes(
        (#[trigger] after[i]).session,
        (#[trigger] after[j]).session,
    ) by {
        lemma_not_before(slots, slot.session);
        if i < place && j > place {
            assert(after[i] == slots[i] && after[j] == slots[j - 1]);
        } else if i > place {
            assert(after[i] == slots[i - 1] && after[j] == slots[j - 1]);
        } else if j < place {
            assert(after[i] == slots[i] && after[j] == slots[j]);
        } else if i == place {
            let next = slots[j - 1];
            assert(after[j] == next);
            assert(!crate::text::precedes(slots[place].session, slot.session));
            assert(!slot_is_at(slots, slot.session, place));
            crate::text::lemma_precedes(slots[place].session, slot.session, slot.session);
            if j - 1 > place {
                crate::text::lemma_precedes(slot.session, slots[place].session, next.session);
            }
        } else {
            assert(after[i] == slots[i]);
        }
    }
}

/// The place of a new session is one of the list.
pub proof fn lemma_insertion_bound(slots: Seq<SlotView>, session: Seq<char>)
    ensures
        0 <= insertion_place(slots, session) <= slots.len(),
{
    lemma_not_before(slots, session);
}

proof fn lemma_not_before(slots: Seq<SlotView>, session: Seq<char>)
    ensures
        0 <= insertion_place(slots, session) <= slots.len(),
        insertion_place(slots, session) < slots.len() ==> !crate::text::precedes(
            slots[insertion_place(slots, session)].session,
            session,
        ),
        forall|i: int|
            0 <= i < insertion_place(slots, session) ==> crate::text::precedes(
                (#[trigger] slots[i]).session,
                session,
            ),
    decreases slots.len(),
{
    if slots.len() > 0 && crate::text::precedes(slots[0].session, session) {
        let rest = slots.drop_first();
        lemma_not_before(rest, session);
        assert forall|i: int| 0 <= i < insertion_place(slots, session) implies crate::text::precedes(
            (#[trigger] slots[i]).session,
            session,
        ) by {
            if i > 0 {
                assert(rest[i - 1] == slots[i]);
            }
        }
    }
}

/// The values of a list of slots.
pub open spec fn slot_views(slots: Seq<SessionSlot>) -> Seq<SlotView> {
    slots.map_values(|slot: SessionSlot| slot@)
}

/// Every lease table of the slots is well formed.
pub open spec fn tables_wf(slots: Seq<SessionSlot>) -> bool {
    forall|i: int| 0 <= i < slots.len() ==> (#[trigger] slots[i]).leases.wf()
}

/// Finds the slot of a session.
pub(crate) fn find_slot(slots: &Vec<SessionSlot>, session: &SessionName) -> (place: Option<usize>)
    requires
        slots_ordered(slot_views(slots@)),
    ensures
        match place {
            Some(at) => at < slots@.len() && slot_place(slot_views(slots@), session@) == Some(
                at as int,
            ) && slots@[at as int]@.session == session@,
            None => slot_place(slot_views(slots@), session@) is None,
        },
{
    let ghost views = slot_views(slots@);
    let mut i: usize = 0;
    while i < slots.len()
        invariant
            i <= slots@.len(),
            views == slot_views(slots@),
            slots_ordered(views),
            forall|j: int| 0 <= j < i ==> (#[trigger] views[j]).session != session@,
        decreases slots@.len() - i,
    {
        if slots[i].session.same(session) {
            proof {
                assert(slot_is_at(views, session@, i as int));
                lemma_slot_place(views, session@, i as int);
            }
            return Some(i);
        }
        assert(views[i as int].session != session@);
        i = i + 1;
    }
    proof {
        if slot_place(views, session@) is Some {
            let at = choose|at: int| slot_is_at(views, session@, at);
            assert(slot_is_at(views, session@, at));
            assert(views[at].session != session@);
        }
    }
    None
}

/// Finds the first slot that holds a lease.
pub(crate) fn find_holder(slots: &Vec<SessionSlot>, token: &LeaseToken) -> (place: Option<usize>)
    requires
        tables_wf(slots@),
    ensures
        match place {
            Some(at) => at < slots@.len() && holder_place(slot_views(slots@), token@) == Some(
                at as int,
            ) && slots@[at as int]@.leases.dom().contains(token@),
            None => holder_place(slot_views(slots@), token@) is None && forall|i: int|
                0 <= i < slots@.len() ==> !(#[trigger] slots@[i])@.leases.dom().contains(token@),
        },
{
    let ghost views = slot_views(slots@);
    let mut i: usize = 0;
    while i < slots.len()
        invariant
            i <= slots@.len(),
            views == slot_views(slots@),
            tables_wf(slots@),
            forall|j: int| 0 <= j < i ==> !(#[trigger] views[j]).leases.dom().contains(token@),
        decreases slots@.len() - i,
    {
        if slots[i].leases.contains(token.as_bytes()) {
            proof {
                assert(views[i as int].leases.dom().contains(token@));
                assert(holder_is_at(views, token@, i as int));
                lemma_holder_place(views, token@, i as int);
            }
            return Some(i);
        }
        assert(!views[i as int].leases.dom().contains(token@));
        i = i + 1;
    }
    proof {
        if holder_place(views, token@) is Some {
            let at = choose|at: int| holder_is_at(views, token@, at);
            assert(holder_is_at(views, token@, at));
            assert(!views[at].leases.dom().contains(token@));
        }
        assert forall|j: int| 0 <= j < slots@.len() implies !(
        #[trigger] slots@[j])@.leases.dom().contains(token@) by {
            assert(!views[j].leases.dom().contains(token@));
        }
    }
    None
}

/// Finds the place at which a new session is put.
pub(crate) fn find_insertion(slots: &Vec<SessionSlot>, session: &SessionName) -> (place: usize)
    ensures
        place == insertion_place(slot_views(slots@), session@),
        place <= slots@.len(),
{
    let ghost views = slot_views(slots@);
    let mut i: usize = 0;
    assert(views.subrange(0, views.len() as int) =~= views);
    while i < slots.len() && comes_before(slots[i].session.as_str(), session.as_str())
        invariant
            i <= slots@.len(),
            views == slot_views(slots@),
            insertion_place(views, session@) == i + insertion_place(
                views.subrange(i as int, views.len() as int),
                session@,
            ),
        decreases slots@.len() - i,
    {
        proof {
            let rest = views.subrange(i as int, views.len() as int);
            assert(rest[0] == views[i as int]);
            assert(rest.drop_first() =~= views.subrange(i + 1, views.len() as int));
        }
        i = i + 1;
    }
    proof {
        let rest = views.subrange(i as int, views.len() as int);
        if i < slots@.len() {
            assert(rest[0] == views[i as int]);
        }
        assert(insertion_place(rest, session@) == 0);
    }
    i
}

/// The leases that end after `now`.
pub open spec fn unexpired(leases: Map<Seq<u8>, u64>, now: u64) -> Map<Seq<u8>, u64> {
    leases.restrict(Set::new(|token: Seq<u8>| leases.dom().contains(token) && leases[token] > now))
}

/// The number of leases that ended by `now`.
pub open spec fn expired_count(leases: Map<Seq<u8>, u64>, now: u64) -> nat {
    (leases.dom().len() - unexpired(leases, now).dom().len()) as nat
}

/// Keeps the leases that end after `now`, and counts the others.
pub(crate) fn drop_expired(leases: &KeyTable<u64>, now: u64) -> (kept: (KeyTable<u64>, usize))
    requires
        leases.wf(),
    ensures
        kept.0.wf(),
        kept.0@ == unexpired(leases@, now),
        kept.1 == expired_count(leases@, now),
        kept.1 + kept.0@.dom().len() == leases@.dom().len(),
{
    let total: usize = leases.len();
    let mut table: KeyTable<u64> = KeyTable::new();
    let mut expired: usize = 0;
    let mut i: usize = 0;
    let ghost order = leases.order();
    proof {
        leases.lemma_order();
        assert(Map::<Seq<u8>, u64>::empty() =~= unexpired(leases@, now).restrict(
            order.take(0).to_set(),
        ));
    }
    while i < total
        invariant
            leases.wf(),
            order == leases.order(),
            order.no_duplicates(),
            order.to_set() == leases@.dom(),
            order.len() == total,
            i <= total,
            table.wf(),
            table@ == unexpired(leases@, now).restrict(order.take(i as int).to_set()),
            table@.dom().finite(),
            expired + table@.dom().len() == i,
        decreases total - i,
    {
        let key = leases.key_at(i);
        let expires_at: u64 = *leases.value_at(i);
        let ghost before = table@;
        proof {
            let prefix = order.take(i as int);
            let longer = order.take(i + 1);
            assert(order.to_set().contains(order[i as int]));
            assert(!prefix.contains(key@)) by {
                if prefix.contains(key@) {
                    let j = choose|j: int| 0 <= j < prefix.len() && prefix[j] == key@;
                    assert(order[j] == key@);
                }
            }
            assert forall|k: Seq<u8>| longer.contains(k) == (prefix.contains(k) || k == key@) by {
                if prefix.contains(k) {
                    let j = choose|j: int| 0 <= j < prefix.len() && prefix[j] == k;
                    assert(longer[j] == k);
                }
                if k == key@ {
                    assert(longer[i as int] == k);
                }
                if longer.contains(k) && k != key@ {
                    let j = choose|j: int| 0 <= j < longer.len() && longer[j] == k;
                    assert(prefix[j] == k);
                }
            }
            assert(longer.to_set() =~= prefix.to_set().insert(key@));
        }
        if expires_at > now {
            table.set(key, expires_at);
            proof {
                assert(table@ =~= unexpired(leases@, now).restrict(order.take(i + 1).to_set()));
                assert(!before.dom().contains(key@));
                assert(table@.dom() =~= before.dom().insert(key@));
            }
        } else {
            expired = expired + 1;
            assert(table@ =~= unexpired(leases@, now).restrict(order.take(i + 1).to_set()));
        }
        i = i + 1;
    }
    proof {
        assert(order.take(total as int) =~= order);
        assert(table@ =~= unexpired(leases@, now));
    }
    (table, expired)
}

/// The place of a session is where its slot stands, if it has one.
pub proof fn law_slots_are_found_by_session(slots: Seq<SlotView>, session: Seq<char>)
    requires
        slots_ordered(slots),
    ensures
        slot_place(slots, session) matches Some(at) ==> 0 <= at < slots.len() && slots[at].session
            == session,
        slot_place(slots, session) is None <==> forall|i: int|
            0 <= i < slots.len() ==> (#[trigger] slots[i]).session != session,
{
    if slot_place(slots, session) is None {
        assert forall|i: int| 0 <= i < slots.len() implies (#[trigger] slots[i]).session
            != session by {
            assert(!slot_is_at(slots, session, i));
        }
    }
}

/// The place of a lease is the first slot that holds its token, if one does.
pub proof fn law_leases_are_found_by_token(slots: Seq<SlotView>, token: Seq<u8>)
    ensures
        holder_place(slots, token) matches Some(at) ==> 0 <= at < slots.len()
            && slots[at].leases.contains_key(token) && forall|i: int|
            0 <= i < at ==> !(#[trigger] slots[i]).leases.contains_key(token),
        holder_place(slots, token) is None <==> forall|i: int|
            0 <= i < slots.len() ==> !(#[trigger] slots[i]).leases.contains_key(token),
{
    if exists|i: int| 0 <= i < slots.len() && (#[trigger] slots[i]).leases.contains_key(token) {
        let i = choose|i: int|
            0 <= i < slots.len() && (#[trigger] slots[i]).leases.contains_key(token);
        lemma_first_holder(slots, token, i);
    }
}

/// Where some slot holds a token, one is the first.
proof fn lemma_first_holder(slots: Seq<SlotView>, token: Seq<u8>, at: int)
    requires
        0 <= at < slots.len(),
        slots[at].leases.contains_key(token),
    ensures
        exists|first: int| holder_is_at(slots, token, first),
    decreases at,
{
    if exists|i: int| 0 <= i < at && (#[trigger] slots[i]).leases.contains_key(token) {
        let i = choose|i: int| 0 <= i < at && (#[trigger] slots[i]).leases.contains_key(token);
        lemma_first_holder(slots, token, i);
    } else {
        assert(holder_is_at(slots, token, at));
    }
}

/// A new slot goes behind every session whose name comes before its own and before every other, so
/// that the slots stay in order.
pub proof fn law_new_slots_keep_the_order(slots: Seq<SlotView>, slot: SlotView)
    requires
        slots_ordered(slots),
        slot_place(slots, slot.session) is None,
    ensures
        ({
            let place = insertion_place(slots, slot.session);
            &&& 0 <= place <= slots.len()
            &&& slots_ordered(slots.insert(place, slot))
            &&& forall|i: int|
                0 <= i < place ==> crate::text::precedes(
                    (#[trigger] slots[i]).session,
                    slot.session,
                )
            &&& forall|i: int|
                place <= i < slots.len() ==> crate::text::precedes(
                    slot.session,
                    (#[trigger] slots[i]).session,
                )
        }),
{
    lemma_insertion(slots, slot);
    let place = insertion_place(slots, slot.session);
    let after = slots.insert(place, slot);
    assert forall|i: int| place <= i < slots.len() implies crate::text::precedes(
        slot.session,
        (#[trigger] slots[i]).session,
    ) by {
        assert(after[place] == slot);
        assert(after[i + 1] == slots[i]);
    }
}

/// A lease that has not ended is kept with its end, and every other is dropped; the dropped ones are
/// counted.
pub proof fn law_leases_last_until_their_end(leases: Map<Seq<u8>, u64>, now: u64, token: Seq<u8>)
    requires
        leases.dom().finite(),
    ensures
        unexpired(leases, now).contains_key(token) <==> leases.contains_key(token) && now
            < leases[token],
        unexpired(leases, now).contains_key(token) ==> unexpired(leases, now)[token]
            == leases[token],
        unexpired(leases, now).dom().len() + expired_count(leases, now) == leases.dom().len(),
{
    assert(unexpired(leases, now).dom().subset_of(leases.dom()));
    vstd::set_lib::lemma_len_subset(unexpired(leases, now).dom(), leases.dom());
}

} // verus!
