//! What a store of issuance results promises of each result, for as long as the result is retained.

use super::{
    IssuanceResultStatus, KeyView, MaterialView, RecordView, StoreOperation, StoreView,
};
use crate::error::RelayError;
use vstd::prelude::*;

verus! {

/// The store holds `record` and still retains it at `now`.
pub open spec fn retains(records: Seq<RecordView>, record: RecordView, now: u64) -> bool {
    records.contains(record) && now < record.retained_until_epoch_seconds
}

/// The record that is read back for `key` at `now`.
pub open spec fn read_back(store: StoreView, key: KeyView, now: u64) -> Option<RecordView> {
    super::lookup(super::pruned(store.records, now), key)
}

/// The number of records that are retained at `now`.
pub open spec fn retained_count(records: Seq<RecordView>, now: u64) -> nat {
    records.filter(|record: RecordView| now < record.retained_until_epoch_seconds).len()
}

/// The key that an operation is about; reading is about none.
pub open spec fn subject(operation: StoreOperation) -> Option<KeyView> {
    match operation {
        StoreOperation::Begin { key, .. } => Some(key),
        StoreOperation::Attach { key, .. } => Some(key),
        StoreOperation::Issue { key, .. } => Some(key),
        StoreOperation::Reject { key, .. } => Some(key),
        StoreOperation::Reconcile => None,
    }
}

/// Pruning drops the records whose retention has ended and keeps all others in their order.
pub proof fn law_pruning_drops_what_has_ended(records: Seq<RecordView>, now: u64)
    ensures
        super::pruned(records, now) == records.filter(
            |record: RecordView| now < record.retained_until_epoch_seconds,
        ),
    decreases records.len(),
{
    reveal(Seq::filter);
    let kept = |record: RecordView| now < record.retained_until_epoch_seconds;
    if records.len() > 0 {
        law_pruning_drops_what_has_ended(records.drop_first(), now);
        let first = seq![records[0]];
        assert(first + records.drop_first() =~= records);
        Seq::filter_distributes_over_add(first, records.drop_first(), kept);
        assert(first.drop_last() =~= Seq::<RecordView>::empty());
        assert(first.drop_last().filter(kept) =~= Seq::<RecordView>::empty());
        if kept(records[0]) {
            assert(first.filter(kept) =~= first);
        } else {
            assert(first.filter(kept) =~= Seq::<RecordView>::empty());
        }
    }
}

/// Exactly the record that a store retains for a key is read back for it.
pub proof fn law_retained_record_is_read_back(
    store: StoreView,
    key: KeyView,
    record: RecordView,
    now: u64,
)
    requires
        super::records_valid(store.records),
    ensures
        read_back(store, key, now) == Some(record) <==> record.key == key && retains(
            store.records,
            record,
            now,
        ),
{
    super::lemma_lookup_pruned(store.records, key, now);
    if read_back(store, key, now) == Some(record) {
        let at = super::lemma_lookup_position(store.records, key);
        assert(store.records[at] == record);
    }
    if record.key == key && retains(store.records, record, now) {
        let at = choose|i: int| 0 <= i < store.records.len() && store.records[i] == record;
        super::lemma_lookup_at(store.records, key, at);
    }
}

/// A pending result that is marked rejected is read back as rejected with that code for a day, with
/// its App and its deadline and without any certificate. For that day its authorization begins no
/// new record, and beginning the same binding again changes nothing of it. After the day it is
/// gone.
pub proof fn law_rejected_result_is_read_back(
    store: StoreView,
    pending: RecordView,
    code: u16,
    now: u64,
    later: u64,
    other: KeyView,
    app_id: Seq<char>,
    accepted: bool,
    expires_at: u64,
)
    requires
        super::records_valid(store.records),
        retains(store.records, pending, now),
        pending.status == IssuanceResultStatus::Pending,
        code != 0,
        now + 86400 <= u64::MAX,
        super::key_valid(other),
        other.authorization_id == pending.key.authorization_id,
    ensures
        super::reject_refusal(store.records, pending.key, code, now) is None,
        ({
            let after = super::store_after(
                store,
                StoreOperation::Reject { key: pending.key, code },
                now,
            );
            let again = super::store_after(
                after,
                StoreOperation::Begin { key: other, app_id, accepted, expires_at },
                later,
            );
            &&& later < now + 86400 ==> {
                &&& (read_back(after, pending.key, later) matches Some(rejected)
                    && rejected.status == IssuanceResultStatus::Rejected
                    && rejected.rejection_code == Some(code)
                    && rejected.key == pending.key
                    && rejected.app_id == pending.app_id
                    && rejected.authorization_expires_at_epoch_seconds
                    == pending.authorization_expires_at_epoch_seconds
                    && rejected.certificate_chain.len() == 0
                    && rejected.fingerprint is None
                    && rejected.allowlist_generation is None
                    && rejected.not_after_epoch_seconds is None)
                &&& read_back(after, other, later) is None ==> super::begin_refusal(
                    after.records,
                    other,
                    app_id,
                    accepted,
                    expires_at,
                    later,
                ) is Some && again == after
                &&& forall|record: RecordView| #[trigger]
                    again.records.contains(record) ==> after.records.contains(record)
                &&& read_back(again, pending.key, later) == read_back(after, pending.key, later)
            }
            &&& now + 86400 <= later ==> read_back(after, pending.key, later) is None
        }),
{
    let key = pending.key;
    let operation = StoreOperation::Reject { key, code };
    let after = super::store_after(store, operation, now);
    let kept = super::pruned(store.records, now);
    law_retained_record_is_read_back(store, key, pending, now);
    super::lemma_pruned_valid(store.records, now);
    super::law_operations_keep_store_valid(store, operation, now);
    let rejected = super::rejected_record(pending, code, now);
    super::lemma_lookup_replaced(kept, key, rejected, key);
    super::lemma_lookup_pruned(after.records, key, later);
    if later < now + 86400 {
        let begin = StoreOperation::Begin { key: other, app_id, accepted, expires_at };
        super::law_terminal_results_are_final(after, begin, later, key);
        super::law_operations_keep_store_valid(after, begin, later);
        super::lemma_lookup_pruned(super::store_after(after, begin, later).records, key, later);
        let still = super::pruned(after.records, later);
        let at = super::lemma_lookup_position(still, key);
        assert(super::authorization_used(still, other.authorization_id));
        super::lemma_pruned_valid(after.records, later);
        let again = super::store_after(after, begin, later);
        assert forall|record: RecordView| #[trigger]
            again.records.contains(record) implies after.records.contains(record) by {
            if again.records != after.records {
                let i = choose|i: int| 0 <= i < still.len() && still[i] == record;
                let j = super::lemma_pruned_member(after.records, later, i);
            }
        }
    }
}

/// A binding begins if and only if its App is well formed, its authorization ends within the next
/// five minutes, and either the same App holds it already or it finds its authorization unused and
/// fewer than 256 results retained.
pub proof fn law_binding_begins_when_there_is_room(
    store: StoreView,
    key: KeyView,
    app_id: Seq<char>,
    accepted: bool,
    expires_at: u64,
    now: u64,
)
    requires
        super::records_valid(store.records),
    ensures
        super::begin_refusal(store.records, key, app_id, accepted, expires_at, now) is None <==> (
        accepted && now < expires_at <= now + 300 && expires_at + 86400 <= u64::MAX && (match
            read_back(store, key, now) {
            Some(held) => held.app_id == app_id,
            None => retained_count(store.records, now) < 256 && forall|record: RecordView| #[trigger]
                retains(store.records, record, now) ==> record.key.authorization_id
                    != key.authorization_id,
        })),
{
    let kept = super::pruned(store.records, now);
    law_pruning_drops_what_has_ended(store.records, now);
    if super::authorization_used(kept, key.authorization_id) {
        let i = choose|i: int|
            0 <= i < kept.len() && (#[trigger] kept[i]).key.authorization_id
                == key.authorization_id;
        let j = super::lemma_pruned_member(store.records, now, i);
        assert(retains(store.records, store.records[j], now));
    } else {
        assert forall|record: RecordView| #[trigger]
            retains(store.records, record, now) implies record.key.authorization_id
            != key.authorization_id by {
            let j = choose|j: int| 0 <= j < store.records.len() && store.records[j] == record;
            let i = super::lemma_pruned_keeps(store.records, now, j);
            assert(kept[i].key == record.key);
        }
    }
}

/// A binding that begins anew is read back as pending, for its App and its deadline and without any
/// material, until a day after the deadline. It is the only record that comes in.
pub proof fn law_new_binding_is_pending(
    store: StoreView,
    key: KeyView,
    app_id: Seq<char>,
    expires_at: u64,
    now: u64,
    later: u64,
)
    requires
        super::records_valid(store.records),
        super::key_valid(key),
        super::begin_refusal(store.records, key, app_id, true, expires_at, now) is None,
        read_back(store, key, now) is None,
    ensures
        ({
            let after = super::store_after(
                store,
                StoreOperation::Begin { key, app_id, accepted: true, expires_at },
                now,
            );
            &&& after.unsaved
            &&& after.records.len() == retained_count(store.records, now) + 1
            &&& later < expires_at + 86400 ==> (read_back(after, key, later) matches Some(begun)
                && begun.status == IssuanceResultStatus::Pending
                && begun.key == key
                && begun.app_id == app_id
                && begun.authorization_expires_at_epoch_seconds == expires_at
                && begun.certificate_chain.len() == 0
                && begun.fingerprint is None
                && begun.allowlist_generation is None
                && begun.not_after_epoch_seconds is None
                && begun.rejection_code is None)
            &&& expires_at + 86400 <= later ==> read_back(after, key, later) is None
        }),
{
    let operation = StoreOperation::Begin { key, app_id, accepted: true, expires_at };
    let begun = super::store_after(store, operation, now);
    super::law_operations_keep_store_valid(store, operation, now);
    law_pruning_drops_what_has_ended(store.records, now);
    let kept = super::pruned(store.records, now);
    super::lemma_lookup_at(begun.records, key, kept.len() as int);
    super::lemma_lookup_pruned(begun.records, key, later);
}

/// A pending result that is marked issued is read back as issued with exactly that material, for
/// its App and its deadline, for a day, and is gone after it.
pub proof fn law_issued_result_is_retained_for_a_day(
    store: StoreView,
    pending: RecordView,
    material: MaterialView,
    now: u64,
    later: u64,
)
    requires
        super::records_valid(store.records),
        retains(store.records, pending, now),
        pending.status == IssuanceResultStatus::Pending,
        super::material_refusal(material) is None,
        now + 86400 <= u64::MAX,
    ensures
        super::issue_refusal(store.records, pending.key, material, now) is None,
        ({
            let after = super::store_after(
                store,
                StoreOperation::Issue { key: pending.key, material },
                now,
            );
            &&& after.unsaved
            &&& later < now + 86400 ==> (read_back(after, pending.key, later) matches Some(issued)
                && issued.status == IssuanceResultStatus::Issued
                && issued.certificate_chain == material.certificate_chain
                && issued.fingerprint == Some(material.fingerprint)
                && issued.allowlist_generation == Some(material.allowlist_generation)
                && issued.not_after_epoch_seconds == Some(material.not_after_epoch_seconds)
                && issued.rejection_code is None
                && issued.key == pending.key
                && issued.app_id == pending.app_id
                && issued.authorization_expires_at_epoch_seconds
                == pending.authorization_expires_at_epoch_seconds)
            &&& now + 86400 <= later ==> read_back(after, pending.key, later) is None
        }),
{
    let key = pending.key;
    let operation = StoreOperation::Issue { key, material };
    let after = super::store_after(store, operation, now);
    law_retained_record_is_read_back(store, key, pending, now);
    super::lemma_pruned_valid(store.records, now);
    super::law_operations_keep_store_valid(store, operation, now);
    super::lemma_lookup_replaced(
        super::pruned(store.records, now),
        key,
        super::issued_record(pending, material, now),
        key,
    );
    super::lemma_lookup_pruned(after.records, key, later);
}

/// Material that is attached to a pending result without any is read back with it. The result stays
/// pending and is retained for no longer than before.
pub proof fn law_attached_material_is_read_back(
    store: StoreView,
    pending: RecordView,
    material: MaterialView,
    now: u64,
    later: u64,
)
    requires
        super::records_valid(store.records),
        retains(store.records, pending, now),
        pending.status == IssuanceResultStatus::Pending,
        pending.certificate_chain.len() == 0,
        super::material_refusal(material) is None,
    ensures
        super::attach_refusal(store.records, pending.key, material, now) is None,
        ({
            let after = super::store_after(
                store,
                StoreOperation::Attach { key: pending.key, material },
                now,
            );
            &&& after.unsaved
            &&& later < pending.retained_until_epoch_seconds ==> (read_back(
                after,
                pending.key,
                later,
            ) matches Some(attached) && attached.status == IssuanceResultStatus::Pending
                && attached.certificate_chain == material.certificate_chain
                && attached.fingerprint == Some(material.fingerprint)
                && attached.allowlist_generation == Some(material.allowlist_generation)
                && attached.not_after_epoch_seconds == Some(material.not_after_epoch_seconds)
                && attached.rejection_code is None
                && attached.key == pending.key
                && attached.app_id == pending.app_id
                && attached.authorization_expires_at_epoch_seconds
                == pending.authorization_expires_at_epoch_seconds
                && attached.retained_until_epoch_seconds == pending.retained_until_epoch_seconds)
            &&& pending.retained_until_epoch_seconds <= later ==> read_back(
                after,
                pending.key,
                later,
            ) is None
        }),
{
    let key = pending.key;
    let operation = StoreOperation::Attach { key, material };
    let after = super::store_after(store, operation, now);
    law_retained_record_is_read_back(store, key, pending, now);
    super::lemma_pruned_valid(store.records, now);
    super::law_operations_keep_store_valid(store, operation, now);
    super::lemma_lookup_replaced(
        super::pruned(store.records, now),
        key,
        super::with_material(pending, material),
        key,
    );
    super::lemma_lookup_pruned(after.records, key, later);
}

/// No operation changes what is read back for a key that it is not about, at any time from then on.
/// The path and the owner of the store stay, and what has to be saved stays so.
pub proof fn law_operations_touch_one_result(
    store: StoreView,
    operation: StoreOperation,
    now: u64,
    other: KeyView,
    later: u64,
)
    requires
        super::records_valid(store.records),
        super::operation_valid(operation),
        subject(operation) != Some(other),
        now <= later,
    ensures
        ({
            let after = super::store_after(store, operation, now);
            &&& read_back(after, other, later) == read_back(store, other, later)
            &&& after.path == store.path
            &&& after.expected_uid == store.expected_uid
            &&& store.unsaved ==> after.unsaved
        }),
{
    let after = super::store_after(store, operation, now);
    let kept = super::pruned(store.records, now);
    super::law_operations_keep_store_valid(store, operation, now);
    super::lemma_pruned_valid(store.records, now);
    super::lemma_lookup_pruned(store.records, other, now);
    super::lemma_lookup_pruned(store.records, other, later);
    super::lemma_lookup_pruned(after.records, other, later);
    super::lemma_lookup_pruned(kept, other, later);
    match operation {
        StoreOperation::Begin { key, app_id, accepted, expires_at } => {
            if super::begin_refusal(store.records, key, app_id, accepted, expires_at, now) is None
                && super::lookup(kept, key) is None {
                let new = super::pending_record(key, app_id, expires_at);
                assert(after.records == kept.push(new));
                if super::lookup(kept, other) is Some {
                    let i = super::lemma_lookup_position(kept, other);
                    assert(after.records[i] == kept[i]);
                    super::lemma_lookup_at(after.records, other, i);
                } else if super::lookup(after.records, other) is Some {
                    let i = super::lemma_lookup_position(after.records, other);
                    assert(i < kept.len());
                    super::lemma_lookup_none(kept, other, i);
                }
            }
        },
        StoreOperation::Attach { key, material } => {
            if super::attach_refusal(store.records, key, material, now) is None {
                let i = super::lemma_lookup_position(kept, key);
                super::lemma_lookup_replaced(
                    kept,
                    key,
                    super::with_material(kept[i], material),
                    other,
                );
            }
        },
        StoreOperation::Issue { key, material } => {
            if super::issue_refusal(store.records, key, material, now) is None {
                let i = super::lemma_lookup_position(kept, key);
                super::lemma_lookup_replaced(
                    kept,
                    key,
                    super::issued_record(kept[i], material, now),
                    other,
                );
            }
        },
        StoreOperation::Reject { key, code } => {
            if super::reject_refusal(store.records, key, code, now) is None {
                let i = super::lemma_lookup_position(kept, key);
                super::lemma_lookup_replaced(
                    kept,
                    key,
                    super::rejected_record(kept[i], code, now),
                    other,
                );
            }
        },
        StoreOperation::Reconcile => {},
    }
}

/// Reading drops what has ended and nothing else, and has the store saved only if it dropped a
/// record.
pub proof fn law_reading_only_drops_what_has_ended(store: StoreView, now: u64, key: KeyView)
    ensures
        ({
            let after = super::store_after(store, StoreOperation::Reconcile, now);
            &&& after.records == store.records.filter(
                |record: RecordView| now < record.retained_until_epoch_seconds,
            )
            &&& after.unsaved <==> store.unsaved || after.records.len() < store.records.len()
        }),
{
    law_pruning_drops_what_has_ended(store.records, now);
    super::lemma_pruned_len(store.records, now);
}

/// Material can be recorded if and only if its digest is not all zero, its generation and its end
/// are not zero, and its chain has a certificate, no empty one and at most 49152 bytes.
pub proof fn law_material_is_bounded(material: MaterialView)
    ensures
        super::material_refusal(material) is None <==> {
            &&& exists|i: int|
                0 <= i < material.fingerprint.len() && #[trigger] material.fingerprint[i] != 0
            &&& material.allowlist_generation != 0
            &&& material.not_after_epoch_seconds != 0
            &&& material.certificate_chain.len() > 0
            &&& forall|i: int|
                0 <= i < material.certificate_chain.len() ==> (
                #[trigger] material.certificate_chain[i]).len() > 0
            &&& material.certificate_chain.flatten().len() <= 49152
        },
{
    lemma_chain_bytes_flatten(material.certificate_chain);
    lemma_bytes_before_empty(material.certificate_chain);
}

/// The bytes of a chain are those of its certificates one after the other.
proof fn lemma_chain_bytes_flatten(chain: Seq<Seq<u8>>)
    ensures
        super::chain_bytes(chain) == chain.flatten().len(),
    decreases chain.len(),
{
    if chain.len() > 0 {
        lemma_chain_bytes_flatten(chain.drop_first());
    }
}

/// The certificates before the first empty one hold no more than all of them.
proof fn lemma_bytes_before_empty(chain: Seq<Seq<u8>>)
    ensures
        super::chain_bytes_before_empty(chain) <= super::chain_bytes(chain),
    decreases chain.len(),
{
    if chain.len() > 0 {
        lemma_bytes_before_empty(chain.drop_first());
    }
}

/// A chain without a certificate, with an empty one and with too many bytes is refused, each in its
/// own way.
pub proof fn law_chains_are_checked(chain: Seq<Seq<u8>>)
    ensures
        super::chain_check(chain) is Ok <==> chain.len() > 0 && (forall|i: int|
            0 <= i < chain.len() ==> (#[trigger] chain[i]).len() > 0) && chain.flatten().len()
            <= 49152,
        chain.len() == 0 ==> super::chain_check(chain) == Err::<(), RelayError>(
            RelayError::QuicProtocol { reason: "issued certificate chain is empty" },
        ),
        chain.flatten().len() <= 49152 && (exists|i: int|
            0 <= i < chain.len() && (#[trigger] chain[i]).len() == 0) ==> super::chain_check(chain)
            == Err::<(), RelayError>(
            RelayError::QuicProtocol { reason: "issued certificate is empty" },
        ),
        (forall|i: int| 0 <= i < chain.len() ==> (#[trigger] chain[i]).len() > 0)
            && chain.flatten().len() > 49152 ==> super::chain_check(chain) == Err::<
            (),
            RelayError,
        >(RelayError::ResourceLimit),
{
    lemma_chain_bytes_flatten(chain);
    lemma_bytes_before_empty(chain);
    if chain.len() == 0 {
        assert(chain.flatten().len() == 0);
    }
}

/// A stored record is accepted if and only if its binding is not empty, its App is well formed, it
/// has a deadline and an end of its retention, and what it carries fits its state: a pending one
/// carries no code, an issued one all of its material and no code, a rejected one a code alone.
pub proof fn law_stored_records_fit_their_state(record: RecordView, accepted: bool)
    ensures
        super::record_check(record, accepted) is Ok <==> {
            &&& super::key_valid(record.key)
            &&& accepted
            &&& record.authorization_expires_at_epoch_seconds > 0
            &&& record.retained_until_epoch_seconds > 0
            &&& record.status == IssuanceResultStatus::Pending ==> record.rejection_code is None && (
            record.certificate_chain.len() > 0 ==> super::chain_check(record.certificate_chain)
                is Ok)
            &&& record.status == IssuanceResultStatus::Issued ==> record.rejection_code is None
                && super::chain_check(record.certificate_chain) is Ok
                && record.fingerprint is Some && record.allowlist_generation is Some
                && record.not_after_epoch_seconds is Some
            &&& record.status == IssuanceResultStatus::Rejected ==> record.certificate_chain.len()
                == 0 && record.fingerprint is None && record.allowlist_generation is None
                && record.not_after_epoch_seconds is None && record.rejection_code is Some
                && record.rejection_code != Some(0u16)
        },
{
}

/// A stored list is accepted if and only if it is of the first version, holds at most 256 records,
/// none with the binding of another, and each of them is accepted.
pub proof fn law_stored_lists_are_checked(
    version: u16,
    records: Seq<RecordView>,
    accepted: Seq<bool>,
)
    requires
        accepted.len() == records.len(),
    ensures
        super::records_check(version, records, accepted) is Ok <==> {
            &&& version == 1
            &&& records.len() <= 256
            &&& forall|i: int, j: int|
                0 <= i < j < records.len() ==> (#[trigger] records[i]).key != (
                #[trigger] records[j]).key
            &&& forall|i: int|
                0 <= i < records.len() ==> super::record_check(#[trigger] records[i], accepted[i])
                    is Ok
        },
{
    lemma_list_checked_from(records, accepted, 0);
    if version == 1 && records.len() <= 256 {
        assert(super::records_check(version, records, accepted) is Ok
            <==> super::records_check_from(records, accepted, 0) is Ok);
        if super::records_check(version, records, accepted) is Ok {
            assert forall|i: int, j: int| 0 <= i < j < records.len() implies (
            #[trigger] records[i]).key != (#[trigger] records[j]).key by {
                assert(!super::key_repeated(records, j));
            }
            assert forall|i: int| 0 <= i < records.len() implies super::record_check(
                #[trigger] records[i],
                accepted[i],
            ) is Ok by {
                assert(!super::key_repeated(records, i));
            }
        } else {
            let k = choose|k: int|
                0 <= k < records.len() && (#[trigger] super::key_repeated(records, k)
                    || super::record_check(records[k], accepted[k]) is Err);
            assert(super::key_repeated(records, k) || super::record_check(records[k], accepted[k])
                is Err);
        }
    }
}

/// From position `i` on a list is accepted if and only if each record from there is.
proof fn lemma_list_checked_from(records: Seq<RecordView>, accepted: Seq<bool>, i: int)
    requires
        0 <= i <= records.len(),
    ensures
        super::records_check_from(records, accepted, i) is Ok <==> forall|k: int|
            i <= k < records.len() ==> !(#[trigger] super::key_repeated(records, k))
                && super::record_check(records[k], accepted[k]) is Ok,
    decreases records.len() - i,
{
    if i < records.len() {
        lemma_list_checked_from(records, accepted, i + 1);
        let own = !super::key_repeated(records, i) && super::record_check(records[i], accepted[i])
            is Ok;
        let rest = super::records_check_from(records, accepted, i + 1) is Ok;
        assert(super::records_check_from(records, accepted, i) is Ok <==> own && rest);
        if own && rest {
            assert forall|k: int| i <= k < records.len() implies !(#[trigger] super::key_repeated(
                records,
                k,
            )) && super::record_check(records[k], accepted[k]) is Ok by {
                if k != i {
                    assert(i + 1 <= k && !super::key_repeated(records, k));
                }
            }
        } else if !rest {
            let k = choose|k: int|
                i + 1 <= k < records.len() && (#[trigger] super::key_repeated(records, k)
                    || super::record_check(records[k], accepted[k]) is Err);
            assert(super::key_repeated(records, k) || super::record_check(records[k], accepted[k])
                is Err);
        }
    }
}

/// A result can be marked issued if and only if its material is bounded, it is retained, it was not
/// rejected, and it is still pending or was issued with the same material.
pub proof fn law_results_are_issued_once(
    store: StoreView,
    key: KeyView,
    material: MaterialView,
    now: u64,
)
    requires
        super::material_refusal(material) is None,
    ensures
        super::issue_refusal(store.records, key, material, now) is None <==> (match read_back(
            store,
            key,
            now,
        ) {
            None => false,
            Some(held) => match held.status {
                IssuanceResultStatus::Pending => now + 86400 <= u64::MAX,
                IssuanceResultStatus::Issued => held.certificate_chain == material.certificate_chain
                    && held.fingerprint == Some(material.fingerprint) && held.allowlist_generation
                    == Some(material.allowlist_generation) && held.not_after_epoch_seconds == Some(
                    material.not_after_epoch_seconds,
                ),
                IssuanceResultStatus::Rejected => false,
            },
        }),
        super::attach_refusal(store.records, key, material, now) is None <==> (match read_back(
            store,
            key,
            now,
        ) {
            None => false,
            Some(held) => held.status != IssuanceResultStatus::Rejected && (
            held.certificate_chain.len() == 0 || (held.certificate_chain
                == material.certificate_chain && held.fingerprint == Some(material.fingerprint)
                && held.allowlist_generation == Some(material.allowlist_generation)
                && held.not_after_epoch_seconds == Some(material.not_after_epoch_seconds))),
        }),
{
}

/// A result can be marked rejected if and only if the code is not zero and the result is retained
/// and is pending, was rejected with the same code, or was issued. An issued one stays as it is.
pub proof fn law_results_are_rejected_once(store: StoreView, key: KeyView, code: u16, now: u64)
    ensures
        super::reject_refusal(store.records, key, code, now) is None <==> code != 0 && (match
            read_back(store, key, now) {
            None => false,
            Some(held) => match held.status {
                IssuanceResultStatus::Pending => now + 86400 <= u64::MAX,
                IssuanceResultStatus::Issued => true,
                IssuanceResultStatus::Rejected => held.rejection_code == Some(code),
            },
        }),
        (read_back(store, key, now) matches Some(held) && held.status
            != IssuanceResultStatus::Pending) ==> super::store_after(
            store,
            StoreOperation::Reject { key, code },
            now,
        ) == store,
{
}

/// What was refused leaves the store as it was.
pub proof fn law_refused_operations_change_nothing(
    store: StoreView,
    key: KeyView,
    app_id: Seq<char>,
    accepted: bool,
    expires_at: u64,
    material: MaterialView,
    code: u16,
    now: u64,
)
    ensures
        super::begin_refusal(store.records, key, app_id, accepted, expires_at, now) is Some
            ==> super::store_after(
            store,
            StoreOperation::Begin { key, app_id, accepted, expires_at },
            now,
        ) == store,
        super::attach_refusal(store.records, key, material, now) is Some ==> super::store_after(
            store,
            StoreOperation::Attach { key, material },
            now,
        ) == store,
        super::issue_refusal(store.records, key, material, now) is Some ==> super::store_after(
            store,
            StoreOperation::Issue { key, material },
            now,
        ) == store,
        super::reject_refusal(store.records, key, code, now) is Some ==> super::store_after(
            store,
            StoreOperation::Reject { key, code },
            now,
        ) == store,
{
}

/// A binding is usable if and only if neither its authorization nor its digest is all zero.
pub proof fn law_bindings_are_not_empty(key: KeyView)
    ensures
        super::key_valid(key) <==> (exists|i: int|
            0 <= i < key.authorization_id.len() && #[trigger] key.authorization_id[i] != 0) && (
        exists|i: int| 0 <= i < key.csr_digest.len() && #[trigger] key.csr_digest[i] != 0),
{
}

/// What is handed out of a store is what is held: a returned record has the contents of the record
/// that it stands for, a list holds the contents of each of its records, a chain those of each of its
/// certificates.
pub proof fn law_contents_are_handed_out_whole(
    result: crate::error::RelayResult<super::IssuanceResultRecord>,
    record: RecordView,
    records: Seq<super::IssuanceResultRecord>,
    chain: Seq<Vec<u8>>,
    digest: Option<[u8; 32]>,
    at: int,
)
    ensures
        super::returns_record(result, record) <==> (result matches Ok(copy) && copy@ == record),
        super::views(records).len() == records.len(),
        0 <= at < records.len() ==> super::views(records)[at] == records[at]@,
        super::chain_view(chain).len() == chain.len(),
        0 <= at < chain.len() ==> super::chain_view(chain)[at] == chain[at]@,
        super::digest_view(digest) is Some <==> digest is Some,
        digest matches Some(bytes) ==> super::digest_view(digest) == Some(bytes@),
{
}

} // verus!
