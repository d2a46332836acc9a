//! Issuance results that are retained for response-lost enrollment.
//!
//! A store holds only bounded public certificate material and sanitized status metadata. It works
//! on the records that were loaded under the store lock and says when they have to be saved.

pub mod retention;

use crate::bytes::{is_all_zero, same_bytes};
use crate::error::{RelayError, RelayResult};
use crate::paths::same_text;
use crate::pki::copy_chain;
use vstd::prelude::*;

verus! {

/// Seconds for which a terminal or unresolved result is retained.
pub const ISSUANCE_RESULT_TTL_SECS: u64 = 86400;

/// Most retained records.
pub const MAX_ISSUANCE_RESULT_RECORDS: usize = 256;

/// Most bytes of the serialized store.
pub const MAX_ISSUANCE_RESULT_BYTES: u64 = 262144;

/// Most public certificate bytes of one record.
pub const MAX_ISSUANCE_CHAIN_BYTES: usize = 49152;

/// Longest authorization lifetime in seconds.
pub const MAX_AUTHORIZATION_TTL_SECS: u64 = 300;

/// Version of the store format.
pub const ISSUANCE_RESULT_STORE_VERSION: u16 = 1;

/// One Core authorization and the digest of the signing request that it is bound to.
#[derive(Clone, Copy)]
pub struct IssuanceResultKey {
    authorization_id: [u8; 16],
    csr_digest: [u8; 32],
}

/// Contents of a key.
#[verifier::ext_equal]
pub struct KeyView {
    /// Authorization identity.
    pub authorization_id: Seq<u8>,
    /// Digest of the signing request.
    pub csr_digest: Seq<u8>,
}

impl View for IssuanceResultKey {
    type V = KeyView;

    closed spec fn view(&self) -> KeyView {
        KeyView { authorization_id: self.authorization_id@, csr_digest: self.csr_digest@ }
    }
}

/// Neither part of the key is all zero.
pub open spec fn key_valid(key: KeyView) -> bool {
    !crate::bytes::all_zero(key.authorization_id) && !crate::bytes::all_zero(key.csr_digest)
}

impl IssuanceResultKey {
    /// Binds an authorization to a signing request; both must be nonzero.
    pub fn new(authorization_id: [u8; 16], csr_digest: [u8; 32]) -> (key: RelayResult<Self>)
        ensures
            ({
                let wanted = KeyView {
                    authorization_id: authorization_id@,
                    csr_digest: csr_digest@,
                };
                match key {
                    Ok(binding) => key_valid(wanted) && binding@ == wanted,
                    Err(error) => !key_valid(wanted) && error == (RelayError::QuicProtocol {
                        reason: "issuance binding is empty",
                    }),
                }
            }),
    {
        if is_all_zero(&authorization_id) || is_all_zero(&csr_digest) {
            return Err(RelayError::QuicProtocol { reason: "issuance binding is empty" });
        }
        Ok(IssuanceResultKey { authorization_id, csr_digest })
    }

    /// The key that a stored record names; it is checked when the records are loaded.
    pub fn stored(authorization_id: [u8; 16], csr_digest: [u8; 32]) -> (key: Self)
        ensures
            key@ == (KeyView { authorization_id: authorization_id@, csr_digest: csr_digest@ }),
    {
        IssuanceResultKey { authorization_id, csr_digest }
    }

    /// The authorization identity.
    pub fn authorization_id(&self) -> (id: [u8; 16])
        ensures
            id@ == self@.authorization_id,
    {
        self.authorization_id
    }

    /// The digest of the signing request.
    pub fn csr_digest(&self) -> (digest: [u8; 32])
        ensures
            digest@ == self@.csr_digest,
    {
        self.csr_digest
    }

    fn same(&self, other: &IssuanceResultKey) -> (same: bool)
        ensures
            same == (self@ == other@),
    {
        let same = same_bytes(&self.authorization_id, &other.authorization_id) && same_bytes(
            &self.csr_digest,
            &other.csr_digest,
        );
        assert(same ==> self@ =~= other@);
        same
    }
}

/// State of one enrollment attempt.
#[derive(Debug, Clone, Copy, PartialEq, Eq, Structural)]
pub enum IssuanceResultStatus {
    /// The authorization was consumed; the outcome is unresolved.
    Pending,
    /// A certificate was issued and the allowlist holds it.
    Issued,
    /// The attempt was refused for good.
    Rejected,
}

/// One retained result.
pub struct IssuanceResultRecord {
    key: IssuanceResultKey,
    app_id: String,
    status: IssuanceResultStatus,
    authorization_expires_at_epoch_seconds: u64,
    retained_until_epoch_seconds: u64,
    certificate_chain: Vec<Vec<u8>>,
    fingerprint: Option<[u8; 32]>,
    allowlist_generation: Option<u64>,
    not_after_epoch_seconds: Option<u64>,
    rejection_code: Option<u16>,
}

/// Contents of a record.
#[verifier::ext_equal]
pub struct RecordView {
    /// Binding of the record.
    pub key: KeyView,
    /// App of the record.
    pub app_id: Seq<char>,
    /// State of the attempt.
    pub status: IssuanceResultStatus,
    /// Deadline of the authorization.
    pub authorization_expires_at_epoch_seconds: u64,
    /// End of retention.
    pub retained_until_epoch_seconds: u64,
    /// Public certificate chain.
    pub certificate_chain: Seq<Seq<u8>>,
    /// Digest of the leaf.
    pub fingerprint: Option<Seq<u8>>,
    /// Allowlist generation of the issuance.
    pub allowlist_generation: Option<u64>,
    /// End of the certificate's validity.
    pub not_after_epoch_seconds: Option<u64>,
    /// Code of the refusal.
    pub rejection_code: Option<u16>,
}

/// The contents of a chain.
pub open spec fn chain_view(chain: Seq<Vec<u8>>) -> Seq<Seq<u8>> {
    chain.map_values(|certificate: Vec<u8>| certificate@)
}

/// The contents of an optional digest.
pub open spec fn digest_view(digest: Option<[u8; 32]>) -> Option<Seq<u8>> {
    match digest {
        Some(bytes) => Some(bytes@),
        None => None,
    }
}

impl View for IssuanceResultRecord {
    type V = RecordView;

    closed spec fn view(&self) -> RecordView {
        RecordView {
            key: self.key@,
            app_id: self.app_id@,
            status: self.status,
            authorization_expires_at_epoch_seconds: self.authorization_expires_at_epoch_seconds,
            retained_until_epoch_seconds: self.retained_until_epoch_seconds,
            certificate_chain: chain_view(self.certificate_chain@),
            fingerprint: digest_view(self.fingerprint),
            allowlist_generation: self.allowlist_generation,
            not_after_epoch_seconds: self.not_after_epoch_seconds,
            rejection_code: self.rejection_code,
        }
    }
}

/// What may be shown of a record: its shape, no certificate bytes and no identity.
#[derive(Debug, Clone, Copy, PartialEq, Eq)]
pub struct RecordSummary {
    /// State of the attempt.
    pub status: IssuanceResultStatus,
    /// Deadline of the authorization.
    pub authorization_expires_at_epoch_seconds: u64,
    /// End of retention.
    pub retained_until_epoch_seconds: u64,
    /// Certificates of the chain.
    pub certificate_count: usize,
    /// Bytes of the certificates of the chain.
    pub certificate_bytes: usize,
    /// A fingerprint is present.
    pub fingerprint_present: bool,
    /// Allowlist generation of the issuance.
    pub allowlist_generation: Option<u64>,
    /// End of the certificate's validity.
    pub not_after_epoch_seconds: Option<u64>,
    /// Code of the refusal.
    pub rejection_code: Option<u16>,
}

impl IssuanceResultRecord {
    /// The record that a store file holds; it is checked when the records are loaded.
    pub fn stored(
        key: IssuanceResultKey,
        app_id: String,
        status: IssuanceResultStatus,
        authorization_expires_at_epoch_seconds: u64,
        retained_until_epoch_seconds: u64,
        certificate_chain: Vec<Vec<u8>>,
        fingerprint: Option<[u8; 32]>,
        allowlist_generation: Option<u64>,
        not_after_epoch_seconds: Option<u64>,
        rejection_code: Option<u16>,
    ) -> (record: Self)
        ensures
            record@ == (RecordView {
                key: key@,
                app_id: app_id@,
                status,
                authorization_expires_at_epoch_seconds,
                retained_until_epoch_seconds,
                certificate_chain: chain_view(certificate_chain@),
                fingerprint: digest_view(fingerprint),
                allowlist_generation,
                not_after_epoch_seconds,
                rejection_code,
            }),
    {
        IssuanceResultRecord {
            key,
            app_id,
            status,
            authorization_expires_at_epoch_seconds,
            retained_until_epoch_seconds,
            certificate_chain,
            fingerprint,
            allowlist_generation,
            not_after_epoch_seconds,
            rejection_code,
        }
    }

    /// The binding.
    pub fn key(&self) -> (key: IssuanceResultKey)
        ensures
            key@ == self@.key,
    {
        self.key
    }

    /// The App.
    pub fn app_id(&self) -> (app_id: &str)
        ensures
            app_id@ == self@.app_id,
    {
        self.app_id.as_str()
    }

    /// The state of the attempt.
    pub fn status(&self) -> (status: IssuanceResultStatus)
        ensures
            status == self@.status,
    {
        self.status
    }

    /// The deadline of the authorization.
    pub fn authorization_expires_at_epoch_seconds(&self) -> (seconds: u64)
        ensures
            seconds == self@.authorization_expires_at_epoch_seconds,
    {
        self.authorization_expires_at_epoch_seconds
    }

    /// The end of retention.
    pub fn retained_until_epoch_seconds(&self) -> (seconds: u64)
        ensures
            seconds == self@.retained_until_epoch_seconds,
    {
        self.retained_until_epoch_seconds
    }

    /// The public certificate chain.
    pub fn certificate_chain(&self) -> (chain: &Vec<Vec<u8>>)
        ensures
            chain_view(chain@) == self@.certificate_chain,
    {
        &self.certificate_chain
    }

    /// The digest of the leaf, once there is one.
    pub fn fingerprint(&self) -> (fingerprint: Option<[u8; 32]>)
        ensures
            digest_view(fingerprint) == self@.fingerprint,
    {
        self.fingerprint
    }

    /// The allowlist generation, once there is one.
    pub fn allowlist_generation(&self) -> (generation: Option<u64>)
        ensures
            generation == self@.allowlist_generation,
    {
        self.allowlist_generation
    }

    /// The end of the certificate's validity, once there is one.
    pub fn not_after_epoch_seconds(&self) -> (seconds: Option<u64>)
        ensures
            seconds == self@.not_after_epoch_seconds,
    {
        self.not_after_epoch_seconds
    }

    /// The code of the refusal, once there is one.
    pub fn rejection_code(&self) -> (code: Option<u16>)
        ensures
            code == self@.rejection_code,
    {
        self.rejection_code
    }

    /// What may be shown of the record.
    pub fn summary(&self) -> (summary: RecordSummary)
        requires
            chain_bytes(self@.certificate_chain) <= usize::MAX,
        ensures
            summary == (RecordSummary {
                status: self@.status,
                authorization_expires_at_epoch_seconds:
                    self@.authorization_expires_at_epoch_seconds,
                retained_until_epoch_seconds: self@.retained_until_epoch_seconds,
                certificate_count: self@.certificate_chain.len() as usize,
                certificate_bytes: chain_bytes(self@.certificate_chain) as usize,
                fingerprint_present: self@.fingerprint is Some,
                allowlist_generation: self@.allowlist_generation,
                not_after_epoch_seconds: self@.not_after_epoch_seconds,
                rejection_code: self@.rejection_code,
            }),
    {
        RecordSummary {
            status: self.status,
            authorization_expires_at_epoch_seconds: self.authorization_expires_at_epoch_seconds,
            retained_until_epoch_seconds: self.retained_until_epoch_seconds,
            certificate_count: self.certificate_chain.len(),
            certificate_bytes: count_bytes(&self.certificate_chain),
            fingerprint_present: self.fingerprint.is_some(),
            allowlist_generation: self.allowlist_generation,
            not_after_epoch_seconds: self.not_after_epoch_seconds,
            rejection_code: self.rejection_code,
        }
    }

    /// Copies the record.
    pub fn copy(&self) -> (copy: Self)
        ensures
            copy@ == self@,
    {
        let certificate_chain = copy_chain(&self.certificate_chain);
        assert(chain_view(certificate_chain@) =~= chain_view(self.certificate_chain@));
        IssuanceResultRecord {
            key: self.key,
            app_id: self.app_id.clone(),
            status: self.status,
            authorization_expires_at_epoch_seconds: self.authorization_expires_at_epoch_seconds,
            retained_until_epoch_seconds: self.retained_until_epoch_seconds,
            certificate_chain,
            fingerprint: self.fingerprint,
            allowlist_generation: self.allowlist_generation,
            not_after_epoch_seconds: self.not_after_epoch_seconds,
            rejection_code: self.rejection_code,
        }
    }
}

/// Outcome of beginning an attempt.
pub enum IssuanceBeginResult {
    /// The binding is new and pending.
    Created(IssuanceResultRecord),
    /// The binding already existed and must not be issued again.
    Existing(IssuanceResultRecord),
}

/// The bytes of all certificates of a chain.
pub open spec fn chain_bytes(chain: Seq<Seq<u8>>) -> nat
    decreases chain.len(),
{
    if chain.len() == 0 {
        0
    } else {
        chain[0].len() + chain_bytes(chain.drop_first())
    }
}

/// Counts the bytes of all certificates of a chain.
fn count_bytes(chain: &Vec<Vec<u8>>) -> (count: usize)
    requires
        chain_bytes(chain_view(chain@)) <= usize::MAX,
    ensures
        count == chain_bytes(chain_view(chain@)),
{
    let ghost all = chain_view(chain@);
    let mut count: usize = 0;
    let mut i: usize = 0;
    assert(all.skip(0) =~= all);
    while i < chain.len()
        invariant
            i <= chain@.len(),
            all == chain_view(chain@),
            chain_bytes(all) <= usize::MAX,
            count + chain_bytes(all.skip(i as int)) == chain_bytes(all),
        decreases chain@.len() - i,
    {
        let ghost rest = all.skip(i as int);
        assert(rest[0] == chain@[i as int]@);
        assert(rest.drop_first() =~= all.skip(i + 1));
        count = count + chain[i].len();
        i = i + 1;
    }
    assert(all.skip(i as int).len() == 0);
    count
}

/// The outcome of checking a public certificate chain.
pub open spec fn chain_check(chain: Seq<Seq<u8>>) -> RelayResult<()> {
    if chain.len() == 0 {
        Err(RelayError::QuicProtocol { reason: "issued certificate chain is empty" })
    } else if chain_bytes_before_empty(chain) > usize::MAX {
        Err(RelayError::ResourceLimit)
    } else if has_empty_certificate(chain) {
        Err(RelayError::QuicProtocol { reason: "issued certificate is empty" })
    } else if chain_bytes(chain) > MAX_ISSUANCE_CHAIN_BYTES {
        Err(RelayError::ResourceLimit)
    } else {
        Ok(())
    }
}

/// Some certificate of the chain has no bytes.
pub open spec fn has_empty_certificate(chain: Seq<Seq<u8>>) -> bool {
    exists|i: int| 0 <= i < chain.len() && (#[trigger] chain[i]).len() == 0
}

/// The bytes of the certificates before the first empty one.
pub open spec fn chain_bytes_before_empty(chain: Seq<Seq<u8>>) -> nat
    decreases chain.len(),
{
    if chain.len() == 0 || chain[0].len() == 0 {
        0
    } else {
        chain[0].len() + chain_bytes_before_empty(chain.drop_first())
    }
}

/// Checks a public certificate chain: it is not empty, no certificate is, and together they hold
/// at most 48 KiB.
pub fn validate_chain(chain: &Vec<Vec<u8>>) -> (checked: RelayResult<()>)
    ensures
        checked == chain_check(chain_view(chain@)),
{
    if chain.len() == 0 {
        return Err(RelayError::QuicProtocol { reason: "issued certificate chain is empty" });
    }
    let ghost all = chain_view(chain@);
    let mut total: usize = 0;
    let mut i: usize = 0;
    assert(all.skip(0) =~= all);
    while i < chain.len()
        invariant
            i <= chain@.len(),
            all == chain_view(chain@),
            forall|j: int| 0 <= j < i ==> (#[trigger] all[j]).len() > 0,
            total + chain_bytes(all.skip(i as int)) == chain_bytes(all),
            total + chain_bytes_before_empty(all.skip(i as int)) == chain_bytes_before_empty(all),
            chain@.len() > 0,
        decreases chain@.len() - i,
    {
        let ghost rest = all.skip(i as int);
        assert(rest[0] == all[i as int]);
        assert(rest.drop_first() =~= all.skip(i + 1));
        let length: usize = chain[i].len();
        assert(all[i as int].len() == length);
        if length == 0 {
            return Err(RelayError::QuicProtocol { reason: "issued certificate is empty" });
        }
        match total.checked_add(length) {
            Some(sum) => {
                total = sum;
            },
            None => {
                return Err(RelayError::ResourceLimit);
            },
        }
        i = i + 1;
    }
    assert(all.skip(i as int).len() == 0);
    if total > MAX_ISSUANCE_CHAIN_BYTES {
        return Err(RelayError::ResourceLimit);
    }
    Ok(())
}

/// The outcome of checking one stored record on its own; `accepted` says that its App identity is
/// well formed.
pub open spec fn record_check(record: RecordView, accepted: bool) -> RelayResult<()> {
    if !key_valid(record.key) || !accepted || record.authorization_expires_at_epoch_seconds == 0
        || record.retained_until_epoch_seconds == 0 {
        Err(RelayError::ConfigurationRead)
    } else {
        match record.status {
            IssuanceResultStatus::Pending => if record.rejection_code is Some {
                Err(RelayError::ConfigurationRead)
            } else if record.certificate_chain.len() > 0 {
                chain_check(record.certificate_chain)
            } else {
                Ok(())
            },
            IssuanceResultStatus::Issued => if chain_check(record.certificate_chain) is Err {
                chain_check(record.certificate_chain)
            } else if record.fingerprint is None || record.allowlist_generation is None
                || record.not_after_epoch_seconds is None || record.rejection_code is Some {
                Err(RelayError::ConfigurationRead)
            } else {
                Ok(())
            },
            IssuanceResultStatus::Rejected => if record.certificate_chain.len() > 0
                || record.fingerprint is Some || record.allowlist_generation is Some
                || record.not_after_epoch_seconds is Some || record.rejection_code is None
                || record.rejection_code == Some(0u16) {
                Err(RelayError::ConfigurationRead)
            } else {
                Ok(())
            },
        }
    }
}

/// Checks one stored record on its own.
fn validate_record(record: &IssuanceResultRecord, accepted: bool) -> (checked: RelayResult<()>)
    ensures
        checked == record_check(record@, accepted),
{
    if is_all_zero(&record.key.authorization_id) || is_all_zero(&record.key.csr_digest)
        || !accepted || record.authorization_expires_at_epoch_seconds == 0
        || record.retained_until_epoch_seconds == 0 {
        return Err(RelayError::ConfigurationRead);
    }
    match record.status {
        IssuanceResultStatus::Pending => {
            if record.rejection_code.is_some() {
                return Err(RelayError::ConfigurationRead);
            }
            if record.certificate_chain.len() > 0 {
                return validate_chain(&record.certificate_chain);
            }
            Ok(())
        },
        IssuanceResultStatus::Issued => {
            let checked = validate_chain(&record.certificate_chain);
            if checked.is_err() {
                return checked;
            }
            if record.fingerprint.is_none() || record.allowlist_generation.is_none()
                || record.not_after_epoch_seconds.is_none() || record.rejection_code.is_some() {
                return Err(RelayError::ConfigurationRead);
            }
            Ok(())
        },
        IssuanceResultStatus::Rejected => {
            let code: u16 = match record.rejection_code {
                Some(value) => value,
                None => 0,
            };
            if record.certificate_chain.len() > 0 || record.fingerprint.is_some()
                || record.allowlist_generation.is_some()
                || record.not_after_epoch_seconds.is_some() || code == 0 {
                return Err(RelayError::ConfigurationRead);
            }
            Ok(())
        },
    }
}

/// The contents of a list of records.
pub open spec fn views(records: Seq<IssuanceResultRecord>) -> Seq<RecordView> {
    records.map_values(|record: IssuanceResultRecord| record@)
}

/// Some record before position `i` has the key of record `i`.
pub open spec fn key_repeated(records: Seq<RecordView>, i: int) -> bool {
    exists|j: int| 0 <= j < i && (#[trigger] records[j]).key == records[i].key
}

/// The outcome of checking the records from position `i` on.
pub open spec fn records_check_from(
    records: Seq<RecordView>,
    accepted: Seq<bool>,
    i: int,
) -> RelayResult<()>
    decreases records.len() - i,
{
    if i >= records.len() {
        Ok(())
    } else if key_repeated(records, i) {
        Err(RelayError::ConfigurationRead)
    } else {
        match record_check(records[i], accepted[i]) {
            Err(error) => Err(error),
            Ok(_) => records_check_from(records, accepted, i + 1),
        }
    }
}

/// The outcome of checking a stored list of records.
///
/// `accepted[i]` says that the App identity of record `i` is well formed.
pub open spec fn records_check(
    version: u16,
    records: Seq<RecordView>,
    accepted: Seq<bool>,
) -> RelayResult<()> {
    if version != ISSUANCE_RESULT_STORE_VERSION || records.len() > MAX_ISSUANCE_RESULT_RECORDS {
        Err(RelayError::ConfigurationRead)
    } else {
        records_check_from(records, accepted, 0)
    }
}

/// Tells whether a record before position `index` has the key of record `index`.
fn repeats_key(records: &Vec<IssuanceResultRecord>, index: usize) -> (repeated: bool)
    requires
        index < records@.len(),
    ensures
        repeated == key_repeated(views(records@), index as int),
{
    let ghost all = views(records@);
    let mut j: usize = 0;
    while j < index
        invariant
            j <= index < records@.len(),
            all == views(records@),
            forall|k: int| 0 <= k < j ==> (#[trigger] all[k]).key != all[index as int].key,
        decreases index - j,
    {
        if records[j].key.same(&records[index].key) {
            assert(all[j as int].key == all[index as int].key);
            return true;
        }
        assert(all[j as int].key != all[index as int].key);
        j = j + 1;
    }
    false
}

/// Checks stored records before they can influence a reconciliation.
pub fn validate_records(
    version: u16,
    records: &Vec<IssuanceResultRecord>,
    accepted: &Vec<bool>,
) -> (checked: RelayResult<()>)
    requires
        accepted@.len() == records@.len(),
    ensures
        checked == records_check(version, views(records@), accepted@),
{
    if version != ISSUANCE_RESULT_STORE_VERSION || records.len() > MAX_ISSUANCE_RESULT_RECORDS {
        return Err(RelayError::ConfigurationRead);
    }
    let ghost all = views(records@);
    let mut i: usize = 0;
    while i < records.len()
        invariant
            i <= records@.len(),
            accepted@.len() == records@.len(),
            all == views(records@),
            records_check_from(all, accepted@, i as int) == records_check_from(all, accepted@, 0),
            version == ISSUANCE_RESULT_STORE_VERSION,
            records@.len() <= MAX_ISSUANCE_RESULT_RECORDS,
        decreases records@.len() - i,
    {
        if repeats_key(records, i) {
            return Err(RelayError::ConfigurationRead);
        }
        let checked = validate_record(&records[i], accepted[i]);
        assert(checked == record_check(all[i as int], accepted@[i as int]));
        if checked.is_err() {
            return checked;
        }
        i = i + 1;
    }
    Ok(())
}

/// The records that are still retained at `now`.
pub open spec fn pruned(records: Seq<RecordView>, now: u64) -> Seq<RecordView>
    decreases records.len(),
{
    if records.len() == 0 {
        records
    } else {
        let rest = pruned(records.drop_first(), now);
        if records[0].retained_until_epoch_seconds > now {
            seq![records[0]] + rest
        } else {
            rest
        }
    }
}

/// The first record with `key`.
pub open spec fn lookup(records: Seq<RecordView>, key: KeyView) -> Option<RecordView>
    decreases records.len(),
{
    if records.len() == 0 {
        None
    } else if records[0].key == key {
        Some(records[0])
    } else {
        lookup(records.drop_first(), key)
    }
}

/// The records with every record of `key` replaced by `record`.
pub open spec fn replaced(
    records: Seq<RecordView>,
    key: KeyView,
    record: RecordView,
) -> Seq<RecordView> {
    records.map_values(|old: RecordView| if old.key == key { record } else { old })
}

/// Some record has the authorization `id`.
pub open spec fn authorization_used(records: Seq<RecordView>, id: Seq<u8>) -> bool {
    exists|i: int| 0 <= i < records.len() && (#[trigger] records[i]).key.authorization_id == id
}

/// No two records have the same key.
pub open spec fn keys_distinct(records: Seq<RecordView>) -> bool {
    forall|i: int, j: int|
        0 <= i < j < records.len() ==> (#[trigger] records[i]).key != (#[trigger] records[j]).key
}

/// The records are those of a valid store.
pub open spec fn records_valid(records: Seq<RecordView>) -> bool {
    &&& records.len() <= MAX_ISSUANCE_RESULT_RECORDS
    &&& keys_distinct(records)
    &&& forall|i: int|
        0 <= i < records.len() ==> record_check(#[trigger] records[i], true) is Ok
}

/// Contents of a store.
pub struct StoreView {
    /// Path of the store file.
    pub path: Seq<char>,
    /// Owner of the store file.
    pub expected_uid: u32,
    /// Retained records.
    pub records: Seq<RecordView>,
    /// The records have to be saved.
    pub unsaved: bool,
}

/// Retained issuance results, as loaded from their protected file.
pub struct PersistentIssuanceResults {
    path: String,
    expected_uid: u32,
    records: Vec<IssuanceResultRecord>,
    unsaved: bool,
}

impl View for PersistentIssuanceResults {
    type V = StoreView;

    closed spec fn view(&self) -> StoreView {
        StoreView {
            path: self.path@,
            expected_uid: self.expected_uid,
            records: views(self.records@),
            unsaved: self.unsaved,
        }
    }
}

/// Every retained record is one of the records, and is retained.
proof fn lemma_pruned_member(records: Seq<RecordView>, now: u64, i: int) -> (j: int)
    requires
        0 <= i < pruned(records, now).len(),
    ensures
        0 <= j < records.len(),
        pruned(records, now)[i] == records[j],
        records[j].retained_until_epoch_seconds > now,
    decreases records.len(),
{
    let rest = records.drop_first();
    if records[0].retained_until_epoch_seconds > now {
        if i == 0 {
            0
        } else {
            lemma_pruned_member(rest, now, i - 1) + 1
        }
    } else {
        lemma_pruned_member(rest, now, i) + 1
    }
}

/// A record that is retained is among the retained records.
proof fn lemma_pruned_keeps(records: Seq<RecordView>, now: u64, j: int) -> (i: int)
    requires
        0 <= j < records.len(),
        records[j].retained_until_epoch_seconds > now,
    ensures
        0 <= i < pruned(records, now).len(),
        pruned(records, now)[i] == records[j],
    decreases records.len(),
{
    let rest = records.drop_first();
    if j == 0 {
        0
    } else {
        let i = lemma_pruned_keeps(rest, now, j - 1);
        if records[0].retained_until_epoch_seconds > now {
            i + 1
        } else {
            i
        }
    }
}

proof fn lemma_pruned_len(records: Seq<RecordView>, now: u64)
    ensures
        pruned(records, now).len() <= records.len(),
    decreases records.len(),
{
    if records.len() > 0 {
        lemma_pruned_len(records.drop_first(), now);
    }
}

proof fn lemma_pruned_distinct(records: Seq<RecordView>, now: u64)
    requires
        keys_distinct(records),
    ensures
        keys_distinct(pruned(records, now)),
    decreases records.len(),
{
    if records.len() > 0 {
        let rest = records.drop_first();
        assert(keys_distinct(rest)) by {
            assert forall|i: int, j: int| 0 <= i < j < rest.len() implies (#[trigger] rest[i]).key
                != (#[trigger] rest[j]).key by {
                assert(rest[i] == records[i + 1] && rest[j] == records[j + 1]);
            }
        }
        lemma_pruned_distinct(rest, now);
        let kept = pruned(records, now);
        let below = pruned(rest, now);
        if records[0].retained_until_epoch_seconds > now {
            assert forall|i: int, j: int| 0 <= i < j < kept.len() implies (#[trigger] kept[i]).key
                != (#[trigger] kept[j]).key by {
                assert(kept[j] == below[j - 1]);
                if i == 0 {
                    let k = lemma_pruned_member(rest, now, j - 1);
                    assert(records[k + 1] == rest[k]);
                } else {
                    assert(kept[i] == below[i - 1]);
                }
            }
        }
    }
}

/// Dropping expired records keeps a store valid.
proof fn lemma_pruned_valid(records: Seq<RecordView>, now: u64)
    requires
        records_valid(records),
    ensures
        records_valid(pruned(records, now)),
{
    lemma_pruned_len(records, now);
    lemma_pruned_distinct(records, now);
    let kept = pruned(records, now);
    assert forall|i: int| 0 <= i < kept.len() implies record_check(#[trigger] kept[i], true) is Ok by {
        let j = lemma_pruned_member(records, now, i);
    }
}

/// With distinct keys, the record at the position of a key is what the key looks up.
proof fn lemma_lookup_at(records: Seq<RecordView>, key: KeyView, i: int)
    requires
        keys_distinct(records),
        0 <= i < records.len(),
        records[i].key == key,
    ensures
        lookup(records, key) == Some(records[i]),
    decreases records.len(),
{
    if i > 0 {
        let rest = records.drop_first();
        assert(records[0].key != records[i].key);
        assert forall|a: int, b: int| 0 <= a < b < rest.len() implies (#[trigger] rest[a]).key != (
        #[trigger] rest[b]).key by {
            assert(rest[a] == records[a + 1] && rest[b] == records[b + 1]);
        }
        lemma_lookup_at(rest, key, i - 1);
    }
}

/// A key that looks up a record has a position.
proof fn lemma_lookup_position(records: Seq<RecordView>, key: KeyView) -> (i: int)
    requires
        lookup(records, key) is Some,
    ensures
        0 <= i < records.len(),
        records[i].key == key,
        lookup(records, key) == Some(records[i]),
    decreases records.len(),
{
    if records[0].key == key {
        0
    } else {
        lemma_lookup_position(records.drop_first(), key) + 1
    }
}

/// A key that looks up nothing has no position.
proof fn lemma_lookup_none(records: Seq<RecordView>, key: KeyView, i: int)
    requires
        lookup(records, key) is None,
        0 <= i < records.len(),
    ensures
        records[i].key != key,
    decreases records.len(),
{
    if i > 0 {
        lemma_lookup_none(records.drop_first(), key, i - 1);
        assert(records.drop_first()[i - 1] == records[i]);
    }
}

/// With distinct keys, replacing by key is replacing at the position of the key.
proof fn lemma_replaced_at(records: Seq<RecordView>, key: KeyView, record: RecordView, i: int)
    requires
        keys_distinct(records),
        0 <= i < records.len(),
        records[i].key == key,
    ensures
        replaced(records, key, record) == records.update(i, record),
{
    assert(replaced(records, key, record) =~= records.update(i, record)) by {
        assert forall|j: int| 0 <= j < records.len() && j != i implies (#[trigger] records[j]).key
            != key by {
            if j < i {
                assert(records[j].key != records[i].key);
            } else {
                assert(records[i].key != records[j].key);
            }
        }
    }
}

/// Replacing a record by a valid one of the same key keeps a store valid.
proof fn lemma_replaced_valid(records: Seq<RecordView>, key: KeyView, record: RecordView)
    requires
        records_valid(records),
        record.key == key,
        record_check(record, true) is Ok,
    ensures
        records_valid(replaced(records, key, record)),
{
    let new = replaced(records, key, record);
    assert forall|i: int, j: int| 0 <= i < j < new.len() implies (#[trigger] new[i]).key != (
    #[trigger] new[j]).key by {
        assert(new[i].key == records[i].key && new[j].key == records[j].key);
    }
}

/// Drops every record whose retention has ended, and tells whether one was dropped.
fn prune_records(records: &mut Vec<IssuanceResultRecord>, now: u64) -> (changed: bool)
    ensures
        views(final(records)@) == pruned(views(old(records)@), now),
        changed == (final(records)@.len() != old(records)@.len()),
{
    let ghost all = views(records@);
    let before: usize = records.len();
    let mut kept: Vec<IssuanceResultRecord> = Vec::new();
    assert(views(kept@) + pruned(all, now) =~= pruned(all, now));
    while records.len() > 0
        invariant
            views(kept@) + pruned(views(records@), now) == pruned(all, now),
        decreases records@.len(),
    {
        let ghost left = views(records@);
        let ghost kept_before = views(kept@);
        let record = records.remove(0);
        assert(left[0] == record@);
        assert(left.drop_first() =~= views(records@));
        if record.retained_until_epoch_seconds > now {
            kept.push(record);
            assert(views(kept@) =~= kept_before.push(left[0]));
            assert(kept_before.push(left[0]) + pruned(views(records@), now) =~= kept_before + (
            seq![left[0]] + pruned(views(records@), now)));
        }
    }
    assert(views(kept@) + pruned(views(records@), now) =~= views(kept@));
    records.append(&mut kept);
    assert(views(records@) =~= pruned(all, now));
    records.len() != before
}

/// The position of the retained record with `key`.
fn find_retained(records: &Vec<IssuanceResultRecord>, key: &IssuanceResultKey, now: u64) -> (found:
    Option<usize>)
    ensures
        match found {
            Some(i) => i < records@.len() && lookup(pruned(views(records@), now), key@) == Some(
                records@[i as int]@,
            ) && records@[i as int]@.key == key@,
            None => lookup(pruned(views(records@), now), key@) is None,
        },
{
    let ghost all = views(records@);
    let mut i: usize = 0;
    assert(all.skip(0) =~= all);
    while i < records.len()
        invariant
            i <= records@.len(),
            all == views(records@),
            lookup(pruned(all.skip(i as int), now), key@) == lookup(pruned(all, now), key@),
        decreases records@.len() - i,
    {
        let ghost rest = all.skip(i as int);
        assert(rest[0] == records@[i as int]@);
        assert(rest.drop_first() =~= all.skip(i + 1));
        if records[i].retained_until_epoch_seconds > now {
            let ghost kept = pruned(rest, now);
            assert(kept.drop_first() =~= pruned(all.skip(i + 1), now));
            if records[i].key.same(key) {
                return Some(i);
            }
        }
        i = i + 1;
    }
    None
}

/// The position of the record with `key`.
fn position(records: &Vec<IssuanceResultRecord>, key: &IssuanceResultKey) -> (found: usize)
    requires
        lookup(views(records@), key@) is Some,
    ensures
        found < records@.len(),
        records@[found as int]@.key == key@,
{
    let ghost all = views(records@);
    let ghost witness = lemma_lookup_position(all, key@);
    let mut i: usize = 0;
    while i < records.len()
        invariant
            i <= records@.len(),
            all == views(records@),
            0 <= witness < records@.len(),
            all[witness].key == key@,
            i <= witness,
        decreases records@.len() - i,
    {
        if records[i].key.same(key) {
            return i;
        }
        assert(all[i as int].key != key@);
        i = i + 1;
    }
    0
}

/// Tells whether a retained record has the authorization `id`.
fn uses_authorization(records: &Vec<IssuanceResultRecord>, id: &[u8; 16], now: u64) -> (used: bool)
    ensures
        used == authorization_used(pruned(views(records@), now), id@),
{
    let ghost all = views(records@);
    let mut i: usize = 0;
    while i < records.len()
        invariant
            i <= records@.len(),
            all == views(records@),
            forall|j: int|
                0 <= j < i && (#[trigger] all[j]).retained_until_epoch_seconds > now
                    ==> all[j].key.authorization_id != id@,
        decreases records@.len() - i,
    {
        assert(all[i as int] == records@[i as int]@);
        if records[i].retained_until_epoch_seconds > now && same_bytes(
            &records[i].key.authorization_id,
            id,
        ) {
            proof {
                let k = lemma_pruned_keeps(all, now, i as int);
                assert(pruned(all, now)[k].key.authorization_id == id@);
            }
            return true;
        }
        i = i + 1;
    }
    proof {
        let kept = pruned(all, now);
        assert forall|k: int| 0 <= k < kept.len() implies (
        #[trigger] kept[k]).key.authorization_id != id@ by {
            let j = lemma_pruned_member(all, now, k);
        }
    }
    false
}

/// Counts the retained records.
fn count_retained(records: &Vec<IssuanceResultRecord>, now: u64) -> (count: usize)
    ensures
        count == pruned(views(records@), now).len(),
{
    let ghost all = views(records@);
    let mut count: usize = 0;
    let mut i: usize = 0;
    assert(all.skip(0) =~= all);
    proof {
        lemma_pruned_len(all, now);
    }
    while i < records.len()
        invariant
            i <= records@.len(),
            all == views(records@),
            count <= i,
            count + pruned(all.skip(i as int), now).len() == pruned(all, now).len(),
        decreases records@.len() - i,
    {
        let ghost rest = all.skip(i as int);
        assert(rest[0] == records@[i as int]@);
        assert(rest.drop_first() =~= all.skip(i + 1));
        if records[i].retained_until_epoch_seconds > now {
            count = count + 1;
        }
        i = i + 1;
    }
    count
}

/// Tells whether two chains are equal.
fn same_chain(left: &Vec<Vec<u8>>, right: &Vec<Vec<u8>>) -> (same: bool)
    ensures
        same == (chain_view(left@) == chain_view(right@)),
{
    let ghost a = chain_view(left@);
    let ghost b = chain_view(right@);
    if left.len() != right.len() {
        assert(a.len() != b.len());
        return false;
    }
    let mut i: usize = 0;
    while i < left.len()
        invariant
            i <= left@.len(),
            left@.len() == right@.len(),
            a == chain_view(left@),
            b == chain_view(right@),
            forall|j: int| 0 <= j < i ==> #[trigger] a[j] == b[j],
        decreases left@.len() - i,
    {
        assert(a[i as int] == left@[i as int]@ && b[i as int] == right@[i as int]@);
        if !same_bytes(left[i].as_slice(), right[i].as_slice()) {
            return false;
        }
        i = i + 1;
    }
    assert(a =~= b);
    true
}

/// Public material of an issued certificate.
#[verifier::ext_equal]
pub struct MaterialView {
    /// Certificate chain.
    pub certificate_chain: Seq<Seq<u8>>,
    /// Digest of the leaf.
    pub fingerprint: Seq<u8>,
    /// Allowlist generation.
    pub allowlist_generation: u64,
    /// End of validity.
    pub not_after_epoch_seconds: u64,
}

/// The record carries exactly this material.
pub open spec fn carries(record: RecordView, material: MaterialView) -> bool {
    &&& record.certificate_chain == material.certificate_chain
    &&& record.fingerprint == Some(material.fingerprint)
    &&& record.allowlist_generation == Some(material.allowlist_generation)
    &&& record.not_after_epoch_seconds == Some(material.not_after_epoch_seconds)
}

/// The record with this material in place.
pub open spec fn with_material(record: RecordView, material: MaterialView) -> RecordView {
    RecordView {
        certificate_chain: material.certificate_chain,
        fingerprint: Some(material.fingerprint),
        allowlist_generation: Some(material.allowlist_generation),
        not_after_epoch_seconds: Some(material.not_after_epoch_seconds),
        rejection_code: None,
        ..record
    }
}

/// Why material cannot be recorded at all.
pub open spec fn material_refusal(material: MaterialView) -> Option<RelayError> {
    if crate::bytes::all_zero(material.fingerprint) || material.allowlist_generation == 0
        || material.not_after_epoch_seconds == 0 {
        Some(RelayError::QuicProtocol { reason: "issued metadata is invalid" })
    } else {
        match chain_check(material.certificate_chain) {
            Err(error) => Some(error),
            Ok(_) => None,
        }
    }
}

/// The pending record of a new binding.
pub open spec fn pending_record(key: KeyView, app_id: Seq<char>, expires_at: u64) -> RecordView {
    RecordView {
        key,
        app_id,
        status: IssuanceResultStatus::Pending,
        authorization_expires_at_epoch_seconds: expires_at,
        retained_until_epoch_seconds: (expires_at + ISSUANCE_RESULT_TTL_SECS) as u64,
        certificate_chain: Seq::empty(),
        fingerprint: None,
        allowlist_generation: None,
        not_after_epoch_seconds: None,
        rejection_code: None,
    }
}

/// Why an attempt cannot begin; `accepted` says that the App identity is well formed.
pub open spec fn begin_refusal(
    records: Seq<RecordView>,
    key: KeyView,
    app_id: Seq<char>,
    accepted: bool,
    expires_at: u64,
    now: u64,
) -> Option<RelayError> {
    let kept = pruned(records, now);
    if !accepted {
        Some(RelayError::QuicProtocol { reason: "issuance App identity is invalid" })
    } else if expires_at <= now || expires_at - now > MAX_AUTHORIZATION_TTL_SECS {
        Some(RelayError::QuicProtocol { reason: "issuance authorization is expired" })
    } else if expires_at + ISSUANCE_RESULT_TTL_SECS > u64::MAX {
        Some(RelayError::QuicProtocol { reason: "issuance retention overflows" })
    } else {
        match lookup(kept, key) {
            Some(existing) => if existing.app_id != app_id {
                Some(RelayError::QuicProtocol { reason: "issuance binding App identity mismatch" })
            } else {
                None
            },
            None => if authorization_used(kept, key.authorization_id) {
                Some(
                    RelayError::QuicProtocol {
                        reason: "issuance authorization was bound to another CSR",
                    },
                )
            } else if kept.len() >= MAX_ISSUANCE_RESULT_RECORDS {
                Some(RelayError::ResourceLimit)
            } else {
                None
            },
        }
    }
}

/// Why material cannot be attached to a pending record.
pub open spec fn attach_refusal(
    records: Seq<RecordView>,
    key: KeyView,
    material: MaterialView,
    now: u64,
) -> Option<RelayError> {
    if material_refusal(material) is Some {
        material_refusal(material)
    } else {
        match lookup(pruned(records, now), key) {
            None => Some(RelayError::ConfigurationRead),
            Some(record) => if record.status == IssuanceResultStatus::Rejected {
                Some(RelayError::QuicProtocol { reason: "issuance result is terminally rejected" })
            } else if record.certificate_chain.len() > 0 && !carries(record, material) {
                Some(RelayError::QuicProtocol { reason: "issuance candidate was already attached" })
            } else {
                None
            },
        }
    }
}

/// Why a record cannot be marked issued.
pub open spec fn issue_refusal(
    records: Seq<RecordView>,
    key: KeyView,
    material: MaterialView,
    now: u64,
) -> Option<RelayError> {
    if material_refusal(material) is Some {
        material_refusal(material)
    } else {
        match lookup(pruned(records, now), key) {
            None => Some(RelayError::ConfigurationRead),
            Some(record) => match record.status {
                IssuanceResultStatus::Rejected => Some(
                    RelayError::QuicProtocol { reason: "issuance result is terminally rejected" },
                ),
                IssuanceResultStatus::Issued => if carries(record, material) {
                    None
                } else {
                    Some(
                        RelayError::QuicProtocol {
                            reason: "issuance result was already finalized",
                        },
                    )
                },
                IssuanceResultStatus::Pending => if now + ISSUANCE_RESULT_TTL_SECS > u64::MAX {
                    Some(RelayError::QuicProtocol { reason: "issuance retention overflows" })
                } else {
                    None
                },
            },
        }
    }
}

/// Why a record cannot be marked rejected.
pub open spec fn reject_refusal(
    records: Seq<RecordView>,
    key: KeyView,
    code: u16,
    now: u64,
) -> Option<RelayError> {
    if code == 0 {
        Some(RelayError::QuicProtocol { reason: "issuance rejection code is empty" })
    } else {
        match lookup(pruned(records, now), key) {
            None => Some(RelayError::ConfigurationRead),
            Some(record) => match record.status {
                IssuanceResultStatus::Issued => None,
                IssuanceResultStatus::Rejected => if record.rejection_code == Some(code) {
                    None
                } else {
                    Some(
                        RelayError::QuicProtocol {
                            reason: "issuance result has another rejection code",
                        },
                    )
                },
                IssuanceResultStatus::Pending => if now + ISSUANCE_RESULT_TTL_SECS > u64::MAX {
                    Some(RelayError::QuicProtocol { reason: "issuance retention overflows" })
                } else {
                    None
                },
            },
        }
    }
}

/// The issued form of a pending record.
pub open spec fn issued_record(
    record: RecordView,
    material: MaterialView,
    now: u64,
) -> RecordView {
    RecordView {
        status: IssuanceResultStatus::Issued,
        retained_until_epoch_seconds: (now + ISSUANCE_RESULT_TTL_SECS) as u64,
        ..with_material(record, material)
    }
}

/// The rejected form of a pending record.
pub open spec fn rejected_record(record: RecordView, code: u16, now: u64) -> RecordView {
    RecordView {
        status: IssuanceResultStatus::Rejected,
        certificate_chain: Seq::empty(),
        fingerprint: None,
        allowlist_generation: None,
        not_after_epoch_seconds: None,
        rejection_code: Some(code),
        retained_until_epoch_seconds: (now + ISSUANCE_RESULT_TTL_SECS) as u64,
        ..record
    }
}

/// The store with other records, which have to be saved if `changed`.
pub open spec fn store_with(
    store: StoreView,
    records: Seq<RecordView>,
    changed: bool,
) -> StoreView {
    StoreView { records, unsaved: store.unsaved || changed, ..store }
}

/// The store without expired records; saved only if there were any.
pub open spec fn store_pruned(store: StoreView, now: u64) -> StoreView {
    store_with(
        store,
        pruned(store.records, now),
        pruned(store.records, now).len() != store.records.len(),
    )
}

/// The store with the record of `key` replaced.
pub open spec fn store_replaced(
    store: StoreView,
    key: KeyView,
    record: RecordView,
    now: u64,
) -> StoreView {
    store_with(store, replaced(pruned(store.records, now), key, record), true)
}

/// A returned record has these contents.
pub open spec fn returns_record(
    result: RelayResult<IssuanceResultRecord>,
    record: RecordView,
) -> bool {
    result matches Ok(copy) && copy@ == record
}

impl PersistentIssuanceResults {
    /// The store is one that loading accepts.
    pub open spec fn valid(&self) -> bool {
        records_valid(self@.records)
    }

    /// Opens a store on what its protected file holds, or an empty store where there is no file.
    pub fn open(
        path: String,
        expected_uid: u32,
        persisted: Option<(u16, Vec<IssuanceResultRecord>)>,
        accepted: &Vec<bool>,
    ) -> (store: RelayResult<Self>)
        requires
            persisted matches Some(file) ==> accepted@.len() == file.1@.len(),
        ensures
            match persisted {
                None => store matches Ok(opened) && opened@ == (StoreView {
                    path: path@,
                    expected_uid,
                    records: Seq::empty(),
                    unsaved: true,
                }) && opened.valid(),
                Some(file) => match records_check(file.0, views(file.1@), accepted@) {
                    Err(error) => store matches Err(reported) && reported == error,
                    Ok(_) => store matches Ok(opened) && opened@ == (StoreView {
                        path: path@,
                        expected_uid,
                        records: views(file.1@),
                        unsaved: false,
                    }) && opened.valid(),
                },
            },
    {
        match persisted {
            None => {
                let store = PersistentIssuanceResults {
                    path,
                    expected_uid,
                    records: Vec::new(),
                    unsaved: true,
                };
                assert(store@.records =~= Seq::empty());
                Ok(store)
            },
            Some((version, records)) => {
                match validate_records(version, &records, accepted) {
                    Err(error) => Err(error),
                    Ok(_) => {
                        proof {
                            lemma_checked_valid(version, views(records@), accepted@);
                        }
                        Ok(
                            PersistentIssuanceResults {
                                path,
                                expected_uid,
                                records,
                                unsaved: false,
                            },
                        )
                    },
                }
            },
        }
    }

    /// The path of the protected file.
    pub fn path(&self) -> (path: &str)
        ensures
            path@ == self@.path,
    {
        self.path.as_str()
    }

    /// The owner that the protected file must have.
    pub fn expected_uid(&self) -> (uid: u32)
        ensures
            uid == self@.expected_uid,
    {
        self.expected_uid
    }

    /// The retained records.
    pub fn records(&self) -> (records: &Vec<IssuanceResultRecord>)
        ensures
            views(records@) == self@.records,
    {
        &self.records
    }

    /// Tells whether the records have to be saved.
    pub fn unsaved(&self) -> (unsaved: bool)
        ensures
            unsaved == self@.unsaved,
    {
        self.unsaved
    }

    /// Notes that the records have been saved.
    pub fn saved(&mut self)
        ensures
            final(self)@ == (StoreView { unsaved: false, ..old(self)@ }),
    {
        self.unsaved = false;
    }

    /// Begins one pending binding, or returns the existing one, which must not be issued again.
    pub fn begin_pending(
        &mut self,
        key: IssuanceResultKey,
        app_id: String,
        accepted: bool,
        authorization_expires_at_epoch_seconds: u64,
        now_epoch_seconds: u64,
    ) -> (begun: RelayResult<IssuanceBeginResult>)
        requires
            old(self).valid(),
            key_valid(key@),
        ensures
            final(self).valid(),
            final(self)@ == store_after(
                old(self)@,
                StoreOperation::Begin {
                    key: key@,
                    app_id: app_id@,
                    accepted,
                    expires_at: authorization_expires_at_epoch_seconds,
                },
                now_epoch_seconds,
            ),
            match begin_refusal(
                old(self)@.records,
                key@,
                app_id@,
                accepted,
                authorization_expires_at_epoch_seconds,
                now_epoch_seconds,
            ) {
                Some(error) => begun matches Err(reported) && reported == error && final(self)@
                    == old(self)@,
                None => match lookup(pruned(old(self)@.records, now_epoch_seconds), key@) {
                    Some(existing) => begun matches Ok(IssuanceBeginResult::Existing(record))
                        && record@ == existing && final(self)@ == store_pruned(
                        old(self)@,
                        now_epoch_seconds,
                    ),
                    None => begun matches Ok(IssuanceBeginResult::Created(record)) && record@
                        == pending_record(key@, app_id@, authorization_expires_at_epoch_seconds)
                        && final(self)@ == store_with(
                        old(self)@,
                        pruned(old(self)@.records, now_epoch_seconds).push(record@),
                        true,
                    ),
                },
            },
    {
        if !accepted {
            return Err(RelayError::QuicProtocol { reason: "issuance App identity is invalid" });
        }
        if authorization_expires_at_epoch_seconds <= now_epoch_seconds
            || authorization_expires_at_epoch_seconds - now_epoch_seconds
            > MAX_AUTHORIZATION_TTL_SECS {
            return Err(RelayError::QuicProtocol { reason: "issuance authorization is expired" });
        }
        let retained_until: u64 = match authorization_expires_at_epoch_seconds.checked_add(
            ISSUANCE_RESULT_TTL_SECS,
        ) {
            Some(seconds) => seconds,
            None => {
                return Err(RelayError::QuicProtocol { reason: "issuance retention overflows" });
            },
        };
        let ghost before = self@;
        let ghost kept = pruned(before.records, now_epoch_seconds);
        proof {
            lemma_pruned_valid(before.records, now_epoch_seconds);
        }
        if let Some(index) = find_retained(&self.records, &key, now_epoch_seconds) {
            if !same_text(self.records[index].app_id.as_str(), app_id.as_str()) {
                return Err(
                    RelayError::QuicProtocol { reason: "issuance binding App identity mismatch" },
                );
            }
            let existing = self.records[index].copy();
            let changed = prune_records(&mut self.records, now_epoch_seconds);
            self.unsaved = self.unsaved || changed;
            return Ok(IssuanceBeginResult::Existing(existing));
        }
        if uses_authorization(&self.records, &key.authorization_id, now_epoch_seconds) {
            return Err(
                RelayError::QuicProtocol {
                    reason: "issuance authorization was bound to another CSR",
                },
            );
        }
        if count_retained(&self.records, now_epoch_seconds) >= MAX_ISSUANCE_RESULT_RECORDS {
            return Err(RelayError::ResourceLimit);
        }
        let record = IssuanceResultRecord {
            key,
            app_id,
            status: IssuanceResultStatus::Pending,
            authorization_expires_at_epoch_seconds,
            retained_until_epoch_seconds: retained_until,
            certificate_chain: Vec::new(),
            fingerprint: None,
            allowlist_generation: None,
            not_after_epoch_seconds: None,
            rejection_code: None,
        };
        assert(chain_view(record.certificate_chain@) =~= Seq::empty());
        let result = record.copy();
        prune_records(&mut self.records, now_epoch_seconds);
        self.records.push(record);
        self.unsaved = true;
        proof {
            assert(self@.records =~= kept.push(result@));
            assert forall|i: int, j: int| 0 <= i < j < self@.records.len() implies (
            #[trigger] self@.records[i]).key != (#[trigger] self@.records[j]).key by {
                if j == kept.len() {
                    lemma_lookup_none(kept, key@, i);
                }
            }
        }
        Ok(IssuanceBeginResult::Created(result))
    }

    /// Attaches public certificate material to a pending record before the allowlist is changed.
    pub fn attach_certificate(
        &mut self,
        key: IssuanceResultKey,
        certificate_chain: Vec<Vec<u8>>,
        fingerprint: [u8; 32],
        allowlist_generation: u64,
        not_after_epoch_seconds: u64,
        now_epoch_seconds: u64,
    ) -> (attached: RelayResult<IssuanceResultRecord>)
        requires
            old(self).valid(),
        ensures
            final(self).valid(),
            final(self)@ == store_after(
                old(self)@,
                StoreOperation::Attach {
                    key: key@,
                    material: MaterialView {
                        certificate_chain: chain_view(certificate_chain@),
                        fingerprint: fingerprint@,
                        allowlist_generation,
                        not_after_epoch_seconds,
                    },
                },
                now_epoch_seconds,
            ),
            ({
                let material = MaterialView {
                    certificate_chain: chain_view(certificate_chain@),
                    fingerprint: fingerprint@,
                    allowlist_generation,
                    not_after_epoch_seconds,
                };
                match attach_refusal(old(self)@.records, key@, material, now_epoch_seconds) {
                    Some(error) => attached matches Err(reported) && reported == error
                        && final(self)@ == old(self)@,
                    None => {
                        let record = lookup(
                            pruned(old(self)@.records, now_epoch_seconds),
                            key@,
                        )->Some_0;
                        if record.certificate_chain.len() > 0 {
                            returns_record(attached, record) && final(self)@ == old(self)@
                        } else {
                            returns_record(attached, with_material(record, material)) && final(self)@ == store_replaced(
                                old(self)@,
                                key@,
                                with_material(record, material),
                                now_epoch_seconds,
                            )
                        }
                    },
                }
            }),
    {
        let ghost material = MaterialView {
            certificate_chain: chain_view(certificate_chain@),
            fingerprint: fingerprint@,
            allowlist_generation,
            not_after_epoch_seconds,
        };
        if is_all_zero(&fingerprint) || allowlist_generation == 0 || not_after_epoch_seconds == 0 {
            return Err(RelayError::QuicProtocol { reason: "issued metadata is invalid" });
        }
        if let Err(error) = validate_chain(&certificate_chain) {
            return Err(error);
        }
        let index: usize = match find_retained(&self.records, &key, now_epoch_seconds) {
            Some(found) => found,
            None => {
                return Err(RelayError::ConfigurationRead);
            },
        };
        let ghost before = self@;
        let ghost kept = pruned(before.records, now_epoch_seconds);
        let ghost record = lookup(kept, key@)->Some_0;
        proof {
            lemma_pruned_valid(before.records, now_epoch_seconds);
            let k = lemma_lookup_position(kept, key@);
            assert(record_check(kept[k], true) is Ok);
        }
        if self.records[index].status == IssuanceResultStatus::Rejected {
            return Err(
                RelayError::QuicProtocol { reason: "issuance result is terminally rejected" },
            );
        }
        if self.records[index].certificate_chain.len() > 0 {
            if self.records[index].carries_material(
                &certificate_chain,
                &fingerprint,
                allowlist_generation,
                not_after_epoch_seconds,
            ) {
                return Ok(self.records[index].copy());
            }
            return Err(
                RelayError::QuicProtocol { reason: "issuance candidate was already attached" },
            );
        }
        let _changed = prune_records(&mut self.records, now_epoch_seconds);
        let place: usize = position(&self.records, &key);
        proof {
            lemma_lookup_at(kept, key@, place as int);
            lemma_replaced_at(kept, key@, with_material(record, material), place as int);
            lemma_replaced_valid(kept, key@, with_material(record, material));
        }
        let mut changed = self.records.remove(place);
        changed.certificate_chain = certificate_chain;
        changed.fingerprint = Some(fingerprint);
        changed.allowlist_generation = Some(allowlist_generation);
        changed.not_after_epoch_seconds = Some(not_after_epoch_seconds);
        changed.rejection_code = None;
        let result = changed.copy();
        assert(result@ == with_material(record, material));
        self.records.insert(place, changed);
        self.unsaved = true;
        assert(self@.records =~= kept.update(place as int, result@));
        Ok(result)
    }

    /// Marks a record issued after the allowlist holds its certificate.
    pub fn mark_issued(
        &mut self,
        key: IssuanceResultKey,
        certificate_chain: Vec<Vec<u8>>,
        fingerprint: [u8; 32],
        allowlist_generation: u64,
        not_after_epoch_seconds: u64,
        now_epoch_seconds: u64,
    ) -> (issued: RelayResult<IssuanceResultRecord>)
        requires
            old(self).valid(),
        ensures
            final(self).valid(),
            final(self)@ == store_after(
                old(self)@,
                StoreOperation::Issue {
                    key: key@,
                    material: MaterialView {
                        certificate_chain: chain_view(certificate_chain@),
                        fingerprint: fingerprint@,
                        allowlist_generation,
                        not_after_epoch_seconds,
                    },
                },
                now_epoch_seconds,
            ),
            ({
                let material = MaterialView {
                    certificate_chain: chain_view(certificate_chain@),
                    fingerprint: fingerprint@,
                    allowlist_generation,
                    not_after_epoch_seconds,
                };
                match issue_refusal(old(self)@.records, key@, material, now_epoch_seconds) {
                    Some(error) => issued matches Err(reported) && reported == error && final(self)@ == old(self)@,
                    None => {
                        let record = lookup(
                            pruned(old(self)@.records, now_epoch_seconds),
                            key@,
                        )->Some_0;
                        if record.status == IssuanceResultStatus::Issued {
                            returns_record(issued, record) && final(self)@ == old(self)@
                        } else {
                            returns_record(
                                issued,
                                issued_record(record, material, now_epoch_seconds),
                            ) && final(self)@ == store_replaced(
                                old(self)@,
                                key@,
                                issued_record(record, material, now_epoch_seconds),
                                now_epoch_seconds,
                            )
                        }
                    },
                }
            }),
    {
        let ghost material = MaterialView {
            certificate_chain: chain_view(certificate_chain@),
            fingerprint: fingerprint@,
            allowlist_generation,
            not_after_epoch_seconds,
        };
        if is_all_zero(&fingerprint) || allowlist_generation == 0 || not_after_epoch_seconds == 0 {
            return Err(RelayError::QuicProtocol { reason: "issued metadata is invalid" });
        }
        if let Err(error) = validate_chain(&certificate_chain) {
            return Err(error);
        }
        let index: usize = match find_retained(&self.records, &key, now_epoch_seconds) {
            Some(found) => found,
            None => {
                return Err(RelayError::ConfigurationRead);
            },
        };
        let ghost before = self@;
        let ghost kept = pruned(before.records, now_epoch_seconds);
        let ghost record = lookup(kept, key@)->Some_0;
        proof {
            lemma_pruned_valid(before.records, now_epoch_seconds);
            let k = lemma_lookup_position(kept, key@);
            assert(record_check(kept[k], true) is Ok);
        }
        if self.records[index].status == IssuanceResultStatus::Rejected {
            return Err(
                RelayError::QuicProtocol { reason: "issuance result is terminally rejected" },
            );
        }
        if self.records[index].status == IssuanceResultStatus::Issued {
            if self.records[index].carries_material(
                &certificate_chain,
                &fingerprint,
                allowlist_generation,
                not_after_epoch_seconds,
            ) {
                return Ok(self.records[index].copy());
            }
            return Err(
                RelayError::QuicProtocol { reason: "issuance result was already finalized" },
            );
        }
        let retained_until: u64 = match now_epoch_seconds.checked_add(ISSUANCE_RESULT_TTL_SECS) {
            Some(seconds) => seconds,
            None => {
                return Err(RelayError::QuicProtocol { reason: "issuance retention overflows" });
            },
        };
        let _changed = prune_records(&mut self.records, now_epoch_seconds);
        let place: usize = position(&self.records, &key);
        let ghost target = issued_record(record, material, now_epoch_seconds);
        proof {
            lemma_lookup_at(kept, key@, place as int);
            lemma_replaced_at(kept, key@, target, place as int);
            lemma_replaced_valid(kept, key@, target);
        }
        let mut changed = self.records.remove(place);
        changed.status = IssuanceResultStatus::Issued;
        changed.certificate_chain = certificate_chain;
        changed.fingerprint = Some(fingerprint);
        changed.allowlist_generation = Some(allowlist_generation);
        changed.not_after_epoch_seconds = Some(not_after_epoch_seconds);
        changed.rejection_code = None;
        changed.retained_until_epoch_seconds = retained_until;
        let result = changed.copy();
        assert(result@ == target);
        self.records.insert(place, changed);
        self.unsaved = true;
        assert(self@.records =~= kept.update(place as int, result@));
        Ok(result)
    }

    /// Marks a pending record rejected for good.
    pub fn mark_rejected(&mut self, key: IssuanceResultKey, code: u16, now_epoch_seconds: u64)
        -> (rejected: RelayResult<IssuanceResultRecord>)
        requires
            old(self).valid(),
        ensures
            final(self).valid(),
            final(self)@ == store_after(
                old(self)@,
                StoreOperation::Reject { key: key@, code },
                now_epoch_seconds,
            ),
            match reject_refusal(old(self)@.records, key@, code, now_epoch_seconds) {
                Some(error) => rejected matches Err(reported) && reported == error && final(self)@
                    == old(self)@,
                None => {
                    let record = lookup(
                        pruned(old(self)@.records, now_epoch_seconds),
                        key@,
                    )->Some_0;
                    if record.status != IssuanceResultStatus::Pending {
                        returns_record(rejected, record) && final(self)@ == old(self)@
                    } else {
                        returns_record(
                            rejected,
                            rejected_record(record, code, now_epoch_seconds),
                        ) && final(self)@ == store_replaced(
                            old(self)@,
                            key@,
                            rejected_record(record, code, now_epoch_seconds),
                            now_epoch_seconds,
                        )
                    }
                },
            },
    {
        if code == 0 {
            return Err(RelayError::QuicProtocol { reason: "issuance rejection code is empty" });
        }
        let index: usize = match find_retained(&self.records, &key, now_epoch_seconds) {
            Some(found) => found,
            None => {
                return Err(RelayError::ConfigurationRead);
            },
        };
        let ghost before = self@;
        let ghost kept = pruned(before.records, now_epoch_seconds);
        let ghost record = lookup(kept, key@)->Some_0;
        proof {
            lemma_pruned_valid(before.records, now_epoch_seconds);
            let k = lemma_lookup_position(kept, key@);
            assert(record_check(kept[k], true) is Ok);
        }
        if self.records[index].status == IssuanceResultStatus::Issued {
            return Ok(self.records[index].copy());
        }
        if self.records[index].status == IssuanceResultStatus::Rejected {
            let own: u16 = match self.records[index].rejection_code {
                Some(value) => value,
                None => 0,
            };
            if own == code {
                return Ok(self.records[index].copy());
            }
            return Err(
                RelayError::QuicProtocol { reason: "issuance result has another rejection code" },
            );
        }
        let retained_until: u64 = match now_epoch_seconds.checked_add(ISSUANCE_RESULT_TTL_SECS) {
            Some(seconds) => seconds,
            None => {
                return Err(RelayError::QuicProtocol { reason: "issuance retention overflows" });
            },
        };
        let _changed = prune_records(&mut self.records, now_epoch_seconds);
        let place: usize = position(&self.records, &key);
        let ghost target = rejected_record(record, code, now_epoch_seconds);
        proof {
            lemma_lookup_at(kept, key@, place as int);
            lemma_replaced_at(kept, key@, target, place as int);
            lemma_replaced_valid(kept, key@, target);
        }
        let mut changed = self.records.remove(place);
        changed.status = IssuanceResultStatus::Rejected;
        changed.certificate_chain = Vec::new();
        changed.fingerprint = None;
        changed.allowlist_generation = None;
        changed.not_after_epoch_seconds = None;
        changed.rejection_code = Some(code);
        changed.retained_until_epoch_seconds = retained_until;
        assert(chain_view(changed.certificate_chain@) =~= Seq::empty());
        let result = changed.copy();
        assert(result@ == target);
        self.records.insert(place, changed);
        self.unsaved = true;
        assert(self@.records =~= kept.update(place as int, result@));
        Ok(result)
    }

    /// Drops expired records and returns the record of one binding, if it is still retained.
    pub fn reconcile(&mut self, key: IssuanceResultKey, now_epoch_seconds: u64) -> (record: Option<
        IssuanceResultRecord,
    >)
        requires
            old(self).valid(),
        ensures
            final(self).valid(),
            final(self)@ == store_after(
                old(self)@,
                StoreOperation::Reconcile,
                now_epoch_seconds,
            ),
            match lookup(pruned(old(self)@.records, now_epoch_seconds), key@) {
                Some(found) => record matches Some(copy) && copy@ == found,
                None => record is None,
            },
    {
        proof {
            lemma_pruned_valid(self@.records, now_epoch_seconds);
        }
        let record = match find_retained(&self.records, &key, now_epoch_seconds) {
            Some(index) => Some(self.records[index].copy()),
            None => None,
        };
        let changed = prune_records(&mut self.records, now_epoch_seconds);
        self.unsaved = self.unsaved || changed;
        record
    }
}

impl IssuanceResultRecord {
    fn carries_material(
        &self,
        certificate_chain: &Vec<Vec<u8>>,
        fingerprint: &[u8; 32],
        allowlist_generation: u64,
        not_after_epoch_seconds: u64,
    ) -> (same: bool)
        ensures
            same == carries(
                self@,
                MaterialView {
                    certificate_chain: chain_view(certificate_chain@),
                    fingerprint: fingerprint@,
                    allowlist_generation,
                    not_after_epoch_seconds,
                },
            ),
    {
        let same_fingerprint = match self.fingerprint {
            Some(own) => same_bytes(&own, fingerprint),
            None => false,
        };
        let same_generation = match self.allowlist_generation {
            Some(own) => own == allowlist_generation,
            None => false,
        };
        let same_expiry = match self.not_after_epoch_seconds {
            Some(own) => own == not_after_epoch_seconds,
            None => false,
        };
        same_chain(&self.certificate_chain, certificate_chain) && same_fingerprint
            && same_generation && same_expiry
    }
}

/// Records that pass the check from position `i` on are distinct from all before and valid.
proof fn lemma_check_from(records: Seq<RecordView>, accepted: Seq<bool>, i: int, k: int)
    requires
        0 <= i <= k < records.len(),
        records_check_from(records, accepted, i) is Ok,
    ensures
        !key_repeated(records, k),
        record_check(records[k], true) is Ok,
    decreases records.len() - i,
{
    if i < k {
        lemma_check_from(records, accepted, i + 1, k);
    }
}

/// Records that pass the load check are those of a valid store.
proof fn lemma_checked_valid(version: u16, records: Seq<RecordView>, accepted: Seq<bool>)
    requires
        records_check(version, records, accepted) is Ok,
    ensures
        records_valid(records),
{
    assert forall|i: int, j: int| 0 <= i < j < records.len() implies (#[trigger] records[i]).key
        != (#[trigger] records[j]).key by {
        lemma_check_from(records, accepted, 0, j);
    }
    assert forall|i: int| 0 <= i < records.len() implies record_check(#[trigger] records[i], true) is Ok by {
        lemma_check_from(records, accepted, 0, i);
    }
}

/// One operation on a store.
pub enum StoreOperation {
    /// `begin_pending`.
    Begin {
        /// Binding.
        key: KeyView,
        /// App.
        app_id: Seq<char>,
        /// The App identity is well formed.
        accepted: bool,
        /// Deadline of the authorization.
        expires_at: u64,
    },
    /// `attach_certificate`.
    Attach {
        /// Binding.
        key: KeyView,
        /// Public material.
        material: MaterialView,
    },
    /// `mark_issued`.
    Issue {
        /// Binding.
        key: KeyView,
        /// Public material.
        material: MaterialView,
    },
    /// `mark_rejected`.
    Reject {
        /// Binding.
        key: KeyView,
        /// Code of the refusal.
        code: u16,
    },
    /// `reconcile`.
    Reconcile,
}

/// The store after `operation` at `now`.
pub open spec fn store_after(store: StoreView, operation: StoreOperation, now: u64) -> StoreView {
    let kept = pruned(store.records, now);
    match operation {
        StoreOperation::Begin { key, app_id, accepted, expires_at } => if begin_refusal(
            store.records,
            key,
            app_id,
            accepted,
            expires_at,
            now,
        ) is Some {
            store
        } else if lookup(kept, key) is Some {
            store_pruned(store, now)
        } else {
            store_with(store, kept.push(pending_record(key, app_id, expires_at)), true)
        },
        StoreOperation::Attach { key, material } => if attach_refusal(
            store.records,
            key,
            material,
            now,
        ) is Some || lookup(kept, key)->Some_0.certificate_chain.len() > 0 {
            store
        } else {
            store_replaced(store, key, with_material(lookup(kept, key)->Some_0, material), now)
        },
        StoreOperation::Issue { key, material } => if issue_refusal(
            store.records,
            key,
            material,
            now,
        ) is Some || lookup(kept, key)->Some_0.status == IssuanceResultStatus::Issued {
            store
        } else {
            store_replaced(store, key, issued_record(lookup(kept, key)->Some_0, material, now), now)
        },
        StoreOperation::Reject { key, code } => if reject_refusal(
            store.records,
            key,
            code,
            now,
        ) is Some || lookup(kept, key)->Some_0.status != IssuanceResultStatus::Pending {
            store
        } else {
            store_replaced(store, key, rejected_record(lookup(kept, key)->Some_0, code, now), now)
        },
        StoreOperation::Reconcile => store_pruned(store, now),
    }
}

/// The operation names a usable binding.
pub open spec fn operation_valid(operation: StoreOperation) -> bool {
    operation matches StoreOperation::Begin { key, app_id, accepted, expires_at } ==> key_valid(key)
}

/// What is looked up among the retained records is what is looked up among all, if that is
/// retained.
proof fn lemma_lookup_pruned(records: Seq<RecordView>, key: KeyView, now: u64)
    requires
        keys_distinct(records),
    ensures
        lookup(pruned(records, now), key) == (match lookup(records, key) {
            Some(record) => if record.retained_until_epoch_seconds > now {
                Some(record)
            } else {
                None
            },
            None => None,
        }),
{
    let kept = pruned(records, now);
    lemma_pruned_distinct(records, now);
    if lookup(kept, key) is Some {
        let i = lemma_lookup_position(kept, key);
        let j = lemma_pruned_member(records, now, i);
        lemma_lookup_at(records, key, j);
    } else if lookup(records, key) is Some {
        let j = lemma_lookup_position(records, key);
        if records[j].retained_until_epoch_seconds > now {
            let i = lemma_pruned_keeps(records, now, j);
            lemma_lookup_none(kept, key, i);
        }
    }
}

/// Replacing the record of a key changes what that key looks up, and nothing else.
proof fn lemma_lookup_replaced(
    records: Seq<RecordView>,
    key: KeyView,
    record: RecordView,
    other: KeyView,
)
    requires
        keys_distinct(records),
        lookup(records, key) is Some,
        record.key == key,
    ensures
        lookup(replaced(records, key, record), other) == (if other == key {
            Some(record)
        } else {
            lookup(records, other)
        }),
{
    let new = replaced(records, key, record);
    assert forall|i: int, j: int| 0 <= i < j < new.len() implies (#[trigger] new[i]).key != (
    #[trigger] new[j]).key by {
        assert(new[i].key == records[i].key && new[j].key == records[j].key);
    }
    if other == key {
        let i = lemma_lookup_position(records, key);
        lemma_lookup_at(new, key, i);
    } else if lookup(records, other) is Some {
        let i = lemma_lookup_position(records, other);
        lemma_lookup_at(new, other, i);
    } else if lookup(new, other) is Some {
        let i = lemma_lookup_position(new, other);
        lemma_lookup_none(records, other, i);
    }
}

/// Every operation keeps a store valid.
pub proof fn law_operations_keep_store_valid(
    store: StoreView,
    operation: StoreOperation,
    now: u64,
)
    requires
        records_valid(store.records),
        operation_valid(operation),
    ensures
        records_valid(store_after(store, operation, now).records),
{
    let kept = pruned(store.records, now);
    lemma_pruned_valid(store.records, now);
    match operation {
        StoreOperation::Begin { key, app_id, accepted, expires_at } => {
            if begin_refusal(store.records, key, app_id, accepted, expires_at, now) is None
                && lookup(kept, key) is None {
                let new = kept.push(pending_record(key, app_id, expires_at));
                assert forall|i: int, j: int| 0 <= i < j < new.len() implies (
                #[trigger] new[i]).key != (#[trigger] new[j]).key by {
                    if j == kept.len() {
                        lemma_lookup_none(kept, key, i);
                    }
                }
            }
        },
        StoreOperation::Attach { key, material } => {
            if attach_refusal(store.records, key, material, now) is None {
                let i = lemma_lookup_position(kept, key);
                assert(record_check(kept[i], true) is Ok);
                if kept[i].certificate_chain.len() == 0 {
                    lemma_replaced_valid(kept, key, with_material(kept[i], material));
                }
            }
        },
        StoreOperation::Issue { key, material } => {
            if issue_refusal(store.records, key, material, now) is None {
                let i = lemma_lookup_position(kept, key);
                assert(record_check(kept[i], true) is Ok);
                if kept[i].status == IssuanceResultStatus::Pending {
                    lemma_replaced_valid(kept, key, issued_record(kept[i], material, now));
                }
            }
        },
        StoreOperation::Reject { key, code } => {
            if reject_refusal(store.records, key, code, now) is None {
                let i = lemma_lookup_position(kept, key);
                assert(record_check(kept[i], true) is Ok);
                if kept[i].status == IssuanceResultStatus::Pending {
                    lemma_replaced_valid(kept, key, rejected_record(kept[i], code, now));
                }
            }
        },
        StoreOperation::Reconcile => {},
    }
}

/// An issued or rejected result does not change while it is retained, whatever is asked of the
/// store.
pub proof fn law_terminal_results_are_final(
    store: StoreView,
    operation: StoreOperation,
    now: u64,
    key: KeyView,
)
    requires
        records_valid(store.records),
        operation_valid(operation),
        lookup(store.records, key) matches Some(record) && record.status
            != IssuanceResultStatus::Pending && record.retained_until_epoch_seconds > now,
    ensures
        lookup(store_after(store, operation, now).records, key) == lookup(store.records, key),
{
    let kept = pruned(store.records, now);
    lemma_pruned_valid(store.records, now);
    lemma_lookup_pruned(store.records, key, now);
    let at = lemma_lookup_position(kept, key);
    assert(record_check(kept[at], true) is Ok);
    match operation {
        StoreOperation::Begin { key: asked, app_id, accepted, expires_at } => {
            if begin_refusal(store.records, asked, app_id, accepted, expires_at, now) is None
                && lookup(kept, asked) is None {
                let new = kept.push(pending_record(asked, app_id, expires_at));
                assert forall|i: int, j: int| 0 <= i < j < new.len() implies (
                #[trigger] new[i]).key != (#[trigger] new[j]).key by {
                    if j == kept.len() {
                        lemma_lookup_none(kept, asked, i);
                    }
                }
                assert(new[at] == kept[at]);
                lemma_lookup_at(new, key, at);
            }
        },
        StoreOperation::Attach { key: asked, material } => {
            if attach_refusal(store.records, asked, material, now) is None {
                let i = lemma_lookup_position(kept, asked);
                lemma_lookup_replaced(kept, asked, with_material(kept[i], material), key);
            }
        },
        StoreOperation::Issue { key: asked, material } => {
            if issue_refusal(store.records, asked, material, now) is None {
                let i = lemma_lookup_position(kept, asked);
                lemma_lookup_replaced(kept, asked, issued_record(kept[i], material, now), key);
            }
        },
        StoreOperation::Reject { key: asked, code } => {
            if reject_refusal(store.records, asked, code, now) is None {
                let i = lemma_lookup_position(kept, asked);
                lemma_lookup_replaced(kept, asked, rejected_record(kept[i], code, now), key);
            }
        },
        StoreOperation::Reconcile => {},
    }
}

/// A binding that has begun is read back as pending until its retention ends, and beginning it
/// again makes no second record.
pub proof fn law_begun_binding_is_retained(
    store: StoreView,
    key: KeyView,
    app_id: Seq<char>,
    expires_at: u64,
    now: u64,
    later: u64,
)
    requires
        records_valid(store.records),
        key_valid(key),
        begin_refusal(store.records, key, app_id, true, expires_at, now) is None,
        lookup(pruned(store.records, now), key) is None,
        later < expires_at + ISSUANCE_RESULT_TTL_SECS,
    ensures
        ({
            let begun = store_after(
                store,
                StoreOperation::Begin { key, app_id, accepted: true, expires_at },
                now,
            );
            &&& lookup(pruned(begun.records, later), key) == Some(
                pending_record(key, app_id, expires_at),
            )
            &&& later < expires_at <= later + MAX_AUTHORIZATION_TTL_SECS ==> begin_refusal(
                begun.records,
                key,
                app_id,
                true,
                expires_at,
                later,
            ) is None
            &&& later < expires_at <= later + MAX_AUTHORIZATION_TTL_SECS ==> store_after(
                begun,
                StoreOperation::Begin { key, app_id, accepted: true, expires_at },
                later,
            ).records == pruned(begun.records, later)
        }),
{
    let operation = StoreOperation::Begin { key, app_id, accepted: true, expires_at };
    let begun = store_after(store, operation, now);
    law_operations_keep_store_valid(store, operation, now);
    let kept = pruned(store.records, now);
    assert(begun.records[kept.len() as int] == pending_record(key, app_id, expires_at));
    lemma_lookup_at(begun.records, key, kept.len() as int);
    lemma_lookup_pruned(begun.records, key, later);
}

/// A result that was marked issued is read back with its material until its retention ends.
pub proof fn law_issued_result_is_read_back(
    store: StoreView,
    key: KeyView,
    material: MaterialView,
    now: u64,
    later: u64,
)
    requires
        records_valid(store.records),
        issue_refusal(store.records, key, material, now) is None,
        lookup(pruned(store.records, now), key)->Some_0.status == IssuanceResultStatus::Pending,
        later < now + ISSUANCE_RESULT_TTL_SECS,
    ensures
        lookup(
            pruned(
                store_after(store, StoreOperation::Issue { key, material }, now).records,
                later,
            ),
            key,
        ) matches Some(record) && record.status == IssuanceResultStatus::Issued && carries(
            record,
            material,
        ),
{
    lemma_issued_keeps_app(store, key, material, now, later);
}

/// The issued record of a binding is that of the App that began it.
pub proof fn lemma_issued_keeps_app(
    store: StoreView,
    key: KeyView,
    material: MaterialView,
    now: u64,
    later: u64,
)
    requires
        records_valid(store.records),
        issue_refusal(store.records, key, material, now) is None,
        lookup(pruned(store.records, now), key)->Some_0.status == IssuanceResultStatus::Pending,
        later < now + ISSUANCE_RESULT_TTL_SECS,
    ensures
        lookup(
            pruned(
                store_after(store, StoreOperation::Issue { key, material }, now).records,
                later,
            ),
            key,
        ) == Some(
            issued_record(lookup(pruned(store.records, now), key)->Some_0, material, now),
        ),
{
    let operation = StoreOperation::Issue { key, material };
    let kept = pruned(store.records, now);
    lemma_pruned_valid(store.records, now);
    let i = lemma_lookup_position(kept, key);
    law_operations_keep_store_valid(store, operation, now);
    lemma_lookup_replaced(kept, key, issued_record(kept[i], material, now), key);
    lemma_lookup_pruned(store_after(store, operation, now).records, key, later);
}

/// A record is not found once its retention has ended.
pub proof fn law_expired_record_is_gone(records: Seq<RecordView>, key: KeyView, now: u64)
    requires
        records_valid(records),
        lookup(records, key) matches Some(record) && record.retained_until_epoch_seconds <= now,
    ensures
        lookup(pruned(records, now), key) is None,
{
    lemma_lookup_pruned(records, key, now);
}

/// What a valid store saves, loading accepts.
pub proof fn law_saved_store_loads(records: Seq<RecordView>, accepted: Seq<bool>)
    requires
        records_valid(records),
        accepted.len() == records.len(),
        forall|i: int| 0 <= i < accepted.len() ==> #[trigger] accepted[i],
    ensures
        records_check(ISSUANCE_RESULT_STORE_VERSION, records, accepted) is Ok,
{
    lemma_valid_checks_from(records, accepted, 0);
}

proof fn lemma_valid_checks_from(records: Seq<RecordView>, accepted: Seq<bool>, i: int)
    requires
        records_valid(records),
        accepted.len() == records.len(),
        forall|k: int| 0 <= k < accepted.len() ==> #[trigger] accepted[k],
        0 <= i <= records.len(),
    ensures
        records_check_from(records, accepted, i) is Ok,
    decreases records.len() - i,
{
    if i < records.len() {
        assert(record_check(records[i], true) is Ok);
        assert(accepted[i]);
        lemma_valid_checks_from(records, accepted, i + 1);
    }
}

} // verus!
