use herdogrelay::error::RelayError;
use herdogrelay::issuance::{
    validate_chain, validate_records, IssuanceBeginResult, IssuanceResultKey, IssuanceResultRecord,
    IssuanceResultStatus, PersistentIssuanceResults, ISSUANCE_RESULT_STORE_VERSION,
    ISSUANCE_RESULT_TTL_SECS, MAX_AUTHORIZATION_TTL_SECS, MAX_ISSUANCE_CHAIN_BYTES,
    MAX_ISSUANCE_RESULT_RECORDS,
};

const PATH: &str = "/var/lib/relay/issuance.json";

fn key(auth: u8, csr: u8) -> IssuanceResultKey {
    IssuanceResultKey::new([auth; 16], [csr; 32]).expect("key")
}

fn open() -> PersistentIssuanceResults {
    PersistentIssuanceResults::open(PATH.to_owned(), 501, None, &vec![]).expect("open")
}

fn reopen(store: &PersistentIssuanceResults) -> PersistentIssuanceResults {
    let records: Vec<IssuanceResultRecord> =
        store.records().iter().map(|record| record.copy()).collect();
    let accepted = vec![true; records.len()];
    PersistentIssuanceResults::open(
        PATH.to_owned(),
        501,
        Some((ISSUANCE_RESULT_STORE_VERSION, records)),
        &accepted,
    )
    .expect("reopen")
}

fn begin(store: &mut PersistentIssuanceResults, key: IssuanceResultKey, app: &str) {
    assert!(store.begin_pending(key, app.to_owned(), true, 100, 90).is_ok());
}

#[test]
fn pending_record_survives_reopen() {
    let mut store = open();
    let pending = match store
        .begin_pending(key(1, 2), "app-a".to_owned(), true, 100, 90)
        .expect("pending")
    {
        IssuanceBeginResult::Created(record) => record,
        IssuanceBeginResult::Existing(_) => panic!("unexpected existing record"),
    };
    assert_eq!(pending.status(), IssuanceResultStatus::Pending);
    let existing = match store
        .begin_pending(key(1, 2), "app-a".to_owned(), true, 100, 90)
        .expect("existing")
    {
        IssuanceBeginResult::Existing(record) => record,
        IssuanceBeginResult::Created(_) => panic!("duplicate created a new record"),
    };
    assert_eq!(existing.status(), IssuanceResultStatus::Pending);
    assert!(store.unsaved());
    let mut reopened = reopen(&store);
    assert_eq!(
        reopened.reconcile(key(1, 2), 91).expect("record").status(),
        IssuanceResultStatus::Pending
    );
}

#[test]
fn issued_record_is_public_and_redacted() {
    let mut store = open();
    begin(&mut store, key(3, 4), "app-b");
    let attached = store
        .attach_certificate(key(3, 4), vec![vec![1, 2], vec![3]], [5; 32], 2, 200, 91)
        .expect("attach");
    assert_eq!(attached.status(), IssuanceResultStatus::Pending);
    let issued = store
        .mark_issued(key(3, 4), vec![vec![1, 2], vec![3]], [5; 32], 2, 200, 91)
        .expect("issued");
    assert_eq!(issued.status(), IssuanceResultStatus::Issued);
    assert_eq!(issued.certificate_chain(), &[vec![1, 2], vec![3]]);
    let bytes: usize = issued.certificate_chain().iter().map(|der| der.len()).sum();
    assert_eq!(issued.summary().certificate_bytes, bytes);
    assert_eq!(issued.summary().certificate_count, issued.certificate_chain().len());
    let debug = format!("{:?}", issued.summary());
    assert!(!debug.contains("1, 2"));
    assert!(!debug.contains("app-b"));
    let read_back = reopen(&store).reconcile(key(3, 4), 92).expect("record");
    assert_eq!(read_back.certificate_chain(), issued.certificate_chain());
    assert_eq!(read_back.fingerprint(), Some([5; 32]));
    assert_eq!(read_back.allowlist_generation(), Some(2));
    assert_eq!(read_back.not_after_epoch_seconds(), Some(200));
    assert_eq!(read_back.app_id(), "app-b");
}

#[test]
fn rejected_record_expires() {
    let mut store = open();
    begin(&mut store, key(5, 6), "app-c");
    store.mark_rejected(key(5, 6), 7, 100).expect("reject");
    assert!(store.reconcile(key(5, 6), 100 + ISSUANCE_RESULT_TTL_SECS).is_none());
}

#[test]
fn rejected_record_is_kept_until_it_expires() {
    let mut store = open();
    begin(&mut store, key(5, 6), "app-c");
    let rejected = store.mark_rejected(key(5, 6), 7, 91).expect("reject");
    assert_eq!(rejected.status(), IssuanceResultStatus::Rejected);
    assert_eq!(rejected.rejection_code(), Some(7));
    let until = rejected.retained_until_epoch_seconds();
    assert_eq!(store.reconcile(key(5, 6), until - 1).expect("kept").rejection_code(), Some(7));
    assert!(store.reconcile(key(5, 6), until).is_none());
}

#[test]
fn authorization_cannot_change_csr() {
    let mut store = open();
    begin(&mut store, key(7, 8), "app-d");
    let result = store.begin_pending(key(7, 9), "app-d".to_owned(), true, 100, 90);
    assert!(matches!(result, Err(RelayError::QuicProtocol { .. })));
}

#[test]
fn terminal_results_do_not_change() {
    let mut store = open();
    begin(&mut store, key(1, 2), "app-a");
    store.mark_issued(key(1, 2), vec![vec![1]], [5; 32], 2, 200, 91).expect("issued");
    let late = store.mark_rejected(key(1, 2), 7, 92).expect("kept");
    assert_eq!(late.status(), IssuanceResultStatus::Issued);
    assert!(store.mark_issued(key(1, 2), vec![vec![9]], [6; 32], 2, 200, 92).is_err());
    assert_eq!(
        store.reconcile(key(1, 2), 93).expect("record").certificate_chain(),
        &[vec![1]]
    );
    begin(&mut store, key(3, 4), "app-a");
    assert!(store.mark_rejected(key(3, 4), 0, 92).is_err());
    store.mark_rejected(key(3, 4), 7, 92).expect("rejected");
    assert!(store.mark_rejected(key(3, 4), 7, 93).is_ok());
    assert!(store.mark_rejected(key(3, 4), 8, 93).is_err());
    assert!(store.mark_issued(key(3, 4), vec![vec![1]], [5; 32], 2, 200, 93).is_err());
}

#[test]
fn unknown_bindings_are_refused() {
    let mut store = open();
    assert!(store.mark_rejected(key(1, 2), 7, 92).is_err());
    assert!(store.attach_certificate(key(1, 2), vec![vec![1]], [5; 32], 2, 200, 91).is_err());
    assert!(store.reconcile(key(1, 2), 93).is_none());
    assert!(store.records().is_empty());
}

#[test]
fn begin_checks_its_terms() {
    let mut store = open();
    assert!(store.begin_pending(key(1, 2), "app-a".to_owned(), false, 100, 90).is_err());
    assert!(store.begin_pending(key(1, 2), "app-a".to_owned(), true, 90, 90).is_err());
    let latest = 90 + MAX_AUTHORIZATION_TTL_SECS;
    assert!(store.begin_pending(key(1, 2), "app-a".to_owned(), true, latest + 1, 90).is_err());
    assert!(store.begin_pending(key(1, 2), "app-a".to_owned(), true, latest, 90).is_ok());
}

#[test]
fn store_is_bounded() {
    let mut store = open();
    for index in 0..MAX_ISSUANCE_RESULT_RECORDS {
        let mut id = [1_u8; 16];
        id[0] = (index % 256) as u8;
        id[1] = (index / 256) as u8 + 1;
        let fresh = IssuanceResultKey::new(id, [2; 32]).expect("key");
        begin(&mut store, fresh, "app-a");
    }
    let extra = IssuanceResultKey::new([200; 16], [2; 32]).expect("key");
    assert!(store.begin_pending(extra, "app-a".to_owned(), true, 100, 90).is_err());
    assert_eq!(store.records().len(), MAX_ISSUANCE_RESULT_RECORDS);
}

#[test]
fn keys_are_not_zero() {
    assert!(IssuanceResultKey::new([0; 16], [1; 32]).is_err());
    assert!(IssuanceResultKey::new([1; 16], [0; 32]).is_err());
    let kept = key(1, 2);
    assert_eq!(kept.authorization_id(), [1; 16]);
    assert_eq!(kept.csr_digest(), [2; 32]);
}

#[test]
fn chains_are_bounded() {
    assert!(validate_chain(&vec![]).is_err());
    assert!(validate_chain(&vec![vec![]]).is_err());
    assert!(validate_chain(&vec![vec![1]]).is_ok());
    assert!(validate_chain(&vec![vec![1; MAX_ISSUANCE_CHAIN_BYTES]]).is_ok());
    assert!(validate_chain(&vec![vec![1; MAX_ISSUANCE_CHAIN_BYTES + 1]]).is_err());
}

#[test]
fn stored_records_are_checked() {
    let record = IssuanceResultRecord::stored(
        key(1, 2),
        "app-a".to_owned(),
        IssuanceResultStatus::Rejected,
        100,
        200,
        vec![],
        None,
        None,
        None,
        Some(7),
    );
    assert!(validate_records(ISSUANCE_RESULT_STORE_VERSION, &vec![record.copy()], &vec![true])
        .is_ok());
    assert!(matches!(
        validate_records(ISSUANCE_RESULT_STORE_VERSION + 1, &vec![record.copy()], &vec![true]),
        Err(RelayError::ConfigurationRead)
    ));
    assert!(validate_records(ISSUANCE_RESULT_STORE_VERSION, &vec![record.copy()], &vec![false])
        .is_err());
    assert!(validate_records(
        ISSUANCE_RESULT_STORE_VERSION,
        &vec![record.copy(), record.copy()],
        &vec![true, true]
    )
    .is_err());
    let codeless = IssuanceResultRecord::stored(
        key(1, 2),
        "app-a".to_owned(),
        IssuanceResultStatus::Rejected,
        100,
        200,
        vec![],
        None,
        None,
        None,
        Some(0),
    );
    assert!(PersistentIssuanceResults::open(
        PATH.to_owned(),
        501,
        Some((ISSUANCE_RESULT_STORE_VERSION, vec![codeless])),
        &vec![true]
    )
    .is_err());
}

#[test]
fn saving_clears_the_mark() {
    let mut store = open();
    assert!(store.unsaved());
    store.saved();
    assert!(!store.unsaved());
    begin(&mut store, key(1, 2), "app-a");
    assert!(store.unsaved());
    store.saved();
    assert!(!store.unsaved());
    assert_eq!(store.path(), PATH);
    assert_eq!(store.expected_uid(), 501);
}
