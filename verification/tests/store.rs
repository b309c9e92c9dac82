use membership::{
    decode, encode, CachedState, InvalidReason, LicenseStore, StoreError, StoredRecord, Verdict,
    RECORD_VERSION,
};

fn sample(verdict: Verdict) -> CachedState {
    CachedState {
        license_key: "KEY-1234".to_string(),
        last_verdict: verdict,
        last_checked_at: 1_700_000_100,
        last_successful_remote_at: Some(1_700_000_000),
    }
}

fn empty_record() -> StoredRecord {
    StoredRecord {
        version: RECORD_VERSION,
        license_key: None,
        verdict: None,
        verdict_detail: None,
        last_checked_at: None,
        last_successful_remote_at: None,
    }
}

#[test]
fn store_never_written_loads_nothing() {
    let store = LicenseStore::new(None);
    assert_eq!(store.load(), Ok(None));
}

#[test]
fn saved_state_is_loaded_back() {
    let mut store = LicenseStore::new(None);
    for verdict in [
        Verdict::Valid,
        Verdict::Invalid(InvalidReason::UnknownKey),
        Verdict::Invalid(InvalidReason::FingerprintMismatch),
        Verdict::Invalid(InvalidReason::MachineLimitExceeded),
        Verdict::Expired,
        Verdict::Suspended,
        Verdict::NotActivated,
        Verdict::OfflineGraceValid(1_700_259_200),
        Verdict::GraceExpired,
    ] {
        let state = sample(verdict);
        store.save(&state);
        assert_eq!(store.load(), Ok(Some(state)));
    }
}

#[test]
fn save_overwrites_the_record() {
    let mut store = LicenseStore::new(None);
    store.save(&sample(Verdict::Valid));
    let mut later = sample(Verdict::Expired);
    later.last_successful_remote_at = None;
    store.save(&later);
    assert_eq!(store.load(), Ok(Some(later)));
}

#[test]
fn clear_is_idempotent() {
    let mut store = LicenseStore::new(None);
    store.save(&sample(Verdict::Valid));
    store.clear();
    assert_eq!(store.load(), Ok(None));
    assert_eq!(store.record, None);
    store.clear();
    assert_eq!(store.load(), Ok(None));
    assert_eq!(store.record, None);
}

#[test]
fn record_layout_is_tagged() {
    let record = encode(&sample(Verdict::OfflineGraceValid(77)));
    assert_eq!(
        record,
        StoredRecord {
            version: 1,
            license_key: Some("KEY-1234".to_string()),
            verdict: Some(5),
            verdict_detail: Some(77),
            last_checked_at: Some(1_700_000_100),
            last_successful_remote_at: Some(1_700_000_000),
        }
    );
    let record = encode(&sample(Verdict::Invalid(InvalidReason::FingerprintMismatch)));
    assert_eq!(record.verdict, Some(1));
    assert_eq!(record.verdict_detail, Some(1));
    let record = encode(&sample(Verdict::Valid));
    assert_eq!(record.verdict, Some(0));
    assert_eq!(record.verdict_detail, None);
    assert_eq!(encode(&sample(Verdict::Expired)).verdict, Some(2));
    assert_eq!(encode(&sample(Verdict::Suspended)).verdict, Some(3));
    assert_eq!(encode(&sample(Verdict::NotActivated)).verdict, Some(4));
    assert_eq!(encode(&sample(Verdict::GraceExpired)).verdict, Some(6));
}

#[test]
fn missing_fields_take_defaults() {
    let state = decode(&empty_record()).unwrap();
    assert_eq!(
        state,
        CachedState {
            license_key: String::new(),
            last_verdict: Verdict::NotActivated,
            last_checked_at: 0,
            last_successful_remote_at: None,
        }
    );
    assert!(!state.has_key());
}

#[test]
fn record_of_another_version_is_read() {
    let mut record = encode(&sample(Verdict::Valid));
    record.version = 9;
    assert_eq!(decode(&record), Ok(sample(Verdict::Valid)));
    record.version = 0;
    assert_eq!(decode(&record), Ok(sample(Verdict::Valid)));
}

#[test]
fn unknown_verdict_is_corrupt() {
    let mut record = empty_record();
    record.verdict = Some(7);
    assert_eq!(decode(&record), Err(StoreError::Corrupt));
    record.verdict = Some(255);
    assert_eq!(LicenseStore::new(Some(record)).load(), Err(StoreError::Corrupt));
}

#[test]
fn verdict_without_its_detail_is_corrupt() {
    let mut record = empty_record();
    record.verdict = Some(1);
    assert_eq!(decode(&record), Err(StoreError::Corrupt));
    record.verdict_detail = Some(3);
    assert_eq!(decode(&record), Err(StoreError::Corrupt));
    record.verdict_detail = Some(2);
    assert_eq!(
        decode(&record).unwrap().last_verdict,
        Verdict::Invalid(InvalidReason::MachineLimitExceeded)
    );
    record.verdict = Some(5);
    record.verdict_detail = None;
    assert_eq!(decode(&record), Err(StoreError::Corrupt));
}

#[test]
fn stray_detail_is_ignored() {
    let mut record = empty_record();
    record.verdict = Some(0);
    record.verdict_detail = Some(12);
    assert_eq!(decode(&record).unwrap().last_verdict, Verdict::Valid);
}
