//! The cached decision and its persisted record.

use vstd::prelude::*;
use crate::error::{InvalidReason, StoreError};
use crate::verdict::Verdict;

verus! {

/// What the installation remembers between checks.
#[derive(Clone, Debug, PartialEq, Eq)]
pub struct CachedState {
    /// The key as the user entered it; empty while none is set.
    pub license_key: String,
    /// The verdict of the latest check.
    pub last_verdict: Verdict,
    /// When the latest check concluded.
    pub last_checked_at: u64,
    /// When the authority last answered a request successfully.
    pub last_successful_remote_at: Option<u64>,
}

/// The cached decision as a mathematical value.
pub struct CachedStateView {
    pub license_key: Seq<char>,
    pub last_verdict: Verdict,
    pub last_checked_at: u64,
    pub last_successful_remote_at: Option<u64>,
}

impl View for CachedState {
    type V = CachedStateView;

    open spec fn view(&self) -> CachedStateView {
        CachedStateView {
            license_key: self.license_key@,
            last_verdict: self.last_verdict,
            last_checked_at: self.last_checked_at,
            last_successful_remote_at: self.last_successful_remote_at,
        }
    }
}

impl CachedStateView {
    /// The state right after the user entered `key`: activation is pending.
    pub open spec fn entered(key: Seq<char>) -> CachedStateView {
        CachedStateView {
            license_key: key,
            last_verdict: Verdict::NotActivated,
            last_checked_at: 0,
            last_successful_remote_at: None,
        }
    }

    /// Whether a license key is stored.
    pub open spec fn has_key(self) -> bool {
        self.license_key.len() > 0
    }
}

impl CachedState {
    /// The state of an installation whose user has just entered `key`.
    pub fn with_key(key: String) -> (state: CachedState)
        ensures
            state@ == CachedStateView::entered(key@),
    {
        CachedState {
            license_key: key,
            last_verdict: Verdict::NotActivated,
            last_checked_at: 0,
            last_successful_remote_at: None,
        }
    }

    /// Whether a license key is stored.
    pub fn has_key(&self) -> (present: bool)
        ensures
            present == self@.has_key(),
    {
        !self.license_key.as_str().is_empty()
    }
}

/// The version that records are written with.
pub const RECORD_VERSION: u32 = 1;

/// The persisted form of the cached decision: every field on its own and
/// free to be absent, so that a record written by another version of the
/// application can still be read. A field that is absent takes its default.
#[derive(Clone, Debug, PartialEq, Eq)]
pub struct StoredRecord {
    pub version: u32,
    pub license_key: Option<String>,
    /// The verdict's tag, see `verdict_tag`.
    pub verdict: Option<u8>,
    /// What the tagged verdict carries, see `verdict_detail`.
    pub verdict_detail: Option<u64>,
    pub last_checked_at: Option<u64>,
    pub last_successful_remote_at: Option<u64>,
}

/// A record as a mathematical value.
pub struct StoredRecordView {
    pub version: u32,
    pub license_key: Option<Seq<char>>,
    pub verdict: Option<u8>,
    pub verdict_detail: Option<u64>,
    pub last_checked_at: Option<u64>,
    pub last_successful_remote_at: Option<u64>,
}

impl View for StoredRecord {
    type V = StoredRecordView;

    open spec fn view(&self) -> StoredRecordView {
        StoredRecordView {
            version: self.version,
            license_key: match self.license_key {
                Some(key) => Some(key@),
                None => None,
            },
            verdict: self.verdict,
            verdict_detail: self.verdict_detail,
            last_checked_at: self.last_checked_at,
            last_successful_remote_at: self.last_successful_remote_at,
        }
    }
}

/// The tag under which a verdict is persisted.
pub open spec fn verdict_tag(verdict: Verdict) -> u8 {
    match verdict {
        Verdict::Valid => 0,
        Verdict::Invalid(_) => 1,
        Verdict::Expired => 2,
        Verdict::Suspended => 3,
        Verdict::NotActivated => 4,
        Verdict::OfflineGraceValid(_) => 5,
        Verdict::GraceExpired => 6,
    }
}

/// What is persisted beside the tag: the code of the reason of an `Invalid`
/// verdict, the deadline of an `OfflineGraceValid` one, nothing otherwise.
pub open spec fn verdict_detail(verdict: Verdict) -> Option<u64> {
    match verdict {
        Verdict::Invalid(InvalidReason::UnknownKey) => Some(0),
        Verdict::Invalid(InvalidReason::FingerprintMismatch) => Some(1),
        Verdict::Invalid(InvalidReason::MachineLimitExceeded) => Some(2),
        Verdict::OfflineGraceValid(deadline) => Some(deadline),
        _ => None,
    }
}

/// The verdict that a tag and a detail stand for, if they stand for one. An
/// absent tag stands for `NotActivated`. A detail beside a tag that carries
/// none is ignored.
pub open spec fn verdict_from(tag: Option<u8>, detail: Option<u64>) -> Option<Verdict> {
    match tag {
        None => Some(Verdict::NotActivated),
        Some(t) => if t == 0 {
            Some(Verdict::Valid)
        } else if t == 1 {
            match detail {
                Some(code) => if code == 0 {
                    Some(Verdict::Invalid(InvalidReason::UnknownKey))
                } else if code == 1 {
                    Some(Verdict::Invalid(InvalidReason::FingerprintMismatch))
                } else if code == 2 {
                    Some(Verdict::Invalid(InvalidReason::MachineLimitExceeded))
                } else {
                    None
                },
                None => None,
            }
        } else if t == 2 {
            Some(Verdict::Expired)
        } else if t == 3 {
            Some(Verdict::Suspended)
        } else if t == 4 {
            Some(Verdict::NotActivated)
        } else if t == 5 {
            match detail {
                Some(deadline) => Some(Verdict::OfflineGraceValid(deadline)),
                None => None,
            }
        } else if t == 6 {
            Some(Verdict::GraceExpired)
        } else {
            None
        },
    }
}

/// The record that `state` is persisted as.
pub open spec fn encoded(state: CachedStateView) -> StoredRecordView {
    StoredRecordView {
        version: RECORD_VERSION,
        license_key: Some(state.license_key),
        verdict: Some(verdict_tag(state.last_verdict)),
        verdict_detail: verdict_detail(state.last_verdict),
        last_checked_at: Some(state.last_checked_at),
        last_successful_remote_at: state.last_successful_remote_at,
    }
}

/// The cached decision that `record` holds. A record whose verdict cannot be
/// understood is corrupt; its version is not looked at.
pub open spec fn decoded(record: StoredRecordView) -> Result<CachedStateView, StoreError> {
    match verdict_from(record.verdict, record.verdict_detail) {
        Some(verdict) => Ok(
            CachedStateView {
                license_key: match record.license_key {
                    Some(key) => key,
                    None => Seq::<char>::empty(),
                },
                last_verdict: verdict,
                last_checked_at: match record.last_checked_at {
                    Some(at) => at,
                    None => 0,
                },
                last_successful_remote_at: record.last_successful_remote_at,
            },
        ),
        None => Err(StoreError::Corrupt),
    }
}

/// What a load returns on a backend that holds `slot`.
pub open spec fn loaded(slot: Option<StoredRecordView>) -> Result<
    Option<CachedStateView>,
    StoreError,
> {
    match slot {
        None => Ok(None),
        Some(record) => match decoded(record) {
            Ok(state) => Ok(Some(state)),
            Err(e) => Err(e),
        },
    }
}

/// Reads a verdict from its tag and detail.
pub fn verdict_of_tag(tag: Option<u8>, detail: Option<u64>) -> (verdict: Option<Verdict>)
    ensures
        verdict == verdict_from(tag, detail),
{
    match tag {
        None => Some(Verdict::NotActivated),
        Some(0) => Some(Verdict::Valid),
        Some(1) => match detail {
            Some(0) => Some(Verdict::Invalid(InvalidReason::UnknownKey)),
            Some(1) => Some(Verdict::Invalid(InvalidReason::FingerprintMismatch)),
            Some(2) => Some(Verdict::Invalid(InvalidReason::MachineLimitExceeded)),
            _ => None,
        },
        Some(2) => Some(Verdict::Expired),
        Some(3) => Some(Verdict::Suspended),
        Some(4) => Some(Verdict::NotActivated),
        Some(5) => match detail {
            Some(deadline) => Some(Verdict::OfflineGraceValid(deadline)),
            None => None,
        },
        Some(6) => Some(Verdict::GraceExpired),
        Some(_) => None,
    }
}

/// Writes the cached decision as a record of the current version.
pub fn encode(state: &CachedState) -> (record: StoredRecord)
    ensures
        record@ == encoded(state@),
{
    let (tag, detail): (u8, Option<u64>) = match state.last_verdict {
        Verdict::Valid => (0, None),
        Verdict::Invalid(InvalidReason::UnknownKey) => (1, Some(0)),
        Verdict::Invalid(InvalidReason::FingerprintMismatch) => (1, Some(1)),
        Verdict::Invalid(InvalidReason::MachineLimitExceeded) => (1, Some(2)),
        Verdict::Expired => (2, None),
        Verdict::Suspended => (3, None),
        Verdict::NotActivated => (4, None),
        Verdict::OfflineGraceValid(deadline) => (5, Some(deadline)),
        Verdict::GraceExpired => (6, None),
    };
    StoredRecord {
        version: RECORD_VERSION,
        license_key: Some(state.license_key.clone()),
        verdict: Some(tag),
        verdict_detail: detail,
        last_checked_at: Some(state.last_checked_at),
        last_successful_remote_at: state.last_successful_remote_at,
    }
}

/// Reads the cached decision from a record. Absent fields take their
/// defaults: no key, `NotActivated`, instant zero, no successful answer yet.
/// A verdict that cannot be understood makes the record corrupt.
pub fn decode(record: &StoredRecord) -> (state: Result<CachedState, StoreError>)
    ensures
        match decoded(record@) {
            Ok(expected) => state is Ok && state->Ok_0@ == expected,
            Err(e) => state is Err && state->Err_0 == e,
        },
{
    match verdict_of_tag(record.verdict, record.verdict_detail) {
        Some(verdict) => {
            let key = match &record.license_key {
                Some(key) => key.clone(),
                None => String::new(),
            };
            let checked: u64 = match record.last_checked_at {
                Some(at) => at,
                None => 0,
            };
            Ok(
                CachedState {
                    license_key: key,
                    last_verdict: verdict,
                    last_checked_at: checked,
                    last_successful_remote_at: record.last_successful_remote_at,
                },
            )
        },
        None => Err(StoreError::Corrupt),
    }
}

/// The persistent store as the core sees it: the one record of this
/// installation, or none. The host moves the record to and from its secure
/// storage; the store itself holds no rule of the engine.
#[derive(Clone, Debug, PartialEq, Eq)]
pub struct LicenseStore {
    pub record: Option<StoredRecord>,
}

impl View for LicenseStore {
    type V = Option<StoredRecordView>;

    open spec fn view(&self) -> Option<StoredRecordView> {
        match self.record {
            Some(record) => Some(record@),
            None => None,
        }
    }
}

impl LicenseStore {
    /// The store over what the backend holds.
    pub fn new(record: Option<StoredRecord>) -> (store: LicenseStore)
        ensures
            store.record == record,
    {
        LicenseStore { record }
    }

    /// Reads the cached decision: none if the store was never written, an
    /// error if the record is corrupt.
    pub fn load(&self) -> (state: Result<Option<CachedState>, StoreError>)
        ensures
            match loaded(self@) {
                Ok(Some(expected)) => state is Ok && state->Ok_0 is Some && state->Ok_0->Some_0@
                    == expected,
                Ok(None) => state is Ok && state->Ok_0 is None,
                Err(e) => state is Err && state->Err_0 == e,
            },
    {
        match &self.record {
            None => Ok(None),
            Some(record) => match decode(record) {
                Ok(state) => Ok(Some(state)),
                Err(e) => Err(e),
            },
        }
    }

    /// Replaces the record by that of `state`, as a whole.
    pub fn save(&mut self, state: &CachedState)
        ensures
            final(self)@ == Some(encoded(state@)),
    {
        self.record = Some(encode(state));
    }

    /// Removes the record. Clearing an empty store leaves it empty.
    pub fn clear(&mut self)
        ensures
            final(self)@ is None,
    {
        self.record = None;
    }
}

/// What was saved is what a load returns.
pub proof fn lemma_save_then_load(state: CachedStateView)
    ensures
        decoded(encoded(state)) == Ok::<CachedStateView, StoreError>(state),
        loaded(Some(encoded(state))) == Ok::<Option<CachedStateView>, StoreError>(Some(state)),
{
}

/// A record without any field reads as an installation without a key.
pub proof fn lemma_empty_record_defaults(record: StoredRecordView)
    requires
        record.license_key is None,
        record.verdict is None,
        record.last_checked_at is None,
        record.last_successful_remote_at is None,
    ensures
        decoded(record) is Ok,
        !decoded(record)->Ok_0.has_key(),
        decoded(record)->Ok_0.last_verdict == Verdict::NotActivated,
        decoded(record)->Ok_0.last_checked_at == 0,
        decoded(record)->Ok_0.last_successful_remote_at is None,
{
}

} // verus!
