//! License validation core for a desktop application: verdicts, the error
//! taxonomy, the cached decision and the offline grace-period rules.
//!
//! The core decides; the host performs. A check runs in four steps, each a
//! function from plain values to plain values: `begin` on what the store
//! returned, `request` on the machine's identity, `conclude` on the
//! authority's answer, `finish` on the outcome of the write.

use vstd::prelude::*;

pub mod commands;
pub mod config;
pub mod error;
pub mod flight;
pub mod guarantees;
pub mod license;
pub mod machine;
pub mod store;
pub mod verdict;

pub use commands::{respond, summarize, CheckSummary, VerdictStatus};
pub use config::{AuthorityConfig, AuthorityConfigView};
pub use error::{CheckError, IdentityError, InvalidReason, RejectionReason, RemoteError, StoreError};
pub use flight::{SingleFlight, Ticket};
pub use license::{
    CheckPlan, Conclusion, GracePolicy, PendingCheck, RemoteOperation, RemoteRequest,
    ValidationEngine, DEFAULT_GRACE_PERIOD,
};
pub use machine::{fingerprint, MachineFingerprint};
pub use store::{
    decode, encode, CachedState, CachedStateView, LicenseStore, StoredRecord, RECORD_VERSION,
};
pub use verdict::{Provenance, ValidationVerdict, Verdict};

verus! {

/// Sets the core up: fixes the authority's configuration, hands it to the
/// `keygen_rs` client, and returns the engine that checks run on, with the
/// default grace policy.
pub fn init() -> (engine: ValidationEngine)
    ensures
        engine.config@ == AuthorityConfigView::fixed(),
        engine.policy.grace_period == DEFAULT_GRACE_PERIOD,
{
    let config = AuthorityConfig::fixed();
    config.install();
    ValidationEngine::new(config, GracePolicy::standard())
}

} // verus!
