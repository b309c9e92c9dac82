//! The validation engine: what a check asks of the authority, and what it
//! concludes from the answer and the cached decision.

use vstd::prelude::*;
use crate::config::{AuthorityConfig, AuthorityConfigView};
use crate::error::{CheckError, IdentityError, RemoteError, StoreError};
use crate::machine::MachineFingerprint;
use crate::store::{CachedState, CachedStateView};
use crate::verdict::{Provenance, ValidationVerdict, Verdict};

verus! {

/// Seventy-two hours, in seconds.
pub const DEFAULT_GRACE_PERIOD: u64 = 259_200;

/// How long a confirmed license stays accepted while the authority cannot be
/// reached. Instants and durations are counted in seconds.
#[derive(Clone, Copy, Debug, PartialEq, Eq, Structural)]
pub struct GracePolicy {
    pub grace_period: u64,
}

/// The request a check sends to the authority.
#[derive(Clone, Copy, Debug, PartialEq, Eq, Structural)]
pub enum RemoteOperation {
    /// First-time activation of the key on this machine.
    Activate,
    /// Validation of an activated key.
    Validate,
    /// Release of this machine's activation.
    Deactivate,
}

/// A check that has read the cached decision and is about to contact the
/// authority.
#[derive(Clone, Debug, PartialEq, Eq)]
pub struct PendingCheck {
    pub state: CachedState,
    pub operation: RemoteOperation,
}

/// What a check does after it has read the cached decision.
#[derive(Clone, Debug, PartialEq, Eq)]
pub enum CheckPlan {
    /// The check ends here with this verdict; the authority is not contacted.
    Settled(ValidationVerdict),
    /// The check goes on with a request to the authority.
    Remote(PendingCheck),
}

/// A plan as a mathematical value.
pub enum CheckPlanView {
    Settled(ValidationVerdict),
    Remote(CachedStateView, RemoteOperation),
}

impl View for CheckPlan {
    type V = CheckPlanView;

    open spec fn view(&self) -> CheckPlanView {
        match *self {
            CheckPlan::Settled(verdict) => CheckPlanView::Settled(verdict),
            CheckPlan::Remote(pending) => CheckPlanView::Remote(pending.state@, pending.operation),
        }
    }
}

/// The end of a check: the verdict and the decision to persist.
#[derive(Clone, Debug, PartialEq, Eq)]
pub struct Conclusion {
    pub verdict: ValidationVerdict,
    pub state: CachedState,
}

/// What a request to the authority carries.
#[derive(Clone, Debug, PartialEq, Eq)]
pub struct RemoteRequest {
    pub operation: RemoteOperation,
    pub account: String,
    pub product: String,
    pub license_key: String,
    pub fingerprint: String,
}

/// A request as a mathematical value.
pub struct RemoteRequestView {
    pub operation: RemoteOperation,
    pub account: Seq<char>,
    pub product: Seq<char>,
    pub license_key: Seq<char>,
    pub fingerprint: Seq<char>,
}

impl View for RemoteRequest {
    type V = RemoteRequestView;

    open spec fn view(&self) -> RemoteRequestView {
        RemoteRequestView {
            operation: self.operation,
            account: self.account@,
            product: self.product@,
            license_key: self.license_key@,
            fingerprint: self.fingerprint@,
        }
    }
}

/// The validation engine: the authority's configuration and the grace
/// policy, both fixed when the engine is made.
#[derive(Clone, Debug, PartialEq, Eq)]
pub struct ValidationEngine {
    pub config: AuthorityConfig,
    pub policy: GracePolicy,
}

/// The cached decision that a load handed over, as a mathematical value.
pub open spec fn loaded_view(loaded: Option<CachedState>) -> Option<CachedStateView> {
    match loaded {
        Some(state) => Some(state@),
        None => None,
    }
}

/// The instant at which the grace period that started at `anchor` runs out,
/// held to the largest instant that can be represented.
pub open spec fn grace_deadline(anchor: u64, grace_period: u64) -> u64 {
    if anchor + grace_period <= u64::MAX {
        (anchor + grace_period) as u64
    } else {
        u64::MAX
    }
}

/// Whether `now` lies within the grace period after the last successful
/// answer of the authority. Without such an answer there is no grace.
pub open spec fn within_grace(anchor: Option<u64>, now: u64, grace_period: u64) -> bool {
    match anchor {
        Some(at) => now - at <= grace_period,
        None => false,
    }
}

/// The verdict of a check whose request failed for a transient reason.
///
/// Once the grace period after the last successful answer has run out, the
/// verdict is `GraceExpired`, whatever was cached. Within it, a license that
/// was accepted stays accepted, until the end of the period.
///
/// Two cases are settled here by choice. Within the grace period a cached
/// verdict that does not entitle stands as it is: a transient failure neither
/// improves nor degrades it. Where the authority has never answered
/// successfully there is no period to measure: an accepted license is then
/// reported as `GraceExpired`, and any other cached verdict stands.
pub open spec fn transient_verdict(state: CachedStateView, now: u64, grace_period: u64) -> Verdict {
    match state.last_successful_remote_at {
        Some(at) => if now - at > grace_period {
            Verdict::GraceExpired
        } else if state.last_verdict.is_entitled() {
            Verdict::OfflineGraceValid(grace_deadline(at, grace_period))
        } else {
            state.last_verdict
        },
        None => if state.last_verdict.is_entitled() {
            Verdict::GraceExpired
        } else {
            state.last_verdict
        },
    }
}

/// The verdict of a check on `state` at `now`, given how the request ended.
pub open spec fn concluded_verdict(
    state: CachedStateView,
    outcome: Result<Verdict, RemoteError>,
    now: u64,
    grace_period: u64,
) -> ValidationVerdict {
    match outcome {
        Ok(kind) => ValidationVerdict { kind, produced_at: now, provenance: Provenance::Fresh },
        Err(RemoteError::Rejected(reason)) => ValidationVerdict {
            kind: Verdict::of_rejection(reason),
            produced_at: now,
            provenance: Provenance::Fresh,
        },
        Err(_) => ValidationVerdict {
            kind: transient_verdict(state, now, grace_period),
            produced_at: now,
            provenance: Provenance::Cached,
        },
    }
}

/// The decision to persist after a check on `state` at `now`.
///
/// The key is kept whatever happened. Only a successful answer moves the
/// instant of the last successful answer.
pub open spec fn concluded_state(
    state: CachedStateView,
    outcome: Result<Verdict, RemoteError>,
    now: u64,
    grace_period: u64,
) -> CachedStateView {
    CachedStateView {
        license_key: state.license_key,
        last_verdict: concluded_verdict(state, outcome, now, grace_period).kind,
        last_checked_at: now,
        last_successful_remote_at: if outcome is Ok {
            Some(now)
        } else {
            state.last_successful_remote_at
        },
    }
}

/// What a check does once the cached decision is known.
///
/// Without a stored key the check is settled as `NotActivated`. A key that
/// was never activated is activated; any other is validated.
pub open spec fn planned(loaded: Option<CachedStateView>, now: u64) -> CheckPlanView {
    match loaded {
        Some(state) => if !state.has_key() {
            CheckPlanView::Settled(
                ValidationVerdict {
                    kind: Verdict::NotActivated,
                    produced_at: now,
                    provenance: Provenance::Cached,
                },
            )
        } else if state.last_verdict is NotActivated {
            CheckPlanView::Remote(state, RemoteOperation::Activate)
        } else {
            CheckPlanView::Remote(state, RemoteOperation::Validate)
        },
        None => CheckPlanView::Settled(
            ValidationVerdict {
                kind: Verdict::NotActivated,
                produced_at: now,
                provenance: Provenance::Cached,
            },
        ),
    }
}

impl GracePolicy {
    /// The policy with the default grace period of seventy-two hours.
    pub fn standard() -> (policy: GracePolicy)
        ensures
            policy.grace_period == DEFAULT_GRACE_PERIOD,
    {
        GracePolicy { grace_period: DEFAULT_GRACE_PERIOD }
    }

    /// The instant at which the grace period that started at `anchor` runs out.
    pub fn deadline(&self, anchor: u64) -> (at: u64)
        ensures
            at == grace_deadline(anchor, self.grace_period),
    {
        if self.grace_period <= u64::MAX - anchor {
            anchor + self.grace_period
        } else {
            u64::MAX
        }
    }

    /// Whether `now` lies within the grace period that started at `anchor`.
    pub fn covers(&self, anchor: Option<u64>, now: u64) -> (within: bool)
        ensures
            within == within_grace(anchor, now, self.grace_period),
    {
        match anchor {
            Some(at) => now <= at || now - at <= self.grace_period,
            None => false,
        }
    }

    /// The verdict of a check on `state` whose request failed for a
    /// transient reason.
    pub fn offline_verdict(&self, state: &CachedState, now: u64) -> (kind: Verdict)
        ensures
            kind == transient_verdict(state@, now, self.grace_period),
    {
        match state.last_successful_remote_at {
            Some(at) => {
                if !self.covers(Some(at), now) {
                    Verdict::GraceExpired
                } else if state.last_verdict.entitled() {
                    Verdict::OfflineGraceValid(self.deadline(at))
                } else {
                    state.last_verdict
                }
            },
            None => {
                if state.last_verdict.entitled() {
                    Verdict::GraceExpired
                } else {
                    state.last_verdict
                }
            },
        }
    }
}

/// The request of `operation` for the key of `state` from the machine with
/// the given fingerprint, under the account and product of `config`.
pub open spec fn request_for(
    config: AuthorityConfigView,
    state: CachedStateView,
    operation: RemoteOperation,
    fingerprint: Seq<char>,
) -> RemoteRequestView {
    RemoteRequestView {
        operation,
        account: config.account,
        product: config.product,
        license_key: state.license_key,
        fingerprint,
    }
}

impl ValidationEngine {
    /// An engine for the given authority and grace policy.
    pub fn new(config: AuthorityConfig, policy: GracePolicy) -> (engine: ValidationEngine)
        ensures
            engine.config@ == config@,
            engine.policy == policy,
    {
        ValidationEngine { config, policy }
    }

    /// Decides, from the cached decision alone, whether the authority is to be
    /// contacted and with which request.
    ///
    /// Without a stored key the check is settled as `NotActivated` and no request
    /// is made. A key that was never activated is activated; any other is
    /// validated.
    pub fn plan(&self, loaded: Option<CachedState>, now: u64) -> (step: CheckPlan)
        ensures
            step@ == planned(loaded_view(loaded), now),
    {
        match loaded {
            Some(state) => {
                if !state.has_key() {
                    CheckPlan::Settled(ValidationVerdict::cached(Verdict::NotActivated, now))
                } else {
                    let operation = match state.last_verdict {
                        Verdict::NotActivated => RemoteOperation::Activate,
                        _ => RemoteOperation::Validate,
                    };
                    CheckPlan::Remote(PendingCheck { state, operation })
                }
            },
            None => CheckPlan::Settled(ValidationVerdict::cached(Verdict::NotActivated, now)),
        }
    }

    /// Starts a check from what the store returned. A store that cannot be read
    /// ends the check with an error; otherwise the plan follows from the cached
    /// decision.
    pub fn begin(&self, loaded: Result<Option<CachedState>, StoreError>, now: u64) -> (step: Result<
        CheckPlan,
        CheckError,
    >)
        ensures
            match loaded {
                Ok(cached) => step is Ok && step->Ok_0@ == planned(loaded_view(cached), now),
                Err(e) => step is Err && step->Err_0 == CheckError::Store(e),
            },
    {
        match loaded {
            Ok(cached) => Ok(self.plan(cached, now)),
            Err(e) => Err(CheckError::Store(e)),
        }
    }

    /// Concludes a check on `state` at `now` from the way the request ended.
    ///
    /// A successful answer is the verdict, and moves both instants to `now`. An
    /// active denial becomes the authoritative verdict it stands for, whatever
    /// was cached. Any other failure is transient: past the grace period the
    /// verdict is `GraceExpired`, within it the verdict follows from the cached
    /// decision, and the instant of the last successful answer stays. The key
    /// is never dropped.
    pub fn conclude(
        &self,
        state: CachedState,
        outcome: Result<Verdict, RemoteError>,
        now: u64,
    ) -> (end: Conclusion)
        ensures
            end.verdict == concluded_verdict(state@, outcome, now, self.policy.grace_period),
            end.state@ == concluded_state(state@, outcome, now, self.policy.grace_period),
    {
        let verdict = match outcome {
            Ok(kind) => ValidationVerdict::fresh(kind, now),
            Err(RemoteError::Rejected(reason)) => ValidationVerdict::fresh(
                Verdict::from_rejection(reason),
                now,
            ),
            Err(_) => ValidationVerdict::cached(self.policy.offline_verdict(&state, now), now),
        };
        let anchor = match outcome {
            Ok(_) => Some(now),
            Err(_) => state.last_successful_remote_at,
        };
        Conclusion {
            verdict,
            state: CachedState {
                license_key: state.license_key,
                last_verdict: verdict.kind,
                last_checked_at: now,
                last_successful_remote_at: anchor,
            },
        }
    }

    /// Builds the request to the authority once the machine's identity is
    /// known. Without an identity the check ends with an error, and nothing
    /// is sent.
    pub fn request(
        &self,
        state: &CachedState,
        operation: RemoteOperation,
        identity: Result<MachineFingerprint, IdentityError>,
    ) -> (call: Result<RemoteRequest, CheckError>)
        ensures
            match identity {
                Ok(fingerprint) => call is Ok && call->Ok_0@ == request_for(
                    self.config@,
                    state@,
                    operation,
                    fingerprint@,
                ),
                Err(e) => call is Err && call->Err_0 == CheckError::Identity(e),
            },
    {
        match identity {
            Ok(fingerprint) => Ok(
                RemoteRequest {
                    operation,
                    account: self.config.account.clone(),
                    product: self.config.product.clone(),
                    license_key: state.license_key.clone(),
                    fingerprint: fingerprint.value,
                },
            ),
            Err(e) => Err(CheckError::Identity(e)),
        }
    }

    /// Ends a deactivation from the way the request ended. Once the
    /// authority has released the machine the cached decision is to be
    /// cleared; any failure is reported and leaves it in place.
    pub fn deactivated(&self, outcome: Result<(), RemoteError>) -> (end: Result<(), CheckError>)
        ensures
            match outcome {
                Ok(_) => end is Ok,
                Err(e) => end == Err::<(), CheckError>(CheckError::Remote(e)),
            },
    {
        match outcome {
            Ok(_) => Ok(()),
            Err(e) => Err(CheckError::Remote(e)),
        }
    }

    /// Ends a check once the store has answered the write. The verdict is
    /// returned only if the decision was persisted.
    pub fn finish(&self, verdict: ValidationVerdict, saved: Result<(), StoreError>) -> (end: Result<
        ValidationVerdict,
        CheckError,
    >)
        ensures
            match saved {
                Ok(_) => end == Ok::<ValidationVerdict, CheckError>(verdict),
                Err(e) => end == Err::<ValidationVerdict, CheckError>(CheckError::Store(e)),
            },
    {
        match saved {
            Ok(_) => Ok(verdict),
            Err(e) => Err(CheckError::Store(e)),
        }
    }
}

} // verus!
