//! What holds of every check, and of every run of checks, proved from the
//! engine's definitions.

use vstd::prelude::*;
use crate::error::{RejectionReason, RemoteError};
use crate::license::{concluded_state, concluded_verdict, grace_deadline, within_grace};
use crate::store::CachedStateView;
use crate::verdict::{Provenance, Verdict};

verus! {

/// One check as the engine sees it: how the request ended, and when.
pub struct Answer {
    pub outcome: Result<Verdict, RemoteError>,
    pub now: u64,
}

/// The cached decision after the checks of `answers`, in order, each on the
/// decision that the one before it persisted.
pub open spec fn after_checks(
    state: CachedStateView,
    answers: Seq<Answer>,
    grace_period: u64,
) -> CachedStateView
    decreases answers.len(),
{
    if answers.len() == 0 {
        state
    } else {
        concluded_state(
            after_checks(state, answers.drop_last(), grace_period),
            answers.last().outcome,
            answers.last().now,
            grace_period,
        )
    }
}

/// The verdict of the check at position `i` of a run.
pub open spec fn verdict_at(
    state: CachedStateView,
    answers: Seq<Answer>,
    grace_period: u64,
    i: int,
) -> Verdict {
    concluded_verdict(
        after_checks(state, answers.take(i), grace_period),
        answers[i].outcome,
        answers[i].now,
        grace_period,
    ).kind
}

/// While the authority confirms the license and the clock moves forward,
/// every check of a run is `Valid`, and each moves the instant of the last
/// successful answer to a strictly later one: its own.
pub proof fn lemma_confirmations_advance(
    state: CachedStateView,
    answers: Seq<Answer>,
    grace_period: u64,
    i: int,
)
    requires
        0 <= i < answers.len(),
        forall|j: int| 0 <= j < answers.len() ==> (#[trigger] answers[j]).outcome == Ok::<
            Verdict,
            RemoteError,
        >(Verdict::Valid),
        forall|j: int| 0 <= j < answers.len() - 1 ==> (#[trigger] answers[j]).now < answers[j + 1].now,
        state.last_successful_remote_at matches Some(at) ==> at < answers[0].now,
    ensures
        verdict_at(state, answers, grace_period, i) == Verdict::Valid,
        after_checks(state, answers.take(i + 1), grace_period).last_verdict == Verdict::Valid,
        after_checks(state, answers.take(i + 1), grace_period).last_successful_remote_at == Some(
            answers[i].now,
        ),
        after_checks(state, answers.take(i), grace_period).last_successful_remote_at matches Some(
            before,
        ) ==> before < answers[i].now,
{
    lemma_after_checks_step(state, answers, grace_period, i);
    if i > 0 {
        lemma_after_checks_step(state, answers, grace_period, i - 1);
    } else {
        assert(answers.take(0) =~= Seq::<Answer>::empty());
    }
}

/// The decision after the first `i + 1` checks of a run is what the check at
/// position `i` persists on the decision after the first `i`.
pub proof fn lemma_after_checks_step(
    state: CachedStateView,
    answers: Seq<Answer>,
    grace_period: u64,
    i: int,
)
    requires
        0 <= i < answers.len(),
    ensures
        after_checks(state, answers.take(i + 1), grace_period) == concluded_state(
            after_checks(state, answers.take(i), grace_period),
            answers[i].outcome,
            answers[i].now,
            grace_period,
        ),
{
    let upto = answers.take(i + 1);
    assert(upto.drop_last() =~= answers.take(i));
    assert(upto.last() == answers[i]);
}

/// While the authority cannot be reached, a license that was accepted stays
/// accepted for the grace period after the last successful answer, with the
/// end of that period as its deadline. Once the period has run out the
/// verdict is `GraceExpired`, whatever was cached. The stored key is kept in
/// both cases, and the instant of the last successful answer stays.
pub proof fn lemma_grace_then_expiry(
    state: CachedStateView,
    failure: RemoteError,
    now: u64,
    grace_period: u64,
)
    requires
        failure.is_transient(),
        state.last_successful_remote_at is Some,
    ensures
        ({
            let at = state.last_successful_remote_at->Some_0;
            let outcome = Err::<Verdict, RemoteError>(failure);
            let verdict = concluded_verdict(state, outcome, now, grace_period);
            let next = concluded_state(state, outcome, now, grace_period);
            &&& now - at <= grace_period && state.last_verdict.is_entitled() ==> verdict.kind
                == Verdict::OfflineGraceValid(grace_deadline(at, grace_period))
            &&& now - at > grace_period ==> verdict.kind == Verdict::GraceExpired
            &&& verdict.provenance == Provenance::Cached
            &&& next.last_verdict == verdict.kind
            &&& next.license_key == state.license_key
            &&& next.last_successful_remote_at == state.last_successful_remote_at
            &&& next.last_checked_at == now
        }),
{
}

/// An active denial by the authority is the verdict, whatever was cached:
/// it overrides an accepted license, in the middle of a grace period too.
pub proof fn lemma_rejection_overrides(
    state: CachedStateView,
    reason: RejectionReason,
    now: u64,
    grace_period: u64,
)
    ensures
        ({
            let outcome = Err::<Verdict, RemoteError>(RemoteError::Rejected(reason));
            let verdict = concluded_verdict(state, outcome, now, grace_period);
            let next = concluded_state(state, outcome, now, grace_period);
            &&& verdict.kind == Verdict::of_rejection(reason)
            &&& !verdict.kind.is_entitled()
            &&& verdict.provenance == Provenance::Fresh
            &&& next.last_verdict == Verdict::of_rejection(reason)
            &&& next.license_key == state.license_key
        }),
{
}

/// Two checks in a row that the authority answers alike give the same
/// verdict, and no instant of the cached decision moves backwards, as long
/// as the clock does not.
pub proof fn lemma_repeated_check(
    state: CachedStateView,
    kind: Verdict,
    first_at: u64,
    second_at: u64,
    grace_period: u64,
)
    requires
        first_at <= second_at,
    ensures
        ({
            let outcome = Ok::<Verdict, RemoteError>(kind);
            let first = concluded_verdict(state, outcome, first_at, grace_period);
            let between = concluded_state(state, outcome, first_at, grace_period);
            let second = concluded_verdict(between, outcome, second_at, grace_period);
            let after = concluded_state(between, outcome, second_at, grace_period);
            &&& first.kind == kind
            &&& second.kind == kind
            &&& first.provenance == second.provenance
            &&& first.produced_at <= second.produced_at
            &&& between.last_checked_at <= after.last_checked_at
            &&& between.last_successful_remote_at == Some(first_at)
            &&& after.last_successful_remote_at == Some(second_at)
            &&& after.last_verdict == between.last_verdict
            &&& after.license_key == between.license_key
        }),
{
}

/// No run of checks drops or changes the stored key.
pub proof fn lemma_key_survives(state: CachedStateView, answers: Seq<Answer>, grace_period: u64)
    ensures
        after_checks(state, answers, grace_period).license_key == state.license_key,
    decreases answers.len(),
{
    if answers.len() > 0 {
        lemma_key_survives(state, answers.drop_last(), grace_period);
    }
}

/// An accepted license is never degraded in silence: where a check leaves a
/// verdict that no longer entitles, either the authority answered, or it
/// denied the license, or the grace period has run out.
pub proof fn lemma_no_silent_regression(
    state: CachedStateView,
    outcome: Result<Verdict, RemoteError>,
    now: u64,
    grace_period: u64,
)
    requires
        state.last_verdict.is_entitled(),
        !concluded_state(state, outcome, now, grace_period).last_verdict.is_entitled(),
    ensures
        ({
            ||| outcome is Ok
            ||| outcome matches Err(RemoteError::Rejected(_))
            ||| (concluded_verdict(state, outcome, now, grace_period).kind == Verdict::GraceExpired
                && !within_grace(state.last_successful_remote_at, now, grace_period))
        }),
{
}

/// A transient failure alone never yields a denial: the verdict is the cached
/// one, or speaks of the grace period.
pub proof fn lemma_transient_failure_never_denies(
    state: CachedStateView,
    failure: RemoteError,
    now: u64,
    grace_period: u64,
)
    requires
        failure.is_transient(),
    ensures
        ({
            let kind = concluded_verdict(
                state,
                Err::<Verdict, RemoteError>(failure),
                now,
                grace_period,
            ).kind;
            kind == state.last_verdict || kind is OfflineGraceValid || kind is GraceExpired
        }),
{
}

} // verus!
