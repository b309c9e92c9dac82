//! The command surface: what the one operation `check` answers to the host.

use vstd::prelude::*;
use crate::error::CheckError;
use crate::verdict::{ValidationVerdict, Verdict};

verus! {

/// The kind of a verdict, without what it carries.
#[derive(Clone, Copy, Debug, PartialEq, Eq, Structural)]
pub enum VerdictStatus {
    Valid,
    Invalid,
    Expired,
    Suspended,
    NotActivated,
    OfflineGraceValid,
    GraceExpired,
}

/// The answer of `check`: the status, when the check was made, and the end
/// of the grace period where the license is accepted on its strength.
#[derive(Clone, Copy, Debug, PartialEq, Eq, Structural)]
pub struct CheckSummary {
    pub status: VerdictStatus,
    pub checked_at: u64,
    pub grace_expires_at: Option<u64>,
}

/// The status that a verdict is reported as.
pub open spec fn status_of(kind: Verdict) -> VerdictStatus {
    match kind {
        Verdict::Valid => VerdictStatus::Valid,
        Verdict::Invalid(_) => VerdictStatus::Invalid,
        Verdict::Expired => VerdictStatus::Expired,
        Verdict::Suspended => VerdictStatus::Suspended,
        Verdict::NotActivated => VerdictStatus::NotActivated,
        Verdict::OfflineGraceValid(_) => VerdictStatus::OfflineGraceValid,
        Verdict::GraceExpired => VerdictStatus::GraceExpired,
    }
}

/// The summary that a verdict is reported as.
pub open spec fn summary_of(verdict: ValidationVerdict) -> CheckSummary {
    CheckSummary {
        status: status_of(verdict.kind),
        checked_at: verdict.produced_at,
        grace_expires_at: match verdict.kind {
            Verdict::OfflineGraceValid(deadline) => Some(deadline),
            _ => None,
        },
    }
}

/// Reports a verdict to the host.
pub fn summarize(verdict: &ValidationVerdict) -> (summary: CheckSummary)
    ensures
        summary == summary_of(*verdict),
{
    let (status, grace_expires_at): (VerdictStatus, Option<u64>) = match verdict.kind {
        Verdict::Valid => (VerdictStatus::Valid, None),
        Verdict::Invalid(_) => (VerdictStatus::Invalid, None),
        Verdict::Expired => (VerdictStatus::Expired, None),
        Verdict::Suspended => (VerdictStatus::Suspended, None),
        Verdict::NotActivated => (VerdictStatus::NotActivated, None),
        Verdict::OfflineGraceValid(deadline) => (VerdictStatus::OfflineGraceValid, Some(deadline)),
        Verdict::GraceExpired => (VerdictStatus::GraceExpired, None),
    };
    CheckSummary { status, checked_at: verdict.produced_at, grace_expires_at }
}

/// Reports the end of a check to the host: a verdict as its summary, a
/// failure as the typed error it is. A verdict that denies the license is an
/// answer, not an error.
pub fn respond(end: Result<ValidationVerdict, CheckError>) -> (answer: Result<
    CheckSummary,
    CheckError,
>)
    ensures
        match end {
            Ok(verdict) => answer == Ok::<CheckSummary, CheckError>(summary_of(verdict)),
            Err(e) => answer == Err::<CheckSummary, CheckError>(e),
        },
{
    match end {
        Ok(verdict) => Ok(summarize(&verdict)),
        Err(e) => Err(e),
    }
}

} // verus!
