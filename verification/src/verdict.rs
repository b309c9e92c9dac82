//! Verdicts: what a check concludes about the license.

use vstd::prelude::*;
use crate::error::{InvalidReason, RejectionReason};

verus! {

/// The engine's determination of license validity.
#[derive(Clone, Copy, Debug, PartialEq, Eq, Structural)]
pub enum Verdict {
    /// The authority confirmed the license.
    Valid,
    /// The authority denied the license for the given reason.
    Invalid(InvalidReason),
    /// The license has run out.
    Expired,
    /// The license is suspended.
    Suspended,
    /// No license key is stored, or the stored key still awaits activation.
    NotActivated,
    /// The authority cannot be reached, and the last confirmation is recent
    /// enough: the license is accepted until the given instant.
    OfflineGraceValid(u64),
    /// The authority cannot be reached, and the last confirmation is too old.
    GraceExpired,
}

/// Where a verdict comes from.
#[derive(Clone, Copy, Debug, PartialEq, Eq, Structural)]
pub enum Provenance {
    /// The remote authority answered during this check.
    Fresh,
    /// The verdict rests on the cached decision.
    Cached,
}

/// A verdict with the instant at which it was produced and its provenance.
#[derive(Clone, Copy, Debug, PartialEq, Eq, Structural)]
pub struct ValidationVerdict {
    pub kind: Verdict,
    pub produced_at: u64,
    pub provenance: Provenance,
}

impl Verdict {
    /// The verdicts under which the installation may operate.
    pub open spec fn is_entitled(self) -> bool {
        self is Valid || self is OfflineGraceValid
    }

    /// Whether the installation may operate under this verdict.
    pub fn entitled(&self) -> (e: bool)
        ensures
            e == self.is_entitled(),
    {
        match self {
            Verdict::Valid => true,
            Verdict::OfflineGraceValid(_) => true,
            _ => false,
        }
    }

    /// The verdict that an active denial by the authority amounts to.
    pub open spec fn of_rejection(reason: RejectionReason) -> Verdict {
        match reason {
            RejectionReason::Invalid(why) => Verdict::Invalid(why),
            RejectionReason::Expired => Verdict::Expired,
            RejectionReason::Suspended => Verdict::Suspended,
        }
    }

    /// Turns an active denial into the authoritative verdict it stands for.
    pub fn from_rejection(reason: RejectionReason) -> (v: Verdict)
        ensures
            v == Verdict::of_rejection(reason),
    {
        match reason {
            RejectionReason::Invalid(why) => Verdict::Invalid(why),
            RejectionReason::Expired => Verdict::Expired,
            RejectionReason::Suspended => Verdict::Suspended,
        }
    }
}

impl ValidationVerdict {
    /// A verdict that the authority gave at `now`.
    pub fn fresh(kind: Verdict, now: u64) -> (v: ValidationVerdict)
        ensures
            v == (ValidationVerdict { kind, produced_at: now, provenance: Provenance::Fresh }),
    {
        ValidationVerdict { kind, produced_at: now, provenance: Provenance::Fresh }
    }

    /// A verdict drawn at `now` from the cached decision.
    pub fn cached(kind: Verdict, now: u64) -> (v: ValidationVerdict)
        ensures
            v == (ValidationVerdict { kind, produced_at: now, provenance: Provenance::Cached }),
    {
        ValidationVerdict { kind, produced_at: now, provenance: Provenance::Cached }
    }

    /// Whether the installation may operate under this verdict.
    pub fn is_entitled(&self) -> (e: bool)
        ensures
            e == self.kind.is_entitled(),
    {
        self.kind.entitled()
    }
}

} // verus!
