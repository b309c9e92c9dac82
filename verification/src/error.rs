//! Error taxonomy of the validation core.

use vstd::prelude::*;

verus! {

/// Why the authority regards a license as invalid rather than expired or suspended.
#[derive(Clone, Copy, Debug, PartialEq, Eq, Structural)]
pub enum InvalidReason {
    /// The authority does not recognise the key.
    UnknownKey,
    /// The license is bound to another machine.
    FingerprintMismatch,
    /// The license has no activation slots left.
    MachineLimitExceeded,
}

/// The grounds on which the authority actively denies a license.
#[derive(Clone, Copy, Debug, PartialEq, Eq, Structural)]
pub enum RejectionReason {
    Invalid(InvalidReason),
    Expired,
    Suspended,
}

/// Failure of a request to the remote authority.
#[derive(Clone, Copy, Debug, PartialEq, Eq, Structural)]
pub enum RemoteError {
    /// Network failure or timeout.
    Unreachable,
    /// The authority answered and denied the license.
    Rejected(RejectionReason),
    /// The authority asked the client to slow down.
    RateLimited,
    /// The response could not be understood.
    ProtocolError,
}

/// Failure to derive the machine fingerprint.
#[derive(Clone, Copy, Debug, PartialEq, Eq, Structural)]
pub enum IdentityError {
    /// No stable device attribute could be read.
    Unavailable,
}

/// Failure of the persistent store.
#[derive(Clone, Copy, Debug, PartialEq, Eq, Structural)]
pub enum StoreError {
    /// The persisted record cannot be understood.
    Corrupt,
    /// The backend refused the write.
    WriteFailed,
}

/// A failure that prevents a check from producing any verdict.
#[derive(Clone, Copy, Debug, PartialEq, Eq, Structural)]
pub enum CheckError {
    Identity(IdentityError),
    Store(StoreError),
    Remote(RemoteError),
}

impl RemoteError {
    /// A transient failure says nothing about the license: the cached
    /// decision and the grace period govern the verdict.
    pub open spec fn is_transient(self) -> bool {
        !(self is Rejected)
    }

    /// Whether the failure leaves the cached decision in charge.
    pub fn transient(&self) -> (t: bool)
        ensures
            t == self.is_transient(),
    {
        match self {
            RemoteError::Rejected(_) => false,
            _ => true,
        }
    }
}

} // verus!
