//! Lock-result helper: the state lock is only read through this extension,
//! which demands an unpoisoned lock and hands out the guard.
use vstd::prelude::*;

verus! {

#[verifier::external_type_specification]
#[verifier::external_body]
#[verifier::reject_recursive_types(T)]
pub struct ExPoisonError<T>(std::sync::PoisonError<T>);

/// Extension for lock acquisition results: take the guard of a lock that is
/// known not to be poisoned.
pub trait LockResultExt: Sized {
    type Guard;

    /// Whether the lock was acquired cleanly.
    spec fn lock_ok(&self) -> bool;

    /// Returns the lock guard; the caller must know the lock is unpoisoned.
    fn read_or_panic(self) -> Self::Guard
        requires
            self.lock_ok(),
    ;
}

impl<G> LockResultExt for std::sync::LockResult<G> {
    type Guard = G;

    open spec fn lock_ok(&self) -> bool {
        self is Ok
    }

    fn read_or_panic(self) -> (r: G) {
        match self {
            Ok(g) => g,
            Err(_) => vstd::pervasive::unreached(),
        }
    }
}

} // verus!
