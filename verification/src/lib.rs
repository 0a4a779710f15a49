use vstd::prelude::*;

pub mod model;
pub mod prims;
pub mod sharedlock;
pub mod word;

pub use sharedlock::SharedLock;
pub use sharedlock::SharedLockReadGuard;
pub use sharedlock::SharedLockWriteGuard;

verus! {

/// Failures surfaced by lock acquisition.
#[derive(Debug, Clone, Copy, PartialEq, Eq)]
pub enum Error {
    /// The calling thread already holds this lock in an incompatible mode.
    DeadLockError,
    /// The lock's owner bookkeeping was found in an invariant-violating state.
    Poisoned,
}

impl Error {
    /// A short human-readable name for the failure kind.
    pub fn message(&self) -> (r: &'static str)
        ensures
            self is DeadLockError ==> r@ == "DeadLock"@,
            self is Poisoned ==> r@ == "Poisoned"@,
    {
        match self {
            Error::DeadLockError => "DeadLock",
            Error::Poisoned => "Poisoned",
        }
    }
}

} // verus!
