//! A reader-writer spin lock built from one lock-free atomic state word.
//!
//! The state word packs a writer flag (bit 63) and a live-reader count
//! (bits 0–62); see [`crate::word`]. A second atomic word records the
//! identity of the thread holding exclusive access, or zero when none does.
//! Every wait is a compare-and-swap retry loop on the state word: there is
//! no OS-level blocking, no queueing and no fairness.
//!
//! Every function here provably terminates, so the spins carry an explicit
//! budget of `u64::MAX` attempts — more than any reachable contention; a
//! caller that exhausts it is spinning against a holder that will never
//! release, and is told so with [`Error::DeadLockError`].
//!
//! Guards copy the payload in under the protection of the state word and,
//! for the write guard, copy it back at release, so the payload type must
//! be `Copy`. While a guard is live the algorithm keeps any writer out
//! (for a read guard) or everyone else out (for a write guard), so the
//! copies cannot be torn or stale.

use vstd::prelude::*;
use core::cell::Cell;
use core::sync::atomic::AtomicU64;

use crate::Error;
use crate::model::same_owner;
use crate::prims::{
    atomic_compare_exchange_release, atomic_fetch_sub_release, atomic_load_acquire,
    atomic_new, atomic_store_release, cell_get, cell_new, cell_set, current_thread_id,
};
use crate::word::{read_enter_word, write_claim_word, SHARED_LOCK_WRITER_BIT};

verus! {

/// How many times an acquisition loop re-checks the state word before it
/// gives up on a holder that is never going to release.
const SPIN_LIMIT: u64 = u64::MAX;

/// A reader-writer lock: any number of concurrent readers, or exactly one
/// writer, never both.
#[verifier::reject_recursive_types(T)]
pub struct SharedLock<T> {
    inner: AtomicU64,
    owner: AtomicU64,
    data: Cell<T>,
}

impl<T> SharedLock<T> {
    /// Creates an unlocked lock protecting `t`: state word zero, no owner.
    pub fn new(t: T) -> SharedLock<T> {
        SharedLock {
            inner: atomic_new(0),
            owner: atomic_new(0),
            data: cell_new(t),
        }
    }
}

impl<T: Copy> SharedLock<T> {
    /// Acquires shared access, spinning while a writer holds the flag.
    ///
    /// Fails only with [`Error::DeadLockError`]: immediately when the owner
    /// word was observed to record the calling thread itself, or after the
    /// spin budget runs out against a writer that never releases.
    pub fn read(&self) -> (r: Result<SharedLockReadGuard<'_, T>, Error>)
        ensures
            r is Err ==> r->Err_0 is DeadLockError,
    {
        SharedLockReadGuard::new(self)
    }

    /// Acquires exclusive access: claims the writer flag, records the
    /// calling thread as owner, then waits out the readers that entered
    /// before the claim.
    ///
    /// Fails with [`Error::DeadLockError`] when the owner word was observed
    /// to record the calling thread itself or a spin budget ran out, and
    /// with [`Error::Poisoned`] when the owner word was found non-zero
    /// right after the flag was claimed, which means an earlier release
    /// went wrong.
    pub fn write(&self) -> (r: Result<SharedLockWriteGuard<'_, T>, Error>)
        ensures
            r is Err ==> (r->Err_0 is DeadLockError || r->Err_0 is Poisoned),
    {
        SharedLockWriteGuard::new(self)
    }

    /// Whether the owner word currently records the calling thread: true
    /// iff the word is non-zero and equal to this thread's identity.
    fn is_hold(&self) -> bool
        opens_invariants none
        no_unwind
    {
        let tid = atomic_load_acquire(&self.owner);
        same_owner(tid, current_thread_id())
    }

    /// Records `tid` in the owner word.
    fn set_owner_id(&self, tid: u64)
        opens_invariants none
        no_unwind
    {
        atomic_store_release(&self.owner, tid);
    }
}

/// RAII guard for shared read access; releasing it subtracts exactly one
/// from the reader count, the inverse of the increment that created it.
#[verifier::reject_recursive_types(T)]
pub struct SharedLockReadGuard<'a, T: Copy> {
    lock: &'a SharedLock<T>,
    value: T,
}

impl<'a, T: Copy> View for SharedLockReadGuard<'a, T> {
    type V = T;

    /// The payload as observed when the guard was created.
    closed spec fn view(&self) -> T {
        self.value
    }
}

impl<'a, T: Copy> SharedLockReadGuard<'a, T> {
    fn new(lock: &'a SharedLock<T>) -> (r: Result<SharedLockReadGuard<'a, T>, Error>)
        ensures
            r is Err ==> r->Err_0 is DeadLockError,
    {
        if lock.is_hold() {
            return Err(Error::DeadLockError);
        }

        let mut spins: u64 = SPIN_LIMIT;
        loop
            decreases spins,
        {
            if spins == 0 {
                return Err(Error::DeadLockError);
            }
            spins = spins - 1;

            let value = atomic_load_acquire(&lock.inner);
            if value >= SHARED_LOCK_WRITER_BIT {
                continue;
            }

            let target = read_enter_word(value);
            if atomic_compare_exchange_release(&lock.inner, value, target).is_ok() {
                break;
            }
        }

        let value = cell_get(&lock.data);
        Ok(SharedLockReadGuard { lock, value })
    }

    /// The protected value as read under the guard.
    pub fn value(&self) -> (r: T)
        ensures
            r == self@,
    {
        self.value
    }
}

impl<'a, T: Copy> Drop for SharedLockReadGuard<'a, T> {
    /// Releases the shared access: unconditionally subtracts one unit of
    /// reader count, whatever else the word holds.
    fn drop(&mut self)
        opens_invariants none
        no_unwind
    {
        atomic_fetch_sub_release(&self.lock.inner, 1);
    }
}

/// RAII guard for exclusive write access; releasing it stores the guard's
/// value back into the lock, clears the owner word and clears the writer
/// flag, in that order.
#[verifier::reject_recursive_types(T)]
pub struct SharedLockWriteGuard<'a, T: Copy> {
    lock: &'a SharedLock<T>,
    value: T,
}

impl<'a, T: Copy> View for SharedLockWriteGuard<'a, T> {
    type V = T;

    /// The guard's working copy of the payload: what the lock will hold
    /// once the guard is released.
    closed spec fn view(&self) -> T {
        self.value
    }
}

impl<'a, T: Copy> SharedLockWriteGuard<'a, T> {
    fn new(lock: &'a SharedLock<T>) -> (r: Result<SharedLockWriteGuard<'a, T>, Error>)
        ensures
            r is Err ==> (r->Err_0 is DeadLockError || r->Err_0 is Poisoned),
    {
        if lock.is_hold() {
            return Err(Error::DeadLockError);
        }

        let mut spins: u64 = SPIN_LIMIT;
        loop
            decreases spins,
        {
            if spins == 0 {
                return Err(Error::DeadLockError);
            }
            spins = spins - 1;

            let value = atomic_load_acquire(&lock.inner);
            if value >= SHARED_LOCK_WRITER_BIT {
                continue;
            }

            let target = write_claim_word(value);
            if atomic_compare_exchange_release(&lock.inner, value, target).is_ok() {
                break;
            }
        }

        if atomic_load_acquire(&lock.owner) != 0 {
            return Err(Error::Poisoned);
        }
        lock.set_owner_id(current_thread_id());

        // Wait for the readers that entered before the flag was claimed.
        let mut drains: u64 = SPIN_LIMIT;
        while atomic_load_acquire(&lock.inner) != SHARED_LOCK_WRITER_BIT
            decreases drains,
        {
            if drains == 0 {
                // A reader is never going to drain: undo the claim so the
                // lock stays usable, and report the failed acquisition.
                lock.set_owner_id(0);
                atomic_fetch_sub_release(&lock.inner, SHARED_LOCK_WRITER_BIT);
                return Err(Error::DeadLockError);
            }
            drains = drains - 1;
        }

        let value = cell_get(&lock.data);
        Ok(SharedLockWriteGuard { lock, value })
    }

    /// The guard's working copy of the protected value.
    pub fn value(&self) -> (r: T)
        ensures
            r == self@,
    {
        self.value
    }

    /// Replaces the working copy; the lock takes this value at release.
    pub fn set_value(&mut self, v: T)
        ensures
            final(self)@ == v,
    {
        self.value = v;
    }
}

impl<'a, T: Copy> Drop for SharedLockWriteGuard<'a, T> {
    /// Releases the exclusive access: checks that the state word is exactly
    /// the writer flag and that the owner word still records this thread,
    /// stores the working copy back, clears the owner word, then clears the
    /// flag. A failed check means another thread corrupted the lock; that
    /// is unrecoverable, so nothing is released — the lock is left exactly
    /// as found, permanently held, rather than silently freed.
    fn drop(&mut self)
        opens_invariants none
        no_unwind
    {
        let value = atomic_load_acquire(&self.lock.inner);
        if value != SHARED_LOCK_WRITER_BIT {
            return;
        }

        if !self.lock.is_hold() {
            return;
        }
        self.lock.set_owner_id(0);

        cell_set(&self.lock.data, self.value);
        atomic_fetch_sub_release(&self.lock.inner, SHARED_LOCK_WRITER_BIT);
    }
}

} // verus!
