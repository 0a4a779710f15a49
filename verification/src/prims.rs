//! Trusted wrappers around the platform primitives the lock is built on:
//! the atomic state words, the interior-mutability cell that holds the
//! payload, and the calling thread's identity.
//!
//! Nothing is assumed about the values observed in the atomics: other
//! threads may change them between any two calls. The contracts state only
//! what the standard library documents of every outcome.

use vstd::prelude::*;
use core::cell::Cell;
use core::sync::atomic::{AtomicU64, Ordering};

verus! {

/// The payload cell. `core::cell::Cell` permits mutation through a shared
/// reference; the lock algorithm, not the type system, guarantees that a
/// writer is exclusive when the cell is written.
#[verifier::external_type_specification]
#[verifier::external_body]
#[verifier::reject_recursive_types(T)]
pub struct ExCell<T: ?Sized>(Cell<T>);

/// Relies on `AtomicU64::new`: creates an atomic holding `v`.
#[verifier::external_body]
pub(crate) fn atomic_new(v: u64) -> AtomicU64
    opens_invariants none
    no_unwind
{
    AtomicU64::new(v)
}

/// Relies on `AtomicU64::load` with acquire ordering: returns the value the
/// atomic held at some instant during the call.
#[verifier::external_body]
pub(crate) fn atomic_load_acquire(a: &AtomicU64) -> u64
    opens_invariants none
    no_unwind
{
    a.load(Ordering::Acquire)
}

/// Relies on `AtomicU64::store` with release ordering: the atomic holds `v`
/// at some instant during the call.
#[verifier::external_body]
pub(crate) fn atomic_store_release(a: &AtomicU64, v: u64)
    opens_invariants none
    no_unwind
{
    a.store(v, Ordering::Release)
}

/// Relies on `AtomicU64::compare_exchange` (release on success, relaxed on
/// failure): replaces the held value with `new` only if it equals `current`,
/// and on success returns the previous value, which equals `current`.
#[verifier::external_body]
pub(crate) fn atomic_compare_exchange_release(
    a: &AtomicU64,
    current: u64,
    new: u64,
) -> (r: Result<u64, u64>)
    ensures
        r is Ok ==> r->Ok_0 == current,
    opens_invariants none
    no_unwind
{
    a.compare_exchange(current, new, Ordering::Release, Ordering::Relaxed)
}

/// Relies on `AtomicU64::fetch_sub` with release ordering: subtracts `v`
/// (wrapping on overflow) and returns the value held before the call.
#[verifier::external_body]
pub(crate) fn atomic_fetch_sub_release(a: &AtomicU64, v: u64) -> u64
    opens_invariants none
    no_unwind
{
    a.fetch_sub(v, Ordering::Release)
}

/// Relies on `Cell::new`: creates a cell holding `v`.
#[verifier::external_body]
pub(crate) fn cell_new<T>(v: T) -> Cell<T>
    opens_invariants none
    no_unwind
{
    Cell::new(v)
}

/// Relies on `Cell::get`: returns a copy of the cell's current contents.
#[verifier::external_body]
pub(crate) fn cell_get<T: Copy>(c: &Cell<T>) -> T
    opens_invariants none
    no_unwind
{
    c.get()
}

/// Relies on `Cell::set`: replaces the cell's contents with `v`. The old
/// contents are `Copy`, so no destructor runs and the call cannot unwind.
#[verifier::external_body]
pub(crate) fn cell_set<T: Copy>(c: &Cell<T>, v: T)
    opens_invariants none
    no_unwind
{
    c.set(v)
}

/// Relies on `thread_id::get`, which reads the platform identifier of the
/// calling thread (`pthread_self` on unix): the result is stable for one
/// thread's lifetime and differs between concurrently live threads.
#[verifier::external_body]
pub(crate) fn current_thread_id() -> u64
    opens_invariants none
    no_unwind
{
    thread_id::get() as u64
}

} // verus!
