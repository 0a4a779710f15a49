//! The lock's decision logic and its abstract state machine.
//!
//! The executable lock observes the atomic words and decides from the
//! observed values alone; the decisions are verified functions here. The
//! state machine below describes every transition the lock performs on the
//! two words, together with the count of live guards each transition
//! creates or destroys, and carries the proofs that the advertised
//! invariants hold in every state reachable by any sequence of operations:
//! a live write guard excludes every reader, at most one write guard is
//! live at a time, the owner word is non-zero exactly while a writer is
//! draining readers or holding the guard, and a lock whose guards have all
//! been released is back at the all-zero unlocked encoding.
//!
//! Thread identities are the non-zero words the platform hands out; the
//! zero word is the no-owner sentinel.

use vstd::prelude::*;

use crate::word::{reader_count, writer_flag_set, SHARED_LOCK_WRITER_BIT};

verus! {

/// Whether the owner word `owner` records the thread identity `tid`:
/// a zero owner word records nobody.
pub open spec fn owner_matches(owner: u64, tid: u64) -> bool {
    owner != 0 && owner == tid
}

/// The self-deadlock decision: true iff the observed owner word records
/// the identity `tid`. This is the only test either acquisition path
/// makes before it agrees to spin.
pub fn same_owner(owner: u64, tid: u64) -> (r: bool)
    ensures
        r == owner_matches(owner, tid),
    opens_invariants none
    no_unwind
{
    owner > 0 && owner == tid
}

/// One instant of a lock: the two atomic words, and how many callers stand
/// at each stage of an acquisition.
pub struct LockState {
    /// The state word: writer flag plus reader count.
    pub word: u64,
    /// The owner word: a thread identity, or zero for nobody.
    pub owner: u64,
    /// Live read guards.
    pub readers: nat,
    /// Writers that have claimed the flag but not yet recorded themselves.
    pub claiming: nat,
    /// Writers recorded as owner, waiting for the readers to drain.
    pub draining: nat,
    /// Live write guards.
    pub locked: nat,
}

/// Every transition the lock performs on its words.
pub enum LockEvent {
    /// A `read()` call's compare-and-swap succeeded: one more reader.
    ReadAcquire,
    /// A read guard was released: one reader fewer.
    ReadRelease,
    /// A `write()` call's compare-and-swap claimed the writer flag.
    WriteClaim,
    /// A claiming writer found the owner word zero and recorded `tid`.
    WriteOwn { tid: u64 },
    /// A draining writer observed the bare flag: its guard is live.
    WriteEnter,
    /// A draining writer gave up waiting and undid its claim.
    WriteAbandon,
    /// A write guard was released: owner cleared, then flag cleared.
    WriteRelease,
}

/// The freshly created lock: word zero, owner zero, no guards.
pub open spec fn init() -> LockState {
    LockState { word: 0, owner: 0, readers: 0, claiming: 0, draining: 0, locked: 0 }
}

/// When the lock can perform `e` in state `s`: the condition the involved
/// compare-and-swap or release check tests.
pub open spec fn enabled(s: LockState, e: LockEvent) -> bool {
    match e {
        // The swap succeeds only on a word without the flag, and the
        // count must stay inside the counter bits.
        LockEvent::ReadAcquire => {
            &&& !writer_flag_set(s.word)
            &&& reader_count(s.word) < SHARED_LOCK_WRITER_BIT - 1
        },
        LockEvent::ReadRelease => s.readers > 0,
        LockEvent::WriteClaim => !writer_flag_set(s.word),
        LockEvent::WriteOwn { tid } => s.claiming > 0 && s.owner == 0 && tid != 0,
        LockEvent::WriteEnter => s.draining > 0 && s.word == SHARED_LOCK_WRITER_BIT,
        LockEvent::WriteAbandon => s.draining > 0,
        LockEvent::WriteRelease => {
            s.locked > 0 && s.word == SHARED_LOCK_WRITER_BIT && s.owner != 0
        },
    }
}

/// The state after the lock performs `e` in state `s`.
pub open spec fn step(s: LockState, e: LockEvent) -> LockState {
    match e {
        LockEvent::ReadAcquire => LockState {
            word: (s.word + 1) as u64,
            readers: s.readers + 1,
            ..s
        },
        LockEvent::ReadRelease => LockState {
            word: (s.word - 1) as u64,
            readers: (s.readers - 1) as nat,
            ..s
        },
        LockEvent::WriteClaim => LockState {
            word: (s.word + SHARED_LOCK_WRITER_BIT) as u64,
            claiming: s.claiming + 1,
            ..s
        },
        LockEvent::WriteOwn { tid } => LockState {
            owner: tid,
            claiming: (s.claiming - 1) as nat,
            draining: s.draining + 1,
            ..s
        },
        LockEvent::WriteEnter => LockState {
            draining: (s.draining - 1) as nat,
            locked: s.locked + 1,
            ..s
        },
        LockEvent::WriteAbandon => LockState {
            owner: 0,
            word: (s.word - SHARED_LOCK_WRITER_BIT) as u64,
            draining: (s.draining - 1) as nat,
            ..s
        },
        LockEvent::WriteRelease => LockState {
            owner: 0,
            word: (s.word - SHARED_LOCK_WRITER_BIT) as u64,
            locked: (s.locked - 1) as nat,
            ..s
        },
    }
}

/// What holds of the lock at every observable instant.
pub open spec fn inv(s: LockState) -> bool {
    &&& s.readers == reader_count(s.word)
    &&& s.claiming + s.draining + s.locked <= 1
    &&& (writer_flag_set(s.word) <==> s.claiming + s.draining + s.locked == 1)
    &&& ((s.owner != 0) <==> s.draining + s.locked == 1)
    &&& (s.locked == 1 ==> s.word == SHARED_LOCK_WRITER_BIT)
}

/// The freshly created lock satisfies the invariant.
pub proof fn lemma_init_inv()
    ensures
        inv(init()),
{
}

/// Every enabled transition preserves the invariant: by induction, it
/// holds after any sequence of lock operations on one instance.
pub proof fn lemma_step_preserves_inv(s: LockState, e: LockEvent)
    requires
        inv(s),
        enabled(s, e),
    ensures
        inv(step(s, e)),
{
}

/// The lock after performing the whole sequence `es` from `s`.
pub open spec fn run(s: LockState, es: Seq<LockEvent>) -> LockState
    decreases es.len(),
{
    if es.len() == 0 {
        s
    } else {
        step(run(s, es.drop_last()), es.last())
    }
}

/// Whether every event of `es` is enabled when its turn comes.
pub open spec fn run_enabled(s: LockState, es: Seq<LockEvent>) -> bool
    decreases es.len(),
{
    if es.len() == 0 {
        true
    } else {
        run_enabled(s, es.drop_last()) && enabled(run(s, es.drop_last()), es.last())
    }
}

/// For all sequences of lock operations on one instance: every state the
/// lock reaches from creation satisfies the invariant.
pub proof fn lemma_run_preserves_inv(s: LockState, es: Seq<LockEvent>)
    requires
        inv(s),
        run_enabled(s, es),
    ensures
        inv(run(s, es)),
    decreases es.len(),
{
    if es.len() > 0 {
        lemma_run_preserves_inv(s, es.drop_last());
        lemma_step_preserves_inv(run(s, es.drop_last()), es.last());
    }
}

/// Mutual exclusion: at no instant do a live write guard and a live read
/// guard coexist — while a write guard is live the reader count is zero.
pub proof fn lemma_mutual_exclusion(s: LockState)
    requires
        inv(s),
        s.locked >= 1,
    ensures
        s.readers == 0,
{
}

/// At most one live write guard exists at a time; indeed at most one
/// writer stands anywhere between claiming the flag and releasing.
pub proof fn lemma_single_writer(s: LockState)
    requires
        inv(s),
    ensures
        s.locked <= 1,
        s.claiming + s.draining + s.locked <= 1,
{
}

/// While a write guard is live, no `read()` call can produce a guard: the
/// reader's compare-and-swap is disabled until the writer releases.
pub proof fn lemma_write_blocks_readers(s: LockState)
    requires
        inv(s),
        s.locked >= 1,
    ensures
        !enabled(s, LockEvent::ReadAcquire),
{
}

/// Round-trip: once every guard is released and no writer is under way,
/// the lock is back at the all-zero unlocked encoding.
pub proof fn lemma_release_all_unlocks(s: LockState)
    requires
        inv(s),
        s.readers == 0,
        s.claiming == 0,
        s.draining == 0,
        s.locked == 0,
    ensures
        s.word == 0,
        s.owner == 0,
{
}

/// The poisoned branch of `write()` is unreachable in a lock that has kept
/// its invariant: a writer that has just claimed the flag always finds the
/// owner word zero. A non-zero owner there really does mean corruption.
pub proof fn lemma_poison_unreachable(s: LockState)
    requires
        inv(s),
        s.claiming >= 1,
    ensures
        s.owner == 0,
{
}

/// Re-entry by the holder is refused, not spun on: while a write guard is
/// live the owner word records the holder's identity, so the holder's own
/// self-deadlock test — `read()`'s and `write()`'s first step — answers
/// true and the call fails with `DeadLockError` before any spin.
pub proof fn lemma_reentry_refused(s: LockState, tid: u64)
    requires
        inv(s),
        s.locked >= 1,
        tid == s.owner,
    ensures
        owner_matches(s.owner, tid),
{
}

} // verus!
