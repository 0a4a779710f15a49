//! The encoding of the lock's 64-bit state word.
//!
//! Bit 63 is the writer flag; bits 0–62 hold the count of live readers.
//! Because the flag is the topmost bit, a word carries the flag exactly when
//! it is at least `SHARED_LOCK_WRITER_BIT`, and the reader count is what is
//! left after removing the flag.

use vstd::prelude::*;

verus! {

/// The writer flag: bit 63 of the state word.
pub const SHARED_LOCK_WRITER_BIT: u64 = 0x8000_0000_0000_0000;

/// Whether the writer flag is set in `word`.
pub open spec fn writer_flag_set(word: u64) -> bool {
    word >= SHARED_LOCK_WRITER_BIT
}

/// The reader count carried by `word`: the word with the writer flag removed.
pub open spec fn reader_count(word: u64) -> int {
    if writer_flag_set(word) {
        word - SHARED_LOCK_WRITER_BIT
    } else {
        word as int
    }
}

/// The state word recording one more live reader than `word`.
///
/// The counter occupies every bit below the flag, so the increment stays
/// within the counter bits as long as the count stays below `2^63 - 1`;
/// beyond that the word would spill into the writer flag, which the caller
/// cannot observe and the hardware cannot reach with live threads.
pub fn read_enter_word(word: u64) -> (r: u64)
    requires
        !writer_flag_set(word),
    ensures
        r == word + 1,
        reader_count(word) < SHARED_LOCK_WRITER_BIT - 1 ==> {
            &&& !writer_flag_set(r)
            &&& reader_count(r) == reader_count(word) + 1
        },
{
    word + 1
}

/// The state word `word` with the writer flag claimed.
pub fn write_claim_word(word: u64) -> (r: u64)
    requires
        !writer_flag_set(word),
    ensures
        r == word + SHARED_LOCK_WRITER_BIT,
        writer_flag_set(r),
        reader_count(r) == reader_count(word),
{
    proof {
        assert(word < 0x8000_0000_0000_0000u64 ==> (word | 0x8000_0000_0000_0000u64)
            == word + 0x8000_0000_0000_0000u64) by (bit_vector);
    }
    word | SHARED_LOCK_WRITER_BIT
}

} // verus!
