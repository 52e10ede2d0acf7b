//! Time, as the presale reads it.

use vstd::prelude::*;

verus! {

/// The unsigned seconds that stand for a signed clock reading: the reading
/// itself from the epoch on; for a reading before the epoch, the same
/// sixty-four bits read as unsigned, which is the reading plus `2^64`.
pub open spec fn seconds_of(unix_timestamp: i64) -> int {
    if unix_timestamp >= 0 {
        unix_timestamp as int
    } else {
        unix_timestamp + 0x1_0000_0000_0000_0000
    }
}

/// Converts a reading of the ledger's clock to the unsigned seconds in which
/// the presale keeps its times.
pub fn seconds(unix_timestamp: i64) -> (now: u64)
    ensures
        now == seconds_of(unix_timestamp),
{
    let now: u64 = #[verifier::truncate] (unix_timestamp as u64);
    assert(unix_timestamp >= 0 ==> now == unix_timestamp) by (bit_vector)
        requires
            now == unix_timestamp as u64,
    ;
    assert(unix_timestamp < 0 ==> now == 0xffff_ffff_ffff_ffffu64 - ((-(unix_timestamp + 1)) as u64))
        by (bit_vector)
        requires
            now == unix_timestamp as u64,
    ;
    now
}

} // verus!
