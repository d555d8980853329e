//! Units of time.

use vstd::prelude::*;

verus! {

/// The timestamp in milliseconds that the timestamp `timestamp_ns` in
/// nanoseconds comes to: what is left of a millisecond is dropped.
pub fn get_current_timestamp_ms(timestamp_ns: u64) -> (timestamp_ms: u64)
    ensures
        timestamp_ms == timestamp_ns / 1_000_000,
{
    timestamp_ns / 1_000_000
}

} // verus!
