//! The monotonic microsecond clock.
//!
//! The hardware counter is 16 bits wide and ticks once every
//! [`TICK_PERIOD_US`] microseconds; every wrap of it is counted by the
//! overflow interrupt. A timestamp is the tick period times the concatenation
//! of the overflow count (high bits) and the raw count (low bits).
use vstd::prelude::*;

verus! {

/// Microseconds per tick of the hardware counter.
pub const TICK_PERIOD_US: u64 = 100;

/// Width of the hardware counter, in bits.
pub const COUNTER_BITS: u64 = 16;

/// Counter values in one overflow epoch (`1 << COUNTER_BITS`).
pub const EPOCH_TICKS: u64 = 65536;

/// Ticks elapsed since start-up for a given overflow count and raw count.
pub open spec fn ticks_of(overflows: nat, count: nat) -> nat {
    overflows * 65536 + count
}

/// The timestamp, in microseconds, for a given overflow count and raw count.
pub open spec fn timestamp_of(overflows: nat, count: nat) -> nat {
    100 * ticks_of(overflows, count)
}

/// Reading `(o1, c1)` was taken no later than reading `(o2, c2)`: the
/// overflow count never goes back, and within one epoch the counter only
/// climbs.
pub open spec fn reading_precedes(o1: nat, c1: nat, o2: nat, c2: nat) -> bool {
    o1 < o2 || (o1 == o2 && c1 <= c2)
}

/// Composes an overflow count and a raw counter value into a timestamp in
/// microseconds: `TICK_PERIOD_US * ((overflows << COUNTER_BITS) + count)`.
pub fn timestamp(overflows: u32, count: u16) -> (r: u64)
    ensures
        r == timestamp_of(overflows as nat, count as nat),
{
    let high: u64 = (overflows as u64) << 16u64;
    assert(high == (overflows as u64) * 65536) by (bit_vector)
        requires
            high == (overflows as u64) << 16u64,
            overflows <= 0xffff_ffffu32,
    ;
    assert(high + count as u64 <= 0xffff_ffff_ffffu64) by (nonlinear_arith)
        requires
            high == (overflows as u64) * 65536,
            overflows <= 0xffff_ffffu32,
            count <= 0xffffu16,
    ;
    let ticks: u64 = high + count as u64;
    TICK_PERIOD_US * ticks
}

/// Settles a reading taken as: overflow count, then raw counter, then the
/// overflow count again. When both overflow reads agree no wrap was serviced
/// in between, and the composed timestamp is returned; otherwise the reading
/// straddled an epoch boundary and `None` asks the caller to read again.
pub fn settle_reading(first: u32, count: u16, second: u32) -> (r: Option<u64>)
    ensures
        first == second ==> r == Some(timestamp_of(first as nat, count as nat) as u64),
        first != second ==> r is None,
{
    if first == second {
        Some(timestamp(first, count))
    } else {
        None
    }
}

/// Timestamps never go back: of two consistent readings, the later one
/// yields a timestamp at least as large as the earlier one.
pub proof fn lemma_timestamp_monotonic(o1: u32, c1: u16, o2: u32, c2: u16)
    requires
        reading_precedes(o1 as nat, c1 as nat, o2 as nat, c2 as nat),
    ensures
        timestamp_of(o1 as nat, c1 as nat) <= timestamp_of(o2 as nat, c2 as nat),
{
    let (a, b, x, y) = (o1 as int, c1 as int, o2 as int, c2 as int);
    assert(a * 65536 + b <= x * 65536 + y) by (nonlinear_arith)
        requires
            a < x || (a == x && b <= y),
            0 <= b < 65536,
            0 <= y < 65536,
    ;
}

} // verus!
