//! Wraparound-safe timing arithmetic.
//!
//! The engine is driven by a monotonic tick counter that the caller reads
//! and passes into each poll. The counter wraps around; elapsed time is
//! therefore measured with wrapping subtraction, valid for intervals up to
//! half the counter's range. The tick rate is given as whole ticks per
//! millisecond.

use vstd::prelude::*;
use vstd::wrapping::u32_specs;

verus! {

/// Whole milliseconds elapsed between `start` and `now` on the wrapping
/// tick counter, at `ticks_per_ms` ticks per millisecond.
pub open spec fn spec_elapsed_ms(now: u32, start: u32, ticks_per_ms: u32) -> u32
    recommends
        ticks_per_ms >= 1,
{
    (u32_specs::wrapping_sub(now, start) as int / ticks_per_ms as int) as u32
}

/// Measure the elapsed whole milliseconds since `start`.
pub fn elapsed_ms(now: u32, start: u32, ticks_per_ms: u32) -> (e: u32)
    requires
        ticks_per_ms >= 1,
    ensures
        e == spec_elapsed_ms(now, start, ticks_per_ms),
{
    now.wrapping_sub(start) / ticks_per_ms
}

/// The tick at which a step that starts at `start` and lasts
/// `duration_ms` ends, on the wrapping counter.
pub open spec fn spec_end_tick(start: u32, duration_ms: u32, ticks_per_ms: u32) -> u32 {
    u32_specs::wrapping_add(start, u32_specs::wrapping_mul(duration_ms, ticks_per_ms))
}

/// Compute the tick at which a step ends.
pub fn end_tick(start: u32, duration_ms: u32, ticks_per_ms: u32) -> (t: u32)
    ensures
        t == spec_end_tick(start, duration_ms, ticks_per_ms),
{
    start.wrapping_add(duration_ms.wrapping_mul(ticks_per_ms))
}

/// The phase offset a step has accumulated when it ends: its own offset
/// plus its duration, on the wrapping counter.
pub open spec fn spec_end_phase(phase_offset_ms: u32, duration_ms: u32) -> u32 {
    u32_specs::wrapping_add(phase_offset_ms, duration_ms)
}

/// Compute the phase offset a step has accumulated when it ends.
pub fn end_phase(phase_offset_ms: u32, duration_ms: u32) -> (p: u32)
    ensures
        p == spec_end_phase(phase_offset_ms, duration_ms),
{
    phase_offset_ms.wrapping_add(duration_ms)
}

} // verus!
