//! Threshold evaluation for the dual-axis interval policy.
//!
//! Two joystick axes steer the blink interval of the output: the Y axis nudges
//! it up or down by a fixed step, and the X axis can override it outright to a
//! fixed slow or fast value.  Evaluation order within one tick is Y first,
//! then X, so an X override always wins over the same tick's Y adjustment.

use vstd::prelude::*;

verus! {

/// Reading at or above which a threshold rule fires its "high" branch.
pub const MAX_RANGE: u16 = 4000;

/// Reading at or below which a threshold rule fires its "low" branch.
pub const LOWEST_RANGE: u16 = 100;

/// Step, in milliseconds, by which the Y axis nudges the interval.
pub const STEP_MS: u32 = 50;

/// Interval forced when the X axis reads at or above `MAX_RANGE`.
pub const SLOW_MS: u32 = 5000;

/// Interval forced when the X axis reads at or below `LOWEST_RANGE`.
pub const FAST_MS: u32 = 100;

/// The interval after the Y axis's relative adjustment alone: one step up on
/// a high reading, one step down on a low one, otherwise unchanged.  Both
/// directions saturate at the bounds of `u32` rather than wrapping.
pub open spec fn y_adjusted_interval(y: u16, prev_ms: u32) -> int {
    if y >= MAX_RANGE {
        if prev_ms + STEP_MS > u32::MAX {
            u32::MAX as int
        } else {
            prev_ms + STEP_MS
        }
    } else if y <= LOWEST_RANGE {
        if prev_ms < STEP_MS {
            0
        } else {
            prev_ms - STEP_MS
        }
    } else {
        prev_ms as int
    }
}

/// The interval one full threshold pass produces from the two axis readings
/// and the previous interval: Y's relative adjustment first, then X's
/// absolute override, which discards Y's contribution when it fires.
pub open spec fn interval_after(x: u16, y: u16, prev_ms: u32) -> int {
    if x >= MAX_RANGE {
        SLOW_MS as int
    } else if x <= LOWEST_RANGE {
        FAST_MS as int
    } else {
        y_adjusted_interval(y, prev_ms)
    }
}

/// One pass of the dual-axis threshold policy.  The Y branch runs first and
/// saturates instead of wrapping; the X branch runs unconditionally after it
/// and overrides whatever Y produced.
pub fn next_interval(x: u16, y: u16, prev_ms: u32) -> (next_ms: u32)
    ensures
        next_ms == interval_after(x, y, prev_ms),
{
    let mut ms: u32 = prev_ms;
    if y >= MAX_RANGE {
        ms = ms.saturating_add(STEP_MS);
    } else if y <= LOWEST_RANGE {
        ms = ms.saturating_sub(STEP_MS);
    }
    if x >= MAX_RANGE {
        ms = SLOW_MS;
    } else if x <= LOWEST_RANGE {
        ms = FAST_MS;
    }
    ms
}

/// The interval after `n` full threshold passes on the same pair of axis
/// readings.
pub open spec fn interval_after_iterations(x: u16, y: u16, prev_ms: u32, n: nat) -> int
    decreases n,
{
    if n == 0 {
        prev_ms as int
    } else {
        interval_after(x, y, interval_after_iterations(x, y, prev_ms, (n - 1) as nat) as u32)
    }
}

/// With no X override in force, a Y reading at or above `MAX_RANGE` raises
/// the interval by exactly one step, for every previous interval that leaves
/// room for the step.
pub proof fn lemma_high_y_raises_by_step(x: u16, y: u16, prev_ms: u32)
    requires
        LOWEST_RANGE < x < MAX_RANGE,
        y >= MAX_RANGE,
        prev_ms + STEP_MS <= u32::MAX,
    ensures
        interval_after(x, y, prev_ms) == prev_ms + STEP_MS,
{
}

/// With no X override in force, a Y reading at or below `LOWEST_RANGE` never
/// raises the interval: it drops by exactly one step, stopping at zero
/// instead of wrapping below it.
pub proof fn lemma_low_y_lowers_by_step(x: u16, y: u16, prev_ms: u32)
    requires
        LOWEST_RANGE < x < MAX_RANGE,
        y <= LOWEST_RANGE,
    ensures
        interval_after(x, y, prev_ms) <= prev_ms,
        prev_ms >= STEP_MS ==> interval_after(x, y, prev_ms) == prev_ms - STEP_MS,
        prev_ms < STEP_MS ==> interval_after(x, y, prev_ms) == 0,
{
}

/// An X reading at or above `MAX_RANGE` forces the fixed slow interval,
/// whatever Y contributed in the same tick and whatever the interval was.
pub proof fn lemma_high_x_forces_slow(x: u16, y: u16, prev_ms: u32)
    requires
        x >= MAX_RANGE,
    ensures
        interval_after(x, y, prev_ms) == SLOW_MS,
{
}

/// An X reading at or below `LOWEST_RANGE` forces the fixed fast interval,
/// whatever Y contributed in the same tick and whatever the interval was.
pub proof fn lemma_low_x_forces_fast(x: u16, y: u16, prev_ms: u32)
    requires
        x <= LOWEST_RANGE,
    ensures
        interval_after(x, y, prev_ms) == FAST_MS,
{
}

/// With both axes held strictly between the two thresholds, the interval is
/// a fixed point: any number of repeated iterations leaves it unchanged.
pub proof fn lemma_between_thresholds_steady(x: u16, y: u16, prev_ms: u32, n: nat)
    requires
        LOWEST_RANGE < x < MAX_RANGE,
        LOWEST_RANGE < y < MAX_RANGE,
    ensures
        interval_after_iterations(x, y, prev_ms, n) == prev_ms,
    decreases n,
{
    if n > 0 {
        lemma_between_thresholds_steady(x, y, prev_ms, (n - 1) as nat);
    }
}

} // verus!
