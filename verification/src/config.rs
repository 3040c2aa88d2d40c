//! Blink timing configuration: the default toggle interval and the
//! permissible minimum and maximum bounds, all in milliseconds. Pure,
//! compile-time data; nothing here is mutated at runtime.

use vstd::prelude::*;

verus! {

/// Default LED blink delay in milliseconds, used for both the ON and the
/// OFF duration.
pub const BLINK_DELAY_MS: u64 = 500;

/// Minimum allowed blink delay in milliseconds; guards against
/// excessively fast blinking.
pub const MIN_BLINK_DELAY_MS: u64 = 10;

/// Maximum allowed blink delay in milliseconds; guards against
/// excessively slow blinking.
pub const MAX_BLINK_DELAY_MS: u64 = 10000;

/// Law: the configured bounds are ordered around the default, the range
/// spans 9990 ms, and every value is small enough to double in a 64-bit
/// accumulator without overflow.
pub proof fn lemma_delay_bounds()
    ensures
        MIN_BLINK_DELAY_MS < BLINK_DELAY_MS < MAX_BLINK_DELAY_MS,
        MAX_BLINK_DELAY_MS - MIN_BLINK_DELAY_MS == 9990,
        2 * MAX_BLINK_DELAY_MS <= u64::MAX,
{
}

} // verus!
