//! Timing and state core of an LED blink controller: a two-state logical
//! output, a configured toggle interval bounded by safety limits, and a pure
//! mapping from logical state to a physical output level. An outer driver
//! (timer callback or polling loop) samples and drives this core; all
//! hardware access lives outside it.

pub mod config;
pub mod led;
