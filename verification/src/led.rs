//! LED state management: the two-valued logical state, the blink controller
//! that owns it together with its toggle interval, the toggle transition,
//! and the pure mapping from logical state to a physical output level.

use vstd::prelude::*;
use crate::config::BLINK_DELAY_MS;

verus! {

/// Logical state of the LED: a closed two-valued enumeration. `On` means
/// the LED is lit (output high), `Off` means it is dark (output low).
#[derive(Clone, Copy, Debug, PartialEq, Eq, Structural)]
pub enum LedState {
    On,
    Off,
}

/// Blink controller: the sole mutable entity of the core. It carries the
/// current logical state and the toggle delay in milliseconds; the delay is
/// fixed at construction and never changed by any operation.
#[derive(Clone, Copy, Debug, PartialEq, Eq, Structural)]
pub struct LedController {
    pub state: LedState,
    pub delay_ms: u64,
}

/// The state the toggle transition moves to: `On` and `Off` alternate, with
/// no self-loop.
pub open spec fn flipped(s: LedState) -> LedState {
    match s {
        LedState::On => LedState::Off,
        LedState::Off => LedState::On,
    }
}

/// One toggle step on a whole controller: the state flips, the delay stays.
pub open spec fn stepped(c: LedController) -> LedController {
    LedController { state: flipped(c.state), delay_ms: c.delay_ms }
}

/// The controller after `n` consecutive toggle steps.
pub open spec fn stepped_n(c: LedController, n: nat) -> LedController
    decreases n,
{
    if n == 0 {
        c
    } else {
        stepped(stepped_n(c, (n - 1) as nat))
    }
}

/// The controller a fresh construction yields: LED off, default delay.
pub open spec fn initial_controller() -> LedController {
    LedController { state: LedState::Off, delay_ms: BLINK_DELAY_MS }
}

/// The physical output level a logical state maps to: `On` is asserted
/// (`true`), `Off` is deasserted (`false`).
pub open spec fn level_of(s: LedState) -> bool {
    s is On
}

impl LedController {
    /// Creates a new controller in the default initial configuration:
    /// LED off, delay equal to the configured default.
    pub fn new() -> (r: Self)
        ensures
            r == initial_controller(),
    {
        Self { state: LedState::Off, delay_ms: BLINK_DELAY_MS }
    }

    /// Advances the state machine one step: flips the state, leaves the
    /// delay unchanged, and returns the new state so the caller observes
    /// the post-transition value without a separate read.
    pub fn toggle(&mut self) -> (r: LedState)
        ensures
            *final(self) == stepped(*old(self)),
            r == final(self).state,
    {
        self.state = match self.state {
            LedState::On => LedState::Off,
            LedState::Off => LedState::On,
        };
        self.state
    }

    /// Returns the configured blink delay in milliseconds; a pure read.
    pub fn delay_ms(&self) -> (r: u64)
        ensures
            r == self.delay_ms,
    {
        self.delay_ms
    }
}

impl Default for LedController {
    /// Same controller as `new`: LED off, default delay.
    fn default() -> (r: Self)
        ensures
            r == initial_controller(),
    {
        Self::new()
    }
}

/// Maps a logical state to the boolean output level that drives the pin:
/// `true` for `On`, `false` for `Off`.
pub fn led_state_to_level(state: LedState) -> (r: bool)
    ensures
        r == level_of(state),
{
    match state {
        LedState::On => true,
        LedState::Off => false,
    }
}

/// Law: toggling any controller an even number of times returns it to the
/// state it started in, and an odd number of times to the flipped state.
pub proof fn lemma_toggle_parity(c: LedController, n: nat)
    ensures
        n % 2 == 0 ==> stepped_n(c, n).state == c.state,
        n % 2 == 1 ==> stepped_n(c, n).state == flipped(c.state),
    decreases n,
{
    if n > 0 {
        lemma_toggle_parity(c, (n - 1) as nat);
    }
}

/// Law: a freshly constructed controller shows `Off` after every even
/// number of toggles and `On` after every odd number.
pub proof fn lemma_parity_from_initial(n: nat)
    ensures
        n % 2 == 0 ==> stepped_n(initial_controller(), n).state == LedState::Off,
        n % 2 == 1 ==> stepped_n(initial_controller(), n).state == LedState::On,
{
    lemma_toggle_parity(initial_controller(), n);
}

/// Law: no sequence of toggles, of any length, changes the delay.
pub proof fn lemma_toggle_preserves_delay(c: LedController, n: nat)
    ensures
        stepped_n(c, n).delay_ms == c.delay_ms,
    decreases n,
{
    if n > 0 {
        lemma_toggle_preserves_delay(c, (n - 1) as nat);
    }
}

/// Law: construction is deterministic, so any two freshly constructed
/// controllers are value-equal.
pub proof fn lemma_construction_idempotent(a: LedController, b: LedController)
    requires
        a == initial_controller(),
        b == initial_controller(),
    ensures
        a == b,
{
}

/// Law: the state-to-level mapping sends `On` to `true` and `Off` to
/// `false`; being a function of the state alone, it is pure.
pub proof fn lemma_level_mapping()
    ensures
        level_of(LedState::On) == true,
        level_of(LedState::Off) == false,
{
}

} // verus!
