//! The heartbeat LED: it starts lit and toggles every 250 ms.
use vstd::prelude::*;

verus! {

/// Time between two toggles of the LED, in milliseconds.
pub const HEARTBEAT_TOGGLE_MS: u32 = 250;

/// The LED pin is driven high when the task starts.
pub const HEARTBEAT_START_HIGH: bool = true;

/// Level of the LED pin after `n` toggles.
pub open spec fn heartbeat_level(n: nat) -> bool
    decreases n,
{
    if n == 0 {
        HEARTBEAT_START_HIGH
    } else {
        !heartbeat_level((n - 1) as nat)
    }
}

/// One beat: the new level of the LED pin and how long to wait before the next beat.
pub fn heartbeat_step(high: bool) -> (r: (bool, u32))
    ensures
        r == (!high, HEARTBEAT_TOGGLE_MS),
{
    (!high, HEARTBEAT_TOGGLE_MS)
}

/// The LED is high after an even number of toggles and low after an odd
/// one: it blinks with a period of two toggles (500 ms).
pub proof fn lemma_heartbeat_level(n: nat)
    ensures
        heartbeat_level(n) == (n % 2 == 0),
        heartbeat_level(n + 2) == heartbeat_level(n),
    decreases n,
{
    if n > 0 {
        lemma_heartbeat_level((n - 1) as nat);
    }
    assert(heartbeat_level(n + 1) == !heartbeat_level(n));
    assert(heartbeat_level(n + 2) == !heartbeat_level(n + 1));
}

} // verus!
