//! The heartbeat light.

use vstd::prelude::*;
use crate::schedule::Delay;

verus! {

/// What one beat asks of the hardware and of the scheduler.
#[derive(Clone, Copy, Debug, PartialEq, Eq, Structural)]
pub struct Beat {
    /// The level to drive the light to: high if true, low if false.
    pub led_high: bool,
    /// When the next beat is due.
    pub again_after: Delay,
}

/// One beat of the heartbeat: drives the light to the level that `toggle`
/// holds, flips `toggle` for the next beat, and asks to run again in a second.
pub fn heartbeat(toggle: &mut bool) -> (beat: Beat)
    ensures
        beat.led_high == *old(toggle),
        beat.again_after == Delay::Secs(1),
        *final(toggle) == !*old(toggle),
{
    let led_high = *toggle;
    *toggle = !led_high;
    Beat { led_high, again_after: Delay::Secs(1) }
}

} // verus!
