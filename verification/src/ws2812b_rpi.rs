//! The Raspberry Pi's PWM output: which pin drives which strip, and the
//! bytes that a color becomes.

use crate::config::LayoutConfig;
use crate::program::PixelVal;
use vstd::prelude::*;

verus! {

/// The signal frequency in hertz: one bit every 1250 nanoseconds.
pub const SIGNAL_FREQ: u32 = 1_000_000_000 / 1250;

/// The brightness that every channel is set to: full.
pub const BRIGHTNESS: u8 = 255;

/// One output channel: the pin that drives it and the number of lights on
/// it. Both are the 32-bit signed numbers that the hardware layer takes; a
/// larger number keeps its low 32 bits.
#[derive(Debug, Clone, Copy, PartialEq, Eq, Structural)]
pub struct Channel {
    pub pin: i32,
    pub count: i32,
}

/// The lesser of two lengths.
pub open spec fn lesser(a: nat, b: nat) -> nat {
    if a <= b {
        a
    } else {
        b
    }
}

/// Pairs pins with strips, in order: channel `i` is pin `i` with the length
/// of strip `i`. Pins or strips beyond the shorter of the two lists are left
/// out.
pub fn channels(pins: &Vec<u32>, layout: &LayoutConfig) -> (plan: Vec<Channel>)
    ensures
        plan@.len() == lesser(pins@.len(), layout.shape().len()),
        forall|i: int|
            0 <= i < plan@.len() ==> (#[trigger] plan@[i]) == (Channel {
                pin: pins@[i] as i32,
                count: layout.shape()[i] as i32,
            }),
{
    let mut plan: Vec<Channel> = Vec::new();
    let mut i: usize = 0;
    while i < pins.len() && i < layout.pixel_locations.len()
        invariant
            0 <= i <= pins@.len(),
            i <= layout.pixel_locations@.len(),
            plan@.len() == i,
            forall|n: int|
                0 <= n < i ==> (#[trigger] plan@[n]) == (Channel {
                    pin: pins@[n] as i32,
                    count: layout.shape()[n] as i32,
                }),
        decreases pins@.len() - i,
    {
        let pin = pins[i];
        let len = layout.pixel_locations[i].len();
        plan.push(
            Channel {
                pin: #[verifier::truncate] (pin as i32),
                count: #[verifier::truncate] (len as i32),
            },
        );
        i += 1;
    }
    plan
}

/// The four bytes that the hardware layer takes for a color: blue, green,
/// red, and a byte that stays zero.
pub fn led_bytes(color: PixelVal) -> (bytes: [u8; 4])
    ensures
        bytes@ == seq![color.blue, color.green, color.red, 0u8],
{
    let bytes = [color.blue, color.green, color.red, 0];
    assert(bytes@ =~= seq![color.blue, color.green, color.red, 0u8]);
    bytes
}

} // verus!
