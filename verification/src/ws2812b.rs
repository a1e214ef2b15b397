//! The WS2812B one-wire protocol: what a pixel looks like on the line, and
//! how long the line stays high and low for a bit.

use crate::program::PixelVal;
use vstd::prelude::*;

verus! {

/// Nanoseconds in one second.
pub const NS_PER_SEC: u64 = 1_000_000_000;

/// The number of whole clock cycles that `ns` nanoseconds last at `clk_freq`
/// hertz, before it is cut to 32 bits.
pub open spec fn cycles_of(ns: u32, clk_freq: u32) -> int {
    (clk_freq as int * ns as int) / (NS_PER_SEC as int)
}

/// Converts a duration in nanoseconds into clock cycles at `clk_freq` hertz,
/// rounding down and keeping the low 32 bits of the quotient.
pub fn ns_to_cycles(ns: u32, clk_freq: u32) -> (cycles: u32)
    ensures
        cycles as int == cycles_of(ns, clk_freq) % 0x1_0000_0000,
        cycles_of(ns, clk_freq) <= u32::MAX ==> cycles as int == cycles_of(ns, clk_freq),
{
    assert((clk_freq as u64) * (ns as u64) <= 0xffff_ffff * 0xffff_ffff) by (nonlinear_arith)
        requires
            clk_freq as u64 <= 0xffff_ffff,
            ns as u64 <= 0xffff_ffff,
    ;
    let product: u64 = (clk_freq as u64) * (ns as u64);
    let quotient: u64 = product / NS_PER_SEC;
    let cycles: u32 = (quotient & 0xffff_ffff) as u32;
    assert(quotient & 0xffff_ffff == quotient % 0x1_0000_0000) by (bit_vector);
    cycles
}

/// Nanoseconds the line stays high for a zero bit.
pub const T0H_NS: u32 = 400;

/// Nanoseconds the line stays low after that.
pub const T0L_NS: u32 = 850;

/// Nanoseconds the line stays high for a one bit.
pub const T1H_NS: u32 = 850;

/// Nanoseconds the line stays low after that.
pub const T1L_NS: u32 = 400;

/// Nanoseconds of silence that end a frame.
pub const RESET_NS: u32 = 50 * 1000;

/// The clock that delays are counted in, in hertz.
pub const CLK_FREQ: u32 = 1_000_000_000;

/// The delays of the protocol, in clock cycles.
#[derive(Debug, Clone, Copy, PartialEq, Eq, Structural)]
pub struct WS2812BWriteSession {
    pub t0h_cycles: u32,
    pub t0l_cycles: u32,
    pub t1h_cycles: u32,
    pub t1l_cycles: u32,
    pub reset_cycles: u32,
}

/// The bit of `byte` that goes out at position `i`, the highest first.
pub open spec fn bit_at(byte: u8, i: int) -> bool {
    (byte >> ((7 - i) as u8)) & 1 != 0
}

/// The eight bits of a byte, the highest first.
pub open spec fn bits_of(byte: u8) -> Seq<bool> {
    Seq::new(8, |i: int| bit_at(byte, i))
}

impl WS2812BWriteSession {
    /// The delays at a clock of `clk_freq` hertz.
    pub fn new(clk_freq: u32) -> (session: Self)
        ensures
            session.t0h_cycles == cycles_of(T0H_NS, clk_freq) % 0x1_0000_0000,
            session.t0l_cycles == cycles_of(T0L_NS, clk_freq) % 0x1_0000_0000,
            session.t1h_cycles == cycles_of(T1H_NS, clk_freq) % 0x1_0000_0000,
            session.t1l_cycles == cycles_of(T1L_NS, clk_freq) % 0x1_0000_0000,
            session.reset_cycles == cycles_of(RESET_NS, clk_freq) % 0x1_0000_0000,
    {
        WS2812BWriteSession {
            t0h_cycles: ns_to_cycles(T0H_NS, clk_freq),
            t0l_cycles: ns_to_cycles(T0L_NS, clk_freq),
            t1h_cycles: ns_to_cycles(T1H_NS, clk_freq),
            t1l_cycles: ns_to_cycles(T1L_NS, clk_freq),
            reset_cycles: ns_to_cycles(RESET_NS, clk_freq),
        }
    }

    /// How long the line stays high and then low for a bit, in cycles.
    pub fn write_bit(&self, bit: bool) -> (delays: (u32, u32))
        ensures
            delays == (if bit {
                (self.t1h_cycles, self.t1l_cycles)
            } else {
                (self.t0h_cycles, self.t0l_cycles)
            }),
    {
        if bit {
            (self.t1h_cycles, self.t1l_cycles)
        } else {
            (self.t0h_cycles, self.t0l_cycles)
        }
    }

    /// The bits of a byte in the order in which they go out: the highest
    /// first.
    pub fn write_byte(byte: u8) -> (bits: Vec<bool>)
        ensures
            bits@ == bits_of(byte),
    {
        let mut bits: Vec<bool> = Vec::new();
        let mut i: u8 = 0;
        while i < 8
            invariant
                0 <= i <= 8,
                bits@.len() == i,
                forall|k: int| 0 <= k < i ==> bits@[k] == bit_at(byte, k),
            decreases 8 - i,
        {
            let shift: u8 = 7 - i;
            bits.push((byte >> shift) & 1 != 0);
            i += 1;
        }
        assert(bits@ =~= bits_of(byte));
        bits
    }

    /// The bytes of a pixel in the order in which they go out: green, red,
    /// blue.
    pub fn write_pixel(pixel: PixelVal) -> (bytes: [u8; 3])
        ensures
            bytes@ == seq![pixel.green, pixel.red, pixel.blue],
    {
        let bytes = [pixel.green, pixel.red, pixel.blue];
        assert(bytes@ =~= seq![pixel.green, pixel.red, pixel.blue]);
        bytes
    }

    /// The silence that ends a frame, in cycles.
    pub fn flush(&self) -> (cycles: u32)
        ensures
            cycles == self.reset_cycles,
    {
        self.reset_cycles
    }
}

} // verus!
