//! What the endpoint is configured with: its name, its render frequency,
//! where the controller is, where the colors go, and where the lights are.

use vstd::prelude::*;

verus! {

/// Where the controller listens.
#[derive(Debug, Clone)]
pub struct ControllerConfig {
    pub host: String,
    pub port: u16,
}

/// Where one pixel is, in world units. The coordinates are 32-bit floating
/// point numbers, held as their bit patterns: the library hands them on and
/// never computes with them.
#[derive(Debug, Clone, Copy, PartialEq, Eq, Structural)]
pub struct PixelLoc {
    pub x_bits: u32,
    pub y_bits: u32,
}

/// Where the lights are: strips in order, and the pixels of each in order.
#[derive(Debug, Clone)]
pub struct LayoutConfig {
    pub pixel_locations: Vec<Vec<PixelLoc>>,
}

/// Where the colors go.
#[derive(Debug, Clone)]
pub enum OutputConfig {
    Terminal,
    Rpi { pins: Vec<u32> },
}

/// The whole configuration.
#[derive(Debug, Clone)]
pub struct Config {
    pub name: String,
    pub render_freq: usize,
    pub output: OutputConfig,
    pub controller: ControllerConfig,
    pub layout: LayoutConfig,
}

/// The lengths of the rows of a nested sequence: its shape.
pub open spec fn shape_of<T>(rows: Seq<Vec<T>>) -> Seq<nat> {
    Seq::new(rows.len(), |i: int| rows[i]@.len())
}

/// Lengths as numbers without bound.
pub open spec fn lens_view(lens: Seq<usize>) -> Seq<nat> {
    Seq::new(lens.len(), |i: int| lens[i] as nat)
}

/// The sum of the first `n` lengths.
pub open spec fn total_upto(lens: Seq<nat>, n: int) -> nat
    decreases n,
{
    if n <= 0 {
        0
    } else {
        total_upto(lens, n - 1) + lens[n - 1]
    }
}

/// The sum of all lengths.
pub open spec fn total(lens: Seq<nat>) -> nat {
    total_upto(lens, lens.len() as int)
}

impl LayoutConfig {
    /// The length of each strip, in order.
    pub open spec fn shape(&self) -> Seq<nat> {
        shape_of(self.pixel_locations@)
    }

    /// The number of pixels on all strips together.
    pub open spec fn pixel_count(&self) -> nat {
        total(self.shape())
    }

    /// Whether strip and pixel indices fit the 32 bits in which a sandboxed
    /// program is told of them.
    pub open spec fn fits_guest(&self) -> bool {
        &&& self.pixel_locations@.len() <= u32::MAX
        &&& forall|i: int|
            0 <= i < self.pixel_locations@.len() ==> (#[trigger] self.pixel_locations@[i])@.len()
                <= u32::MAX
    }

    /// The number of strips.
    pub fn num_strips(&self) -> (n: usize)
        ensures
            n == self.shape().len(),
    {
        self.pixel_locations.len()
    }

    /// The length of strip `i`.
    pub fn strip_len(&self, i: usize) -> (len: usize)
        requires
            i < self.shape().len(),
        ensures
            len == self.shape()[i as int],
    {
        self.pixel_locations[i].len()
    }

    /// The length of each strip, in order.
    pub fn strip_lens(&self) -> (lens: Vec<usize>)
        ensures
            lens_view(lens@) == self.shape(),
    {
        let mut lens: Vec<usize> = Vec::new();
        let mut i: usize = 0;
        while i < self.pixel_locations.len()
            invariant
                0 <= i <= self.pixel_locations@.len(),
                lens@.len() == i,
                forall|k: int| 0 <= k < i ==> lens@[k] == self.shape()[k],
            decreases self.pixel_locations@.len() - i,
        {
            lens.push(self.pixel_locations[i].len());
            i += 1;
        }
        assert(lens_view(lens@) =~= self.shape());
        lens
    }

    /// Tests whether strip and pixel indices fit 32 bits.
    pub fn check_fits_guest(&self) -> (fits: bool)
        ensures
            fits == self.fits_guest(),
    {
        if self.pixel_locations.len() > 0xffff_ffff {
            return false;
        }
        let mut i: usize = 0;
        while i < self.pixel_locations.len()
            invariant
                0 <= i <= self.pixel_locations@.len(),
                forall|k: int| 0 <= k < i ==> (#[trigger] self.pixel_locations@[k])@.len()
                    <= u32::MAX,
            decreases self.pixel_locations@.len() - i,
        {
            if self.pixel_locations[i].len() > 0xffff_ffff {
                return false;
            }
            i += 1;
        }
        true
    }
}

} // verus!
