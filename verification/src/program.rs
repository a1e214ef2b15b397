//! Pixels, frames, and what any program that produces them has to offer.

use crate::config::{shape_of, total, total_upto, LayoutConfig};
use crate::error::Error;
use vstd::prelude::*;

verus! {

/// The color of one pixel: sRGB, eight bits a channel.
#[derive(Debug, Clone, Copy, PartialEq, Eq, Structural)]
pub struct PixelVal {
    pub red: u8,
    pub green: u8,
    pub blue: u8,
}

/// The color packed as `0xAARRGGBB`, fully opaque.
pub open spec fn packed_argb(val: PixelVal) -> u32 {
    0xff00_0000u32 | ((val.red as u32) << 16) | ((val.green as u32) << 8) | (val.blue as u32)
}

/// The color in a packed `0xAARRGGBB`; the alpha byte is not looked at.
pub open spec fn unpacked_argb(color: u32) -> PixelVal {
    PixelVal {
        red: ((color >> 16) & 0xff) as u8,
        green: ((color >> 8) & 0xff) as u8,
        blue: (color & 0xff) as u8,
    }
}

impl PixelVal {
    pub fn new(red: u8, green: u8, blue: u8) -> (val: PixelVal)
        ensures
            val == (PixelVal { red, green, blue }),
    {
        PixelVal { red, green, blue }
    }

    /// Black.
    pub open spec fn black() -> PixelVal {
        PixelVal { red: 0, green: 0, blue: 0 }
    }

    /// Reads a color from a packed `0xAARRGGBB`, disregarding the alpha
    /// byte.
    pub fn from_u32(color: u32) -> (val: PixelVal)
        ensures
            val == unpacked_argb(color),
    {
        PixelVal {
            red: ((color >> 16) & 0xff) as u8,
            green: ((color >> 8) & 0xff) as u8,
            blue: (color & 0xff) as u8,
        }
    }

    /// Packs the color as `0xAARRGGBB` with an alpha of `0xFF`.
    pub fn into_u32(self) -> (color: u32)
        ensures
            color == packed_argb(self),
    {
        0xff00_0000u32 | ((self.red as u32) << 16) | ((self.green as u32) << 8) | (
        self.blue as u32)
    }
}

impl Default for PixelVal {
    fn default() -> (val: PixelVal)
        ensures
            val == PixelVal::black(),
    {
        PixelVal { red: 0, green: 0, blue: 0 }
    }
}

/// Packing a color and reading it back gives the same color, and the packed
/// form is opaque.
pub proof fn lemma_pack_unpack(val: PixelVal)
    ensures
        unpacked_argb(packed_argb(val)) == val,
        packed_argb(val) >> 24 == 0xff,
{
    let r = val.red;
    let g = val.green;
    let b = val.blue;
    let packed = 0xff00_0000u32 | ((r as u32) << 16) | ((g as u32) << 8) | (b as u32);
    assert(((packed >> 16) & 0xff) as u8 == r && ((packed >> 8) & 0xff) as u8 == g && (packed
        & 0xff) as u8 == b && packed >> 24 == 0xff) by (bit_vector)
        requires
            packed == 0xff00_0000u32 | ((r as u32) << 16) | ((g as u32) << 8) | (b as u32),
    ;
}

/// Reading a color disregards the alpha byte.
pub proof fn lemma_unpack_ignores_alpha(color: u32, other: u32)
    requires
        color & 0x00ff_ffff == other & 0x00ff_ffff,
    ensures
        unpacked_argb(color) == unpacked_argb(other),
{
    assert((color >> 16) & 0xff == (other >> 16) & 0xff && (color >> 8) & 0xff == (other >> 8)
        & 0xff && color & 0xff == other & 0xff) by (bit_vector)
        requires
            color & 0x00ff_ffff == other & 0x00ff_ffff,
    ;
}

/// The pixels of all strips, one strip after the other.
pub open spec fn flatten(rows: Seq<Vec<PixelVal>>) -> Seq<PixelVal>
    decreases rows.len(),
{
    if rows.len() == 0 {
        Seq::empty()
    } else {
        flatten(rows.drop_last()) + rows.last()@
    }
}

/// A frame laid out flat has as many pixels as its strips have together.
pub proof fn lemma_flatten_len(rows: Seq<Vec<PixelVal>>)
    ensures
        flatten(rows).len() == total(shape_of(rows)),
    decreases rows.len(),
{
    if rows.len() > 0 {
        lemma_flatten_len(rows.drop_last());
        lemma_total_upto_prefix(shape_of(rows), shape_of(rows.drop_last()), rows.len() - 1);
    }
}

/// The sum of the first `n` lengths depends on those alone.
pub proof fn lemma_total_upto_prefix(a: Seq<nat>, b: Seq<nat>, n: int)
    requires
        0 <= n <= a.len(),
        n <= b.len(),
        forall|i: int| 0 <= i < n ==> a[i] == b[i],
    ensures
        total_upto(a, n) == total_upto(b, n),
    decreases n,
{
    if n > 0 {
        lemma_total_upto_prefix(a, b, n - 1);
    }
}

/// Whether every pixel of a frame has the given color.
pub open spec fn all_of(rows: Seq<Vec<PixelVal>>, val: PixelVal) -> bool {
    forall|i: int, j: int|
        0 <= i < rows.len() && 0 <= j < rows[i]@.len() ==> (#[trigger] rows[i]@[j]) == val
}

/// A strip of `len` pixels of one color.
pub fn uniform_strip(len: usize, val: PixelVal) -> (strip: Vec<PixelVal>)
    ensures
        strip@.len() == len,
        forall|j: int| 0 <= j < len ==> strip@[j] == val,
{
    let mut strip: Vec<PixelVal> = Vec::new();
    let mut j: usize = 0;
    while j < len
        invariant
            0 <= j <= len,
            strip@.len() == j,
            forall|k: int| 0 <= k < j ==> strip@[k] == val,
        decreases len - j,
    {
        strip.push(val);
        j += 1;
    }
    strip
}

/// A frame of the layout's shape in which every pixel has the given color.
pub fn uniform_frame(layout: &LayoutConfig, val: PixelVal) -> (rows: Vec<Vec<PixelVal>>)
    ensures
        shape_of(rows@) == layout.shape(),
        all_of(rows@, val),
{
    let mut rows: Vec<Vec<PixelVal>> = Vec::new();
    let mut i: usize = 0;
    while i < layout.pixel_locations.len()
        invariant
            0 <= i <= layout.pixel_locations@.len(),
            rows@.len() == i,
            forall|k: int| 0 <= k < i ==> (#[trigger] rows@[k])@.len() == layout.shape()[k],
            all_of(rows@, val),
        decreases layout.pixel_locations@.len() - i,
    {
        let strip = uniform_strip(layout.pixel_locations[i].len(), val);
        rows.push(strip);
        i += 1;
    }
    assert(shape_of(rows@) =~= layout.shape());
    rows
}

/// Something that produces a frame per tick. Nothing is asked of an
/// implementation but that it offers the two operations.
pub trait Program {
    /// The current frame: one row of colors per strip.
    fn pixels(&self) -> &Vec<Vec<PixelVal>>;

    /// Advances the program by one frame.
    fn tick(&mut self) -> Result<(), Error>;
}

/// The program that shows one color on every pixel, forever.
pub struct TrivialProgram {
    pixels: Vec<Vec<PixelVal>>,
}

impl TrivialProgram {
    /// The frame, which never changes.
    pub closed spec fn frame(&self) -> Seq<Vec<PixelVal>> {
        self.pixels@
    }

    /// The program that shows `val` on every pixel of the layout.
    pub fn new(layout: &LayoutConfig, val: PixelVal) -> (program: Self)
        ensures
            shape_of(program.frame()) == layout.shape(),
            all_of(program.frame(), val),
    {
        TrivialProgram { pixels: uniform_frame(layout, val) }
    }
}

impl Program for TrivialProgram {
    fn pixels(&self) -> (pixels: &Vec<Vec<PixelVal>>)
        ensures
            pixels@ == self.frame(),
    {
        &self.pixels
    }

    fn tick(&mut self) -> (r: Result<(), Error>)
        ensures
            r is Ok,
            final(self).frame() == old(self).frame(),
    {
        Ok(())
    }
}

/// Lays a frame out flat, as an output takes it: strip after strip, and
/// within a strip pixel after pixel.
pub fn leds_iter(rows: &Vec<Vec<PixelVal>>) -> (values: Vec<PixelVal>)
    ensures
        values@ == flatten(rows@),
        values@.len() == total(shape_of(rows@)),
{
    proof {
        lemma_flatten_len(rows@);
    }
    let mut values: Vec<PixelVal> = Vec::new();
    let mut i: usize = 0;
    while i < rows.len()
        invariant
            0 <= i <= rows@.len(),
            values@ == flatten(rows@.take(i as int)),
        decreases rows@.len() - i,
    {
        let row = &rows[i];
        let ghost before = values@;
        let mut j: usize = 0;
        while j < row.len()
            invariant
                0 <= j <= row@.len(),
                values@ == before + row@.take(j as int),
            decreases row@.len() - j,
        {
            values.push(row[j]);
            assert(row@.take(j + 1) =~= row@.take(j as int).push(row@[j as int]));
            j += 1;
        }
        proof {
            assert(row@.take(row@.len() as int) =~= row@);
            let upto = rows@.take(i + 1);
            assert(upto.drop_last() =~= rows@.take(i as int));
            assert(upto.last() == rows@[i as int]);
        }
        i += 1;
    }
    assert(rows@.take(rows@.len() as int) =~= rows@);
    values
}

/// Every pixel of a flat frame of one color has that color.
pub proof fn lemma_flatten_all_of(rows: Seq<Vec<PixelVal>>, val: PixelVal)
    requires
        all_of(rows, val),
    ensures
        forall|k: int| 0 <= k < flatten(rows).len() ==> flatten(rows)[k] == val,
    decreases rows.len(),
{
    if rows.len() > 0 {
        let front = rows.drop_last();
        assert(all_of(front, val)) by {
            assert forall|i: int, j: int|
                0 <= i < front.len() && 0 <= j < front[i]@.len() implies (#[trigger] front[i]@[j])
                == val by {
                assert(front[i] == rows[i]);
                assert(rows[i]@[j] == val);
            }
        }
        lemma_flatten_all_of(front, val);
        assert forall|k: int| 0 <= k < flatten(rows).len() implies flatten(rows)[k] == val by {
            if k >= flatten(front).len() {
                let j = k - flatten(front).len();
                assert(rows[rows.len() - 1]@[j] == val);
            }
        }
    }
}

/// The frame that clears the lights: black for every pixel of the layout, as
/// many values as the strips are long together.
pub fn clear_leds(layout: &LayoutConfig) -> (values: Vec<PixelVal>)
    ensures
        values@.len() == layout.pixel_count(),
        forall|k: int| 0 <= k < values@.len() ==> values@[k] == PixelVal::black(),
{
    let clear_program = TrivialProgram::new(layout, PixelVal::new(0, 0, 0));
    proof {
        lemma_flatten_all_of(clear_program.frame(), PixelVal::black());
    }
    leds_iter(clear_program.pixels())
}

} // verus!
