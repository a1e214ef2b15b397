//! The host's side of a sandboxed program: what the guest is told of the
//! layout and in what order, what it is asked per frame, and the frame that
//! its answers fill.
//!
//! The engine itself is not part of the library. Whoever embeds it makes the
//! calls listed here, in order, and hands the values that come back to
//! [`WasmProgram`].

use crate::config::{lens_view, shape_of, total, total_upto, LayoutConfig, PixelLoc};
use crate::error::Error;
use crate::program::{flatten, lemma_total_upto_prefix, unpacked_argb, PixelVal};
use vstd::prelude::*;

verus! {

/// The stack that a sandbox is given, in bytes.
pub const STACK_SIZE: u32 = 1_000_000;

/// A call of a function that the guest exports.
#[derive(Debug, Clone, Copy, PartialEq, Eq, Structural)]
pub enum GuestCall {
    /// `initLayoutSetNumStrips(n)`
    InitLayoutSetNumStrips { n: u32 },
    /// `initLayoutSetStripLen(strip, len)`
    InitLayoutSetStripLen { strip: u32, len: u32 },
    /// `initLayoutSetPixelLoc(strip, pixel, x, y)`
    InitLayoutSetPixelLoc { strip: u32, pixel: u32, loc: PixelLoc },
    /// `initLayoutDone()`
    InitLayoutDone,
    /// `tick()`
    Tick,
    /// `getPixelVal(strip, pixel)`, which answers with a packed `0xAARRGGBB`
    GetPixelVal { strip: u32, pixel: u32 },
}

/// A function that the guest has to export.
#[derive(Debug, Clone, Copy, PartialEq, Eq, Structural)]
pub enum GuestExport {
    InitLayoutSetNumStrips,
    InitLayoutSetStripLen,
    InitLayoutSetPixelLoc,
    InitLayoutDone,
    Tick,
    GetPixelVal,
}

impl GuestExport {
    /// The name under which the guest exports the function.
    pub open spec fn name_spec(self) -> Seq<char> {
        match self {
            GuestExport::InitLayoutSetNumStrips => "initLayoutSetNumStrips"@,
            GuestExport::InitLayoutSetStripLen => "initLayoutSetStripLen"@,
            GuestExport::InitLayoutSetPixelLoc => "initLayoutSetPixelLoc"@,
            GuestExport::InitLayoutDone => "initLayoutDone"@,
            GuestExport::Tick => "tick"@,
            GuestExport::GetPixelVal => "getPixelVal"@,
        }
    }

    /// The name under which the guest exports the function.
    pub fn name(&self) -> (name: &'static str)
        ensures
            name@ == self.name_spec(),
    {
        match self {
            GuestExport::InitLayoutSetNumStrips => "initLayoutSetNumStrips",
            GuestExport::InitLayoutSetStripLen => "initLayoutSetStripLen",
            GuestExport::InitLayoutSetPixelLoc => "initLayoutSetPixelLoc",
            GuestExport::InitLayoutDone => "initLayoutDone",
            GuestExport::Tick => "tick",
            GuestExport::GetPixelVal => "getPixelVal",
        }
    }

    /// The exports that a guest must have, every one of them, in the order
    /// in which they are looked up.
    pub fn required() -> (exports: Vec<GuestExport>)
        ensures
            exports@ == seq![
                GuestExport::InitLayoutSetNumStrips,
                GuestExport::InitLayoutSetStripLen,
                GuestExport::InitLayoutSetPixelLoc,
                GuestExport::InitLayoutDone,
                GuestExport::Tick,
                GuestExport::GetPixelVal,
            ],
    {
        let mut exports: Vec<GuestExport> = Vec::new();
        exports.push(GuestExport::InitLayoutSetNumStrips);
        exports.push(GuestExport::InitLayoutSetStripLen);
        exports.push(GuestExport::InitLayoutSetPixelLoc);
        exports.push(GuestExport::InitLayoutDone);
        exports.push(GuestExport::Tick);
        exports.push(GuestExport::GetPixelVal);
        exports
    }
}

impl GuestCall {
    /// The export that the call goes to.
    pub open spec fn export_spec(self) -> GuestExport {
        match self {
            GuestCall::InitLayoutSetNumStrips { .. } => GuestExport::InitLayoutSetNumStrips,
            GuestCall::InitLayoutSetStripLen { .. } => GuestExport::InitLayoutSetStripLen,
            GuestCall::InitLayoutSetPixelLoc { .. } => GuestExport::InitLayoutSetPixelLoc,
            GuestCall::InitLayoutDone => GuestExport::InitLayoutDone,
            GuestCall::Tick => GuestExport::Tick,
            GuestCall::GetPixelVal { .. } => GuestExport::GetPixelVal,
        }
    }

    /// The export that the call goes to.
    pub fn export(&self) -> (export: GuestExport)
        ensures
            export == self.export_spec(),
    {
        match self {
            GuestCall::InitLayoutSetNumStrips { .. } => GuestExport::InitLayoutSetNumStrips,
            GuestCall::InitLayoutSetStripLen { .. } => GuestExport::InitLayoutSetStripLen,
            GuestCall::InitLayoutSetPixelLoc { .. } => GuestExport::InitLayoutSetPixelLoc,
            GuestCall::InitLayoutDone => GuestExport::InitLayoutDone,
            GuestCall::Tick => GuestExport::Tick,
            GuestCall::GetPixelVal { .. } => GuestExport::GetPixelVal,
        }
    }
}

/// A function that the host offers to the guest.
#[derive(Debug, Clone, Copy, PartialEq, Eq, Structural)]
pub enum HostImport {
    /// `env.abort(msgRef, fileRef, line, col)`: the host takes note and goes
    /// on.
    Abort,
    /// `env.seed()`: a fresh random number from zero up to, not including,
    /// one.
    Seed,
    /// `colorConvert.hsvToRgbEncoded(h, s, v)`: the color as a packed
    /// `0xAARRGGBB`.
    HsvToRgbEncoded,
}

impl HostImport {
    /// The module under which the guest imports the function.
    pub open spec fn module_name_spec(self) -> Seq<char> {
        match self {
            HostImport::Abort => "env"@,
            HostImport::Seed => "env"@,
            HostImport::HsvToRgbEncoded => "colorConvert"@,
        }
    }

    /// The name under which the guest imports the function.
    pub open spec fn name_spec(self) -> Seq<char> {
        match self {
            HostImport::Abort => "abort"@,
            HostImport::Seed => "seed"@,
            HostImport::HsvToRgbEncoded => "hsvToRgbEncoded"@,
        }
    }

    /// Whether a guest may do without the function.
    pub open spec fn optional(self) -> bool {
        self != HostImport::Abort
    }

    /// The module under which the guest imports the function.
    pub fn module_name(&self) -> (name: &'static str)
        ensures
            name@ == self.module_name_spec(),
    {
        match self {
            HostImport::Abort => "env",
            HostImport::Seed => "env",
            HostImport::HsvToRgbEncoded => "colorConvert",
        }
    }

    /// The name under which the guest imports the function.
    pub fn name(&self) -> (name: &'static str)
        ensures
            name@ == self.name_spec(),
    {
        match self {
            HostImport::Abort => "abort",
            HostImport::Seed => "seed",
            HostImport::HsvToRgbEncoded => "hsvToRgbEncoded",
        }
    }

    /// Whether a guest may do without the function.
    pub fn is_optional(&self) -> (optional: bool)
        ensures
            optional == self.optional(),
    {
        match self {
            HostImport::Abort => false,
            _ => true,
        }
    }

    /// What linking the function into a guest comes to. That the guest does
    /// not import the function is no failure where the function is optional;
    /// any other failure to link is the sandbox's error, with the engine's
    /// message.
    pub fn linked(&self, outcome: LinkOutcome) -> (r: Result<(), Error>)
        ensures
            match outcome {
                LinkOutcome::Linked => r is Ok,
                LinkOutcome::FunctionNotFound(message) => if self.optional() {
                    r is Ok
                } else {
                    r == Err::<(), Error>(Error::Wasm3(message))
                },
                LinkOutcome::Failed(message) => r == Err::<(), Error>(Error::Wasm3(message)),
            },
    {
        if self.is_optional() {
            ignore_function_not_found(outcome)
        } else {
            match outcome {
                LinkOutcome::Linked => Ok(()),
                LinkOutcome::FunctionNotFound(message) => Err(Error::Wasm3(message)),
                LinkOutcome::Failed(message) => Err(Error::Wasm3(message)),
            }
        }
    }
}

/// What became of linking a host function into a guest.
#[derive(Debug)]
pub enum LinkOutcome {
    Linked,
    /// The guest does not import the function; holds the engine's message.
    FunctionNotFound(String),
    /// The engine refused; holds its message.
    Failed(String),
}

/// Passes over a host function that the guest does not import: that is no
/// failure. Any other failure to link is the sandbox's error.
pub fn ignore_function_not_found(outcome: LinkOutcome) -> (r: Result<(), Error>)
    ensures
        match outcome {
            LinkOutcome::Failed(message) => r == Err::<(), Error>(Error::Wasm3(message)),
            _ => r is Ok,
        },
{
    match outcome {
        LinkOutcome::Linked | LinkOutcome::FunctionNotFound(_) => Ok(()),
        LinkOutcome::Failed(message) => Err(Error::Wasm3(message)),
    }
}

/// The calls that tell of the first `upto` pixels of strip `strip`.
pub open spec fn pixel_loc_calls(locs: Seq<PixelLoc>, strip: int, upto: int) -> Seq<GuestCall>
    decreases upto,
{
    if upto <= 0 {
        Seq::empty()
    } else {
        pixel_loc_calls(locs, strip, upto - 1).push(
            GuestCall::InitLayoutSetPixelLoc {
                strip: strip as u32,
                pixel: (upto - 1) as u32,
                loc: locs[upto - 1],
            },
        )
    }
}

/// The calls that tell of strip `strip`: its length, then each of its
/// pixels.
pub open spec fn strip_calls(locs: Seq<PixelLoc>, strip: int) -> Seq<GuestCall> {
    seq![GuestCall::InitLayoutSetStripLen { strip: strip as u32, len: locs.len() as u32 }]
        + pixel_loc_calls(locs, strip, locs.len() as int)
}

/// The calls that tell of the first `upto` strips.
pub open spec fn strips_calls(rows: Seq<Vec<PixelLoc>>, upto: int) -> Seq<GuestCall>
    decreases upto,
{
    if upto <= 0 {
        Seq::empty()
    } else {
        strips_calls(rows, upto - 1) + strip_calls(rows[upto - 1]@, upto - 1)
    }
}

/// The calls that tell a guest of the layout, in the order in which they are
/// to be made: the number of strips; for each strip its length and then the
/// place of each of its pixels; and last that this was all.
pub open spec fn init_calls_spec(layout: LayoutConfig) -> Seq<GuestCall> {
    seq![GuestCall::InitLayoutSetNumStrips { n: layout.pixel_locations@.len() as u32 }]
        + strips_calls(layout.pixel_locations@, layout.pixel_locations@.len() as int)
        + seq![GuestCall::InitLayoutDone]
}

/// The questions after the first `upto` pixels of strip `strip`.
pub open spec fn strip_queries(strip: int, upto: int) -> Seq<GuestCall>
    decreases upto,
{
    if upto <= 0 {
        Seq::empty()
    } else {
        strip_queries(strip, upto - 1).push(
            GuestCall::GetPixelVal { strip: strip as u32, pixel: (upto - 1) as u32 },
        )
    }
}

/// The questions after every pixel of the first `upto` strips of a shape, in
/// layout order.
pub open spec fn pixel_queries_spec(shape: Seq<nat>, upto: int) -> Seq<GuestCall>
    decreases upto,
{
    if upto <= 0 {
        Seq::empty()
    } else {
        pixel_queries_spec(shape, upto - 1) + strip_queries(upto - 1, shape[upto - 1] as int)
    }
}

/// There is one question for every pixel.
pub proof fn lemma_pixel_queries_len(shape: Seq<nat>, upto: int)
    requires
        0 <= upto <= shape.len(),
    ensures
        pixel_queries_spec(shape, upto).len() == total_upto(shape, upto),
    decreases upto,
{
    if upto > 0 {
        lemma_pixel_queries_len(shape, upto - 1);
        lemma_strip_queries_len(upto - 1, shape[upto - 1] as int);
    }
}

proof fn lemma_strip_queries_len(strip: int, upto: int)
    requires
        0 <= upto,
    ensures
        strip_queries(strip, upto).len() == upto,
    decreases upto,
{
    if upto > 0 {
        lemma_strip_queries_len(strip, upto - 1);
    }
}

/// The colors in a sequence of packed values.
pub open spec fn unpacked_all(vals: Seq<u32>) -> Seq<PixelVal> {
    vals.map_values(|v: u32| unpacked_argb(v))
}

/// Whether strip and pixel indices of a shape fit 32 bits.
pub open spec fn shape_fits_guest(shape: Seq<nat>) -> bool {
    &&& shape.len() <= u32::MAX
    &&& forall|i: int| 0 <= i < shape.len() ==> #[trigger] shape[i] <= u32::MAX
}

/// The questions after every pixel of strips of the given lengths, in layout
/// order.
fn queries(lens: &Vec<usize>) -> (calls: Vec<GuestCall>)
    requires
        shape_fits_guest(lens_view(lens@)),
    ensures
        calls@ == pixel_queries_spec(lens_view(lens@), lens@.len() as int),
        calls@.len() == total(lens_view(lens@)),
{
    let ghost shape = lens_view(lens@);
    let mut calls: Vec<GuestCall> = Vec::new();
    let mut i: usize = 0;
    while i < lens.len()
        invariant
            0 <= i <= lens@.len(),
            shape == lens_view(lens@),
            shape_fits_guest(shape),
            calls@ == pixel_queries_spec(shape, i as int),
        decreases lens@.len() - i,
    {
        let len = lens[i];
        assert(len == shape[i as int]);
        let ghost before = calls@;
        let mut j: usize = 0;
        while j < len
            invariant
                0 <= j <= len,
                len <= u32::MAX,
                i <= u32::MAX,
                calls@ == before + strip_queries(i as int, j as int),
            decreases len - j,
        {
            calls.push(GuestCall::GetPixelVal { strip: i as u32, pixel: j as u32 });
            j += 1;
        }
        i += 1;
    }
    proof {
        lemma_pixel_queries_len(shape, shape.len() as int);
    }
    calls
}

/// A frame of black pixels in the shape of the layout.
pub fn make_pixels_array(layout: &LayoutConfig) -> (pixels: Vec<Vec<PixelVal>>)
    ensures
        shape_of(pixels@) == layout.shape(),
        crate::program::all_of(pixels@, PixelVal::black()),
{
    crate::program::uniform_frame(layout, PixelVal::default())
}

/// The frame of a sandboxed program, kept in the shape of the layout that the
/// guest was told of.
pub struct WasmProgram {
    pixels: Vec<Vec<PixelVal>>,
}

impl WasmProgram {
    #[verifier::type_invariant]
    spec fn inv(self) -> bool {
        shape_fits_guest(shape_of(self.pixels@))
    }

    /// The current frame.
    pub closed spec fn frame(&self) -> Seq<Vec<PixelVal>> {
        self.pixels@
    }

    /// The length of each strip of the frame.
    pub open spec fn shape(&self) -> Seq<nat> {
        shape_of(self.frame())
    }

    /// The calls that tell a guest of the layout, in order.
    pub fn init_calls(layout: &LayoutConfig) -> (calls: Vec<GuestCall>)
        requires
            layout.fits_guest(),
        ensures
            calls@ == init_calls_spec(*layout),
    {
        let rows = &layout.pixel_locations;
        let mut calls: Vec<GuestCall> = Vec::new();
        calls.push(GuestCall::InitLayoutSetNumStrips { n: rows.len() as u32 });
        let ghost head = calls@;
        let mut i: usize = 0;
        while i < rows.len()
            invariant
                0 <= i <= rows@.len(),
                layout.fits_guest(),
                rows == &layout.pixel_locations,
                calls@ == head + strips_calls(rows@, i as int),
            decreases rows@.len() - i,
        {
            let locs = &rows[i];
            assert(locs@.len() <= u32::MAX);
            let ghost before = calls@;
            calls.push(
                GuestCall::InitLayoutSetStripLen { strip: i as u32, len: locs.len() as u32 },
            );
            let mut j: usize = 0;
            while j < locs.len()
                invariant
                    0 <= j <= locs@.len(),
                    locs@.len() <= u32::MAX,
                    i <= u32::MAX,
                    calls@ == before + seq![
                        GuestCall::InitLayoutSetStripLen {
                            strip: i as u32,
                            len: locs@.len() as u32,
                        },
                    ] + pixel_loc_calls(locs@, i as int, j as int),
                decreases locs@.len() - j,
            {
                calls.push(
                    GuestCall::InitLayoutSetPixelLoc {
                        strip: i as u32,
                        pixel: j as u32,
                        loc: locs[j],
                    },
                );
                j += 1;
            }
            assert(calls@ == before + strip_calls(locs@, i as int));
            i += 1;
        }
        calls.push(GuestCall::InitLayoutDone);
        calls
    }

    /// The questions after every pixel of a layout, in layout order: what a
    /// guest is asked once it has been told of the layout.
    pub fn first_queries(layout: &LayoutConfig) -> (calls: Vec<GuestCall>)
        requires
            layout.fits_guest(),
        ensures
            calls@ == pixel_queries_spec(layout.shape(), layout.shape().len() as int),
            calls@.len() == layout.pixel_count(),
    {
        let lens = layout.strip_lens();
        assert(lens_view(lens@) =~= layout.shape());
        assert forall|i: int| 0 <= i < layout.shape().len() implies #[trigger] layout.shape()[i]
            <= u32::MAX by {
            assert(layout.pixel_locations@[i]@.len() <= u32::MAX);
        }
        queries(&lens)
    }

    /// The questions after every pixel of the frame, in layout order.
    pub fn pixel_queries(&self) -> (calls: Vec<GuestCall>)
        ensures
            calls@ == pixel_queries_spec(self.shape(), self.shape().len() as int),
            calls@.len() == total(self.shape()),
    {
        proof {
            use_type_invariant(self);
        }
        let mut lens: Vec<usize> = Vec::new();
        let mut i: usize = 0;
        while i < self.pixels.len()
            invariant
                0 <= i <= self.pixels@.len(),
                lens@.len() == i,
                forall|k: int| 0 <= k < i ==> lens@[k] == self.shape()[k],
            decreases self.pixels@.len() - i,
        {
            lens.push(self.pixels[i].len());
            i += 1;
        }
        assert(lens_view(lens@) =~= self.shape());
        queries(&lens)
    }

    /// What a tick asks of the guest: to advance, and then for every pixel.
    pub fn tick_calls(&self) -> (calls: Vec<GuestCall>)
        ensures
            calls@ == seq![GuestCall::Tick] + pixel_queries_spec(
                self.shape(),
                self.shape().len() as int,
            ),
    {
        let mut calls: Vec<GuestCall> = Vec::new();
        calls.push(GuestCall::Tick);
        let mut queries = self.pixel_queries();
        calls.append(&mut queries);
        calls
    }

    /// The program of a guest that has been told of the layout and has
    /// answered for every pixel: `vals` are its answers, in layout order. The
    /// frame is there before the first tick.
    pub fn new(layout: &LayoutConfig, vals: &Vec<u32>) -> (program: Self)
        requires
            layout.fits_guest(),
            vals@.len() == layout.pixel_count(),
        ensures
            program.shape() == layout.shape(),
            flatten(program.frame()) == unpacked_all(vals@),
    {
        let pixels = make_pixels_array(layout);
        assert(shape_fits_guest(shape_of(pixels@))) by {
            assert forall|i: int| 0 <= i < layout.shape().len() implies #[trigger] layout.shape()[i]
                <= u32::MAX by {
                assert(layout.pixel_locations@[i]@.len() <= u32::MAX);
            }
        }
        let mut program = WasmProgram { pixels };
        program.update_pixel_vals(vals);
        program
    }

    /// Fills the frame with the guest's answers, in layout order. The shape
    /// stays.
    pub fn update_pixel_vals(&mut self, vals: &Vec<u32>)
        requires
            vals@.len() == total(old(self).shape()),
        ensures
            final(self).shape() == old(self).shape(),
            flatten(final(self).frame()) == unpacked_all(vals@),
    {
        proof {
            use_type_invariant(&*self);
        }
        let ghost shape = self.shape();
        let count = vals.len();
        let mut rows: Vec<Vec<PixelVal>> = Vec::new();
        let mut k: usize = 0;
        let mut i: usize = 0;
        while i < self.pixels.len()
            invariant
                0 <= i <= self.pixels@.len(),
                shape == shape_of(self.pixels@),
                vals@.len() == total(shape),
                vals@.len() == count,
                rows@.len() == i,
                forall|n: int| 0 <= n < i ==> (#[trigger] rows@[n])@.len() == shape[n],
                k == total_upto(shape, i as int),
                k <= vals@.len(),
                flatten(rows@) == unpacked_all(vals@).take(k as int),
            decreases self.pixels@.len() - i,
        {
            let len = self.pixels[i].len();
            proof {
                assert(shape[i as int] == len);
                assert(total_upto(shape, i + 1) == k + len);
                lemma_total_upto_mono(shape, i + 1, shape.len() as int);
            }
            let mut row: Vec<PixelVal> = Vec::new();
            let mut j: usize = 0;
            while j < len
                invariant
                    0 <= j <= len,
                    k + len <= vals@.len(),
                    vals@.len() == count,
                    row@.len() == j,
                    row@ == unpacked_all(vals@).subrange(k as int, k + j),
                decreases len - j,
            {
                row.push(PixelVal::from_u32(vals[k + j]));
                assert(unpacked_all(vals@).subrange(k as int, k + j + 1) =~= unpacked_all(
                    vals@,
                ).subrange(k as int, k + j).push(unpacked_all(vals@)[k + j]));
                j += 1;
            }
            let ghost before = rows@;
            rows.push(row);
            proof {
                assert(rows@.drop_last() =~= before);
                assert(unpacked_all(vals@).take(k + len) =~= unpacked_all(vals@).take(k as int)
                    + unpacked_all(vals@).subrange(k as int, k + len));
            }
            k += len;
            i += 1;
        }
        proof {
            assert(unpacked_all(vals@).take(vals@.len() as int) =~= unpacked_all(vals@));
            assert(shape_of(rows@) =~= shape);
        }
        self.pixels = rows;
    }

    /// The current frame: one row of colors per strip.
    pub fn pixels(&self) -> (pixels: &Vec<Vec<PixelVal>>)
        ensures
            pixels@ == self.frame(),
    {
        &self.pixels
    }

    /// Takes the guest's answers after it has advanced by one frame. The
    /// shape stays.
    pub fn tick(&mut self, vals: &Vec<u32>)
        requires
            vals@.len() == total(old(self).shape()),
        ensures
            final(self).shape() == old(self).shape(),
            flatten(final(self).frame()) == unpacked_all(vals@),
    {
        self.update_pixel_vals(vals);
    }
}

/// The sum of the first lengths does not shrink as more are added.
pub proof fn lemma_total_upto_mono(lens: Seq<nat>, n: int, m: int)
    requires
        0 <= n <= m <= lens.len(),
    ensures
        total_upto(lens, n) <= total_upto(lens, m),
    decreases m - n,
{
    if n < m {
        lemma_total_upto_mono(lens, n, m - 1);
    }
}

} // verus!
