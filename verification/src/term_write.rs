//! The terminal as an output: one line per strip, one mark per pixel. What
//! is decided here is which values go on which line.

use crate::config::{lens_view, total_upto, LayoutConfig};
use crate::program::PixelVal;
use vstd::prelude::*;

verus! {

/// The lesser of a position and the number of values there are.
pub open spec fn clip(position: nat, count: nat) -> int {
    if position <= count {
        position as int
    } else {
        count as int
    }
}

/// The values that go on line `i` when `values` are dealt out to lines of
/// the given lengths: each line takes as many as it is long while there are
/// any, so once the values run out the lines are short or empty.
pub open spec fn line_of(lens: Seq<nat>, values: Seq<PixelVal>, i: int) -> Seq<PixelVal> {
    values.subrange(
        clip(total_upto(lens, i), values.len()),
        clip(total_upto(lens, i + 1), values.len()),
    )
}

/// An output that shows each strip as a line of a terminal.
#[derive(Debug, Clone)]
pub struct TerminalWrite {
    strip_lens: Vec<usize>,
}

impl TerminalWrite {
    /// The length of each line.
    pub closed spec fn lens(&self) -> Seq<nat> {
        lens_view(self.strip_lens@)
    }

    /// An output with one line per strip of the layout, as long as the
    /// strip.
    pub fn new(layout: &LayoutConfig) -> (writer: Self)
        ensures
            writer.lens() == layout.shape(),
    {
        let strip_lens = layout.strip_lens();
        assert(lens_view(strip_lens@) =~= layout.shape());
        TerminalWrite { strip_lens }
    }

    /// The length of each line.
    pub fn strip_lens(&self) -> (lens: &Vec<usize>)
        ensures
            lens_view(lens@) == self.lens(),
    {
        &self.strip_lens
    }

    /// Deals a frame's values out to the lines, in order.
    pub fn lines(&self, values: &Vec<PixelVal>) -> (lines: Vec<Vec<PixelVal>>)
        ensures
            lines@.len() == self.lens().len(),
            forall|i: int|
                0 <= i < lines@.len() ==> (#[trigger] lines@[i])@ == line_of(
                    self.lens(),
                    values@,
                    i,
                ),
    {
        let ghost lens = self.lens();
        let count = values.len();
        let mut lines: Vec<Vec<PixelVal>> = Vec::new();
        let mut k: usize = 0;
        let mut i: usize = 0;
        while i < self.strip_lens.len()
            invariant
                0 <= i <= self.strip_lens@.len(),
                lens == lens_view(self.strip_lens@),
                count == values@.len(),
                k == clip(total_upto(lens, i as int), values@.len()),
                lines@.len() == i,
                forall|n: int|
                    0 <= n < i ==> (#[trigger] lines@[n])@ == line_of(lens, values@, n),
            decreases self.strip_lens@.len() - i,
        {
            let len = self.strip_lens[i];
            assert(lens[i as int] == len);
            let end = if len <= count - k {
                k + len
            } else {
                count
            };
            assert(end == clip(total_upto(lens, i + 1), values@.len()));
            let mut line: Vec<PixelVal> = Vec::new();
            let mut j: usize = k;
            while j < end
                invariant
                    k <= j <= end <= count,
                    count == values@.len(),
                    line@ == values@.subrange(k as int, j as int),
                decreases end - j,
            {
                line.push(values[j]);
                assert(values@.subrange(k as int, j + 1) =~= values@.subrange(
                    k as int,
                    j as int,
                ).push(values@[j as int]));
                j += 1;
            }
            lines.push(line);
            k = end;
            i += 1;
        }
        lines
    }
}

} // verus!
