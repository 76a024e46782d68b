//! A model of the single-buffer 240x160 bitmap display mode.
//!
//! The buffer holds one 16-bit colour per pixel, row by row.  Writing the
//! finished buffer into hardware-visible memory happens outside this crate;
//! here the buffer is plain owned data with an exact per-pixel contract.

use vstd::pervasive::VecAdditionalExecFns;
use vstd::prelude::*;

verus! {

/// The bitmap frame buffer: 240 columns by 160 rows of 16-bit colours,
/// stored row by row.
pub struct Bitmap3 {
    pixels: Vec<u16>,
}

impl View for Bitmap3 {
    type V = Seq<u16>;

    closed spec fn view(&self) -> Seq<u16> {
        self.pixels@
    }
}

impl Bitmap3 {
    /// Well-formedness: the buffer covers exactly the 240x160 screen.
    pub open spec fn wf(&self) -> bool {
        self@.len() == 38400
    }

    /// A fresh buffer with every pixel cleared to colour zero.
    pub fn new() -> (r: Self)
        ensures
            r.wf(),
            forall|i: int| 0 <= i < 38400 ==> r@[i] == 0,
    {
        let mut pixels: Vec<u16> = Vec::new();
        let mut i: usize = 0;
        while i < 38400
            invariant
                i <= 38400,
                pixels@.len() == i,
                forall|j: int| 0 <= j < i ==> pixels@[j] == 0,
            decreases 38400 - i,
        {
            pixels.push(0);
            i = i + 1;
        }
        Bitmap3 { pixels }
    }

    /// Sets the pixel at column `x` of row `y` to `colour`; every other
    /// pixel keeps its value.
    pub fn draw_point(&mut self, x: i32, y: i32, colour: u16)
        requires
            old(self).wf(),
            0 <= x < 240,
            0 <= y < 160,
        ensures
            final(self).wf(),
            final(self)@ == old(self)@.update(y as int * 240 + x as int, colour),
    {
        let idx: usize = (y as usize) * 240 + (x as usize);
        self.pixels.set(idx, colour);
    }

    /// The colour of the pixel at column `x` of row `y`.
    pub fn pixel(&self, x: i32, y: i32) -> (r: u16)
        requires
            self.wf(),
            0 <= x < 240,
            0 <= y < 160,
        ensures
            r == self@[y as int * 240 + x as int],
    {
        let idx: usize = (y as usize) * 240 + (x as usize);
        self.pixels[idx]
    }
}

} // verus!
