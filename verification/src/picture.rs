//! A decoded picture as plain values: its size and its colour samples.

use vstd::prelude::*;

verus! {

/// A decoded picture: rows of pixels from the top, each pixel three samples
/// (red, green, blue) of eight bits.
#[derive(Debug, PartialEq, Eq)]
pub struct Picture {
    pub width: u32,
    pub height: u32,
    pub samples: Vec<u8>,
}

/// What a `Picture` holds, as plain values.
pub struct PictureData {
    pub width: u32,
    pub height: u32,
    pub samples: Seq<u8>,
}

impl View for Picture {
    type V = PictureData;

    open spec fn view(&self) -> PictureData {
        PictureData { width: self.width, height: self.height, samples: self.samples@ }
    }
}

impl PictureData {
    /// There are exactly three samples for every pixel, and the samples of one
    /// row can be counted in `usize` (also where the picture has no rows).
    pub open spec fn well_formed(self) -> bool {
        &&& 3 * self.width <= usize::MAX
        &&& self.samples.len() == 3 * self.width * self.height
    }
}

impl Picture {
    /// The picture's samples are as its size asks: see `PictureData::well_formed`.
    pub open spec fn well_formed(&self) -> bool {
        self@.well_formed()
    }

    /// Tells whether the samples are as many as the size asks for.
    pub fn is_well_formed(&self) -> (yes: bool)
        ensures
            yes == self.well_formed(),
    {
        let width = self.width as u128;
        let height = self.height as u128;
        assert(width * height <= 0xffff_ffff * 0xffff_ffff && 3 * width * height == 3 * (width
            * height)) by (nonlinear_arith)
            requires
                width <= 0xffff_ffff,
                height <= 0xffff_ffff,
        ;
        let pixels: u128 = width * height;
        3 * width <= usize::MAX as u128 && 3 * pixels == self.samples.len() as u128
    }
}

} // verus!
