//! A single-channel 8-bit image held as plain values.

use vstd::prelude::*;

verus! {

/// What a grayscale buffer means: its dimensions and its samples, row by row.
pub ghost struct Grid {
    pub width: nat,
    pub height: nat,
    pub pixels: Seq<u8>,
}

impl Grid {
    /// One sample for each of the `width * height` positions.
    pub open spec fn wf(self) -> bool {
        self.pixels.len() == self.width * self.height
    }

    /// The sample at column `x` of row `y`.
    pub open spec fn at(self, x: nat, y: nat) -> u8 {
        self.pixels[(y * self.width + x) as int]
    }
}

/// A width × height array of 8-bit luminance values, stored row-major.
pub struct GrayBuffer {
    width: u32,
    height: u32,
    pixels: Vec<u8>,
}

impl View for GrayBuffer {
    type V = Grid;

    closed spec fn view(&self) -> Grid {
        Grid { width: self.width as nat, height: self.height as nat, pixels: self.pixels@ }
    }
}

impl GrayBuffer {
    #[verifier::type_invariant]
    spec fn inv(&self) -> bool {
        self.pixels@.len() == self.width as int * self.height as int
    }

    /// Takes the first `width * height` samples of `raw` as the buffer's
    /// rows; `None` when `raw` is too short for those dimensions.
    pub fn from_raw(width: u32, height: u32, raw: Vec<u8>) -> (r: Option<GrayBuffer>)
        ensures
            r is Some <==> width as int * height as int <= raw@.len(),
            r matches Some(b) ==> b@ == (Grid {
                width: width as nat,
                height: height as nat,
                pixels: raw@.take(width as int * height as int),
            }),
    {
        assert((width as int) * (height as int) <= u32::MAX as int * u32::MAX as int)
            by (nonlinear_arith);
        let count: u64 = (width as u64) * (height as u64);
        if count > raw.len() as u64 {
            return None;
        }
        let mut pixels = raw;
        pixels.truncate(count as usize);
        assert(pixels@ =~= raw@.take(width as int * height as int));
        Some(GrayBuffer { width, height, pixels })
    }

    pub fn width(&self) -> (r: u32)
        ensures
            r as nat == self@.width,
    {
        self.width
    }

    pub fn height(&self) -> (r: u32)
        ensures
            r as nat == self@.height,
    {
        self.height
    }

    /// The samples, row after row.
    pub fn as_raw(&self) -> (r: &Vec<u8>)
        ensures
            r@ == self@.pixels,
            self@.wf(),
    {
        proof {
            use_type_invariant(self);
        }
        &self.pixels
    }

    /// Gives up the buffer and returns its samples, row after row.
    pub fn into_raw(self) -> (r: Vec<u8>)
        ensures
            r@ == self@.pixels,
    {
        self.pixels
    }

    /// The sample at column `x` of row `y`.
    pub fn get_pixel(&self, x: u32, y: u32) -> (r: u8)
        requires
            x < self@.width,
            y < self@.height,
        ensures
            r == self@.at(x as nat, y as nat),
    {
        let len = self.pixels.len();
        proof {
            use_type_invariant(self);
            assert((y as int) * (self.width as int) <= (y as int) * (self.width as int) + (x as int))
                by (nonlinear_arith);
            assert((y as int) * (self.width as int) + (x as int) < (self.width as int) * (self.height as int))
                by (nonlinear_arith)
                requires
                    x < self.width,
                    y < self.height,
            ;
            assert((y as int) * (self.width as int) + (x as int) < len);
        }
        let i: usize = (y as usize) * (self.width as usize) + (x as usize);
        self.pixels[i]
    }
}

} // verus!
