//! Decoded images: a grid of 8-bit RGBA pixels in row-major order.

use vstd::prelude::*;
use crate::ramp::{luma_of, ramp_index};

verus! {

/// The mathematical content of an image: its size and the colour channels of
/// its pixels, four bytes a pixel (red, green, blue, alpha), row after row.
pub struct Grid {
    pub width: nat,
    pub height: nat,
    pub bytes: Seq<u8>,
}

impl Grid {
    /// There are exactly four bytes for each pixel.
    pub open spec fn well_formed(self) -> bool {
        self.bytes.len() == 4 * self.width * self.height
    }

    /// Where the four bytes of the pixel in column `x` of row `y` begin.
    pub open spec fn offset(self, x: int, y: int) -> int {
        4 * (y * self.width + x)
    }

    /// The luminance of the pixel in column `x` of row `y`.
    pub open spec fn luma_at(self, x: int, y: int) -> u8 {
        let k = self.offset(x, y);
        luma_of(self.bytes[k], self.bytes[k + 1], self.bytes[k + 2])
    }

    /// The glyph of `ramp` that stands for the pixel in column `x` of row `y`.
    pub open spec fn glyph_at(self, ramp: Seq<char>, x: int, y: int) -> char {
        ramp[ramp_index(self.luma_at(x, y), ramp.len())]
    }
}

/// The pixel count of an image whose sides fit in 32 bits fits in 64 bits.
proof fn pixel_count_bound(w: int, h: int)
    by (nonlinear_arith)
    requires
        0 <= w <= u32::MAX,
        0 <= h <= u32::MAX,
    ensures
        0 <= w * h <= u32::MAX * u32::MAX,
        4 * w * h == 4 * (w * h),
{
}

/// The bytes of a pixel inside the grid lie inside the grid's bytes.
proof fn offset_bound(x: int, y: int, w: int, h: int)
    by (nonlinear_arith)
    requires
        0 <= x < w,
        0 <= y < h,
    ensures
        0 <= y * w,
        0 <= y * w + x < w * h,
        4 * (y * w + x) + 3 < 4 * w * h,
{
}

/// A decoded image.
pub struct Raster {
    width: u32,
    height: u32,
    data: Vec<u8>,
}

impl View for Raster {
    type V = Grid;

    closed spec fn view(&self) -> Grid {
        Grid { width: self.width as nat, height: self.height as nat, bytes: self.data@ }
    }
}

impl Raster {
    #[verifier::type_invariant]
    pub closed spec fn well_formed(&self) -> bool {
        self.data@.len() == 4 * self.width * self.height
    }

    /// Every image holds exactly four bytes for each of its pixels, and its
    /// sides fit in 32 bits.
    pub proof fn well_formed_grid(&self)
        requires
            self.well_formed(),
        ensures
            self@.well_formed(),
            self@.width <= u32::MAX,
            self@.height <= u32::MAX,
    {
    }

    /// An image of `width` by `height` pixels over the given channel bytes,
    /// if there are exactly four bytes for each pixel.
    pub fn from_rgba(width: u32, height: u32, data: Vec<u8>) -> (img: Option<Raster>)
        ensures
            img is Some <==> data@.len() == 4 * width * height,
            img is Some ==> img->0@ == (Grid {
                width: width as nat,
                height: height as nat,
                bytes: data@,
            }),
    {
        proof {
            pixel_count_bound(width as int, height as int);
        }
        let pixels: u64 = width as u64 * height as u64;
        if data.len() as u128 == 4u128 * pixels as u128 {
            Some(Raster { width, height, data })
        } else {
            None
        }
    }

    /// An image over channel bytes that are known to fit its size.
    pub(crate) fn from_parts(width: u32, height: u32, data: Vec<u8>) -> (img: Raster)
        requires
            data@.len() == 4 * width * height,
        ensures
            img@ == (Grid { width: width as nat, height: height as nat, bytes: data@ }),
    {
        Raster { width, height, data }
    }

    /// The number of pixel columns.
    pub fn width(&self) -> (w: u32)
        ensures
            w == self@.width,
    {
        self.width
    }

    /// The number of pixel rows.
    pub fn height(&self) -> (h: u32)
        ensures
            h == self@.height,
    {
        self.height
    }

    /// The channel bytes of all pixels, row after row.
    pub fn as_bytes(&self) -> (bytes: &Vec<u8>)
        ensures
            bytes@ == self@.bytes,
            self@.well_formed(),
    {
        proof {
            use_type_invariant(self);
        }
        &self.data
    }

    /// The red, green, blue and alpha of the pixel in column `x` of row `y`.
    pub fn pixel(&self, x: u32, y: u32) -> (p: (u8, u8, u8, u8))
        requires
            x < self@.width,
            y < self@.height,
        ensures
            p.0 == self@.bytes[self@.offset(x as int, y as int)],
            p.1 == self@.bytes[self@.offset(x as int, y as int) + 1],
            p.2 == self@.bytes[self@.offset(x as int, y as int) + 2],
            p.3 == self@.bytes[self@.offset(x as int, y as int) + 3],
    {
        proof {
            use_type_invariant(self);
            offset_bound(x as int, y as int, self.width as int, self.height as int);
        }
        let len: usize = self.data.len();
        assert(4 * (y as int * self.width as int + x as int) + 3 < len);
        let k: usize = 4 * (y as usize * self.width as usize + x as usize);
        (self.data[k], self.data[k + 1], self.data[k + 2], self.data[k + 3])
    }
}

} // verus!
