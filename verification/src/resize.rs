//! Resampling an image to a requested size, and the preview that fits a
//! terminal.

use vstd::prelude::*;
use crate::convert::convert;
use crate::ramp::Charset;
use crate::raster::{Grid, Raster};
use crate::resolution::{parse_resolution, resolution_of, ConfigError};

verus! {

/// The channel bytes that nearest-neighbour sampling gives for an image of
/// `width` by `height` pixels with the channel bytes `bytes`, resampled to
/// `new_width` by `new_height` pixels.
pub uninterp spec fn nearest_resampled(
    bytes: Seq<u8>,
    width: nat,
    height: nat,
    new_width: nat,
    new_height: nat,
) -> Seq<u8>;

/// The channel bytes of an image after resizing: those it had where the size
/// does not change, the sampled ones where it does.
pub open spec fn resampled_bytes(
    bytes: Seq<u8>,
    width: nat,
    height: nat,
    new_width: nat,
    new_height: nat,
) -> Seq<u8> {
    if new_width == width && new_height == height {
        bytes
    } else {
        nearest_resampled(bytes, width, height, new_width, new_height)
    }
}

/// The four channel bytes of the pixel with the running number `p`.
pub open spec fn pixel_of(bytes: Seq<u8>, p: int) -> Seq<u8> {
    bytes.subrange(4 * p, 4 * p + 4)
}

/// Whether `pixel` is the colour and alpha of one of the pixels of `bytes`.
pub open spec fn is_pixel_of(pixel: Seq<u8>, bytes: Seq<u8>) -> bool {
    exists|q: int| 0 <= q && 4 * q + 4 <= bytes.len() && #[trigger] pixel_of(bytes, q) == pixel
}

/// Every pixel of `out` is a pixel of `bytes`, colour and alpha unchanged:
/// nothing was blended.
pub open spec fn pixels_taken_from(out: Seq<u8>, bytes: Seq<u8>) -> bool {
    forall|p: int|
        0 <= p && 4 * p + 4 <= out.len() ==> is_pixel_of(#[trigger] pixel_of(out, p), bytes)
}

/// The pixels of an image are its own.
pub proof fn pixels_taken_from_self(bytes: Seq<u8>)
    ensures
        pixels_taken_from(bytes, bytes),
{
}

impl Grid {
    /// Whether the image can be resampled to `w` by `h` pixels: it has a
    /// pixel to sample from, the new size is positive, and the buffers that
    /// the resampling fills can be addressed on this machine.
    pub open spec fn can_resize_to(self, w: nat, h: nat) -> bool {
        &&& self.width > 0
        &&& self.height > 0
        &&& w > 0
        &&& h > 0
        &&& 16 * self.width * h <= isize::MAX
        &&& 4 * w * h <= isize::MAX
    }

    /// The image after resizing: itself where no size is asked for.
    pub open spec fn resized(self, target: Option<(u32, u32)>) -> Grid {
        match target {
            None => self,
            Some((w, h)) => Grid {
                width: w as nat,
                height: h as nat,
                bytes: resampled_bytes(self.bytes, self.width, self.height, w as nat, h as nat),
            },
        }
    }

    /// Resizing to no size, or to the size that the image has, changes
    /// nothing: the image is drawn as it was before.
    pub proof fn resize_to_same_size(self, charset: Charset)
        requires
            self.width <= u32::MAX,
            self.height <= u32::MAX,
        ensures
            self.resized(None) == self,
            self.resized(Some((self.width as u32, self.height as u32))) == self,
            self.resized(None).rendered(charset) == self.rendered(charset),
            self.resized(Some((self.width as u32, self.height as u32))).rendered(charset)
                == self.rendered(charset),
    {
    }

    /// An image resized to `w` by `h` pixels is drawn as `h` lines of `w`
    /// glyphs, each closed by a line feed.
    pub proof fn resized_layout(self, w: u32, h: u32, charset: Charset)
        requires
            w > 0,
            h > 0,
        ensures
            self.resized(Some((w, h))).width == w,
            self.resized(Some((w, h))).height == h,
            self.resized(Some((w, h))).rendered(charset).len() == h * (w + 1),
            forall|y: int|
                0 <= y < h
                    ==> #[trigger] self.resized(Some((w, h))).rendered(charset)[y * (w + 1) + w]
                    == '\n',
            forall|x: int, y: int|
                0 <= y < h && 0 <= x < w
                    ==> #[trigger] self.resized(Some((w, h))).rendered(charset)[y * (w + 1) + x]
                    == self.resized(Some((w, h))).glyph_at(charset.glyphs(), x, y),
    {
        self.resized(Some((w, h))).rendered_layout(charset);
    }
}

/// `imageops::resize` of the image crate with the filter `Nearest`, on an
/// 8-bit RGBA buffer. It hands back a buffer of `new_width` by `new_height`
/// pixels: a copy of the source where the size is the same, and otherwise
/// what its sampling computes from the source and the two sizes alone. With
/// this filter it reads one source pixel for each new pixel and gives it the
/// weight one, so every new pixel is a pixel of the source. It panics where
/// a buffer length overflows, or where an empty source is sampled: the
/// `requires` leaves both out.
#[verifier::external_body]
fn resample(
    bytes: &Vec<u8>,
    width: u32,
    height: u32,
    new_width: u32,
    new_height: u32,
) -> (out: Vec<u8>)
    requires
        bytes@.len() == 4 * width * height,
        (Grid { width: width as nat, height: height as nat, bytes: bytes@ }).can_resize_to(
            new_width as nat,
            new_height as nat,
        ),
    ensures
        new_width == width && new_height == height ==> out@ == bytes@,
        !(new_width == width && new_height == height) ==> out@ == nearest_resampled(
            bytes@,
            width as nat,
            height as nat,
            new_width as nat,
            new_height as nat,
        ),
        out@.len() == 4 * new_width * new_height,
        pixels_taken_from(out@, bytes@),
{
    let source = image::ImageBuffer::<image::Rgba<u8>, &[u8]>::from_raw(
        width,
        height,
        bytes.as_slice(),
    ).unwrap();
    let filter = image::imageops::FilterType::Nearest;
    image::imageops::resize(&source, new_width, new_height, filter).into_raw()
}

impl Raster {
    /// Whether the image can be resampled to `w` by `h` pixels.
    pub fn can_resize(&self, w: u32, h: u32) -> (b: bool)
        ensures
            b == self@.can_resize_to(w as nat, h as nat),
    {
        let width: u32 = self.width();
        proof {
            let (a, b, c) = (width as int, w as int, h as int);
            assert(0 <= 16 * a * c <= 16 * 0xffff_ffff * 0xffff_ffff && 0 <= 4 * b * c <= 4
                * 0xffff_ffff * 0xffff_ffff) by (nonlinear_arith)
                requires
                    0 <= a <= 0xffff_ffff,
                    0 <= b <= 0xffff_ffff,
                    0 <= c <= 0xffff_ffff,
            ;
        }
        let limit: u128 = isize::MAX as u128;
        let scratch: u128 = 16u128 * width as u128 * h as u128;
        let target: u128 = 4u128 * w as u128 * h as u128;
        width > 0 && self.height() > 0 && w > 0 && h > 0 && scratch <= limit
            && target <= limit
    }
}

/// Resizes an image: to exactly `w` by `h` pixels by nearest-neighbour
/// sampling where `target` holds them, and not at all where it holds none.
/// The image itself is left as it is.
pub fn resize(img: &Raster, target: Option<(u32, u32)>) -> (out: Raster)
    requires
        target matches Some((w, h)) ==> img@.can_resize_to(w as nat, h as nat),
    ensures
        out@ == img@.resized(target),
        out@.well_formed(),
        target is None ==> out@ == img@,
        target matches Some((w, h)) ==> out@.width == w && out@.height == h,
        target == Some((img@.width as u32, img@.height as u32)) ==> out@ == img@,
        pixels_taken_from(out@.bytes, img@.bytes),
{
    let bytes = img.as_bytes();
    match target {
        None => {
            proof {
                pixels_taken_from_self(bytes@);
            }
            Raster::from_parts(img.width(), img.height(), bytes.clone())
        },
        Some((w, h)) => {
            let sampled = resample(bytes, img.width(), img.height(), w, h);
            Raster::from_parts(w, h, sampled)
        },
    }
}

/// Prepares an image for conversion: resizes it to the resolution that `res`
/// asks for, or leaves it as it is where `res` is empty. A resolution that
/// cannot be read, or that the image cannot be resized to, is reported and
/// nothing is resized.
pub fn preprocessing(img: &Raster, res: &str) -> (r: Result<Raster, ConfigError>)
    ensures
        match resolution_of(res@) {
            Err(e) => r matches Err(reported) && reported == e,
            Ok(None) => r matches Ok(out) && out@ == img@,
            Ok(Some((w, h))) => if img@.can_resize_to(w as nat, h as nat) {
                r matches Ok(out) && out@ == img@.resized(Some((w, h))) && out@.well_formed()
                    && pixels_taken_from(out@.bytes, img@.bytes)
            } else {
                r matches Err(reported) && reported == ConfigError::UnsupportedSize
            },
        },
{
    match parse_resolution(res) {
        Err(e) => Err(e),
        Ok(None) => Ok(resize(img, None)),
        Ok(Some((w, h))) => {
            if img.can_resize(w, h) {
                Ok(resize(img, Some((w, h))))
            } else {
                Err(ConfigError::UnsupportedSize)
            }
        },
    }
}

/// The text that shows an image in a terminal of `columns` by `rows`
/// characters: the image resized to that size and drawn with `charset`.
/// There is none where the size of the terminal is not known or the image
/// cannot be resized to it.
pub fn preview(
    img: &Raster,
    terminal: Option<(usize, usize)>,
    charset: Charset,
) -> (text: Option<String>)
    ensures
        match terminal {
            Some((columns, rows)) if columns <= u32::MAX && rows <= u32::MAX && img@.can_resize_to(
                columns as nat,
                rows as nat,
            ) => text matches Some(t) && t@ == img@.resized(
                Some((columns as u32, rows as u32)),
            ).rendered(charset),
            _ => text is None,
        },
{
    match terminal {
        None => None,
        Some((columns, rows)) => {
            if columns > 0xffff_ffff || rows > 0xffff_ffff {
                return None;
            }
            let w: u32 = columns as u32;
            let h: u32 = rows as u32;
            if !img.can_resize(w, h) {
                return None;
            }
            let fitted = resize(img, Some((w, h)));
            Some(convert(&fitted, charset))
        },
    }
}

} // verus!
