//! The render driver: validate the dimensions, build the pixel buffer, and
//! hand it to an injected drawing surface.

use vstd::prelude::*;
use vstd::arithmetic::mul::lemma_mul_is_associative;
use crate::raster::generate_pixels;

verus! {

/// Why a render call failed.
#[derive(Debug, PartialEq, Eq)]
pub enum DrawError {
    /// A dimension was zero, or the byte length `4 * width * height` of the
    /// pixel buffer would not be addressable.
    InvalidDimensions,
    /// The drawing surface rejected the buffer; its message is passed on
    /// unchanged.
    Surface(String),
}

/// A drawing surface: accepts a pixel buffer of exactly
/// `4 * width * height` bytes in RGBA order, to be painted at the origin.
/// Implementations live outside the library (a raster canvas, a file, a
/// test recorder).
pub trait Surface {
    fn put_pixels(&mut self, width: u32, height: u32, pixels: &Vec<u8>) -> (r: Result<
        (),
        String,
    >)
        requires
            pixels@.len() == 4 * width * height,
    ;
}

/// Whether a `width x height` grid has a drawable pixel buffer: both
/// dimensions nonzero and the byte length addressable.
pub open spec fn valid_dimensions(width: u32, height: u32) -> bool {
    width > 0 && height > 0 && 4 * width * height <= usize::MAX
}

/// Rasterize the grid under the parameter with component bit patterns `re`
/// and `im` and hand the buffer to `surface`.
///
/// Fails fast with `DrawError::InvalidDimensions` — before any surface
/// call — exactly when a dimension is zero or the buffer's byte length
/// would overflow; otherwise the surface receives the full
/// [`crate::raster::grid_bytes`] buffer and any failure it reports is
/// passed on as `DrawError::Surface`.
pub fn render<S: Surface>(
    surface: &mut S,
    width: u32,
    height: u32,
    re: u64,
    im: u64,
) -> (r: Result<(), DrawError>)
    ensures
        r == Err::<(), DrawError>(DrawError::InvalidDimensions) <==> !valid_dimensions(
            width,
            height,
        ),
        valid_dimensions(width, height) ==> match r {
            Ok(()) => true,
            Err(e) => e is Surface,
        },
        !valid_dimensions(width, height) ==> *final(surface) == *old(surface),
{
    proof {
        assert((width as u128) * (height as u128) <= 0xffff_ffff_ffff_ffff_u128)
            by (nonlinear_arith)
            requires
                width as u128 <= 0xffff_ffff_u128,
                height as u128 <= 0xffff_ffff_u128,
        ;
    }
    let pixel_count: u128 = (width as u128) * (height as u128);
    let bytes: u128 = 4 * pixel_count;
    proof {
        lemma_mul_is_associative(4, width as int, height as int);
    }
    if width == 0 || height == 0 || bytes > (usize::MAX as u128) {
        return Err(DrawError::InvalidDimensions);
    }
    let pixels = generate_pixels(width, height, re, im);
    match surface.put_pixels(width, height, &pixels) {
        Ok(()) => Ok(()),
        Err(message) => Err(DrawError::Surface(message)),
    }
}

} // verus!
