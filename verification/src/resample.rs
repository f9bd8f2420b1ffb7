//! Resampling a raster to the size that the terminal allows.

use crate::frame::{Raster, RasterView};
use vstd::prelude::*;

verus! {

/// A buffer of `width * height` pixels can be allocated, even with a
/// floating-point sample for each channel.
pub open spec fn addressable(width: nat, height: nat) -> bool {
    16 * width * height <= isize::MAX
}

/// Decides `addressable`.
pub fn is_addressable(width: u32, height: u16) -> (fits: bool)
    ensures
        fits == addressable(width as nat, height as nat),
{
    assert(16 * width * height == 16 * (width * height) && width * height <= 0xffff_ffff * 0xffff)
        by (nonlinear_arith)
        requires
            width <= 0xffff_ffff,
            height <= 0xffff,
    ;
    let pixels: u64 = width as u64 * height as u64;
    16 * pixels <= isize::MAX as u64
}

/// The samples that `image::imageops::resize` makes of an image of
/// `width * height` pixels at the size of `new_width * new_height` pixels
/// with the Lanczos filter of window 3.
pub uninterp spec fn lanczos3(
    width: nat,
    height: nat,
    samples: Seq<u8>,
    new_width: nat,
    new_height: nat,
) -> Seq<u8>;

/// Calls `image::imageops::resize` with `FilterType::Lanczos3` on the
/// samples of `source`.
///
/// Believed of it: the result depends on the source image and the two
/// sizes only, and holds four samples for each pixel of the new size. The
/// filter works in single-precision floating point, and nothing here says
/// which colours come out. The buffers that it allocates are the
/// intermediate one, as wide as the source and as high as the result, and
/// the result; both must be addressable.
#[verifier::external_body]
fn resize_lanczos3(source: &Raster, width: u16, height: u16) -> (samples: Vec<u8>)
    requires
        addressable(source@.width, height as nat),
        addressable(width as nat, height as nat),
    ensures
        samples@ == lanczos3(
            source@.width,
            source@.height,
            source@.samples,
            width as nat,
            height as nat,
        ),
        samples@.len() == 4 * width * height,
{
    let view: image::ImageBuffer<image::Rgba<u8>, &[u8]> =
        image::ImageBuffer::from_raw(source.width(), source.height(), source.samples().as_slice()).unwrap();
    let filter = image::imageops::FilterType::Lanczos3;
    image::imageops::resize(&view, u32::from(width), u32::from(height), filter).into_raw()
}

/// Resamples `source` to `width * height` pixels.
pub fn resample(source: &Raster, width: u16, height: u16) -> (resampled: Raster)
    requires
        addressable(source@.width, height as nat),
        addressable(width as nat, height as nat),
    ensures
        resampled@ == (RasterView {
            width: width as nat,
            height: height as nat,
            samples: lanczos3(
                source@.width,
                source@.height,
                source@.samples,
                width as nat,
                height as nat,
            ),
        }),
{
    let samples = resize_lanczos3(source, width, height);
    Raster::new(width as u32, height as u32, samples).unwrap()
}

} // verus!
