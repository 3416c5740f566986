//! Images of the `image` crate as the rasterizer reads them: a matrix of
//! pixels of which only the size and the coverage of each pixel count.
//!
//! What this file says of the `image` crate is taken on trust.

use crate::raster::{size_error, BitmapView, MAX_HEIGHT, MAX_WIDTH};
use image::DynamicImage;
use vstd::prelude::*;

verus! {

/// `image::DynamicImage`, a matrix of pixels in one of several formats. The
/// library never looks inside a value of it.
#[verifier::external_type_specification]
#[verifier::external_body]
pub struct ExDynamicImage(image::DynamicImage);

/// The width and the height of an image, in pixels: what
/// `DynamicImage::width` and `DynamicImage::height` return.
pub uninterp spec fn image_size(image: DynamicImage) -> (nat, nat);

/// The coverage of each pixel of an image, row after row: the alpha channel
/// of what `DynamicImage::to_rgba8` makes of the image.
pub uninterp spec fn image_alpha(image: DynamicImage) -> Seq<u8>;

/// Whether the samples of an image are integers of eight or sixteen bits, and
/// not floating-point numbers.
pub uninterp spec fn image_has_integer_samples(image: DynamicImage) -> bool;

/// Whether the library reads the image: either its size alone refuses it, or
/// its samples are integers. The coverage of an image that the device would
/// print for its size but that holds floating-point samples cannot be read
/// here, because the conversion of such samples fails where one of them is
/// no number.
pub open spec fn image_is_readable(image: DynamicImage) -> bool {
    size_error(image_size(image).0, image_size(image).1) is None ==> image_has_integer_samples(
        image,
    )
}

/// What the rasterizer reads of an image.
pub open spec fn image_view(image: DynamicImage) -> BitmapView {
    BitmapView {
        width: image_size(image).0,
        height: image_size(image).1,
        alpha: image_alpha(image),
    }
}

/// `DynamicImage::width` returns the width of the image, which is the first
/// part of what `image_size` names.
pub assume_specification[ DynamicImage::width ](image: &DynamicImage) -> (width: u32)
    ensures
        width == image_size(*image).0,
;

/// `DynamicImage::height` returns the height of the image, which is the
/// second part of what `image_size` names.
pub assume_specification[ DynamicImage::height ](image: &DynamicImage) -> (height: u32)
    ensures
        height == image_size(*image).1,
;

/// Tells the formats of `DynamicImage` apart: the eight variants with samples
/// of eight or sixteen bits have integer samples, the two variants with
/// `f32` samples, and any variant that a later version may add, have not. The
/// contract claims that the answer is what `image_has_integer_samples` names.
#[verifier::external_body]
pub(crate) fn has_integer_samples(image: &DynamicImage) -> (integer: bool)
    ensures
        integer == image_has_integer_samples(*image),
{
    match image {
        DynamicImage::ImageLuma8(_) => true,
        DynamicImage::ImageLumaA8(_) => true,
        DynamicImage::ImageRgb8(_) => true,
        DynamicImage::ImageRgba8(_) => true,
        DynamicImage::ImageLuma16(_) => true,
        DynamicImage::ImageLumaA16(_) => true,
        DynamicImage::ImageRgb16(_) => true,
        DynamicImage::ImageRgba16(_) => true,
        DynamicImage::ImageRgb32F(_) => false,
        DynamicImage::ImageRgba32F(_) => false,
        _ => false,
    }
}

/// The alpha value of every pixel of the image, row after row.
///
/// Calls `DynamicImage::to_rgba8`, which makes a buffer of width by height
/// pixels of four bytes each and converts every pixel of the image into it,
/// and hands out the fourth byte of each pixel in the order in which
/// `ImageBuffer::pixels` walks the buffer. The contract claims that the
/// result is the coverage that `image_alpha` names and that it has one value
/// for each pixel.
///
/// The conversion panics in two places, and the `requires` leaves both out.
/// It panics where the buffer would have more bytes than a `usize` counts:
/// an image that the device prints for its size is far smaller. And it
/// panics on a floating-point sample that is no number, because the cast of
/// such a sample to a byte is unwrapped: only images with integer samples
/// are admitted, whose conversion is an identity or a rounded division.
#[verifier::external_body]
pub(crate) fn alpha_channel(image: &DynamicImage) -> (alpha: Vec<u8>)
    requires
        image_size(*image).0 <= MAX_WIDTH,
        image_size(*image).1 <= MAX_HEIGHT,
        image_has_integer_samples(*image),
    ensures
        alpha@ == image_alpha(*image),
        alpha@.len() == image_size(*image).1 * image_size(*image).0,
{
    image.to_rgba8().pixels().map(|pixel| pixel.0[3]).collect()
}

} // verus!
