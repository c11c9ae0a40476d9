//! Decoded images: a grid of 8-bit RGB pixels, and the two things the image
//! codec does for this library, decoding and resampling.

use crate::error::Error;
use vstd::prelude::*;

verus! {

/// The mathematical content of a raster: its size and its samples, row by
/// row from the top, each pixel as red, green, blue.
pub struct RasterView {
    pub width: nat,
    pub height: nat,
    pub pixels: Seq<u8>,
}

/// The number of samples in a grid of `width` by `height` pixels: three for
/// each pixel.
pub open spec fn sample_count(width: nat, height: nat) -> nat {
    3 * (width * height)
}

impl RasterView {
    /// Each dimension fits 32 bits, and there are exactly three samples for
    /// each pixel of the grid.
    pub open spec fn well_formed(self) -> bool {
        &&& self.width <= u32::MAX
        &&& self.height <= u32::MAX
        &&& self.pixels.len() == sample_count(self.width, self.height)
    }
}

/// A decoded image, 8 bits per channel, RGB.
#[derive(Debug)]
pub struct RasterImage {
    width: u32,
    height: u32,
    pixels: Vec<u8>,
}

impl View for RasterImage {
    type V = RasterView;

    closed spec fn view(&self) -> RasterView {
        RasterView {
            width: self.width as nat,
            height: self.height as nat,
            pixels: self.pixels@,
        }
    }
}

/// What the image codec makes of an encoded image: the decoded raster in
/// 8-bit RGB, or `None` where it reports an error. It guesses the format from
/// the first bytes.
pub uninterp spec fn decoded_rgb8(bytes: Seq<u8>) -> Option<RasterView>;

/// The samples that the image codec's nearest-neighbour filter gives when it
/// resamples `source` to `width` by `height` pixels.
pub uninterp spec fn resized_nearest(source: RasterView, width: u32, height: u32) -> Seq<u8>;

/// `source` resampled to `width` by `height` pixels with the nearest-neighbour
/// filter.
pub open spec fn resampled(source: RasterView, width: u32, height: u32) -> RasterView {
    RasterView {
        width: width as nat,
        height: height as nat,
        pixels: resized_nearest(source, width, height),
    }
}

/// What is known of every resampling: the result has three samples for each
/// pixel of the size asked for, and resampling to the size that the source
/// has already changes nothing.
pub open spec fn resampling_holds(source: RasterView, width: u32, height: u32) -> bool {
    &&& resampled(source, width, height).well_formed()
    &&& source.width == width && source.height == height ==> resampled(source, width, height)
        == source
}

/// Whether resampling `source` to `width` by `height` stays within what one
/// allocation can hold: the resampler keeps an intermediate grid as wide as
/// the source and as high as the target, sixteen bytes a pixel, and then the
/// result, three bytes a pixel. Where the size does not change it only copies.
pub open spec fn resize_fits(source: RasterView, width: u32, height: u32) -> bool {
    ||| (source.width == width && source.height == height)
    ||| (16 * (source.width * height) <= isize::MAX && sample_count(width as nat, height as nat)
        <= isize::MAX)
}

/// The error type of the image codec.
#[verifier::external_type_specification]
#[verifier::external_body]
pub struct ExImageError(image::ImageError);

/// Calls `image::load_from_memory` and converts what it decoded with
/// `DynamicImage::to_rgb8`. The contract names the outcome after the input,
/// passes the codec's error on, and claims one fact of a decoded image: the
/// conversion allocates three samples for each pixel of the size it reports.
#[verifier::external_body]
fn load_rgb8(bytes: &[u8]) -> (r: Result<(u32, u32, Vec<u8>), image::ImageError>)
    ensures
        match r {
            Ok(raster) => {
                &&& raster.2@.len() == sample_count(raster.0 as nat, raster.1 as nat)
                &&& decoded_rgb8(bytes@) == Some(
                    RasterView {
                        width: raster.0 as nat,
                        height: raster.1 as nat,
                        pixels: raster.2@,
                    },
                )
            },
            Err(_) => decoded_rgb8(bytes@) is None,
        },
{
    let rgb = image::load_from_memory(bytes)?.to_rgb8();
    Ok((rgb.width(), rgb.height(), rgb.into_raw()))
}

/// Calls `image::imageops::resize` with `FilterType::Nearest` on the samples
/// seen as an RGB image. The contract names the result after the arguments and
/// claims two facts of it: the resampler returns a buffer of the size asked
/// for, and where that is the size of the source it returns a copy. The
/// `requires` keeps away the sizes on which its allocations panic.
#[verifier::external_body]
fn resize_nearest(
    source_width: u32,
    source_height: u32,
    pixels: &[u8],
    width: u32,
    height: u32,
) -> (out: Vec<u8>)
    requires
        pixels@.len() == sample_count(source_width as nat, source_height as nat),
        resize_fits(
            RasterView {
                width: source_width as nat,
                height: source_height as nat,
                pixels: pixels@,
            },
            width,
            height,
        ),
    ensures
        out@.len() == sample_count(width as nat, height as nat),
        source_width == width && source_height == height ==> out@ == pixels@,
        out@ == resized_nearest(
            RasterView {
                width: source_width as nat,
                height: source_height as nat,
                pixels: pixels@,
            },
            width,
            height,
        ),
{
    let source = image::ImageBuffer::<image::Rgb<u8>, &[u8]>::from_raw(
        source_width,
        source_height,
        pixels,
    ).unwrap();
    image::imageops::resize(&source, width, height, image::imageops::FilterType::Nearest).into_raw()
}

/// The number of pixels in a grid of `width` by `height`, which always fits
/// in 64 bits.
fn pixel_count(width: u32, height: u32) -> (count: u128)
    ensures
        count == width * height,
        count <= 0xFFFF_FFFE_0000_0001,
{
    assert(width * height <= 0xFFFF_FFFFu32 * 0xFFFF_FFFFu32) by (nonlinear_arith)
        requires
            width <= 0xFFFF_FFFFu32,
            height <= 0xFFFF_FFFFu32,
    ;
    (width as u128) * (height as u128)
}

impl RasterImage {
    #[verifier::type_invariant]
    pub open spec fn inv(self) -> bool {
        self@.well_formed()
    }

    /// A raster of the given size over the given samples, if there are
    /// exactly three of them for each pixel.
    pub fn new(width: u32, height: u32, pixels: Vec<u8>) -> (r: Option<RasterImage>)
        ensures
            r is Some <==> pixels@.len() == sample_count(width as nat, height as nat),
            r matches Some(img) ==> img@ == (RasterView {
                width: width as nat,
                height: height as nat,
                pixels: pixels@,
            }),
    {
        let needed: u128 = 3 * pixel_count(width, height);
        if pixels.len() as u128 == needed {
            Some(RasterImage { width, height, pixels })
        } else {
            None
        }
    }

    /// The number of pixels in a row.
    pub fn width(&self) -> (w: u32)
        ensures
            w == self@.width,
    {
        self.width
    }

    /// The number of rows.
    pub fn height(&self) -> (h: u32)
        ensures
            h == self@.height,
    {
        self.height
    }

    /// The samples, row by row from the top, three for each pixel.
    pub fn pixels(&self) -> (samples: &[u8])
        ensures
            samples@ == self@.pixels,
            samples@.len() == sample_count(self@.width, self@.height),
    {
        proof {
            use_type_invariant(self);
        }
        self.pixels.as_slice()
    }

    /// Decodes an image in any format the codec knows. Bytes that the codec
    /// does not take for an image are an invalid image, whatever its reason.
    pub fn decode(bytes: &[u8]) -> (r: Result<RasterImage, Error>)
        ensures
            match r {
                Ok(img) => decoded_rgb8(bytes@) == Some(img@),
                Err(e) => e == Error::InvalidImage && decoded_rgb8(bytes@) is None,
            },
    {
        match load_rgb8(bytes) {
            Ok((width, height, pixels)) => Ok(RasterImage { width, height, pixels }),
            Err(_) => Err(Error::InvalidImage),
        }
    }

    /// Whether this raster can be resampled to `width` by `height`.
    pub fn can_resize(&self, width: u32, height: u32) -> (fits: bool)
        ensures
            fits == resize_fits(self@, width, height),
    {
        if self.width == width && self.height == height {
            return true;
        }
        let limit: u128 = isize::MAX as u128;
        let intermediate: u128 = 16 * pixel_count(self.width, height);
        let result: u128 = 3 * pixel_count(width, height);
        intermediate <= limit && result <= limit
    }

    /// This raster resampled to exactly `width` by `height` pixels with the
    /// nearest-neighbour filter: no blending, no regard for the aspect ratio.
    pub fn resize_exact(&self, width: u32, height: u32) -> (r: RasterImage)
        requires
            resize_fits(self@, width, height),
        ensures
            r@ == resampled(self@, width, height),
            resampling_holds(self@, width, height),
    {
        proof {
            use_type_invariant(self);
        }
        let pixels = resize_nearest(
            self.width,
            self.height,
            self.pixels.as_slice(),
            width,
            height,
        );
        RasterImage { width, height, pixels }
    }
}

} // verus!
