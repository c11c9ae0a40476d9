//! From the bytes of a source to the payload: decode, resample, encode. Any
//! failure on the way ends the request, and no partial payload is returned.

use crate::error::Error;
use crate::query::{target_dimensions, ImageQuery};
use crate::raster::{
    decoded_rgb8, resampled, resampling_holds, resize_fits, RasterImage, RasterView,
};
use crate::wire::{image_to_expression2_format, payload};
use vstd::prelude::*;

verus! {

/// The payload for `source` at the size that `query` asks for.
pub open spec fn payload_for(source: RasterView, query: ImageQuery) -> Seq<u8> {
    payload(resampled(source, target_dimensions(query).0, target_dimensions(query).1))
}

/// Whether `source` can be resampled to the size that `query` asks for.
pub open spec fn query_fits(source: RasterView, query: ImageQuery) -> bool {
    resize_fits(source, target_dimensions(query).0, target_dimensions(query).1)
}

/// Whether `outcome` is what rendering gives for a source that decoded to
/// `decoded`: the payload of the decoded raster, the invalid-image error where
/// there is none, and no result at all where the raster cannot be resampled
/// to the size asked for.
pub open spec fn is_rendering(
    outcome: Option<Result<Vec<u8>, Error>>,
    decoded: Option<RasterView>,
    query: ImageQuery,
) -> bool {
    match decoded {
        None => outcome == Some(Err::<Vec<u8>, Error>(Error::InvalidImage)),
        Some(source) => if query_fits(source, query) {
            &&& outcome matches Some(Ok(out)) && out@ == payload_for(source, query)
            &&& resampling_holds(source, target_dimensions(query).0, target_dimensions(query).1)
        } else {
            outcome is None
        },
    }
}

/// Finishes a request once its source has been decoded, or has failed: an
/// error passes through unchanged, a raster is resampled to the size that
/// `query` asks for and encoded. The result is `None` where that size is more
/// than the resampler can allocate; nothing is rendered then.
pub fn render(decoded: Result<RasterImage, Error>, query: &ImageQuery) -> (outcome: Option<
    Result<Vec<u8>, Error>,
>)
    ensures
        match decoded {
            Err(e) => outcome == Some(Err::<Vec<u8>, Error>(e)),
            Ok(img) => if query_fits(img@, *query) {
                &&& outcome matches Some(Ok(out)) && out@ == payload_for(img@, *query)
                &&& resampling_holds(
                    img@,
                    target_dimensions(*query).0,
                    target_dimensions(*query).1,
                )
            } else {
                outcome is None
            },
        },
{
    match decoded {
        Err(e) => Some(Err(e)),
        Ok(img) => {
            let (width, height) = query.width_height();
            if img.can_resize(width, height) {
                Some(Ok(image_to_expression2_format(&img, width, height)))
            } else {
                None
            }
        },
    }
}

/// Converts the bytes of a source to the payload: decodes them, then
/// resamples and encodes.
pub fn convert(bytes: &[u8], query: &ImageQuery) -> (outcome: Option<Result<Vec<u8>, Error>>)
    ensures
        is_rendering(outcome, decoded_rgb8(bytes@), *query),
{
    render(RasterImage::decode(bytes), query)
}

/// Serves a local image, given what reading it from the images directory
/// gave: `None` where the file is missing or unreadable, which is reported as
/// such and not as an invalid image.
pub fn local_image(contents: Option<Vec<u8>>, query: &ImageQuery) -> (outcome: Option<
    Result<Vec<u8>, Error>,
>)
    ensures
        match contents {
            None => outcome == Some(Err::<Vec<u8>, Error>(Error::ImageDoesntExist)),
            Some(bytes) => is_rendering(outcome, decoded_rgb8(bytes@), *query),
        },
{
    match contents {
        None => Some(Err(Error::ImageDoesntExist)),
        Some(bytes) => convert(bytes.as_slice(), query),
    }
}

} // verus!
