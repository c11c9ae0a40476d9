//! The wire layout: the width in decimal, `x`, the height in decimal, `;`,
//! then the samples of every pixel, row by row, with nothing after them.

use crate::decimal::{
    decimal, is_digit, lemma_decimal_injective, lemma_decimal_shape, push_decimal,
};
use crate::raster::{resampled, resampling_holds, resize_fits, RasterImage, RasterView};
use vstd::prelude::*;

verus! {

/// Stands between the width and the height.
pub const DIMENSION_SEPARATOR: u8 = 120;

/// Ends the header.
pub const HEADER_END: u8 = 59;

/// The header that announces a grid of `width` by `height` pixels.
pub open spec fn header(width: nat, height: nat) -> Seq<u8> {
    decimal(width).push(DIMENSION_SEPARATOR) + decimal(height).push(HEADER_END)
}

/// The payload that carries `raster`: its header, then its samples.
pub open spec fn payload(raster: RasterView) -> Seq<u8> {
    header(raster.width, raster.height) + raster.pixels
}

/// Where two sequences each start with digits and then the same mark that
/// is no digit, and are equal as a whole, the digits are the same and so is
/// what follows the mark.
proof fn lemma_split_at_mark(
    x: Seq<u8>,
    rest_x: Seq<u8>,
    y: Seq<u8>,
    rest_y: Seq<u8>,
    mark: u8,
)
    requires
        forall|i: int| 0 <= i < x.len() ==> is_digit(#[trigger] x[i]),
        forall|i: int| 0 <= i < y.len() ==> is_digit(#[trigger] y[i]),
        !is_digit(mark),
        x.push(mark) + rest_x == y.push(mark) + rest_y,
    ensures
        x == y,
        rest_x == rest_y,
{
    let whole = x.push(mark) + rest_x;
    if x.len() < y.len() {
        assert(whole[x.len() as int] == mark);
        assert(whole[x.len() as int] == y[x.len() as int]);
    }
    if y.len() < x.len() {
        assert(whole[y.len() as int] == mark);
        assert(whole[y.len() as int] == x[y.len() as int]);
    }
    assert(x.len() == y.len());
    assert forall|i: int| 0 <= i < x.len() implies x[i] == y[i] by {
        assert(whole[i] == x[i]);
        assert(whole[i] == y[i]);
    }
    assert(x =~= y);
    assert(rest_x =~= whole.subrange(x.len() as int + 1, whole.len() as int));
    assert(rest_y =~= whole.subrange(y.len() as int + 1, whole.len() as int));
}

/// A payload can be read back: two rasters with the same payload have the
/// same width, the same height and the same samples.
pub proof fn lemma_payload_injective(a: RasterView, b: RasterView)
    requires
        payload(a) == payload(b),
    ensures
        a == b,
{
    lemma_decimal_shape(a.width);
    lemma_decimal_shape(a.height);
    lemma_decimal_shape(b.width);
    lemma_decimal_shape(b.height);
    let tail_a = decimal(a.height).push(HEADER_END) + a.pixels;
    let tail_b = decimal(b.height).push(HEADER_END) + b.pixels;
    assert(payload(a) =~= decimal(a.width).push(DIMENSION_SEPARATOR) + tail_a);
    assert(payload(b) =~= decimal(b.width).push(DIMENSION_SEPARATOR) + tail_b);
    lemma_split_at_mark(decimal(a.width), tail_a, decimal(b.width), tail_b, DIMENSION_SEPARATOR);
    lemma_split_at_mark(decimal(a.height), a.pixels, decimal(b.height), b.pixels, HEADER_END);
    lemma_decimal_injective(a.width, b.width);
    lemma_decimal_injective(a.height, b.height);
}

/// The length of a payload is the length of its header and three bytes for
/// each pixel.
pub proof fn lemma_payload_len(raster: RasterView)
    requires
        raster.well_formed(),
    ensures
        payload(raster).len() == header(raster.width, raster.height).len() + 3 * raster.width
            * raster.height,
{
    assert(3 * (raster.width * raster.height) == 3 * raster.width * raster.height)
        by (nonlinear_arith);
}

/// Writes `img` in the wire layout.
pub fn encode(img: &RasterImage) -> (out: Vec<u8>)
    ensures
        out@ == payload(img@),
{
    let mut out: Vec<u8> = Vec::new();
    push_decimal(&mut out, img.width());
    out.push(DIMENSION_SEPARATOR);
    push_decimal(&mut out, img.height());
    out.push(HEADER_END);
    assert(out@ =~= header(img@.width, img@.height));
    out.extend_from_slice(img.pixels());
    assert(out@ =~= payload(img@));
    out
}

/// Resamples `img` to exactly `width` by `height` pixels with the
/// nearest-neighbour filter and writes the result in the wire layout.
pub fn image_to_expression2_format(img: &RasterImage, width: u32, height: u32) -> (out: Vec<u8>)
    requires
        resize_fits(img@, width, height),
    ensures
        out@ == payload(resampled(img@, width, height)),
        resampling_holds(img@, width, height),
        out@.len() == header(width as nat, height as nat).len() + 3 * width * height,
        width == 0 || height == 0 ==> out@ == header(width as nat, height as nat),
        img@.width == width && img@.height == height ==> out@ == payload(img@),
{
    let resized = img.resize_exact(width, height);
    let out = encode(&resized);
    proof {
        use_type_invariant(&resized);
        lemma_payload_len(resized@);
        if width == 0 || height == 0 {
            assert(width * height == 0) by (nonlinear_arith)
                requires
                    width == 0 || height == 0,
            ;
            assert(resized@.pixels =~= Seq::<u8>::empty());
            assert(out@ =~= header(width as nat, height as nat));
        }
    }
    out
}

} // verus!
