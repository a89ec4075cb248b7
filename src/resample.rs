//! Downsampling by a factor of ten with a triangle filter.
use vstd::prelude::*;
use crate::grid::{Rgb, RgbGrid, channels, samples, to_channels, from_channels};

verus! {

/// The factor by which each dimension shrinks.
pub const SCALE: u32 = 10;

/// The bytes of a `w` by `h` RGB image, three per sample, resampled to `nw`
/// by `nh` with a triangle filter.
pub uninterp spec fn triangle_resized(raw: Seq<u8>, w: u32, h: u32, nw: u32, nh: u32) -> Seq<u8>;

/// Relies on `image::imageops::resize` with `FilterType::Triangle` on an
/// `RgbImage` built by `ImageBuffer::from_raw`: the result is a new `nw` by
/// `nh` image, read back by `ImageBuffer::into_raw`, that depends on the
/// input alone.
#[verifier::external_body]
fn resize_triangle(raw: Vec<u8>, w: u32, h: u32, nw: u32, nh: u32) -> (r: Vec<u8>)
    requires
        raw@.len() == 3 * (w as int * h as int),
        0 < nw,
        0 < nh,
        nw * SCALE <= w,
        nh * SCALE <= h,
    ensures
        r@.len() == 3 * (nw as int * nh as int),
        r@ == triangle_resized(raw@, w, h, nw, nh),
{
    let img = image::RgbImage::from_raw(w, h, raw).unwrap();
    image::imageops::resize(&img, nw, nh, image::imageops::FilterType::Triangle).into_raw()
}

/// The samples of the downsampled grid: none where a dimension drops to
/// zero, else those of the triangle-filtered image.
pub open spec fn scaled_pixels(img: RgbGrid) -> Seq<Rgb> {
    let nw = (img.width / SCALE) as u32;
    let nh = (img.height / SCALE) as u32;
    if nw == 0 || nh == 0 {
        Seq::empty()
    } else {
        samples(triangle_resized(channels(img.pixels@), img.width, img.height, nw, nh))
    }
}

/// Shrinks each dimension to a tenth, rounded down, blending the covered
/// samples with a triangle filter. A dimension under ten becomes zero and the
/// grid then holds no samples.
pub fn scale_image(img: &RgbGrid) -> (r: RgbGrid)
    requires
        img.wf(),
        3 * img.pixels@.len() <= usize::MAX,
    ensures
        r.wf(),
        r.width == img.width / SCALE,
        r.height == img.height / SCALE,
        img.width < SCALE || img.height < SCALE ==> r.width == 0 || r.height == 0,
        r.pixels@ == scaled_pixels(*img),
{
    let new_width = img.width / SCALE;
    let new_height = img.height / SCALE;
    if new_width == 0 || new_height == 0 {
        assert(new_width as int * new_height as int == 0) by (nonlinear_arith)
            requires
                new_width == 0 || new_height == 0,
        ;
        return RgbGrid { width: new_width, height: new_height, pixels: Vec::new() };
    }
    let raw = to_channels(&img.pixels);
    let scaled = resize_triangle(raw, img.width, img.height, new_width, new_height);
    let pixels = from_channels(&scaled);
    RgbGrid { width: new_width, height: new_height, pixels }
}

} // verus!
