//! The whole conversion from a grid of samples to framed ASCII text.
use vstd::prelude::*;
use crate::glyph::{ascii_encode, glyphs};
use crate::gray::{average_rgb_values, intensities};
use crate::grid::RgbGrid;
use crate::render::{RenderError, framed, render};
use crate::resample::{SCALE, scale_image, scaled_pixels};

verus! {

/// The text for an already downsampled grid: each sample reduced to its
/// intensity, mapped to its glyph and laid out at the grid's width. A grid
/// with no columns or no rows is refused.
pub fn render_scaled(scaled: &RgbGrid) -> (r: Result<String, RenderError>)
    requires
        scaled.wf(),
    ensures
        r is Err <==> scaled.width == 0 || scaled.height == 0,
        r matches Err(e) ==> e == RenderError::EmptyImage,
        r matches Ok(s) ==> s@ == framed(
            glyphs(intensities(scaled.pixels@)),
            scaled.width as int,
        ),
{
    if scaled.width == 0 || scaled.height == 0 {
        return Err(RenderError::EmptyImage);
    }
    let grayscale = average_rgb_values(scaled);
    let pixels = ascii_encode(&grayscale);
    render(&pixels, scaled.width)
}

/// Converts an image to ASCII art: downsample by ten, then reduce, map and
/// lay out. An image with a dimension under ten has nothing to show and is
/// refused.
pub fn ascii_art(img: &RgbGrid) -> (r: Result<String, RenderError>)
    requires
        img.wf(),
        3 * img.pixels@.len() <= usize::MAX,
    ensures
        r is Err <==> img.width < SCALE || img.height < SCALE,
        r matches Err(e) ==> e == RenderError::EmptyImage,
        r matches Ok(s) ==> s@ == framed(
            glyphs(intensities(scaled_pixels(*img))),
            (img.width / SCALE) as int,
        ),
{
    let scaled = scale_image(img);
    render_scaled(&scaled)
}

} // verus!
