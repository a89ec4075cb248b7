//! Reduction of RGB samples to gray intensities.
use vstd::prelude::*;
use crate::grid::{Rgb, RgbGrid, lemma_row_major_index};

verus! {

/// The truncated mean of the three channels.
pub open spec fn intensity(p: Rgb) -> u8 {
    ((p.r as int + p.g as int + p.b as int) / 3) as u8
}

/// The intensities of a sample sequence, position by position.
pub open spec fn intensities(s: Seq<Rgb>) -> Seq<u8> {
    s.map_values(|p: Rgb| intensity(p))
}

/// Row `y` of a row-major sequence with rows of `w` items.
pub open spec fn row<T>(s: Seq<T>, w: int, y: int) -> Seq<T> {
    s.subrange(y * w, y * w + w)
}

/// The intensity of one sample.
pub fn gray_of(p: Rgb) -> (v: u8)
    ensures
        v == intensity(p),
{
    ((p.r as u32 + p.g as u32 + p.b as u32) / 3) as u8
}

/// The intensity of every sample of the grid, row by row and, within a row,
/// column by column.
pub fn average_rgb_values(img: &RgbGrid) -> (r: Vec<u8>)
    requires
        img.wf(),
    ensures
        r@ == intensities(img.pixels@),
        r@.len() == img.width as int * img.height as int,
{
    let w = img.width;
    let h = img.height;
    let mut average_color: Vec<u8> = Vec::new();
    let mut y: u32 = 0;
    while y < h
        invariant
            img.wf(),
            w == img.width,
            h == img.height,
            y <= h,
            average_color@ == intensities(img.pixels@.take(y as int * w as int)),
        decreases h - y,
    {
        let mut x: u32 = 0;
        while x < w
            invariant
                img.wf(),
                w == img.width,
                h == img.height,
                y < h,
                x <= w,
                average_color@ == intensities(img.pixels@.take(y as int * w as int + x as int)),
            decreases w - x,
        {
            let ghost k = y as int * w as int + x as int;
            proof {
                lemma_row_major_index(w as int, h as int, x as int, y as int);
            }
            let pixel = img.get_pixel(x, y);
            average_color.push(gray_of(pixel));
            assert(img.pixels@.take(k + 1) =~= img.pixels@.take(k).push(img.pixels@[k]));
            x += 1;
        }
        assert(y as int * w as int + w as int == (y as int + 1) * w as int) by (nonlinear_arith);
        y += 1;
    }
    assert(img.pixels@.take(h as int * w as int) =~= img.pixels@);
    average_color
}

/// A grid whose samples all carry `v` in each channel reduces to `v` at
/// every one of its `width * height` positions.
pub proof fn lemma_uniform_intensity(img: RgbGrid, v: u8)
    requires
        img.wf(),
        forall|i: int| 0 <= i < img.pixels@.len() ==> img.pixels@[i] == (Rgb { r: v, g: v, b: v }),
    ensures
        intensities(img.pixels@).len() == img.width as int * img.height as int,
        forall|i: int|
            0 <= i < img.width as int * img.height as int ==> intensities(img.pixels@)[i] == v,
{
}

/// Permuting the rows of a grid permutes the rows of its intensities in the
/// same way: where row `y` of `b` is row `perm[y]` of `a`, row `y` of the
/// intensities of `b` is row `perm[y]` of the intensities of `a`.
pub proof fn lemma_rows_permuted(a: RgbGrid, b: RgbGrid, perm: Seq<int>)
    requires
        a.wf(),
        b.wf(),
        a.width == b.width,
        a.height == b.height,
        perm.len() == a.height,
        forall|y: int| 0 <= y < perm.len() ==> 0 <= #[trigger] perm[y] < a.height,
        forall|y: int, z: int| 0 <= y < z < perm.len() ==> perm[y] != perm[z],
        forall|y: int|
            0 <= y < a.height ==> #[trigger] row(b.pixels@, b.width as int, y) == row(
                a.pixels@,
                a.width as int,
                perm[y],
            ),
    ensures
        intensities(b.pixels@).len() == intensities(a.pixels@).len(),
        forall|y: int|
            0 <= y < a.height ==> #[trigger] row(intensities(b.pixels@), a.width as int, y) == row(
                intensities(a.pixels@),
                a.width as int,
                perm[y],
            ),
{
    let w = a.width as int;
    let h = a.height as int;
    assert forall|y: int| 0 <= y < h implies #[trigger] row(intensities(b.pixels@), w, y) == row(
        intensities(a.pixels@),
        w,
        perm[y],
    ) by {
        let z = perm[y];
        if w > 0 {
            lemma_row_major_index(w, h, 0, y);
            lemma_row_major_index(w, h, 0, z);
        } else {
            assert(y * w == 0 && z * w == 0) by (nonlinear_arith)
                requires
                    w == 0,
            ;
        }
        assert(row(b.pixels@, w, y) == row(a.pixels@, w, z));
        assert(row(intensities(b.pixels@), w, y) =~= intensities(row(b.pixels@, w, y)));
        assert(row(intensities(a.pixels@), w, z) =~= intensities(row(a.pixels@, w, z)));
    }
}

} // verus!
