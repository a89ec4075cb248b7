//! Rectangular grids of RGB samples, stored row by row.
use vstd::prelude::*;

verus! {

/// One RGB sample.
#[derive(Clone, Copy, Debug, PartialEq, Eq, Structural)]
pub struct Rgb {
    pub r: u8,
    pub g: u8,
    pub b: u8,
}

/// A `width` by `height` grid of samples in row-major order, origin at the
/// top left.
#[derive(Debug)]
pub struct RgbGrid {
    pub width: u32,
    pub height: u32,
    pub pixels: Vec<Rgb>,
}

/// Channel `c` (0 red, 1 green, 2 blue) of `p`.
pub open spec fn channel_of(p: Rgb, c: int) -> u8 {
    if c == 0 {
        p.r
    } else if c == 1 {
        p.g
    } else {
        p.b
    }
}

/// The samples spelled out as bytes, three per sample, red first.
pub open spec fn channels(s: Seq<Rgb>) -> Seq<u8> {
    Seq::new((3 * s.len()) as nat, |k: int| channel_of(s[k / 3], k % 3))
}

/// Bytes read back as samples, three per sample, red first.
pub open spec fn samples(raw: Seq<u8>) -> Seq<Rgb> {
    Seq::new(raw.len() / 3, |i: int| Rgb { r: raw[3 * i], g: raw[3 * i + 1], b: raw[3 * i + 2] })
}

impl RgbGrid {
    /// The sample count agrees with the dimensions.
    pub open spec fn wf(&self) -> bool {
        self.pixels@.len() == self.width as int * self.height as int
    }

    /// The sample in column `x` of row `y`.
    pub open spec fn pixel_at(&self, x: int, y: int) -> Rgb {
        self.pixels@[y * self.width as int + x]
    }

    /// A black grid of the given size.
    pub fn new(width: u32, height: u32) -> (g: RgbGrid)
        requires
            width as int * height as int <= usize::MAX,
        ensures
            g.wf(),
            g.width == width,
            g.height == height,
            forall|i: int| 0 <= i < g.pixels@.len() ==> g.pixels@[i] == (Rgb { r: 0, g: 0, b: 0 }),
    {
        let n: usize = (width as usize) * (height as usize);
        let mut pixels: Vec<Rgb> = Vec::new();
        let mut i: usize = 0;
        while i < n
            invariant
                i <= n,
                pixels@.len() == i,
                forall|k: int| 0 <= k < i ==> pixels@[k] == (Rgb { r: 0, g: 0, b: 0 }),
            decreases n - i,
        {
            pixels.push(Rgb { r: 0, g: 0, b: 0 });
            i += 1;
        }
        RgbGrid { width, height, pixels }
    }

    /// A grid over the given samples; `None` where their count is not
    /// `width * height`.
    pub fn from_pixels(width: u32, height: u32, pixels: Vec<Rgb>) -> (g: Option<RgbGrid>)
        ensures
            g is Some <==> pixels@.len() == width as int * height as int,
            g matches Some(g) ==> g.wf() && g.width == width && g.height == height && g.pixels
                == pixels,
    {
        assert(width as int * height as int <= u32::MAX as int * u32::MAX as int) by (nonlinear_arith)
            requires
                width <= u32::MAX,
                height <= u32::MAX,
        ;
        if (width as u128) * (height as u128) == pixels.len() as u128 {
            Some(RgbGrid { width, height, pixels })
        } else {
            None
        }
    }

    /// The sample in column `x` of row `y`.
    pub fn get_pixel(&self, x: u32, y: u32) -> (p: Rgb)
        requires
            self.wf(),
            x < self.width,
            y < self.height,
        ensures
            p == self.pixel_at(x as int, y as int),
    {
        let _n: usize = self.pixels.len();
        let i = Self::index_of(self.width, self.height, x, y);
        self.pixels[i]
    }

    /// Sets the sample in column `x` of row `y`, leaving the others.
    pub fn put_pixel(&mut self, x: u32, y: u32, p: Rgb)
        requires
            old(self).wf(),
            x < old(self).width,
            y < old(self).height,
        ensures
            final(self).wf(),
            final(self).width == old(self).width,
            final(self).height == old(self).height,
            final(self).pixels@ == old(self).pixels@.update(
                y as int * old(self).width as int + x as int,
                p,
            ),
    {
        let _n: usize = self.pixels.len();
        let i = Self::index_of(self.width, self.height, x, y);
        self.pixels.set(i, p);
    }

    fn index_of(width: u32, height: u32, x: u32, y: u32) -> (i: usize)
        requires
            x < width,
            y < height,
            width as int * height as int <= usize::MAX,
        ensures
            i == y as int * width as int + x as int,
            i < width as int * height as int,
    {
        proof {
            lemma_row_major_index(width as int, height as int, x as int, y as int);
        }
        (y as usize) * (width as usize) + (x as usize)
    }
}

/// Column `x` of row `y` lies inside a `w` by `h` grid.
pub proof fn lemma_row_major_index(w: int, h: int, x: int, y: int)
    requires
        0 <= x < w,
        0 <= y < h,
    ensures
        0 <= y * w + x < w * h,
        y * w + w <= w * h,
{
    assert(0 <= y * w + x < w * h && y * w + w <= w * h) by (nonlinear_arith)
        requires
            0 <= x < w,
            0 <= y < h,
    ;
}

/// The bytes of a sample sequence, three per sample.
pub fn to_channels(pixels: &Vec<Rgb>) -> (raw: Vec<u8>)
    requires
        3 * pixels@.len() <= usize::MAX,
    ensures
        raw@ == channels(pixels@),
{
    let mut raw: Vec<u8> = Vec::new();
    let mut i: usize = 0;
    while i < pixels.len()
        invariant
            i <= pixels@.len(),
            3 * pixels@.len() <= usize::MAX,
            raw@.len() == 3 * i,
            forall|k: int| 0 <= k < 3 * i ==> raw@[k] == channel_of(pixels@[k / 3], k % 3),
        decreases pixels@.len() - i,
    {
        let p = pixels[i];
        raw.push(p.r);
        raw.push(p.g);
        raw.push(p.b);
        i += 1;
    }
    assert(raw@ =~= channels(pixels@));
    raw
}

/// The samples of a byte sequence whose length is a multiple of three.
pub fn from_channels(raw: &Vec<u8>) -> (pixels: Vec<Rgb>)
    requires
        raw@.len() % 3 == 0,
    ensures
        pixels@ == samples(raw@),
{
    let n: usize = raw.len() / 3;
    let mut pixels: Vec<Rgb> = Vec::new();
    let mut i: usize = 0;
    while i < n
        invariant
            n == raw@.len() / 3,
            raw@.len() % 3 == 0,
            raw@.len() <= usize::MAX,
            i <= n,
            pixels@.len() == i,
            forall|j: int|
                0 <= j < i ==> pixels@[j] == (Rgb {
                    r: raw@[3 * j],
                    g: raw@[3 * j + 1],
                    b: raw@[3 * j + 2],
                }),
        decreases n - i,
    {
        assert(3 * i + 2 < raw@.len());
        let k: usize = 3 * i;
        pixels.push(Rgb { r: raw[k], g: raw[k + 1], b: raw[k + 2] });
        i += 1;
    }
    assert(pixels@ =~= samples(raw@));
    pixels
}

} // verus!
