//! Mapping from gray intensities to the glyph ramp.
use vstd::prelude::*;

verus! {

/// The ramp of glyphs, from darkest to brightest.
pub open spec fn ramp() -> Seq<char> {
    seq![':', ';', '|', '%', '$', '#', '@']
}

/// The glyph that stands for intensity `p`.
pub open spec fn glyph_of(p: u8) -> char {
    if p == 0 {
        ':'
    } else if p <= 50 {
        ';'
    } else if p <= 100 {
        '|'
    } else if p <= 151 {
        '%'
    } else if p <= 202 {
        '$'
    } else if p <= 252 {
        '#'
    } else {
        '@'
    }
}

/// The glyphs for a sequence of intensities, position by position.
pub open spec fn glyphs(s: Seq<u8>) -> Seq<char> {
    s.map_values(|p: u8| glyph_of(p))
}

/// Maps one intensity to its glyph.
pub fn glyph_for(p: u8) -> (c: char)
    ensures
        c == glyph_of(p),
        ramp().contains(c),
{
    let c = if p >= 253 {
        '@'
    } else if p >= 203 {
        '#'
    } else if p >= 152 {
        '$'
    } else if p >= 101 {
        '%'
    } else if p >= 51 {
        '|'
    } else if p >= 1 {
        ';'
    } else {
        ':'
    };
    proof {
        lemma_glyph_in_ramp(p);
    }
    c
}

/// Maps every intensity to its glyph, keeping the order.
pub fn ascii_encode(pixels: &Vec<u8>) -> (r: Vec<char>)
    ensures
        r@ == glyphs(pixels@),
{
    let mut ascii: Vec<char> = Vec::new();
    let mut i: usize = 0;
    while i < pixels.len()
        invariant
            i <= pixels@.len(),
            ascii@ == glyphs(pixels@.take(i as int)),
        decreases pixels@.len() - i,
    {
        let c = glyph_for(pixels[i]);
        ascii.push(c);
        assert(pixels@.take(i + 1) =~= pixels@.take(i as int).push(pixels@[i as int]));
        i += 1;
    }
    assert(pixels@.take(i as int) =~= pixels@);
    ascii
}

proof fn lemma_glyph_in_ramp(p: u8)
    ensures
        ramp()[ramp_index(p)] == glyph_of(p),
        0 <= ramp_index(p) < 7,
        ramp().contains(glyph_of(p)),
{
    let i = ramp_index(p);
    assert(ramp()[i] == glyph_of(p));
}

/// Position in the ramp of the glyph for `p`.
pub open spec fn ramp_index(p: u8) -> int {
    if p == 0 {
        0
    } else if p <= 50 {
        1
    } else if p <= 100 {
        2
    } else if p <= 151 {
        3
    } else if p <= 202 {
        4
    } else if p <= 252 {
        5
    } else {
        6
    }
}

/// `c` stands at exactly one position of the ramp.
pub open spec fn once_in_ramp(c: char) -> bool {
    exists|i: int|
        0 <= i < 7 && #[trigger] ramp()[i] == c && (forall|j: int|
            0 <= j < 7 && #[trigger] ramp()[j] == c ==> j == i)
}

/// The mapping is total and partitions all bytes over the ramp: every
/// intensity maps to exactly one of the seven glyphs, and the darkest and
/// brightest glyphs and the boundary between `;` and `|` sit at 0, 255 and
/// 50/51.
pub proof fn lemma_glyph_total()
    ensures
        forall|p: u8| #[trigger] once_in_ramp(glyph_of(p)),
        glyph_of(0) == ':',
        glyph_of(50) == ';',
        glyph_of(51) == '|',
        glyph_of(255) == '@',
{
    assert forall|p: u8| #[trigger] once_in_ramp(glyph_of(p)) by {
        lemma_glyph_in_ramp(p);
        let i = ramp_index(p);
        assert forall|j: int| 0 <= j < 7 && #[trigger] ramp()[j] == glyph_of(p) implies j == i by {
            assert(ramp()[0] == ':' && ramp()[1] == ';' && ramp()[2] == '|' && ramp()[3] == '%'
                && ramp()[4] == '$' && ramp()[5] == '#' && ramp()[6] == '@');
        }
    }
}

} // verus!
