//! Layout of a glyph sequence as framed lines of text.
use vstd::prelude::*;

verus! {

/// Relies on `String::push`: appends the given char to the end of the string.
pub assume_specification[ String::push ](s: &mut String, ch: char)
    ensures
        final(s)@ == old(s)@.push(ch),
;

/// Why no text could be laid out.
#[derive(Clone, Copy, Debug, PartialEq, Eq, Structural)]
pub enum RenderError {
    /// The grid has no columns or no rows.
    EmptyImage,
}

/// The text for the glyph at 0-based position `i`: the glyph, then a line
/// break where `i` is a multiple of `width`.
pub open spec fn cell(c: char, i: int, width: int) -> Seq<char> {
    if i % width == 0 {
        seq![c, '\n']
    } else {
        seq![c]
    }
}

/// The glyphs laid out one after another, each followed by its break.
pub open spec fn layout(g: Seq<char>, width: int) -> Seq<char>
    decreases g.len(),
{
    if g.len() == 0 {
        Seq::empty()
    } else {
        layout(g.drop_last(), width) + cell(g.last(), g.len() - 1, width)
    }
}

/// The layout framed by a leading and a trailing line break.
pub open spec fn framed(g: Seq<char>, width: int) -> Seq<char> {
    seq!['\n'] + layout(g, width) + seq!['\n']
}

/// Lays the glyphs out as text: a line break first, then each glyph,
/// followed by a line break wherever its 0-based position is a multiple of
/// `width`, then a closing line break. A zero width is refused.
pub fn render(pixels: &Vec<char>, width: u32) -> (r: Result<String, RenderError>)
    ensures
        width == 0 <==> r is Err,
        r matches Err(e) ==> e == RenderError::EmptyImage,
        r matches Ok(s) ==> s@ == framed(pixels@, width as int),
{
    if width == 0 {
        return Err(RenderError::EmptyImage);
    }
    let mut text = String::new();
    text.push('\n');
    let mut i: usize = 0;
    while i < pixels.len()
        invariant
            width > 0,
            i <= pixels@.len(),
            text@ == seq!['\n'] + layout(pixels@.take(i as int), width as int),
        decreases pixels@.len() - i,
    {
        let c = pixels[i];
        text.push(c);
        let ghost before = pixels@.take(i as int);
        let ghost after = pixels@.take(i + 1);
        assert(after.drop_last() =~= before);
        if (i as u64) % (width as u64) == 0 {
            text.push('\n');
        }
        assert(text@ =~= seq!['\n'] + layout(after, width as int));
        i += 1;
    }
    assert(pixels@.take(i as int) =~= pixels@);
    text.push('\n');
    assert(text@ =~= framed(pixels@, width as int));
    Ok(text)
}

} // verus!
