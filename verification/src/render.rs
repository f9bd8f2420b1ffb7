//! Turning a raster into the text that draws it.
//!
//! Every row of the image becomes one line: a line break, the blanks that
//! centre it, and one coloured glyph for each pixel. The alpha sample is
//! not used. An image without columns has no rows to draw.

use crate::frame::{Raster, RasterView};
use crate::glyph::{coloured_glyph, push_coloured_glyph};
use vstd::prelude::*;

verus! {

/// What starts every row: line feed, then carriage return.
pub open spec fn line_break() -> Seq<char> {
    seq!['\n', '\r']
}

/// `count` blank cells.
pub open spec fn blanks(count: nat) -> Seq<char> {
    Seq::new(count, |i: int| ' ')
}

/// The coloured cells of `count` pixels in a row, from pixel number `first` on.
pub open spec fn cells(glyph: char, samples: Seq<u8>, first: int, count: nat) -> Seq<char>
    decreases count,
{
    if count == 0 {
        Seq::empty()
    } else {
        let pixel = first + count - 1;
        cells(glyph, samples, first, (count - 1) as nat) + coloured_glyph(
            glyph,
            samples[4 * pixel],
            samples[4 * pixel + 1],
            samples[4 * pixel + 2],
        )
    }
}

/// The text of row `y`.
pub open spec fn row_text(glyph: char, image: RasterView, padding: nat, y: int) -> Seq<char> {
    line_break() + blanks(padding) + cells(glyph, image.samples, y * image.width, image.width)
}

/// The text of the first `count` rows.
pub open spec fn rows_text(glyph: char, image: RasterView, padding: nat, count: nat) -> Seq<char>
    decreases count,
{
    if count == 0 {
        Seq::empty()
    } else {
        rows_text(glyph, image, padding, (count - 1) as nat) + row_text(glyph, image, padding, count - 1)
    }
}

/// The text that draws the whole image.
pub open spec fn image_text(glyph: char, image: RasterView, padding: nat) -> Seq<char> {
    if image.width == 0 {
        Seq::empty()
    } else {
        rows_text(glyph, image, padding, image.height)
    }
}

/// Pixel `x` of row `y` lies inside the sample buffer.
proof fn lemma_pixel_in_bounds(image: RasterView, x: int, y: int)
    requires
        image.wf(),
        0 <= x < image.width,
        0 <= y < image.height,
    ensures
        0 <= y * image.width + x,
        4 * (y * image.width + x) + 3 < image.samples.len(),
        (y + 1) * image.width <= image.width * image.height,
{
    let w = image.width as int;
    let h = image.height as int;
    assert(0 <= y * w && (y + 1) * w <= w * h && (y + 1) * w == y * w + w && 4 * w * h == 4 * (w * h))
        by (nonlinear_arith)
        requires
            0 <= y < h,
            0 <= w,
    ;
}

/// Appends `count` blanks.
fn push_blanks(text: &mut String, count: u16)
    ensures
        final(text)@ == old(text)@ + blanks(count as nat),
{
    let mut done: u16 = 0;
    while done < count
        invariant
            done <= count,
            text@ == old(text)@ + blanks(done as nat),
        decreases count - done,
    {
        text.push(' ');
        done += 1;
        assert(text@ =~= old(text)@ + blanks(done as nat));
    }
    assert(text@ =~= old(text)@ + blanks(count as nat));
}

/// Appends the text of row `y`.
fn push_row(text: &mut String, glyph: char, image: &Raster, padding: u16, y: u32)
    requires
        y < image@.height,
    ensures
        final(text)@ == old(text)@ + row_text(glyph, image@, padding as nat, y as int),
{
    let samples = image.samples();
    let width: usize = image.width() as usize;
    proof {
        reveal_strlit("\n\r");
    }
    text.append("\n\r");
    push_blanks(text, padding);
    let ghost start = text@;
    assert(start =~= old(text)@ + line_break() + blanks(padding as nat));
    let ghost first = y as int * width as int;
    let mut x: usize = 0;
    while x < width
        invariant
            x <= width,
            width == image@.width,
            y < image@.height,
            image@.wf(),
            samples@ == image@.samples,
            first == y as int * width as int,
            text@ == start + cells(glyph, image@.samples, first, x as nat),
        decreases width - x,
    {
        proof {
            lemma_pixel_in_bounds(image@, x as int, y as int);
            assert(samples@.len() == samples.len());
            assert(0 <= y as int * width as int) by (nonlinear_arith)
                requires
                    0 <= y,
                    0 <= width,
            ;
        }
        let at: usize = 4 * (y as usize * width + x);
        push_coloured_glyph(text, glyph, samples[at], samples[at + 1], samples[at + 2]);
        x += 1;
        assert(text@ =~= start + cells(glyph, image@.samples, first, x as nat));
    }
    assert(text@ =~= old(text)@ + row_text(glyph, image@, padding as nat, y as int));
}

/// Draws `image` as text, every row behind `padding` blanks.
pub fn render(glyph: char, image: &Raster, padding: u16) -> (text: String)
    ensures
        text@ == image_text(glyph, image@, padding as nat),
{
    let mut text = String::new();
    if image.width() == 0 {
        return text;
    }
    let height = image.height();
    let mut y: u32 = 0;
    while y < height
        invariant
            y <= height,
            height == image@.height,
            text@ == rows_text(glyph, image@, padding as nat, y as nat),
        decreases height - y,
    {
        push_row(&mut text, glyph, image, padding, y);
        y += 1;
    }
    text
}

} // verus!
