//! How much of a terminal a text takes when it is written there.
//!
//! The terminal is followed only as far as sizes go: the line and column
//! of the cursor, and the widest column that anything was written to.
//! Control sequences take no room, a line feed moves one line down, a
//! carriage return goes back to the first column, and every other
//! character that is no control character takes one cell. Characters
//! that a terminal draws two cells wide, or on top of the one before, are
//! counted as one cell like the rest; the other control characters are
//! taken not to move the cursor.

use crate::frame::RasterView;
use crate::glyph::{colour_intro, colour_reset, coloured_glyph, decimal};
use crate::render::{blanks, cells, image_text, line_break, row_text, rows_text};
use vstd::prelude::*;

verus! {

/// A control character: it takes no cell of its own.
pub open spec fn is_control(c: char) -> bool {
    (c as u32) < 0x20 || c as u32 == 0x7f
}

/// Where the terminal is within its input.
pub enum Scan {
    /// In plain text.
    Text,
    /// Behind an escape character.
    Escape,
    /// Inside a control sequence, which ends with a character from `@` to `~`.
    Sequence,
}

/// The terminal while a text is written to it.
pub struct Screen {
    /// The line of the cursor, counted from where writing began.
    pub line: nat,
    /// The column of the cursor: the cells that the current line holds.
    pub column: nat,
    /// The most cells that any line has held.
    pub widest: nat,
    pub scan: Scan,
}

impl Screen {
    /// The terminal before anything is written, the cursor in the first column.
    pub open spec fn blank() -> Screen {
        Screen { line: 0, column: 0, widest: 0, scan: Scan::Text }
    }

    /// The terminal after `count` cells were written on the current line.
    pub open spec fn advanced(self, count: nat) -> Screen {
        let column = self.column + count;
        Screen { column, widest: if self.widest < column { column } else { self.widest }, ..self }
    }

    /// The terminal after one more character.
    pub open spec fn feed(self, c: char) -> Screen {
        match self.scan {
            Scan::Text => if c == '\x1b' {
                Screen { scan: Scan::Escape, ..self }
            } else if c == '\n' {
                Screen { line: self.line + 1, ..self }
            } else if c == '\r' {
                Screen { column: 0, ..self }
            } else if is_control(c) {
                self
            } else {
                self.advanced(1)
            },
            Scan::Escape => Screen { scan: if c == '[' { Scan::Sequence } else { Scan::Text }, ..self },
            Scan::Sequence => Screen {
                scan: if 0x40 <= c as u32 <= 0x7e { Scan::Text } else { Scan::Sequence },
                ..self
            },
        }
    }

    /// The terminal after a text.
    pub open spec fn draw(self, text: Seq<char>) -> Screen
        decreases text.len(),
    {
        if text.len() == 0 {
            self
        } else {
            self.draw(text.drop_last()).feed(text.last())
        }
    }
}

/// Writing a text and one more character.
proof fn lemma_draw_push(screen: Screen, text: Seq<char>, c: char)
    ensures
        screen.draw(text.push(c)) == screen.draw(text).feed(c),
{
    assert(text.push(c).drop_last() =~= text);
}

/// Writing two texts one after the other.
proof fn lemma_draw_concat(screen: Screen, first: Seq<char>, second: Seq<char>)
    ensures
        screen.draw(first + second) == screen.draw(first).draw(second),
    decreases second.len(),
{
    if second.len() == 0 {
        assert(first + second =~= first);
    } else {
        lemma_draw_concat(screen, first, second.drop_last());
        assert((first + second).drop_last() =~= first + second.drop_last());
    }
}

/// Blanks take a cell each.
proof fn lemma_draw_blanks(screen: Screen, count: nat)
    requires
        screen.scan is Text,
        screen.column <= screen.widest,
    ensures
        screen.draw(blanks(count)) == screen.advanced(count),
    decreases count,
{
    if count > 0 {
        lemma_draw_blanks(screen, (count - 1) as nat);
        assert(blanks(count).drop_last() =~= blanks((count - 1) as nat));
    }
}

/// A number inside a control sequence does not end it.
proof fn lemma_draw_decimal(screen: Screen, n: nat)
    requires
        screen.scan is Sequence,
    ensures
        screen.draw(decimal(n)) == screen,
    decreases n,
{
    if n < 10 {
        lemma_draw_push(screen, Seq::empty(), decimal(n)[0]);
        assert(decimal(n) =~= Seq::empty().push(decimal(n)[0]));
    } else {
        lemma_draw_decimal(screen, n / 10);
        lemma_draw_push(screen, decimal(n / 10), decimal(n).last());
    }
}

/// A coloured glyph takes one cell, whatever its colour.
proof fn lemma_draw_coloured_glyph(screen: Screen, glyph: char, red: u8, green: u8, blue: u8)
    requires
        screen.scan is Text,
        screen.column <= screen.widest,
        !is_control(glyph),
    ensures
        screen.draw(coloured_glyph(glyph, red, green, blue)) == screen.advanced(1),
{
    let inside = Screen { scan: Scan::Sequence, ..screen };
    let none = Seq::<char>::empty();
    assert(screen.draw(colour_intro()) == inside) by {
        let intro = none.push('\x1b').push('[').push('3').push('8').push(';').push('2').push(';');
        assert(colour_intro() =~= intro);
        lemma_draw_push(screen, none, '\x1b');
        lemma_draw_push(screen, none.push('\x1b'), '[');
        lemma_draw_push(screen, none.push('\x1b').push('['), '3');
        lemma_draw_push(screen, none.push('\x1b').push('[').push('3'), '8');
        lemma_draw_push(screen, none.push('\x1b').push('[').push('3').push('8'), ';');
        lemma_draw_push(screen, none.push('\x1b').push('[').push('3').push('8').push(';'), '2');
        lemma_draw_push(screen, none.push('\x1b').push('[').push('3').push('8').push(';').push('2'), ';');
    }
    assert(inside.draw(seq![';']) == inside) by {
        assert(seq![';'] =~= none.push(';'));
        lemma_draw_push(inside, none, ';');
    }
    assert(inside.draw(seq!['m', glyph]) == screen.advanced(1)) by {
        assert(seq!['m', glyph] =~= none.push('m').push(glyph));
        lemma_draw_push(inside, none, 'm');
        lemma_draw_push(inside, none.push('m'), glyph);
    }
    assert(screen.advanced(1).draw(colour_reset()) == screen.advanced(1)) by {
        let after = screen.advanced(1);
        assert(colour_reset() =~= none.push('\x1b').push('[').push('0').push('m'));
        lemma_draw_push(after, none, '\x1b');
        lemma_draw_push(after, none.push('\x1b'), '[');
        lemma_draw_push(after, none.push('\x1b').push('['), '0');
        lemma_draw_push(after, none.push('\x1b').push('[').push('0'), 'm');
    }
    lemma_draw_decimal(inside, red as nat);
    lemma_draw_decimal(inside, green as nat);
    lemma_draw_decimal(inside, blue as nat);
    let t1 = colour_intro();
    let t2 = t1 + decimal(red as nat);
    let t3 = t2 + seq![';'];
    let t4 = t3 + decimal(green as nat);
    let t5 = t4 + seq![';'];
    let t6 = t5 + decimal(blue as nat);
    let t7 = t6 + seq!['m', glyph];
    lemma_draw_concat(screen, t1, decimal(red as nat));
    lemma_draw_concat(screen, t2, seq![';']);
    lemma_draw_concat(screen, t3, decimal(green as nat));
    lemma_draw_concat(screen, t4, seq![';']);
    lemma_draw_concat(screen, t5, decimal(blue as nat));
    lemma_draw_concat(screen, t6, seq!['m', glyph]);
    lemma_draw_concat(screen, t7, colour_reset());
}

/// The cells of `count` pixels take `count` cells.
proof fn lemma_draw_cells(screen: Screen, glyph: char, samples: Seq<u8>, first: int, count: nat)
    requires
        screen.scan is Text,
        screen.column <= screen.widest,
        !is_control(glyph),
    ensures
        screen.draw(cells(glyph, samples, first, count)) == screen.advanced(count),
    decreases count,
{
    if count > 0 {
        let before = (count - 1) as nat;
        let pixel = first + count - 1;
        lemma_draw_cells(screen, glyph, samples, first, before);
        lemma_draw_coloured_glyph(
            screen.advanced(before),
            glyph,
            samples[4 * pixel],
            samples[4 * pixel + 1],
            samples[4 * pixel + 2],
        );
        lemma_draw_concat(
            screen,
            cells(glyph, samples, first, before),
            coloured_glyph(glyph, samples[4 * pixel], samples[4 * pixel + 1], samples[4 * pixel + 2]),
        );
    }
}

/// A row begins a new line and takes its padding and one cell for each pixel.
proof fn lemma_draw_row(screen: Screen, glyph: char, image: RasterView, padding: nat, y: int)
    requires
        screen.scan is Text,
        screen.column <= screen.widest,
        !is_control(glyph),
    ensures
        screen.draw(row_text(glyph, image, padding, y)) == (Screen {
            line: screen.line + 1,
            column: 0,
            ..screen
        }).advanced(padding + image.width),
{
    let none = Seq::<char>::empty();
    let begun = Screen { line: screen.line + 1, column: 0, ..screen };
    assert(screen.draw(line_break()) == begun) by {
        assert(line_break() =~= none.push('\n').push('\r'));
        lemma_draw_push(screen, none, '\n');
        lemma_draw_push(screen, none.push('\n'), '\r');
    }
    lemma_draw_blanks(begun, padding);
    lemma_draw_cells(begun.advanced(padding), glyph, image.samples, y * image.width, image.width);
    lemma_draw_concat(screen, line_break(), blanks(padding));
    lemma_draw_concat(
        screen,
        line_break() + blanks(padding),
        cells(glyph, image.samples, y * image.width, image.width),
    );
}

/// `count` rows take `count` lines, each of the same width.
proof fn lemma_draw_rows(glyph: char, image: RasterView, padding: nat, count: nat)
    requires
        !is_control(glyph),
    ensures
        count == 0 ==> Screen::blank().draw(rows_text(glyph, image, padding, count)) == Screen::blank(),
        count > 0 ==> Screen::blank().draw(rows_text(glyph, image, padding, count)) == (Screen {
            line: count,
            column: padding + image.width,
            widest: padding + image.width,
            scan: Scan::Text,
        }),
    decreases count,
{
    if count > 0 {
        let before = (count - 1) as nat;
        lemma_draw_rows(glyph, image, padding, before);
        let screen = Screen::blank().draw(rows_text(glyph, image, padding, before));
        lemma_draw_row(screen, glyph, image, padding, count - 1);
        lemma_draw_concat(
            Screen::blank(),
            rows_text(glyph, image, padding, before),
            row_text(glyph, image, padding, count - 1),
        );
    }
}

/// The lines that the image's text moves the cursor down.
pub open spec fn lines_drawn(image: RasterView) -> nat {
    if image.width == 0 {
        0
    } else {
        image.height
    }
}

/// The cells of the widest line of the image's text.
pub open spec fn cells_drawn(image: RasterView, padding: nat) -> nat {
    if image.width == 0 || image.height == 0 {
        0
    } else {
        padding + image.width
    }
}

/// What the text of an image takes of the terminal: one line for each row
/// of pixels, and on each of them the padding and one cell for each pixel,
/// provided that the glyph is a character that takes a cell.
pub proof fn lemma_image_text_on_screen(glyph: char, image: RasterView, padding: nat)
    requires
        !is_control(glyph),
    ensures
        Screen::blank().draw(image_text(glyph, image, padding)).line == lines_drawn(image),
        Screen::blank().draw(image_text(glyph, image, padding)).widest == cells_drawn(image, padding),
        Screen::blank().draw(image_text(glyph, image, padding)).scan is Text,
{
    if image.width > 0 {
        lemma_draw_rows(glyph, image, padding, image.height);
    }
}

} // verus!
