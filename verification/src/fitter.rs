//! The frame fitter: from raw frames to the text blocks that are played.
//!
//! Each frame is fitted on its own: its size and the terminal's give the
//! target size and the padding, the image is resampled to that size, and
//! the result is drawn as text. Nothing else enters, so equal frames give
//! equal text, and the frames can be fitted in any order or side by side.

use crate::frame::{FrameView, RasterView, RawFrame};
use crate::geometry::{
    fit_geometry, left_padding, lemma_fit_within_terminal, target_height, target_width, GeometryError,
    TerminalGeometry,
};
use crate::render::{image_text, render};
use crate::resample::{addressable, is_addressable, lanczos3, resample};
use crate::screen::{is_control, lemma_image_text_on_screen, Screen};
use rayon::iter::{IntoParallelRefIterator, ParallelIterator};
use vstd::prelude::*;

verus! {

/// The image that a frame is resampled to for a terminal of the given size.
pub open spec fn fitted_image(image: RasterView, columns: nat, rows: nat) -> RasterView {
    let width = target_width(image.width, image.height, columns, rows);
    let height = target_height(image.width, image.height, columns, rows);
    RasterView {
        width,
        height,
        samples: lanczos3(image.width, image.height, image.samples, width, height),
    }
}

/// The text block of a frame for a terminal of the given size.
pub open spec fn fitted_text(glyph: char, image: RasterView, columns: nat, rows: nat) -> Seq<char> {
    image_text(
        glyph,
        fitted_image(image, columns, rows),
        left_padding(columns, target_width(image.width, image.height, columns, rows)),
    )
}

/// The buffers needed to resample the image for this terminal can be
/// allocated: this always holds where addresses have 64 bits.
pub open spec fn fits_memory(image: RasterView, terminal: TerminalGeometry) -> bool {
    &&& addressable(image.width, terminal.rows as nat)
    &&& addressable(terminal.columns as nat, terminal.rows as nat)
}

/// Where addresses have 64 bits, every image fits memory for every terminal.
pub proof fn lemma_fits_memory_with_64_bits(image: RasterView, terminal: TerminalGeometry)
    requires
        usize::BITS == 64,
        image.width <= u32::MAX,
    ensures
        fits_memory(image, terminal),
{
    let width = image.width as int;
    let columns = terminal.columns as int;
    let rows = terminal.rows as int;
    assert(16 * width * rows <= 16 * 0xffff_ffff * 0xffff && 16 * columns * rows <= 16 * 0xffff * 0xffff)
        by (nonlinear_arith)
        requires
            0 <= width <= 0xffff_ffff,
            0 <= columns <= 0xffff,
            0 <= rows <= 0xffff,
    ;
}

/// A fitted frame never exceeds the terminal. The image that is drawn has
/// at most `rows` rows, and each of them, with the padding before it, has
/// at most `columns` cells; so the text, written to a terminal by a glyph
/// that takes a cell, moves the cursor down at most `rows` lines and fills
/// at most `columns` cells of any line.
pub proof fn lemma_fitted_frame_within_terminal(glyph: char, image: RasterView, columns: nat, rows: nat)
    requires
        columns > 0,
        rows > 0,
        !is_control(glyph),
    ensures
        left_padding(columns, fitted_image(image, columns, rows).width) + fitted_image(
            image,
            columns,
            rows,
        ).width <= columns,
        fitted_image(image, columns, rows).height <= rows,
        Screen::blank().draw(fitted_text(glyph, image, columns, rows)).widest <= columns,
        Screen::blank().draw(fitted_text(glyph, image, columns, rows)).line <= rows,
{
    lemma_fit_within_terminal(image.width, image.height, columns, rows);
    lemma_image_text_on_screen(
        glyph,
        fitted_image(image, columns, rows),
        left_padding(columns, target_width(image.width, image.height, columns, rows)),
    );
}

/// Fitting is a function of the glyph, the image and the terminal's size:
/// frames with the same image give the same text, whatever else differs.
pub proof fn lemma_fitting_is_pure(glyph: char, first: FrameView, second: FrameView, columns: nat, rows: nat)
    requires
        first.image == second.image,
    ensures
        fitted_text(glyph, first.image, columns, rows) == fitted_text(glyph, second.image, columns, rows),
{
}

/// What the debug flag asks for: the sizes that went into the fit of the
/// first frame and the size that came out.
#[derive(Clone, Copy, Debug, PartialEq, Eq)]
pub struct Diagnostic {
    pub terminal: TerminalGeometry,
    pub source_width: u32,
    pub source_height: u32,
    pub output_width: u16,
    pub output_height: u16,
}

impl Diagnostic {
    /// The record is the one of this image in this terminal.
    pub open spec fn describes(self, image: RasterView, terminal: TerminalGeometry) -> bool {
        &&& self.terminal == terminal
        &&& self.source_width == image.width
        &&& self.source_height == image.height
        &&& self.output_width == target_width(
            image.width,
            image.height,
            terminal.columns as nat,
            terminal.rows as nat,
        )
        &&& self.output_height == target_height(
            image.width,
            image.height,
            terminal.columns as nat,
            terminal.rows as nat,
        )
    }
}

/// The outcome of a fitting pass.
pub struct FittedFrames {
    /// One text block for each raw frame, in playback order.
    pub frames: Vec<String>,
    /// The diagnostic record, where one was asked for and there is a frame
    /// to describe. There is never more than this one.
    pub diagnostic: Option<Diagnostic>,
}

/// Fits one frame into a terminal that has columns and rows.
fn fit_in(glyph: char, frame: &RawFrame, terminal: TerminalGeometry) -> (text: String)
    requires
        terminal.columns > 0,
        terminal.rows > 0,
        fits_memory(frame.image@, terminal),
    ensures
        text@ == fitted_text(glyph, frame.image@, terminal.columns as nat, terminal.rows as nat),
{
    let fit = fit_geometry(frame.image.width(), frame.image.height(), terminal).unwrap();
    proof {
        let image = frame.image@;
        let columns = terminal.columns as nat;
        let rows = terminal.rows as nat;
        lemma_fit_within_terminal(image.width, image.height, columns, rows);
        assert(16 * image.width * fit.height <= 16 * image.width * rows && 16 * fit.width * fit.height <= 16
            * columns * rows) by (nonlinear_arith)
            requires
                fit.height <= rows,
                fit.width <= columns,
        ;
    }
    let fitted = resample(&frame.image, fit.width, fit.height);
    render(glyph, &fitted, fit.padding)
}

/// Fits one frame into the terminal.
///
/// Fails exactly when the terminal has no columns or no rows.
pub fn fit_frame(glyph: char, frame: &RawFrame, terminal: TerminalGeometry) -> (fitted: Result<
    String,
    GeometryError,
>)
    requires
        fits_memory(frame.image@, terminal),
    ensures
        fitted is Err <==> terminal.columns == 0 || terminal.rows == 0,
        fitted matches Ok(text) ==> text@ == fitted_text(
            glyph,
            frame.image@,
            terminal.columns as nat,
            terminal.rows as nat,
        ),
{
    if terminal.columns == 0 || terminal.rows == 0 {
        Err(GeometryError::EmptyTerminal)
    } else {
        Ok(fit_in(glyph, frame, terminal))
    }
}

/// Maps `fit_in` over the frames on rayon's thread pool:
/// `par_iter().map(..).collect()`.
///
/// Believed of rayon: collecting an indexed parallel iterator into a
/// vector gives one item for each input, in the order of the input, each
/// of them what the closure returns for that input.
#[verifier::external_body]
fn fit_each(glyph: char, frames: &Vec<RawFrame>, terminal: TerminalGeometry) -> (texts: Vec<String>)
    requires
        terminal.columns > 0,
        terminal.rows > 0,
        forall|i: int| 0 <= i < frames@.len() ==> fits_memory(#[trigger] frames@[i].image@, terminal),
    ensures
        texts@.len() == frames@.len(),
        forall|i: int|
            0 <= i < frames@.len() ==> (#[trigger] texts@[i])@ == fitted_text(
                glyph,
                frames@[i].image@,
                terminal.columns as nat,
                terminal.rows as nat,
            ),
{
    frames.par_iter().map(|frame| fit_in(glyph, frame, terminal)).collect()
}

/// Whether every frame can be resampled for this terminal within the
/// address space: the condition under which `fit_frames` may be called.
pub fn fit_in_memory(frames: &Vec<RawFrame>, terminal: TerminalGeometry) -> (fits: bool)
    ensures
        fits == forall|i: int| 0 <= i < frames@.len() ==> fits_memory(#[trigger] frames@[i].image@, terminal),
{
    let mut at: usize = 0;
    while at < frames.len()
        invariant
            at <= frames@.len(),
            forall|i: int| 0 <= i < at ==> fits_memory(#[trigger] frames@[i].image@, terminal),
        decreases frames@.len() - at,
    {
        let width = frames[at].image.width();
        if !is_addressable(width, terminal.rows) || !is_addressable(terminal.columns as u32, terminal.rows) {
            assert(!fits_memory(frames@[at as int].image@, terminal));
            return false;
        }
        at += 1;
    }
    true
}

/// Fits every frame into the terminal, keeping their order.
///
/// Fails exactly when the terminal has no columns or no rows. With `debug`
/// set, the result carries the diagnostic record of the first frame.
pub fn fit_frames(glyph: char, frames: &Vec<RawFrame>, terminal: TerminalGeometry, debug: bool) -> (fitted:
    Result<FittedFrames, GeometryError>)
    requires
        forall|i: int| 0 <= i < frames@.len() ==> fits_memory(#[trigger] frames@[i].image@, terminal),
    ensures
        fitted is Err <==> terminal.columns == 0 || terminal.rows == 0,
        fitted matches Ok(out) ==> out.frames@.len() == frames@.len(),
        fitted matches Ok(out) ==> forall|i: int|
            0 <= i < frames@.len() ==> (#[trigger] out.frames@[i])@ == fitted_text(
                glyph,
                frames@[i].image@,
                terminal.columns as nat,
                terminal.rows as nat,
            ),
        fitted matches Ok(out) ==> (out.diagnostic is Some <==> debug && frames@.len() > 0),
        fitted matches Ok(out) ==> (out.diagnostic matches Some(record) ==> record.describes(
            frames@[0].image@,
            terminal,
        )),
{
    if terminal.columns == 0 || terminal.rows == 0 {
        return Err(GeometryError::EmptyTerminal);
    }
    let diagnostic = if debug && frames.len() > 0 {
        let image = &frames[0].image;
        let fit = fit_geometry(image.width(), image.height(), terminal).unwrap();
        Some(
            Diagnostic {
                terminal,
                source_width: image.width(),
                source_height: image.height(),
                output_width: fit.width,
                output_height: fit.height,
            },
        )
    } else {
        None
    };
    let texts = fit_each(glyph, frames, terminal);
    Ok(FittedFrames { frames: texts, diagnostic })
}

} // verus!
