use termgif::fitter::{fit_frame, fit_frames, fit_in_memory, Diagnostic};
use termgif::frame::{Delay, Raster, RawFrame};
use termgif::geometry::{fit_geometry, Fit, GeometryError, TerminalGeometry};

fn solid_frame(width: u32, height: u32, pixel: [u8; 4]) -> RawFrame {
    let mut samples = Vec::new();
    for _ in 0..width * height {
        samples.extend_from_slice(&pixel);
    }
    RawFrame {
        image: Raster::new(width, height, samples).unwrap(),
        delay: Delay::from_numer_denom_ms(100, 1).unwrap(),
    }
}

fn striped_frame(width: u32, height: u32) -> RawFrame {
    let mut samples = Vec::new();
    for y in 0..height {
        for x in 0..width {
            samples.extend_from_slice(&[(x * 40) as u8, (y * 60) as u8, ((x + y) * 25) as u8, 255]);
        }
    }
    RawFrame {
        image: Raster::new(width, height, samples).unwrap(),
        delay: Delay::from_numer_denom_ms(40, 1).unwrap(),
    }
}

fn rows_of(text: &str) -> Vec<&str> {
    let mut rows: Vec<&str> = text.split("\n\r").collect();
    assert_eq!(rows.remove(0), "");
    rows
}

#[test]
fn red_square_fills_a_terminal_of_twice_its_width() {
    let terminal = TerminalGeometry { columns: 20, rows: 10 };
    assert_eq!(fit_geometry(10, 10, terminal), Ok(Fit { width: 20, height: 10, padding: 0 }));

    let frame = solid_frame(10, 10, [255, 0, 0, 255]);
    let text = fit_frame('0', &frame, terminal).unwrap();
    let rows = rows_of(&text);
    assert_eq!(rows.len(), 10);
    let cell = "\x1b[38;2;255;0;0m0\x1b[0m";
    for row in rows {
        assert_eq!(row, cell.repeat(20));
    }
}

#[test]
fn frame_is_resampled_to_the_fitted_size() {
    let terminal = TerminalGeometry { columns: 31, rows: 9 };
    let frame = striped_frame(6, 4);
    let fit = fit_geometry(6, 4, terminal).unwrap();
    assert_eq!(fit, Fit { width: 26, height: 9, padding: 3 });

    let text = fit_frame('0', &frame, terminal).unwrap();
    let rows = rows_of(&text);
    assert_eq!(rows.len(), 9);
    for row in rows {
        assert!(row.starts_with("   \x1b["));
        assert_eq!(row.matches("m0\x1b[0m").count(), 26);
    }
}

/// The cells that a row of text fills: what is left without the colour sequences.
fn cells_of(row: &str) -> usize {
    let mut cells = 0;
    let mut in_sequence = false;
    for character in row.chars() {
        if in_sequence {
            in_sequence = character != 'm';
        } else if character == '\x1b' {
            in_sequence = true;
        } else {
            cells += 1;
        }
    }
    cells
}

#[test]
fn fitted_text_stays_within_the_terminal() {
    for (width, height) in [(1, 1), (6, 4), (4, 6), (9, 2), (2, 9), (16, 16)] {
        for (columns, rows) in [(1, 1), (2, 1), (7, 3), (31, 9), (40, 40), (80, 24)] {
            let terminal = TerminalGeometry { columns, rows };
            let fit = fit_geometry(width, height, terminal).unwrap();
            let text = fit_frame('#', &striped_frame(width, height), terminal).unwrap();
            if text.is_empty() {
                assert!(fit.width == 0 || fit.height == 0);
                continue;
            }
            let drawn = rows_of(&text);
            assert_eq!(drawn.len(), usize::from(fit.height));
            assert!(drawn.len() <= usize::from(rows));
            for row in drawn {
                assert_eq!(cells_of(row), usize::from(fit.padding + fit.width));
                assert!(cells_of(row) <= usize::from(columns));
            }
        }
    }
}

#[test]
fn frame_of_the_fitted_size_keeps_its_colours() {
    // Half of the width, doubled, and half a row, rounded up: 4 by 1 stays 4 by 1.
    let terminal = TerminalGeometry { columns: 4, rows: 3 };
    assert_eq!(fit_geometry(4, 1, terminal), Ok(Fit { width: 4, height: 1, padding: 0 }));
    let samples = vec![10, 20, 30, 255, 40, 50, 60, 255, 70, 80, 90, 255, 100, 110, 120, 255];
    let frame = RawFrame {
        image: Raster::new(4, 1, samples).unwrap(),
        delay: Delay::from_numer_denom_ms(100, 1).unwrap(),
    };
    let expected = String::new()
        + "\n\r\x1b[38;2;10;20;30m0\x1b[0m\x1b[38;2;40;50;60m0\x1b[0m"
        + "\x1b[38;2;70;80;90m0\x1b[0m\x1b[38;2;100;110;120m0\x1b[0m";
    assert_eq!(fit_frame('0', &frame, terminal).unwrap(), expected);
}

#[test]
fn fitting_twice_gives_the_same_text() {
    let terminal = TerminalGeometry { columns: 40, rows: 12 };
    let frame = striped_frame(7, 5);
    let first = fit_frame('#', &frame, terminal).unwrap();
    let second = fit_frame('#', &frame, terminal).unwrap();
    assert_eq!(first, second);
    let all = fit_frames('#', &vec![striped_frame(7, 5), striped_frame(7, 5)], terminal, false).unwrap();
    assert_eq!(all.frames, vec![first.clone(), first]);
}

#[test]
fn fitted_frames_keep_count_and_order() {
    let terminal = TerminalGeometry { columns: 12, rows: 4 };
    let colours = [[255, 0, 0, 255], [0, 255, 0, 255], [0, 0, 255, 255], [255, 0, 0, 255], [9, 9, 9, 255]];
    let frames: Vec<RawFrame> = colours.iter().map(|colour| solid_frame(3, 2, *colour)).collect();
    let fitted = fit_frames('0', &frames, terminal, false).unwrap();
    assert_eq!(fitted.frames.len(), frames.len());
    for (text, frame) in fitted.frames.iter().zip(&frames) {
        assert_eq!(*text, fit_frame('0', frame, terminal).unwrap());
    }
    for (text, colour) in fitted.frames.iter().zip(colours) {
        let cell = format!("\x1b[38;2;{};{};{}m0\x1b[0m", colour[0], colour[1], colour[2]);
        assert!(text.contains(&cell));
        assert_eq!(text.matches("\x1b[38;2;").count(), text.matches(&cell).count());
    }
}

#[test]
fn many_frames_come_back_in_their_order() {
    let terminal = TerminalGeometry { columns: 6, rows: 3 };
    let frames: Vec<RawFrame> = (0..200u32).map(|i| solid_frame(2, 2, [i as u8, 0, 0, 255])).collect();
    let fitted = fit_frames('0', &frames, terminal, false).unwrap();
    assert_eq!(fitted.frames.len(), 200);
    for (i, text) in fitted.frames.iter().enumerate() {
        assert!(text.contains(&format!("\x1b[38;2;{};0;0m0", i)));
    }
}

#[test]
fn no_frames_fit_to_no_frames() {
    let terminal = TerminalGeometry { columns: 80, rows: 24 };
    let fitted = fit_frames('0', &Vec::new(), terminal, false).unwrap();
    assert!(fitted.frames.is_empty());
    assert_eq!(fitted.diagnostic, None);
}

#[test]
fn empty_terminal_fits_nothing() {
    let frame = solid_frame(4, 4, [1, 2, 3, 255]);
    for terminal in [
        TerminalGeometry { columns: 0, rows: 10 },
        TerminalGeometry { columns: 10, rows: 0 },
        TerminalGeometry { columns: 0, rows: 0 },
    ] {
        assert_eq!(fit_frame('0', &frame, terminal), Err(GeometryError::EmptyTerminal));
        let frames = vec![solid_frame(4, 4, [1, 2, 3, 255])];
        assert!(matches!(fit_frames('0', &frames, terminal, true), Err(GeometryError::EmptyTerminal)));
        assert!(matches!(fit_frames('0', &Vec::new(), terminal, false), Err(GeometryError::EmptyTerminal)));
    }
}

#[test]
fn debug_gives_one_record_of_the_first_frame() {
    let terminal = TerminalGeometry { columns: 81, rows: 24 };
    let frames = vec![solid_frame(3, 7, [0, 0, 0, 255]), solid_frame(5, 5, [0, 0, 0, 255])];
    let fitted = fit_frames('0', &frames, terminal, true).unwrap();
    assert_eq!(
        fitted.diagnostic,
        Some(Diagnostic { terminal, source_width: 3, source_height: 7, output_width: 20, output_height: 24 })
    );
    assert_eq!(fitted.frames.len(), 2);
}

#[test]
fn no_debug_gives_no_record() {
    let terminal = TerminalGeometry { columns: 81, rows: 24 };
    let frames = vec![solid_frame(3, 7, [0, 0, 0, 255]), solid_frame(5, 5, [0, 0, 0, 255])];
    assert_eq!(fit_frames('0', &frames, terminal, false).unwrap().diagnostic, None);
}

#[test]
fn debug_without_frames_has_nothing_to_record() {
    let terminal = TerminalGeometry { columns: 81, rows: 24 };
    assert_eq!(fit_frames('0', &Vec::new(), terminal, true).unwrap().diagnostic, None);
}

#[test]
fn debug_does_not_change_the_frames() {
    let terminal = TerminalGeometry { columns: 30, rows: 10 };
    let frames = vec![striped_frame(5, 4), striped_frame(4, 5)];
    let plain = fit_frames('0', &frames, terminal, false).unwrap();
    let traced = fit_frames('0', &frames, terminal, true).unwrap();
    assert_eq!(plain.frames, traced.frames);
}

#[test]
fn frame_that_keeps_no_column_fits_to_empty_text() {
    let terminal = TerminalGeometry { columns: 20, rows: 10 };
    let frame = solid_frame(1, 1000, [5, 5, 5, 255]);
    assert_eq!(fit_frame('0', &frame, terminal).unwrap(), "");
}

#[test]
fn frame_that_keeps_no_row_fits_to_empty_text() {
    let terminal = TerminalGeometry { columns: 10, rows: 10 };
    let frame = solid_frame(50, 4, [5, 5, 5, 255]);
    assert_eq!(fit_frame('0', &frame, terminal).unwrap(), "");
}

#[test]
fn frame_without_pixels_fits_to_empty_text() {
    let terminal = TerminalGeometry { columns: 10, rows: 10 };
    for (width, height) in [(0, 0), (0, 3), (3, 0)] {
        let frame = solid_frame(width, height, [0, 0, 0, 0]);
        assert_eq!(fit_frame('0', &frame, terminal).unwrap(), "");
    }
}

#[test]
fn frames_of_a_usual_size_fit_in_memory() {
    let terminal = TerminalGeometry { columns: 200, rows: 60 };
    let frames = vec![solid_frame(64, 48, [0, 0, 0, 255])];
    assert!(fit_in_memory(&frames, terminal));
    assert!(fit_in_memory(&Vec::new(), terminal));
}
