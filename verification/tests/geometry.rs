use termgif::geometry::{fit_geometry, Fit, GeometryError, TerminalGeometry};

fn terminal(columns: u16, rows: u16) -> TerminalGeometry {
    TerminalGeometry { columns, rows }
}

#[test]
fn terminal_without_columns_is_rejected() {
    assert_eq!(fit_geometry(10, 10, terminal(0, 24)), Err(GeometryError::EmptyTerminal));
}

#[test]
fn terminal_without_rows_is_rejected() {
    assert_eq!(fit_geometry(10, 10, terminal(80, 0)), Err(GeometryError::EmptyTerminal));
}

#[test]
fn terminal_without_any_cell_is_rejected() {
    assert_eq!(fit_geometry(10, 10, terminal(0, 0)), Err(GeometryError::EmptyTerminal));
    assert_eq!(fit_geometry(0, 0, terminal(0, 0)), Err(GeometryError::EmptyTerminal));
}

#[test]
fn rows_decide_for_a_tall_frame() {
    // min(81 / 6, 24 / 7) = 24 / 7; floor(3 * 24 / 7) * 2 = 20; round(7 * 24 / 7) = 24.
    assert_eq!(fit_geometry(3, 7, terminal(81, 24)), Ok(Fit { width: 20, height: 24, padding: 31 }));
}

#[test]
fn columns_decide_for_a_wide_frame() {
    // min(80 / 200, 24 / 10) = 2 / 5; floor(100 * 2 / 5) * 2 = 80; round(10 * 2 / 5) = 4.
    assert_eq!(fit_geometry(100, 10, terminal(80, 24)), Ok(Fit { width: 80, height: 4, padding: 0 }));
}

#[test]
fn odd_column_goes_to_the_left() {
    assert_eq!(fit_geometry(10, 10, terminal(21, 10)), Ok(Fit { width: 20, height: 10, padding: 1 }));
}

#[test]
fn half_a_row_rounds_up() {
    // The scale is 2 / 4, so the height is round(1 / 2) = 1 and round(3 / 2) = 2.
    assert_eq!(fit_geometry(2, 1, terminal(2, 10)), Ok(Fit { width: 2, height: 1, padding: 0 }));
    assert_eq!(fit_geometry(2, 3, terminal(2, 10)), Ok(Fit { width: 2, height: 2, padding: 0 }));
}

#[test]
fn less_than_half_a_row_rounds_down() {
    // The scale is 10 / 100, so the height is round(4 / 10) = 0.
    assert_eq!(fit_geometry(50, 4, terminal(10, 10)), Ok(Fit { width: 10, height: 0, padding: 0 }));
}

#[test]
fn very_tall_frame_keeps_no_column() {
    // The scale is 10 / 1000, so the width is floor(1 / 100) * 2 = 0.
    assert_eq!(fit_geometry(1, 1000, terminal(20, 10)), Ok(Fit { width: 0, height: 10, padding: 10 }));
}

#[test]
fn frame_without_extent_scales_to_nothing() {
    assert_eq!(fit_geometry(0, 0, terminal(20, 10)), Ok(Fit { width: 0, height: 0, padding: 10 }));
    assert_eq!(fit_geometry(0, 5, terminal(20, 10)), Ok(Fit { width: 0, height: 10, padding: 10 }));
    assert_eq!(fit_geometry(5, 0, terminal(21, 10)), Ok(Fit { width: 20, height: 0, padding: 1 }));
}

#[test]
fn largest_sizes_do_not_overflow() {
    let fit = fit_geometry(u32::MAX, u32::MAX, terminal(u16::MAX, u16::MAX)).unwrap();
    // The columns decide: floor(65535 / 2) * 2 cells, and half as many rows, rounded.
    assert_eq!(fit, Fit { width: 65534, height: 32768, padding: 1 });
    let fit = fit_geometry(1, u32::MAX, terminal(u16::MAX, u16::MAX)).unwrap();
    assert_eq!(fit, Fit { width: 0, height: 65535, padding: 32768 });
}

#[test]
fn every_fit_stays_within_the_terminal_and_is_centred() {
    for frame_width in 0..24u32 {
        for frame_height in 0..24u32 {
            for columns in 1..20u16 {
                for rows in 1..12u16 {
                    let fit = fit_geometry(frame_width, frame_height, terminal(columns, rows)).unwrap();
                    assert_eq!(fit.width % 2, 0);
                    assert!(fit.padding + fit.width <= columns);
                    assert!(fit.height <= rows);
                    let right = columns - fit.width - fit.padding;
                    assert!(fit.padding == right || fit.padding == right + 1);
                }
            }
        }
    }
}

#[test]
fn fit_agrees_with_the_formulas_in_fractions() {
    for frame_width in 1..30u64 {
        for frame_height in 1..30u64 {
            for (columns, rows) in [(80u64, 24u64), (7, 3), (1, 1), (33, 50)] {
                let (num, den) = if columns * frame_height <= rows * 2 * frame_width {
                    (columns, 2 * frame_width)
                } else {
                    (rows, frame_height)
                };
                let width = frame_width * num / den * 2;
                let height = (2 * frame_height * num + den) / (2 * den);
                let padding = (columns - width + 1) / 2;
                let fit = fit_geometry(
                    frame_width as u32,
                    frame_height as u32,
                    terminal(columns as u16, rows as u16),
                )
                .unwrap();
                assert_eq!(
                    (u64::from(fit.width), u64::from(fit.height), u64::from(fit.padding)),
                    (width, height, padding)
                );
            }
        }
    }
}
