//! Fitting a frame into the terminal's character grid.
//!
//! A terminal cell is about twice as tall as it is wide, so every image
//! pixel is drawn as two glyph cells side by side. The scale factor is the
//! largest one under which the doubled width fits the columns and the
//! height fits the rows.

use vstd::prelude::*;

verus! {

/// The size of the terminal in character cells, taken once before fitting.
#[derive(Clone, Copy, Debug, PartialEq, Eq)]
pub struct TerminalGeometry {
    pub columns: u16,
    pub rows: u16,
}

/// The terminal reported a dimension of zero, so no scale factor exists.
#[derive(Clone, Copy, Debug, PartialEq, Eq)]
pub enum GeometryError {
    EmptyTerminal,
}

/// Where a frame lands in the terminal: `width` glyph cells per row (always
/// even), `height` rows, and `padding` blank cells before each row.
#[derive(Clone, Copy, Debug, PartialEq, Eq)]
pub struct Fit {
    pub width: u16,
    pub height: u16,
    pub padding: u16,
}

/// A non-negative fraction `num / den`.
pub struct Ratio {
    pub num: nat,
    pub den: nat,
}

impl Ratio {
    /// `self <= other`, compared by cross-multiplication.
    pub open spec fn le(self, other: Ratio) -> bool {
        self.num * other.den <= other.num * self.den
    }

    /// `floor(x * self)`.
    pub open spec fn floor_of(self, x: nat) -> nat {
        (x * self.num / self.den) as nat
    }

    /// `x * self` rounded to the nearest integer, halves upwards.
    pub open spec fn round_of(self, x: nat) -> nat {
        ((2 * x * self.num + self.den) / (2 * self.den)) as nat
    }
}

/// The scale factor `min(columns / (2 * frame_width), rows / frame_height)`.
///
/// A frame dimension of zero puts no limit on the scale, so the other
/// dimension decides; a frame without any extent scales by zero.
pub open spec fn multiplier(frame_width: nat, frame_height: nat, columns: nat, rows: nat) -> Ratio {
    let by_width = Ratio { num: columns, den: 2 * frame_width };
    let by_height = Ratio { num: rows, den: frame_height };
    if frame_width == 0 && frame_height == 0 {
        Ratio { num: 0, den: 1 }
    } else if frame_height == 0 {
        by_width
    } else if frame_width == 0 {
        by_height
    } else if by_width.le(by_height) {
        by_width
    } else {
        by_height
    }
}

/// Glyph cells per row: `floor(frame_width * multiplier) * 2`.
pub open spec fn target_width(frame_width: nat, frame_height: nat, columns: nat, rows: nat) -> nat {
    multiplier(frame_width, frame_height, columns, rows).floor_of(frame_width) * 2
}

/// Rows: `round(frame_height * multiplier)`.
pub open spec fn target_height(frame_width: nat, frame_height: nat, columns: nat, rows: nat) -> nat {
    multiplier(frame_width, frame_height, columns, rows).round_of(frame_height)
}

/// Blank cells before each row: `ceil((columns - width) / 2)`.
pub open spec fn left_padding(columns: nat, width: nat) -> nat {
    ((columns - width + 1) / 2) as nat
}

/// Blank cells left over after each row.
pub open spec fn right_remainder(columns: nat, width: nat) -> int {
    columns - width - left_padding(columns, width)
}

impl Fit {
    /// This fit is the one that the formulas give for the frame and terminal.
    pub open spec fn is_fit_of(self, frame_width: nat, frame_height: nat, columns: nat, rows: nat) -> bool {
        &&& self.width == target_width(frame_width, frame_height, columns, rows)
        &&& self.height == target_height(frame_width, frame_height, columns, rows)
        &&& self.padding == left_padding(columns, self.width as nat)
    }
}

/// A quotient is at most `bound` when the dividend is below `(bound + 1) * divisor`.
proof fn lemma_quotient_at_most(dividend: int, divisor: int, bound: int)
    requires
        0 <= dividend,
        0 < divisor,
        dividend < (bound + 1) * divisor,
    ensures
        dividend / divisor <= bound,
{
    let q = dividend / divisor;
    assert(dividend == divisor * q + dividend % divisor && 0 <= dividend % divisor < divisor) by {
        vstd::arithmetic::div_mod::lemma_fundamental_div_mod(dividend, divisor);
        vstd::arithmetic::div_mod::lemma_mod_bound(dividend, divisor);
    }
    assert(q <= bound) by (nonlinear_arith)
        requires
            divisor * q <= dividend,
            dividend < (bound + 1) * divisor,
            0 < divisor,
    ;
}

/// A quotient is at least `bound` when the dividend reaches `bound * divisor`.
proof fn lemma_quotient_at_least(dividend: int, divisor: int, bound: int)
    requires
        0 < divisor,
        bound * divisor <= dividend,
    ensures
        bound <= dividend / divisor,
{
    let q = dividend / divisor;
    assert(dividend == divisor * q + dividend % divisor && 0 <= dividend % divisor < divisor) by {
        vstd::arithmetic::div_mod::lemma_fundamental_div_mod(dividend, divisor);
        vstd::arithmetic::div_mod::lemma_mod_bound(dividend, divisor);
    }
    assert(bound <= q) by (nonlinear_arith)
        requires
            bound * divisor <= dividend,
            dividend < divisor * q + divisor,
            0 < divisor,
    ;
}

/// The fitted image never exceeds the terminal: a row with its padding is
/// at most `columns` cells wide, and there are at most `rows` rows.
pub proof fn lemma_fit_within_terminal(frame_width: nat, frame_height: nat, columns: nat, rows: nat)
    requires
        columns > 0,
        rows > 0,
    ensures
        target_width(frame_width, frame_height, columns, rows) % 2 == 0,
        target_width(frame_width, frame_height, columns, rows) <= columns,
        left_padding(columns, target_width(frame_width, frame_height, columns, rows))
            + target_width(frame_width, frame_height, columns, rows) <= columns,
        target_height(frame_width, frame_height, columns, rows) <= rows,
{
    let m = multiplier(frame_width, frame_height, columns, rows);
    let fw = frame_width as int;
    let fh = frame_height as int;
    let c = columns as int;
    let r = rows as int;
    let half = (fw * m.num) / (m.den as int);
    assert(m.den > 0);
    assert(0 <= fw * m.num) by (nonlinear_arith)
        requires
            0 <= fw,
            0 <= m.num,
    ;
    assert(0 <= 2 * fh * m.num + m.den) by (nonlinear_arith)
        requires
            0 <= fh,
            0 <= m.num,
            0 <= m.den,
    ;
    assert(0 <= half) by {
        lemma_quotient_at_least(fw * m.num, m.den as int, 0);
    }
    let width_decides = frame_width != 0 && (frame_height == 0 || c * fh <= r * (2 * fw));
    // Twice the floored width stays within the columns.
    assert(2 * half <= c) by {
        if frame_width == 0 {
            assert(fw * m.num == 0) by (nonlinear_arith)
                requires
                    fw == 0,
            ;
            lemma_quotient_at_most(0, m.den as int, 0);
        } else if width_decides {
            assert(m.num == columns && m.den == 2 * frame_width);
            assert(fw * c < (c / 2 + 1) * (2 * fw)) by (nonlinear_arith)
                requires
                    0 < fw,
                    0 <= c,
            ;
            lemma_quotient_at_most(fw * c, 2 * fw, c / 2);
        } else {
            assert(m.num == rows && m.den == frame_height);
            assert(c * fh > r * (2 * fw));
            if 2 * half >= c {
                assert(half * fh <= fw * r) by {
                    vstd::arithmetic::div_mod::lemma_fundamental_div_mod(fw * r, fh);
                    vstd::arithmetic::div_mod::lemma_mod_bound(fw * r, fh);
                    assert(fh * half == half * fh) by (nonlinear_arith);
                }
                assert(false) by (nonlinear_arith)
                    requires
                        half * fh <= fw * r,
                        c * fh > r * (2 * fw),
                        2 * half >= c,
                        fh > 0,
                ;
            }
        }
    }
    // The rounded height stays within the rows.
    assert((2 * fh * m.num + m.den) / (2 * m.den as int) <= r) by {
        if frame_height == 0 {
            assert(2 * fh * m.num == 0) by (nonlinear_arith)
                requires
                    fh == 0,
            ;
            lemma_quotient_at_most(m.den as int, 2 * m.den as int, 0);
        } else if width_decides {
            assert(m.num == columns && m.den == 2 * frame_width);
            assert(2 * fh * c + 2 * fw < (r + 1) * (2 * (2 * fw))) by (nonlinear_arith)
                requires
                    c * fh <= r * (2 * fw),
                    0 < fw,
            ;
            lemma_quotient_at_most(2 * fh * c + 2 * fw, 2 * (2 * fw), r);
        } else {
            assert(m.num == rows && m.den == frame_height);
            assert(2 * fh * r + fh < (r + 1) * (2 * fh)) by (nonlinear_arith)
                requires
                    0 < fh,
            ;
            lemma_quotient_at_most(2 * fh * r + fh, 2 * fh, r);
        }
    }
}

/// Centring is fair: the blank cells left of a row and those right of it
/// differ by at most one, the extra cell standing on the left.
pub proof fn lemma_padding_centres(columns: nat, width: nat)
    requires
        width <= columns,
    ensures
        right_remainder(columns, width) >= 0,
        left_padding(columns, width) + width + right_remainder(columns, width) == columns,
        0 <= left_padding(columns, width) - right_remainder(columns, width) <= 1,
{
}

/// Computes where a frame of the given size lands in the terminal.
///
/// Fails exactly when the terminal has no columns or no rows.
pub fn fit_geometry(frame_width: u32, frame_height: u32, terminal: TerminalGeometry) -> (fitted: Result<Fit, GeometryError>)
    ensures
        fitted is Err <==> terminal.columns == 0 || terminal.rows == 0,
        fitted matches Ok(fit) ==> fit.is_fit_of(
            frame_width as nat,
            frame_height as nat,
            terminal.columns as nat,
            terminal.rows as nat,
        ),
{
    if terminal.columns == 0 || terminal.rows == 0 {
        return Err(GeometryError::EmptyTerminal);
    }
    let fw: u64 = frame_width as u64;
    let fh: u64 = frame_height as u64;
    let columns: u64 = terminal.columns as u64;
    let rows: u64 = terminal.rows as u64;
    assert(columns * fh <= 0xffff * 0xffff_ffff && rows * (2 * fw) <= 0xffff * 0x1_ffff_fffe) by (nonlinear_arith)
        requires
            columns <= 0xffff,
            rows <= 0xffff,
            fh <= 0xffff_ffff,
            fw <= 0xffff_ffff,
    ;
    let (num, den): (u64, u64) = if fw == 0 && fh == 0 {
        (0, 1)
    } else if fh == 0 {
        (columns, 2 * fw)
    } else if fw == 0 {
        (rows, fh)
    } else if columns * fh <= rows * (2 * fw) {
        (columns, 2 * fw)
    } else {
        (rows, fh)
    };
    proof {
        let m = multiplier(frame_width as nat, frame_height as nat, terminal.columns as nat, terminal.rows as nat);
        assert(m.num == num && m.den == den);
        lemma_fit_within_terminal(frame_width as nat, frame_height as nat, terminal.columns as nat, terminal.rows as nat);
        assert(fw * num <= 0xffff_ffff * 0xffff && 2 * fh * num <= 0x1_ffff_fffe * 0xffff) by (nonlinear_arith)
            requires
                num <= 0xffff,
                fh <= 0xffff_ffff,
                fw <= 0xffff_ffff,
        ;
    }
    let width: u64 = (fw * num / den) * 2;
    let height: u64 = (2 * fh * num + den) / (2 * den);
    let padding: u64 = (columns - width + 1) / 2;
    Ok(Fit { width: width as u16, height: height as u16, padding: padding as u16 })
}

} // verus!
