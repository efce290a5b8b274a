//! Fitting a raster image into a terminal character grid.

use vstd::prelude::*;
use crate::text::{append_decimal, decimal};

verus! {

/// The row floor that an element's kind asks for.
#[derive(Clone, Copy, Debug, PartialEq, Eq, Structural)]
pub enum FitClass {
    Table,
    Equation,
    Other,
}

/// A target size in character cells.
#[derive(Clone, Copy, Debug, PartialEq, Eq, Structural)]
pub struct GridSize {
    pub cols: i32,
    pub rows: i32,
}

/// How a grid size is written for a terminal image renderer: `{cols}x{rows}`.
pub open spec fn grid_text(cols: int, rows: int) -> Seq<char> {
    decimal(cols) + "x"@ + decimal(rows)
}

impl GridSize {
    /// This size as `{cols}x{rows}`.
    pub fn size_text(&self) -> (r: String)
        ensures
            r@ == grid_text(self.cols as int, self.rows as int),
    {
        let mut s = String::new();
        append_decimal(&mut s, self.cols as i64);
        s.append("x");
        append_decimal(&mut s, self.rows as i64);
        assert(s@ =~= grid_text(self.cols as int, self.rows as int));
        s
    }
}

/// Smallest number of columns a fitted image gets.
pub const MIN_COLS: i32 = 20;

pub open spec fn row_floor(class: FitClass) -> int {
    match class {
        FitClass::Table => 15,
        FitClass::Equation => 6,
        FitClass::Other => 8,
    }
}

pub open spec fn max_int(a: int, b: int) -> int {
    if a >= b { a } else { b }
}

pub open spec fn min_int(a: int, b: int) -> int {
    if a <= b { a } else { b }
}

/// Least integer not below `a / b`, for `b > 0`.
pub open spec fn ceil_div(a: int, b: int) -> int {
    (a + (b - 1)) / b
}

/// Columns usable for an image in a terminal `term_cols` wide.
pub open spec fn usable_cols(term_cols: int) -> int {
    max_int(term_cols - 4, 40)
}

/// Rows usable for an image in a terminal `term_rows` high.
pub open spec fn usable_rows(term_rows: int) -> int {
    max_int(term_rows - 8, 20)
}

/// The size before the floors apply, for an image `w` by `h` pixels: fill the
/// usable width, two pixel rows per character row, unless that is too tall, in
/// which case fill the usable height instead.
pub open spec fn unfloored_fit(w: int, h: int, max_cols: int, max_rows: int) -> (int, int) {
    let rows = ceil_div(max_cols * h, 2 * w);
    if rows > max_rows {
        (ceil_div(2 * max_rows * w, h), max_rows)
    } else {
        (max_cols, rows)
    }
}

/// The planned size for an image whose pixel size may be unknown.
pub open spec fn fit_spec(
    width: Option<i32>,
    height: Option<i32>,
    class: FitClass,
    term_cols: int,
    term_rows: int,
) -> (int, int) {
    let max_cols = usable_cols(term_cols);
    let max_rows = usable_rows(term_rows);
    if width is Some && height is Some && width->Some_0 > 0 && height->Some_0 > 0 {
        let (c, r) = unfloored_fit(width->Some_0 as int, height->Some_0 as int, max_cols, max_rows);
        (max_int(c, MIN_COLS as int), max_int(r, row_floor(class)))
    } else {
        let capped = min_int(max_cols, 100);
        match class {
            FitClass::Equation => (capped, 12),
            FitClass::Table => (capped, min_int(max_rows, 40)),
            FitClass::Other => (min_int(capped, 80), min_int(max_rows, 35)),
        }
    }
}

proof fn lemma_ceil_div_bounds(a: int, b: int)
    requires
        a >= 0,
        b > 0,
    ensures
        b * (ceil_div(a, b) - 1) < a <= b * ceil_div(a, b),
        ceil_div(a, b) >= 0,
{
    let q = ceil_div(a, b);
    assert(b * q <= a + b - 1 < b * q + b) by (nonlinear_arith)
        requires
            q == (a + b - 1) / b,
            b > 0,
    ;
    assert(b * (q - 1) == b * q - b) by (nonlinear_arith);
}

/// `ceil(a / b)` in machine integers.
fn ceil_div_u64(a: u64, b: u64) -> (r: u64)
    requires
        b > 0,
        a + b - 1 <= u64::MAX,
    ensures
        r == ceil_div(a as int, b as int),
{
    (a + (b - 1)) / b
}

/// Plans the character-grid size for an image of `width` by `height` pixels
/// shown in a terminal of `term_cols` by `term_rows` cells.
pub fn plan_fit(
    width: Option<i32>,
    height: Option<i32>,
    class: FitClass,
    term_cols: u16,
    term_rows: u16,
) -> (r: GridSize)
    ensures
        (r.cols as int, r.rows as int) == fit_spec(width, height, class, term_cols as int, term_rows as int),
        r.cols >= MIN_COLS,
        r.rows >= row_floor(class),
{
    let tc = term_cols as i32;
    let tr = term_rows as i32;
    let max_cols: i32 = if tc - 4 >= 40 { tc - 4 } else { 40 };
    let max_rows: i32 = if tr - 8 >= 20 { tr - 8 } else { 20 };
    let floor: i32 = match class {
        FitClass::Table => 15,
        FitClass::Equation => 6,
        FitClass::Other => 8,
    };
    match (width, height) {
        (Some(w), Some(h)) if w > 0 && h > 0 => {
            let mut cols: i32 = max_cols;
            assert(max_cols as int * h as int <= 65536 * 0x8000_0000) by (nonlinear_arith)
                requires 0 <= max_cols <= 65536, 0 < h < 0x8000_0000;
            let num: u64 = (max_cols as u64) * (h as u64);
            let first: u64 = ceil_div_u64(num, 2 * (w as u64));
            let mut rows: i32;
            if first > max_rows as u64 {
                rows = max_rows;
                assert(2 * max_rows as int * w as int <= 2 * 65536 * 0x8000_0000) by (nonlinear_arith)
                    requires 0 <= max_rows <= 65536, 0 < w < 0x8000_0000;
                let num2: u64 = 2 * (max_rows as u64) * (w as u64);
                let c: u64 = ceil_div_u64(num2, h as u64);
                proof {
                    lemma_ceil_div_bounds(num as int, 2 * w as int);
                    lemma_ceil_div_bounds(num2 as int, h as int);
                    // the height-bound width never exceeds the usable width
                    assert(c <= max_cols) by (nonlinear_arith)
                        requires
                            h * (c - 1) < num2,
                            num2 == 2 * max_rows * w,
                            2 * w * (first - 1) < num,
                            num == max_cols * h,
                            first > max_rows,
                            h > 0,
                            w > 0,
                            max_rows >= 0,
                    ;
                }
                cols = c as i32;
            } else {
                rows = first as i32;
            }
            if cols < 20 {
                cols = 20;
            }
            if rows < floor {
                rows = floor;
            }
            GridSize { cols, rows }
        },
        _ => {
            let capped: i32 = if max_cols <= 100 { max_cols } else { 100 };
            match class {
                FitClass::Equation => GridSize { cols: capped, rows: 12 },
                FitClass::Table => GridSize { cols: capped, rows: if max_rows <= 40 { max_rows } else { 40 } },
                FitClass::Other => GridSize {
                    cols: if capped <= 80 { capped } else { 80 },
                    rows: if max_rows <= 35 { max_rows } else { 35 },
                },
            }
        },
    }
}

/// For an image of known size whose grid neither floor had to raise, the
/// grid keeps the image's shape up to one rounding step: either the rows are
/// `cols * h / (2 * w)` rounded up, or the columns are `2 * rows * w / h`
/// rounded up.
pub proof fn lemma_fit_keeps_aspect(w: i32, h: i32, class: FitClass, term_cols: u16, term_rows: u16)
    requires
        w > 0,
        h > 0,
        unfloored_fit(w as int, h as int, usable_cols(term_cols as int), usable_rows(term_rows as int)).0
            >= MIN_COLS,
        unfloored_fit(w as int, h as int, usable_cols(term_cols as int), usable_rows(term_rows as int)).1
            >= row_floor(class),
    ensures
        ({
            let (c, r) = fit_spec(Some(w), Some(h), class, term_cols as int, term_rows as int);
            ||| 2 * w * (r - 1) < c * h <= 2 * w * r
            ||| h * (c - 1) < 2 * w * r <= c * h
        }),
{
    let max_cols = usable_cols(term_cols as int);
    let max_rows = usable_rows(term_rows as int);
    lemma_ceil_div_bounds(max_cols * h, 2 * w);
    lemma_ceil_div_bounds(2 * max_rows * w, h as int);
    assert(max_cols * h >= 0) by (nonlinear_arith)
        requires max_cols >= 0, h > 0;
    assert(2 * max_rows * w >= 0) by (nonlinear_arith)
        requires max_rows >= 0, w > 0;
    let rows = ceil_div(max_cols * h, 2 * w);
    if rows > max_rows {
        let c = ceil_div(2 * max_rows * w, h as int);
        assert(h * (c - 1) < 2 * w * max_rows <= c * h) by (nonlinear_arith)
            requires
                h * (c - 1) < 2 * max_rows * w <= h * c,
        ;
    } else {
        assert(2 * w * (rows - 1) < max_cols * h <= 2 * w * rows) by (nonlinear_arith)
            requires
                (2 * w) * (rows - 1) < max_cols * h <= (2 * w) * rows,
        ;
    }
}

} // verus!
