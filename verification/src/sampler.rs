//! Nearest-neighbour sampling of a source frame onto a terminal grid.

use crate::error::Error;
use vstd::arithmetic::div_mod::lemma_fundamental_div_mod_converse;
use vstd::prelude::*;

verus! {

/// Whether a grid of `terminal` cells along one axis can sample a source of
/// `source` pixels along it: it has a cell, and no more cells than pixels.
pub open spec fn grid_fits(source: int, terminal: int) -> bool {
    1 <= terminal <= source
}

/// The source pixels that go by for each terminal cell along one axis.
pub open spec fn ratio_of(source: int, terminal: int) -> int {
    source / terminal
}

/// For a grid that fits, the ratio is the floor of the quotient and at
/// least one: `ratio * terminal` is the largest multiple of `terminal`
/// that is no more than `source`.
pub proof fn lemma_ratio_is_floor(source: int, terminal: int)
    requires
        1 <= terminal <= source,
    ensures
        ratio_of(source, terminal) >= 1,
        ratio_of(source, terminal) * terminal <= source,
        source < (ratio_of(source, terminal) + 1) * terminal,
{
    let q = source / terminal;
    let r = source % terminal;
    assert(source == terminal * q + r && 0 <= r < terminal) by {
        vstd::arithmetic::div_mod::lemma_fundamental_div_mod(source, terminal);
    }
    assert(q >= 1 && q * terminal <= source && source < (q + 1) * terminal)
        by (nonlinear_arith)
        requires
            source == terminal * q + r,
            0 <= r < terminal,
            1 <= terminal <= source,
    ;
}

/// The sampling ratio along one axis, or `Error::Grid` where the grid does
/// not fit the source.
pub fn ratio(source_dim: usize, terminal_dim: usize) -> (r: Result<usize, Error>)
    ensures
        grid_fits(source_dim as int, terminal_dim as int) ==> r == Ok::<usize, Error>(
            ratio_of(source_dim as int, terminal_dim as int) as usize,
        ) && r.unwrap() >= 1,
        !grid_fits(source_dim as int, terminal_dim as int) ==> r == Err::<usize, Error>(
            Error::Grid,
        ),
{
    if terminal_dim == 0 || terminal_dim > source_dim {
        Err(Error::Grid)
    } else {
        proof {
            lemma_ratio_is_floor(source_dim as int, terminal_dim as int);
        }
        Ok(source_dim / terminal_dim)
    }
}

/// What a sampler holds, as mathematical values.
pub struct SamplerView {
    pub source_width: int,
    pub source_height: int,
    pub columns: int,
    pub rows: int,
    pub x_ratio: int,
    pub y_ratio: int,
}

impl SamplerView {
    /// The sampler of a `columns` by `rows` grid over a source of the given
    /// size.
    pub open spec fn over(source_width: int, source_height: int, columns: int, rows: int) -> Self {
        SamplerView {
            source_width,
            source_height,
            columns,
            rows,
            x_ratio: ratio_of(source_width, columns),
            y_ratio: ratio_of(source_height, rows),
        }
    }

    /// The grid fits the source along both axes, and the ratios are those of
    /// the sizes.
    pub open spec fn wf(self) -> bool {
        &&& grid_fits(self.source_width, self.columns)
        &&& grid_fits(self.source_height, self.rows)
        &&& self.x_ratio == ratio_of(self.source_width, self.columns)
        &&& self.y_ratio == ratio_of(self.source_height, self.rows)
    }

    /// The source column that stands for grid column `x`.
    pub open spec fn source_x(self, x: int) -> int {
        x * self.x_ratio
    }

    /// The source row that stands for grid row `y`.
    pub open spec fn source_y(self, y: int) -> int {
        y * self.y_ratio
    }

    /// The source pixel of the `index`-th cell, counting row by row.
    pub open spec fn cell(self, index: int) -> (int, int) {
        (self.source_x(index % self.columns), self.source_y(index / self.columns))
    }

    /// The source pixels of all cells, row by row.
    pub open spec fn positions(self) -> Seq<(int, int)> {
        Seq::new((self.columns * self.rows) as nat, |index: int| self.cell(index))
    }
}

/// The source pixel of every cell of a well-formed sampler lies inside the
/// source.
pub proof fn lemma_sample_in_source(s: SamplerView, x: int, y: int)
    requires
        s.wf(),
        0 <= x < s.columns,
        0 <= y < s.rows,
    ensures
        0 <= s.source_x(x) < s.source_width,
        0 <= s.source_y(y) < s.source_height,
{
    lemma_ratio_is_floor(s.source_width, s.columns);
    lemma_ratio_is_floor(s.source_height, s.rows);
    assert(0 <= x * s.x_ratio < s.source_width) by (nonlinear_arith)
        requires
            0 <= x < s.columns,
            s.x_ratio >= 1,
            s.x_ratio * s.columns <= s.source_width,
    ;
    assert(0 <= y * s.y_ratio < s.source_height) by (nonlinear_arith)
        requires
            0 <= y < s.rows,
            s.y_ratio >= 1,
            s.y_ratio * s.rows <= s.source_height,
    ;
}

/// The map from the cells of a terminal grid to the pixels of a source.
#[derive(Clone, Copy, Debug)]
pub struct Sampler {
    source_width: usize,
    source_height: usize,
    columns: usize,
    rows: usize,
    x_ratio: usize,
    y_ratio: usize,
}

impl View for Sampler {
    type V = SamplerView;

    closed spec fn view(&self) -> SamplerView {
        SamplerView {
            source_width: self.source_width as int,
            source_height: self.source_height as int,
            columns: self.columns as int,
            rows: self.rows as int,
            x_ratio: self.x_ratio as int,
            y_ratio: self.y_ratio as int,
        }
    }
}

impl Sampler {
    /// Whether the grid fits the source and the ratios are those of the
    /// sizes.
    pub open spec fn wf(&self) -> bool {
        self@.wf()
    }

    /// The sampler of a `columns` by `rows` grid over a source of the given
    /// size, or `Error::Grid` where the grid does not fit the source along
    /// either axis.
    pub fn new(source_width: usize, source_height: usize, columns: usize, rows: usize) -> (r:
        Result<Sampler, Error>)
        ensures
            match r {
                Ok(s) => s.wf() && s@ == SamplerView::over(
                    source_width as int,
                    source_height as int,
                    columns as int,
                    rows as int,
                ),
                Err(e) => e == Error::Grid && !(grid_fits(source_width as int, columns as int)
                    && grid_fits(source_height as int, rows as int)),
            },
    {
        let x_ratio: usize = match ratio(source_width, columns) {
            Ok(x_ratio) => x_ratio,
            Err(e) => {
                return Err(e);
            },
        };
        let y_ratio: usize = match ratio(source_height, rows) {
            Ok(y_ratio) => y_ratio,
            Err(e) => {
                return Err(e);
            },
        };
        Ok(Sampler { source_width, source_height, columns, rows, x_ratio, y_ratio })
    }

    /// The number of grid columns.
    pub fn columns(&self) -> (columns: usize)
        ensures
            columns == self@.columns,
    {
        self.columns
    }

    /// The number of grid rows.
    pub fn rows(&self) -> (rows: usize)
        ensures
            rows == self@.rows,
    {
        self.rows
    }

    /// The source columns that go by for each grid column.
    pub fn x_ratio(&self) -> (x_ratio: usize)
        ensures
            x_ratio == self@.x_ratio,
    {
        self.x_ratio
    }

    /// The source rows that go by for each grid row.
    pub fn y_ratio(&self) -> (y_ratio: usize)
        ensures
            y_ratio == self@.y_ratio,
    {
        self.y_ratio
    }

    /// The source pixel that stands for the cell in column `x` of row `y`.
    pub fn source_of(&self, x: usize, y: usize) -> (pixel: (usize, usize))
        requires
            self.wf(),
            x < self@.columns,
            y < self@.rows,
        ensures
            pixel.0 == self@.source_x(x as int),
            pixel.1 == self@.source_y(y as int),
            pixel.0 < self@.source_width,
            pixel.1 < self@.source_height,
    {
        proof {
            lemma_sample_in_source(self@, x as int, y as int);
        }
        (x * self.x_ratio, y * self.y_ratio)
    }

    /// The source pixels of all cells, row by row, each as column and row.
    pub fn positions(&self) -> (out: Vec<(usize, usize)>)
        requires
            self.wf(),
        ensures
            out@.len() == self@.positions().len(),
            forall|i: int|
                0 <= i < out@.len() ==> (#[trigger] out@[i]).0 == self@.positions()[i].0
                    && out@[i].1 == self@.positions()[i].1,
    {
        let mut out: Vec<(usize, usize)> = Vec::new();
        let mut y: usize = 0;
        while y < self.rows
            invariant
                self.wf(),
                y <= self.rows,
                out@.len() == y * self.columns,
                forall|i: int|
                    0 <= i < out@.len() ==> (#[trigger] out@[i]).0 == self@.cell(i).0
                        && out@[i].1 == self@.cell(i).1,
            decreases self.rows - y,
        {
            let mut x: usize = 0;
            while x < self.columns
                invariant
                    self.wf(),
                    y < self.rows,
                    x <= self.columns,
                    out@.len() == y * self.columns + x,
                    forall|i: int|
                        0 <= i < out@.len() ==> (#[trigger] out@[i]).0 == self@.cell(i).0
                            && out@[i].1 == self@.cell(i).1,
                decreases self.columns - x,
            {
                let pixel: (usize, usize) = self.source_of(x, y);
                proof {
                    lemma_fundamental_div_mod_converse(
                        y * self.columns + x,
                        self.columns as int,
                        y as int,
                        x as int,
                    );
                }
                out.push(pixel);
                x += 1;
            }
            proof {
                assert((y + 1) * self.columns == y * self.columns + self.columns)
                    by (nonlinear_arith);
            }
            y += 1;
        }
        proof {
            assert(self.rows * self.columns == self.columns * self.rows) by (nonlinear_arith);
        }
        out
    }
}

} // verus!
