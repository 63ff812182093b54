//! Rendering a frame to the text of a terminal grid.

use crate::color::{blue_of, convert, get_greyscale_representation, glyph_of, green_of, red_of};
use crate::error::Error;
use crate::frame::{Frame, FrameView};
use crate::sampler::{grid_fits, lemma_sample_in_source, Sampler, SamplerView};
use crate::text::{push_rgb, rgb_text};
use vstd::prelude::*;

verus! {

/// How a sampled pixel is shown.
#[derive(Clone, Copy, Debug, PartialEq, Eq, Structural)]
pub enum CliFilter {
    /// As a space on a background of the pixel's colour.
    Rgb,
    /// As the glyph of the pixel's luminance.
    Greyscale,
}

/// Renders frames for the terminal with one filter.
#[derive(Clone, Copy, Debug)]
pub struct CliFrameWriter {
    filter: CliFilter,
}

/// The text that shows a pixel of luma `y` and chroma `u`, `v`: under
/// `Rgb` a space on a background of the pixel's colour, under `Greyscale`
/// the glyph of its luma.
pub open spec fn pixel_text(filter: CliFilter, y: u8, u: u8, v: u8) -> Seq<char> {
    match filter {
        CliFilter::Rgb => rgb_text(
            seq![' '],
            red_of(y, v) as nat,
            green_of(y, u, v) as nat,
            blue_of(y, u) as nat,
        ),
        CliFilter::Greyscale => seq![glyph_of(y)],
    }
}

/// The text of the cell that shows source pixel (`px`, `py`).
pub open spec fn cell_text(filter: CliFilter, f: FrameView, px: int, py: int) -> Seq<char> {
    pixel_text(filter, f.luma(px, py), f.chroma_u(px, py), f.chroma_v(px, py))
}

/// The text of the first `cells` cells of grid row `y`, left to right.
pub open spec fn row_text(filter: CliFilter, f: FrameView, s: SamplerView, y: int, cells: int) -> Seq<
    char,
>
    decreases cells,
{
    if cells <= 0 {
        Seq::empty()
    } else {
        row_text(filter, f, s, y, cells - 1) + cell_text(
            filter,
            f,
            s.source_x(cells - 1),
            s.source_y(y),
        )
    }
}

/// The text of the first `rows` grid rows, top to bottom, each followed by
/// a line break.
pub open spec fn grid_text(filter: CliFilter, f: FrameView, s: SamplerView, rows: int) -> Seq<char>
    decreases rows,
{
    if rows <= 0 {
        Seq::empty()
    } else {
        grid_text(filter, f, s, rows - 1) + row_text(filter, f, s, rows - 1, s.columns) + seq![
            '\n',
        ]
    }
}

/// The text of a whole frame on a grid of `columns` by `rows` cells.
pub open spec fn frame_text(filter: CliFilter, f: FrameView, columns: int, rows: int) -> Seq<char> {
    grid_text(filter, f, SamplerView::over(f.width, f.height, columns, rows), rows)
}

/// What rendering a frame for a terminal of the given size comes to: the
/// frame's text where the grid fits the frame, `Error::Grid` where it does
/// not, `Error::Environment` where the size is not known.
pub open spec fn presented(
    filter: CliFilter,
    f: FrameView,
    dimensions: Option<(usize, usize)>,
) -> Result<Seq<char>, Error> {
    match dimensions {
        None => Err(Error::Environment),
        Some((columns, rows)) => if grid_fits(f.width, columns as int) && grid_fits(
            f.height,
            rows as int,
        ) {
            Ok(frame_text(filter, f, columns as int, rows as int))
        } else {
            Err(Error::Grid)
        },
    }
}

/// Whether a rendering result is the given outcome: the same error, or a
/// string with the same text.
pub open spec fn renders_as(r: Result<String, Error>, outcome: Result<Seq<char>, Error>) -> bool {
    match r {
        Ok(text) => outcome == Ok::<Seq<char>, Error>(text@),
        Err(e) => outcome == Err::<Seq<char>, Error>(e),
    }
}

/// A text `times` times in a row.
pub open spec fn repeated(unit: Seq<char>, times: int) -> Seq<char>
    decreases times,
{
    if times <= 0 {
        Seq::empty()
    } else {
        repeated(unit, times - 1) + unit
    }
}

/// Whether every pixel of the frame has luma `y` and chroma `u`, `v`.
pub open spec fn solid(f: FrameView, y: u8, u: u8, v: u8) -> bool {
    forall|px: int, py: int|
        0 <= px < f.width && 0 <= py < f.height ==> #[trigger] f.luma(px, py) == y && f.chroma_u(
            px,
            py,
        ) == u && f.chroma_v(px, py) == v
}

/// In a frame of one colour every cell of a row shows that colour.
proof fn lemma_solid_row(
    filter: CliFilter,
    f: FrameView,
    s: SamplerView,
    row: int,
    cells: int,
    y: u8,
    u: u8,
    v: u8,
)
    requires
        s.wf(),
        s.source_width == f.width,
        s.source_height == f.height,
        solid(f, y, u, v),
        0 <= row < s.rows,
        0 <= cells <= s.columns,
    ensures
        row_text(filter, f, s, row, cells) == repeated(pixel_text(filter, y, u, v), cells),
    decreases cells,
{
    if cells > 0 {
        lemma_solid_row(filter, f, s, row, cells - 1, y, u, v);
        lemma_sample_in_source(s, cells - 1, row);
        assert(f.luma(s.source_x(cells - 1), s.source_y(row)) == y);
    }
}

/// In a frame of one colour every row of the grid is the same.
proof fn lemma_solid_grid(
    filter: CliFilter,
    f: FrameView,
    s: SamplerView,
    rows: int,
    y: u8,
    u: u8,
    v: u8,
)
    requires
        s.wf(),
        s.source_width == f.width,
        s.source_height == f.height,
        solid(f, y, u, v),
        0 <= rows <= s.rows,
    ensures
        grid_text(filter, f, s, rows) == repeated(
            repeated(pixel_text(filter, y, u, v), s.columns) + seq!['\n'],
            rows,
        ),
    decreases rows,
{
    if rows > 0 {
        lemma_solid_grid(filter, f, s, rows - 1, y, u, v);
        lemma_solid_row(filter, f, s, rows - 1, s.columns, y, u, v);
        let line = repeated(pixel_text(filter, y, u, v), s.columns);
        let above = repeated(line + seq!['\n'], rows - 1);
        assert(above + line + seq!['\n'] =~= above + (line + seq!['\n']));
    }
}

/// A frame of one colour renders, on every grid that fits it, as rows that
/// are all the same: the text of that colour once for each column, then a
/// line break.
pub proof fn lemma_solid_frame_text(
    filter: CliFilter,
    f: FrameView,
    columns: int,
    rows: int,
    y: u8,
    u: u8,
    v: u8,
)
    requires
        grid_fits(f.width, columns),
        grid_fits(f.height, rows),
        solid(f, y, u, v),
    ensures
        frame_text(filter, f, columns, rows) == repeated(
            repeated(pixel_text(filter, y, u, v), columns) + seq!['\n'],
            rows,
        ),
{
    lemma_solid_grid(filter, f, SamplerView::over(f.width, f.height, columns, rows), rows, y, u, v);
}

/// The colour of the source pixel that stands for grid cell (`x_idx`,
/// `y_idx`) under the given ratios.
pub fn yuv_to_rgb(frame: &Frame, x_idx: usize, y_idx: usize, x_ratio: usize, y_ratio: usize) -> (rgb:
    (u8, u8, u8))
    requires
        frame.wf(),
        x_idx * x_ratio < frame@.width,
        y_idx * y_ratio < frame@.height,
    ensures
        rgb.0 == red_of(
            frame@.luma(x_idx * x_ratio, y_idx * y_ratio),
            frame@.chroma_v(x_idx * x_ratio, y_idx * y_ratio),
        ),
        rgb.1 == green_of(
            frame@.luma(x_idx * x_ratio, y_idx * y_ratio),
            frame@.chroma_u(x_idx * x_ratio, y_idx * y_ratio),
            frame@.chroma_v(x_idx * x_ratio, y_idx * y_ratio),
        ),
        rgb.2 == blue_of(
            frame@.luma(x_idx * x_ratio, y_idx * y_ratio),
            frame@.chroma_u(x_idx * x_ratio, y_idx * y_ratio),
        ),
{
    let px: usize = x_idx * x_ratio;
    let py: usize = y_idx * y_ratio;
    let y: u8 = frame.luma(px, py);
    let (u, v) = frame.chroma(px, py);
    convert(y, u, v)
}

/// The luma sample of the source pixel that stands for grid cell (`x`, `y`)
/// under the given ratios.
pub fn get_luminance(frame: &Frame, x: usize, y: usize, x_ratio: usize, y_ratio: usize) -> (luminance:
    u8)
    requires
        frame.wf(),
        x * x_ratio < frame@.width,
        y * y_ratio < frame@.height,
    ensures
        luminance == frame@.luma(x * x_ratio, y * y_ratio),
{
    frame.luma(x * x_ratio, y * y_ratio)
}

/// Appends the glyph of grid cell (`x`, `y`).
pub fn greyscale(
    frame: &Frame,
    out: &mut String,
    x: usize,
    y: usize,
    x_ratio: usize,
    y_ratio: usize,
)
    requires
        frame.wf(),
        x * x_ratio < frame@.width,
        y * y_ratio < frame@.height,
    ensures
        final(out)@ == old(out)@ + cell_text(
            CliFilter::Greyscale,
            frame@,
            x * x_ratio,
            y * y_ratio,
        ),
{
    out.push(get_greyscale_representation(get_luminance(frame, x, y, x_ratio, y_ratio)));
    assert(out@ =~= old(out)@ + cell_text(
        CliFilter::Greyscale,
        frame@,
        x * x_ratio,
        y * y_ratio,
    ));
}

/// Appends the coloured block of grid cell (`x`, `y`).
pub fn rgb(frame: &Frame, out: &mut String, x: usize, y: usize, x_ratio: usize, y_ratio: usize)
    requires
        frame.wf(),
        x * x_ratio < frame@.width,
        y * y_ratio < frame@.height,
    ensures
        final(out)@ == old(out)@ + cell_text(CliFilter::Rgb, frame@, x * x_ratio, y * y_ratio),
{
    let (r, g, b) = yuv_to_rgb(frame, x, y, x_ratio, y_ratio);
    proof {
        reveal_strlit(" ");
        assert(" "@ =~= seq![' ']);
    }
    push_rgb(out, " ", r, g, b);
}

/// Asks `term_size::dimensions` for the terminal's columns and rows. The
/// answer depends on the terminal that the process runs in, so nothing is
/// claimed of it.
#[verifier::external_body]
fn terminal_dimensions() -> (dimensions: Option<(usize, usize)>) {
    term_size::dimensions()
}

impl CliFrameWriter {
    /// The filter that this writer renders with.
    pub closed spec fn spec_filter(&self) -> CliFilter {
        self.filter
    }

    /// A writer that renders with `filter`.
    pub fn new(filter: CliFilter) -> (writer: Self)
        ensures
            writer.spec_filter() == filter,
    {
        CliFrameWriter { filter }
    }

    /// The filter that this writer renders with.
    pub fn filter(&self) -> (filter: CliFilter)
        ensures
            filter == self.spec_filter(),
    {
        self.filter
    }

    /// Renders a frame on a grid of `columns` by `rows` cells: every cell
    /// shows the source pixel that the sampling ratios give it, rows from
    /// top to bottom, a line break after each.
    pub fn render(&self, frame: &Frame, columns: usize, rows: usize) -> (r: Result<String, Error>)
        requires
            frame.wf(),
        ensures
            renders_as(r, presented(self.spec_filter(), frame@, Some((columns, rows)))),
    {
        let sampler: Sampler = match Sampler::new(frame.width(), frame.height(), columns, rows) {
            Ok(sampler) => sampler,
            Err(e) => {
                return Err(e);
            },
        };
        let x_ratio: usize = sampler.x_ratio();
        let y_ratio: usize = sampler.y_ratio();
        let ghost f = frame@;
        let ghost s = sampler@;
        let ghost filter = self.filter;
        let mut out = String::new();
        let mut y: usize = 0;
        while y < rows
            invariant
                frame.wf(),
                f == frame@,
                s == SamplerView::over(f.width, f.height, columns as int, rows as int),
                s.wf(),
                filter == self.filter,
                x_ratio == s.x_ratio,
                y_ratio == s.y_ratio,
                y <= rows,
                out@ == grid_text(filter, f, s, y as int),
            decreases rows - y,
        {
            let ghost before = out@;
            let mut x: usize = 0;
            while x < columns
                invariant
                    frame.wf(),
                    f == frame@,
                    s == SamplerView::over(f.width, f.height, columns as int, rows as int),
                    s.wf(),
                    filter == self.filter,
                    x_ratio == s.x_ratio,
                    y_ratio == s.y_ratio,
                    y < rows,
                    x <= columns,
                    out@ == before + row_text(filter, f, s, y as int, x as int),
                decreases columns - x,
            {
                proof {
                    lemma_sample_in_source(s, x as int, y as int);
                }
                let ghost row = row_text(filter, f, s, y as int, x as int);
                match self.filter {
                    CliFilter::Rgb => rgb(frame, &mut out, x, y, x_ratio, y_ratio),
                    CliFilter::Greyscale => greyscale(frame, &mut out, x, y, x_ratio, y_ratio),
                }
                assert(out@ =~= before + (row + cell_text(
                    filter,
                    f,
                    s.source_x(x as int),
                    s.source_y(y as int),
                )));
                x += 1;
            }
            out.push('\n');
            assert(out@ =~= before + row_text(filter, f, s, y as int, s.columns) + seq!['\n']);
            y += 1;
        }
        Ok(out)
    }

    /// Renders a frame for a terminal whose size is `dimensions`, columns
    /// first; `None` stands for a size that could not be had.
    pub fn present(&self, frame: &Frame, dimensions: Option<(usize, usize)>) -> (r: Result<
        String,
        Error,
    >)
        requires
            frame.wf(),
        ensures
            renders_as(r, presented(self.spec_filter(), frame@, dimensions)),
    {
        match dimensions {
            None => Err(Error::Environment),
            Some((columns, rows)) => self.render(frame, columns, rows),
        }
    }

    /// Renders a frame for the terminal that the process runs in, whose
    /// size is asked for anew on every call. The writer is left as it was.
    pub fn on_frame_decoded(&mut self, frame: &Frame) -> (r: Result<String, Error>)
        requires
            frame.wf(),
        ensures
            *final(self) == *old(self),
            exists|dimensions: Option<(usize, usize)>|
                renders_as(r, #[trigger] presented(old(self).spec_filter(), frame@, dimensions)),
    {
        let dimensions: Option<(usize, usize)> = terminal_dimensions();
        self.present(frame, dimensions)
    }
}

} // verus!
