//! The rasterizer: converts a rectangular RGBA pixel buffer into rows of
//! terminal cells, in one of two density modes.
use vstd::prelude::*;
use crate::buffer::{chan, PixelBuffer};
use crate::cell::{RenderMode, Rgb, TerminalCell};

verus! {

/// The colour of the pixel at column `x`, row `y`.
pub open spec fn colour_at(data: Seq<u8>, w: int, x: int, y: int) -> Rgb {
    Rgb {
        r: chan(data, w, x, y, 0),
        g: chan(data, w, x, y, 1),
        b: chan(data, w, x, y, 2),
    }
}

/// The alpha channel of the pixel at column `x`, row `y`.
pub open spec fn alpha_at(data: Seq<u8>, w: int, x: int, y: int) -> u8 {
    chan(data, w, x, y, 3)
}

/// The cell for one pixel in single mode: a fully transparent pixel gives a
/// blank cell, any other a solid block of the pixel colour.
pub open spec fn single_cell(data: Seq<u8>, w: int, x: int, y: int) -> TerminalCell {
    if alpha_at(data, w, x, y) == 0 {
        TerminalCell::Transparent
    } else {
        TerminalCell::Solid(colour_at(data, w, x, y))
    }
}

/// The cell for a vertically stacked pair of pixels in half-pixel mode; `y`
/// is the row of the upper pixel, `y + 1` of the lower.
pub open spec fn half_cell(data: Seq<u8>, w: int, x: int, y: int) -> TerminalCell {
    if alpha_at(data, w, x, y) == 0 && alpha_at(data, w, x, y + 1) == 0 {
        TerminalCell::Transparent
    } else if alpha_at(data, w, x, y) == 0 {
        TerminalCell::LowerHalf(colour_at(data, w, x, y + 1))
    } else if alpha_at(data, w, x, y + 1) == 0 {
        TerminalCell::UpperHalf(colour_at(data, w, x, y))
    } else {
        TerminalCell::Split {
            upper: colour_at(data, w, x, y),
            lower: colour_at(data, w, x, y + 1),
        }
    }
}

/// One output row in single mode: the cells of pixel row `y`, left to right.
pub open spec fn single_row(data: Seq<u8>, w: int, y: int) -> Seq<TerminalCell> {
    Seq::new(w as nat, |x: int| single_cell(data, w, x, y))
}

/// One output row in half-pixel mode: the cells of the pixel-row pair
/// starting at row `y`, left to right.
pub open spec fn half_row(data: Seq<u8>, w: int, y: int) -> Seq<TerminalCell> {
    Seq::new(w as nat, |x: int| half_cell(data, w, x, y))
}

/// What `rasterize` returns: rows of cells, top to bottom, cells left to
/// right within a row. Single mode emits one row per pixel row; half-pixel
/// mode one row per pair of pixel rows, dropping an odd trailing row, so a
/// buffer less than two pixels high yields an empty render.
pub open spec fn rasterize_spec(data: Seq<u8>, w: int, h: int, mode: RenderMode) -> Seq<
    Seq<TerminalCell>,
> {
    match mode {
        RenderMode::Single => Seq::new(h as nat, |y: int| single_row(data, w, y)),
        RenderMode::HalfPixel => Seq::new((h / 2) as nat, |i: int| half_row(data, w, 2 * i)),
    }
}

/// The views of a vector of cell rows.
pub open spec fn rows_view(rows: Seq<Vec<TerminalCell>>) -> Seq<Seq<TerminalCell>> {
    rows.map_values(|r: Vec<TerminalCell>| r@)
}

/// A pixel of a well-formed buffer lies within its byte data.
proof fn lemma_pixel_index(w: int, h: int, x: int, y: int)
    requires
        0 <= x < w,
        0 <= y < h,
    ensures
        0 <= 4 * (y * w + x),
        4 * (y * w + x) + 3 < 4 * w * h,
{
    assert(0 <= 4 * (y * w + x) && 4 * (y * w + x) + 3 < 4 * w * h) by (nonlinear_arith)
        requires
            0 <= x < w,
            0 <= y < h,
    ;
}

/// The four channel bytes of the pixel at `(x, y)`: red, green, blue, alpha.
fn pixel_quad(buf: &PixelBuffer, x: u32, y: u32) -> (q: (u8, u8, u8, u8))
    requires
        buf.wf(),
        x < buf.width,
        y < buf.height,
    ensures
        q.0 == chan(buf.data@, buf.width as int, x as int, y as int, 0),
        q.1 == chan(buf.data@, buf.width as int, x as int, y as int, 1),
        q.2 == chan(buf.data@, buf.width as int, x as int, y as int, 2),
        q.3 == chan(buf.data@, buf.width as int, x as int, y as int, 3),
{
    proof {
        lemma_pixel_index(buf.width as int, buf.height as int, x as int, y as int);
    }
    // Binds the data length to a `usize`, which bounds the index below.
    let _len: usize = buf.data.len();
    let base: usize = 4 * ((y as usize) * (buf.width as usize) + (x as usize));
    (buf.data[base], buf.data[base + 1], buf.data[base + 2], buf.data[base + 3])
}

/// The cells of pixel row `y` in single mode.
fn rasterize_single_row(buf: &PixelBuffer, y: u32) -> (row: Vec<TerminalCell>)
    requires
        buf.wf(),
        y < buf.height,
    ensures
        row@ == single_row(buf.data@, buf.width as int, y as int),
{
    let mut row: Vec<TerminalCell> = Vec::new();
    let mut x: u32 = 0;
    while x < buf.width
        invariant
            buf.wf(),
            y < buf.height,
            x <= buf.width,
            row@.len() == x as int,
            forall|j: int|
                0 <= j < x as int ==> row@[j] == single_cell(
                    buf.data@,
                    buf.width as int,
                    j,
                    y as int,
                ),
        decreases buf.width - x,
    {
        let (r, g, b, a) = pixel_quad(buf, x, y);
        let cell = if a == 0 {
            TerminalCell::Transparent
        } else {
            TerminalCell::Solid(Rgb { r, g, b })
        };
        row.push(cell);
        x += 1;
    }
    proof {
        assert(row@ =~= single_row(buf.data@, buf.width as int, y as int));
    }
    row
}

/// The cells of the pixel-row pair starting at row `y` in half-pixel mode.
fn rasterize_half_row(buf: &PixelBuffer, y: u32) -> (row: Vec<TerminalCell>)
    requires
        buf.wf(),
        y as int + 1 < buf.height as int,
    ensures
        row@ == half_row(buf.data@, buf.width as int, y as int),
{
    let mut row: Vec<TerminalCell> = Vec::new();
    let mut x: u32 = 0;
    while x < buf.width
        invariant
            buf.wf(),
            y as int + 1 < buf.height as int,
            x <= buf.width,
            row@.len() == x as int,
            forall|j: int|
                0 <= j < x as int ==> row@[j] == half_cell(
                    buf.data@,
                    buf.width as int,
                    j,
                    y as int,
                ),
        decreases buf.width - x,
    {
        let (ur, ug, ub, ua) = pixel_quad(buf, x, y);
        let (lr, lg, lb, la) = pixel_quad(buf, x, y + 1);
        let cell = if ua == 0 && la == 0 {
            TerminalCell::Transparent
        } else if ua == 0 {
            TerminalCell::LowerHalf(Rgb { r: lr, g: lg, b: lb })
        } else if la == 0 {
            TerminalCell::UpperHalf(Rgb { r: ur, g: ug, b: ub })
        } else {
            TerminalCell::Split {
                upper: Rgb { r: ur, g: ug, b: ub },
                lower: Rgb { r: lr, g: lg, b: lb },
            }
        };
        row.push(cell);
        x += 1;
    }
    proof {
        assert(row@ =~= half_row(buf.data@, buf.width as int, y as int));
    }
    row
}

/// Convert a pixel buffer into rows of terminal cells: row-major, top to
/// bottom, left to right, as `rasterize_spec` lays them out. The output is a
/// function of the buffer and the mode alone.
pub fn rasterize(buf: &PixelBuffer, mode: RenderMode) -> (rows: Vec<Vec<TerminalCell>>)
    requires
        buf.wf(),
    ensures
        rows_view(rows@) == rasterize_spec(buf.data@, buf.width as int, buf.height as int, mode),
{
    let ghost w = buf.width as int;
    let ghost h = buf.height as int;
    let mut rows: Vec<Vec<TerminalCell>> = Vec::new();
    match mode {
        RenderMode::Single => {
            let mut y: u32 = 0;
            while y < buf.height
                invariant
                    buf.wf(),
                    w == buf.width as int,
                    h == buf.height as int,
                    y <= buf.height,
                    rows@.len() == y as int,
                    forall|i: int| 0 <= i < y as int ==> rows@[i]@ == single_row(buf.data@, w, i),
                decreases buf.height - y,
            {
                let row = rasterize_single_row(buf, y);
                rows.push(row);
                y += 1;
            }
        },
        RenderMode::HalfPixel => {
            let half: u32 = buf.height / 2;
            let mut i: u32 = 0;
            while i < half
                invariant
                    buf.wf(),
                    w == buf.width as int,
                    h == buf.height as int,
                    half as int == h / 2,
                    i <= half,
                    rows@.len() == i as int,
                    forall|j: int|
                        0 <= j < i as int ==> rows@[j]@ == half_row(buf.data@, w, 2 * j),
                decreases half - i,
            {
                let row = rasterize_half_row(buf, 2 * i);
                rows.push(row);
                i += 1;
            }
        },
    }
    proof {
        assert(rows_view(rows@) =~= rasterize_spec(buf.data@, w, h, mode));
    }
    rows
}

/// Law: a buffer whose pixels are all fully transparent rasterizes to
/// transparent cells only, whichever the mode.
pub proof fn lemma_transparent_buffer_blank(data: Seq<u8>, w: int, h: int, mode: RenderMode)
    requires
        0 <= w,
        0 <= h,
        forall|x: int, y: int|
            0 <= x < w && 0 <= y < h ==> #[trigger] alpha_at(data, w, x, y) == 0,
    ensures
        forall|i: int, j: int|
            0 <= i < rasterize_spec(data, w, h, mode).len() && 0 <= j < rasterize_spec(
                data,
                w,
                h,
                mode,
            )[i].len() ==> rasterize_spec(data, w, h, mode)[i][j] is Transparent,
{
    let rows = rasterize_spec(data, w, h, mode);
    assert forall|i: int, j: int|
        0 <= i < rows.len() && 0 <= j < rows[i].len() implies rows[i][j] is Transparent by {
        match mode {
            RenderMode::Single => {
                assert(alpha_at(data, w, j, i) == 0);
            },
            RenderMode::HalfPixel => {
                assert(0 <= 2 * i && 2 * i + 1 < h);
                assert(alpha_at(data, w, j, 2 * i) == 0);
                assert(alpha_at(data, w, j, 2 * i + 1) == 0);
            },
        }
    }
}

/// The number of cells in a render, all rows together.
pub open spec fn cell_count(rows: Seq<Seq<TerminalCell>>) -> int
    decreases rows.len(),
{
    if rows.len() == 0 {
        0
    } else {
        cell_count(rows.drop_last()) + rows.last().len()
    }
}

/// A render of `n` rows of `w` cells each holds `n * w` cells.
proof fn lemma_uniform_cell_count(rows: Seq<Seq<TerminalCell>>, w: int)
    requires
        forall|i: int| 0 <= i < rows.len() ==> #[trigger] rows[i].len() == w,
    ensures
        cell_count(rows) == rows.len() * w,
    decreases rows.len(),
{
    if rows.len() == 0 {
    } else {
        lemma_uniform_cell_count(rows.drop_last(), w);
        assert((rows.len() - 1) * w + w == rows.len() as int * w) by (nonlinear_arith);
    }
}

/// Law: in single mode the render has one row per pixel row and one cell per
/// pixel within it, exactly `w * h` cells in all.
pub proof fn lemma_single_mode_dimensions(data: Seq<u8>, w: int, h: int)
    requires
        0 <= w,
        0 <= h,
    ensures
        rasterize_spec(data, w, h, RenderMode::Single).len() == h,
        forall|i: int|
            0 <= i < h ==> #[trigger] rasterize_spec(data, w, h, RenderMode::Single)[i].len() == w,
        cell_count(rasterize_spec(data, w, h, RenderMode::Single)) == h * w,
{
    lemma_uniform_cell_count(rasterize_spec(data, w, h, RenderMode::Single), w);
}

/// Law: in half-pixel mode the render has one row per pair of pixel rows,
/// `h / 2` rounded down, each of `w` cells; a buffer under two pixels high
/// yields no rows at all.
pub proof fn lemma_half_mode_dimensions(data: Seq<u8>, w: int, h: int)
    requires
        0 <= w,
        0 <= h,
    ensures
        rasterize_spec(data, w, h, RenderMode::HalfPixel).len() == h / 2,
        forall|i: int|
            0 <= i < h / 2 ==> #[trigger] rasterize_spec(
                data,
                w,
                h,
                RenderMode::HalfPixel,
            )[i].len() == w,
        cell_count(rasterize_spec(data, w, h, RenderMode::HalfPixel)) == (h / 2) * w,
        h < 2 ==> rasterize_spec(data, w, h, RenderMode::HalfPixel).len() == 0,
{
    lemma_uniform_cell_count(rasterize_spec(data, w, h, RenderMode::HalfPixel), w);
}

/// Law: rasterization is a pure function of the pixel data, the dimensions
/// and the mode; any two renders of the same buffer are identical.
pub proof fn lemma_rasterize_deterministic(
    r1: Seq<Seq<TerminalCell>>,
    r2: Seq<Seq<TerminalCell>>,
    data: Seq<u8>,
    w: int,
    h: int,
    mode: RenderMode,
)
    requires
        r1 == rasterize_spec(data, w, h, mode),
        r2 == rasterize_spec(data, w, h, mode),
    ensures
        r1 == r2,
{
}

} // verus!
