//! Rectangular RGBA pixel buffers, row-major, four bytes per pixel.
use vstd::prelude::*;
use vstd::arithmetic::mul::lemma_mul_inequality;

verus! {

/// The byte of channel `c` of the pixel at column `x`, row `y` of a row-major
/// RGBA byte sequence of row length `w`. Channels are 0 = red, 1 = green,
/// 2 = blue, 3 = alpha.
pub open spec fn chan(data: Seq<u8>, w: int, x: int, y: int, c: int) -> u8 {
    data[4 * (y * w + x) + c]
}

/// A rectangular buffer of RGBA pixels, row-major, four bytes per pixel.
pub struct PixelBuffer {
    pub width: u32,
    pub height: u32,
    pub data: Vec<u8>,
}

impl PixelBuffer {
    /// The buffer holds exactly one RGBA quad per pixel.
    pub open spec fn wf(self) -> bool {
        self.data@.len() == 4 * (self.width as int) * (self.height as int)
    }

    /// Wrap a raw RGBA byte vector; refused unless its length matches the
    /// dimensions exactly.
    pub fn from_rgba(width: u32, height: u32, data: Vec<u8>) -> (r: Option<PixelBuffer>)
        ensures
            r is Some <==> data@.len() == 4 * (width as int) * (height as int),
            r matches Some(b) ==> b == (PixelBuffer { width, height, data }) && b.wf(),
    {
        proof {
            lemma_u32_product_fits(width as int, height as int);
            assert(4 * (width as int) * (height as int) == 4 * ((width as int) * (height
                as int))) by (nonlinear_arith);
        }
        let n: usize = data.len();
        let wh: u64 = width as u64 * height as u64;
        if wh <= u64::MAX / 4 && n as u64 == 4 * wh {
            Some(PixelBuffer { width, height, data })
        } else {
            None
        }
    }
}

/// Where channel `c` of the pixel at `(x, y)` lies in a decoder frame whose
/// rows are `stride` bytes apart.
pub open spec fn strided_index(stride: int, x: int, y: int, c: int) -> int {
    y * stride + 4 * x + c
}

/// Repack a decoded frame whose rows are laid out `stride` bytes apart into a
/// tight row-major RGBA buffer, dropping whatever padding trails each row.
pub fn pack_strided_rgba(data: &[u8], width: u32, height: u32, stride: usize) -> (r: PixelBuffer)
    requires
        4 * width as int <= stride as int,
        height as int * stride as int <= data@.len(),
    ensures
        r.wf(),
        r.width == width,
        r.height == height,
        forall|x: int, y: int, c: int|
            0 <= x < width && 0 <= y < height && 0 <= c < 4 ==> #[trigger] chan(
                r.data@,
                width as int,
                x,
                y,
                c,
            ) == data@[strided_index(stride as int, x, y, c)],
{
    let ghost w = width as int;
    let ghost h = height as int;
    let ghost s = stride as int;
    // Binds the slice length to a `usize`, which bounds every index below.
    let _total: usize = data.len();
    let mut out: Vec<u8> = Vec::new();
    let mut y: u32 = 0;
    while y < height
        invariant
            w == width as int,
            h == height as int,
            s == stride as int,
            4 * w <= s,
            h * s <= data@.len(),
            data@.len() <= usize::MAX,
            y <= height,
            out@.len() == 4 * (y as int * w),
            forall|xx: int, yy: int, c: int|
                0 <= xx < w && 0 <= yy < y as int && 0 <= c < 4 ==> #[trigger] out@[4 * (yy * w
                    + xx) + c] == data@[strided_index(s, xx, yy, c)],
        decreases height - y,
    {
        proof {
            lemma_mul_inequality(y as int, h, s);
            lemma_mul_inequality(y as int + 1, h, s);
            lemma_mul_inequality(y as int + 1, h, w);
        }
        let row_base: usize = (y as usize) * stride;
        let mut x: u32 = 0;
        while x < width
            invariant
                w == width as int,
                h == height as int,
                s == stride as int,
                4 * w <= s,
                h * s <= data@.len(),
                data@.len() <= usize::MAX,
                y < height,
                (y as int + 1) * s <= h * s,
                (y as int + 1) * w <= h * w,
                row_base as int == y as int * s,
                x <= width,
                out@.len() == 4 * (y as int * w + x as int),
                forall|xx: int, yy: int, c: int|
                    0 <= xx < w && 0 <= yy < y as int && 0 <= c < 4 ==> #[trigger] out@[4 * (yy * w
                        + xx) + c] == data@[strided_index(s, xx, yy, c)],
                forall|xx: int, c: int|
                    0 <= xx < x as int && 0 <= c < 4 ==> #[trigger] out@[4 * (y as int * w + xx)
                        + c] == data@[strided_index(s, xx, y as int, c)],
            decreases width - x,
        {
            proof {
                assert(y as int * s + 4 * (x as int) + 4 <= (y as int + 1) * s)
                    by (nonlinear_arith)
                    requires
                        (x as int) < w,
                        0 <= x as int,
                        4 * w <= s,
                ;
            }
            let base: usize = row_base + 4 * (x as usize);
            let ghost prev = out@;
            out.push(data[base]);
            out.push(data[base + 1]);
            out.push(data[base + 2]);
            out.push(data[base + 3]);
            proof {
                let yw = y as int * w;
                assert forall|xx: int, yy: int, c: int|
                    0 <= xx < w && 0 <= yy < y as int && 0 <= c < 4 implies #[trigger] out@[4 * (yy
                    * w + xx) + c] == data@[strided_index(s, xx, yy, c)] by {
                    assert(4 * (yy * w + xx) + c < 4 * yw) by (nonlinear_arith)
                        requires
                            0 <= xx < w,
                            0 <= c < 4,
                            0 <= yy < y as int,
                            yw == y as int * w,
                    ;
                    assert(out@[4 * (yy * w + xx) + c] == prev[4 * (yy * w + xx) + c]);
                }
                assert forall|xx: int, c: int|
                    0 <= xx < x as int + 1 && 0 <= c < 4 implies #[trigger] out@[4 * (yw + xx)
                    + c] == data@[strided_index(s, xx, y as int, c)] by {
                    if xx < x as int {
                        assert(out@[4 * (yw + xx) + c] == prev[4 * (yw + xx) + c]);
                    } else {
                        assert(out@[4 * (yw + xx) + c] == data@[base as int + c]);
                    }
                }
            }
            x += 1;
        }
        proof {
            assert(y as int * w + w == (y as int + 1) * w) by (nonlinear_arith);
        }
        y += 1;
    }
    proof {
        assert(out@.len() == 4 * w * h) by (nonlinear_arith)
            requires
                out@.len() == 4 * (h * w),
        ;
    }
    PixelBuffer { width, height, data: out }
}

/// The pixel count of a `u32`-sized rectangle fits in a `u64`.
proof fn lemma_u32_product_fits(w: int, h: int)
    requires
        0 <= w <= u32::MAX,
        0 <= h <= u32::MAX,
    ensures
        w * h <= u64::MAX,
{
    assert(w * h <= u64::MAX) by (nonlinear_arith)
        requires
            0 <= w <= u32::MAX,
            0 <= h <= u32::MAX,
    ;
}

} // verus!
