//! Rendering entry points: size a frame to the terminal canvas, resample it,
//! and encode it as escape-coded text.
use vstd::prelude::*;
use vstd::arithmetic::div_mod::{
    lemma_div_is_ordered, lemma_div_multiples_vanish, lemma_fundamental_div_mod,
    lemma_mod_pos_bound,
};
use vstd::arithmetic::mul::lemma_mul_inequality;
use crate::buffer::PixelBuffer;
use crate::cell::RenderMode;
use crate::encode::{encode_frame, frame_codes};
use crate::raster::{rasterize, rasterize_spec};

verus! {

/// The dimension cap under which the resampler is relied upon: a megapixel
/// per axis, far beyond any terminal canvas.
pub const MAX_AXIS: u32 = 0x10_0000;

/// What the image library's nearest-filter resampler returns for a row-major
/// RGBA byte buffer of dimensions `w` by `h` scaled to `nw` by `nh`. The
/// result is a function of these arguments alone.
pub uninterp spec fn nearest_resized(data: Seq<u8>, w: nat, h: nat, nw: nat, nh: nat) -> Seq<u8>;

/// Relies on `image::imageops::resize` with the nearest filter, between
/// `ImageBuffer::from_raw` and `into_raw`: the result is an image of exactly
/// the requested dimensions, four bytes per pixel, computed from the source
/// pixels and the dimensions alone. The axis bounds keep the resampler's
/// internal buffers within address space, where its constructors would panic.
#[verifier::external_body]
fn resize_rgba_nearest(data: &Vec<u8>, w: u32, h: u32, nw: u32, nh: u32) -> (out: Vec<u8>)
    requires
        data@.len() == 4 * (w as int) * (h as int),
        w <= MAX_AXIS,
        h <= MAX_AXIS,
        nw <= MAX_AXIS,
        nh <= MAX_AXIS,
    ensures
        out@.len() == 4 * (nw as int) * (nh as int),
        out@ == nearest_resized(data@, w as nat, h as nat, nw as nat, nh as nat),
{
    let img: image::RgbaImage = image::ImageBuffer::from_raw(w, h, data.clone()).expect(
        "buffer length matches the dimensions",
    );
    image::imageops::resize(&img, nw, nh, image::imageops::FilterType::Nearest).into_raw()
}

/// Resample a buffer to the given dimensions with the nearest filter.
pub fn resize_image(buf: &PixelBuffer, nw: u32, nh: u32) -> (r: PixelBuffer)
    requires
        buf.wf(),
        buf.width <= MAX_AXIS,
        buf.height <= MAX_AXIS,
        nw <= MAX_AXIS,
        nh <= MAX_AXIS,
    ensures
        r.wf(),
        r.width == nw,
        r.height == nh,
        r.data@ == nearest_resized(
            buf.data@,
            buf.width as nat,
            buf.height as nat,
            nw as nat,
            nh as nat,
        ),
{
    let data = resize_rgba_nearest(&buf.data, buf.width, buf.height, nw, nh);
    PixelBuffer { width: nw, height: nh, data }
}

/// Encode one already-sized frame: rasterize it and emit its rows as escape
/// text, ready to be written to the terminal in one piece.
pub fn render_frame(buf: &PixelBuffer, mode: RenderMode) -> (r: String)
    requires
        buf.wf(),
    ensures
        r@ == frame_codes(
            rasterize_spec(buf.data@, buf.width as int, buf.height as int, mode),
        ),
{
    let rows = rasterize(buf, mode);
    encode_frame(&rows)
}

/// How many terminal rows a rendered frame of pixel height `h` occupies:
/// every pixel row in single mode, every pair in half-pixel mode.
pub open spec fn spec_frame_rows(h: int, mode: RenderMode) -> int {
    match mode {
        RenderMode::Single => h,
        RenderMode::HalfPixel => h / 2,
    }
}

/// The number of terminal rows a frame of pixel height `height` renders to,
/// which is how far the cursor must move back up to redraw in place.
pub fn frame_rows(height: u32, mode: RenderMode) -> (r: u32)
    ensures
        r as int == spec_frame_rows(height as int, mode),
        forall|data: Seq<u8>, w: int|
            #[trigger] rasterize_spec(data, w, height as int, mode).len() == r as int,
{
    match mode {
        RenderMode::Single => height,
        RenderMode::HalfPixel => height / 2,
    }
}

/// The pixel width a still image is scaled to for a canvas `target_height`
/// characters high: twice the proportional width, to make up for character
/// cells being about twice as tall as wide.
pub open spec fn still_width(w: int, h: int, target_height: int) -> int {
    2 * w * target_height / h
}

/// The pixel height a still image is scaled to: one pixel row per character
/// in single mode, two in half-pixel mode.
pub open spec fn still_height(target_height: int, mode: RenderMode) -> int {
    match mode {
        RenderMode::Single => target_height,
        RenderMode::HalfPixel => 2 * target_height,
    }
}

/// Render a still image for a canvas `target_height` characters high: scale
/// it to the proportional width at the mode's pixel density, then rasterize
/// and encode it.
pub fn render_still(buf: &PixelBuffer, target_height: u32, mode: RenderMode) -> (r: String)
    requires
        buf.wf(),
        buf.height >= 1,
        buf.width <= MAX_AXIS,
        buf.height <= MAX_AXIS,
        2 * (target_height as int) <= MAX_AXIS,
        still_width(buf.width as int, buf.height as int, target_height as int) <= MAX_AXIS,
    ensures
        r@ == frame_codes(
            rasterize_spec(
                nearest_resized(
                    buf.data@,
                    buf.width as nat,
                    buf.height as nat,
                    still_width(
                        buf.width as int,
                        buf.height as int,
                        target_height as int,
                    ) as nat,
                    still_height(target_height as int, mode) as nat,
                ),
                still_width(buf.width as int, buf.height as int, target_height as int),
                still_height(target_height as int, mode),
                mode,
            ),
        ),
{
    proof {
        assert(2 * (buf.width as int) * (target_height as int) <= u64::MAX) by (nonlinear_arith)
            requires
                0 <= buf.width as int <= 0x10_0000,
                0 <= 2 * (target_height as int) <= 0x10_0000,
        ;
    }
    let nw64: u64 = 2 * (buf.width as u64) * (target_height as u64) / (buf.height as u64);
    let nw: u32 = nw64 as u32;
    let nh: u32 = match mode {
        RenderMode::Single => target_height,
        RenderMode::HalfPixel => 2 * target_height,
    };
    let resized = resize_image(buf, nw, nh);
    render_frame(&resized, mode)
}

/// The dimensions a video frame of size `video_w` by `video_h` is displayed
/// at on a terminal canvas of `term_w` by `term_h` character cells, keeping
/// the aspect ratio: scale to the canvas height (at the mode's pixel density,
/// doubled widthwise for the cell aspect), and when that overshoots the
/// canvas width, fit to the width instead.
pub open spec fn spec_fit_dimensions(
    video_w: int,
    video_h: int,
    term_w: int,
    term_h: int,
    mode: RenderMode,
) -> (int, int) {
    let calc_w = 2 * term_h * video_w / video_h;
    match mode {
        RenderMode::HalfPixel => if calc_w <= term_w {
            (calc_w, 2 * term_h)
        } else {
            (term_w, term_w * video_h / video_w)
        },
        RenderMode::Single => if calc_w <= term_w {
            (calc_w, term_h)
        } else {
            (term_w, term_w * video_h / (2 * video_w))
        },
    }
}

/// If scaling `d` to the source proportion `b : c` overshoots the width `a`,
/// then fitting to `a` instead stays within the height `d`: from
/// `d * b / c > a` follows `a * c / b <= d`.
proof fn lemma_fit_height_bound(a: int, b: int, c: int, d: int)
    requires
        0 <= a,
        1 <= b,
        1 <= c,
        0 <= d,
        (d * b) / c > a,
    ensures
        (a * c) / b <= d,
{
    let q = (d * b) / c;
    lemma_fundamental_div_mod(d * b, c);
    lemma_mod_pos_bound(d * b, c);
    lemma_mul_inequality(a + 1, q, c);
    assert(a * c < (a + 1) * c) by (nonlinear_arith)
        requires
            1 <= c,
    ;
    assert(c * q == q * c) by (nonlinear_arith);
    assert(a * c <= d * b);
    lemma_div_is_ordered(a * c, d * b, b);
    lemma_div_multiples_vanish(d, b);
    assert(d * b == b * d) by (nonlinear_arith);
}

/// Compute the display dimensions of a video frame on the terminal canvas;
/// see `spec_fit_dimensions`. Returns width, then height, in pixels.
pub fn fit_dimensions(video_w: u32, video_h: u32, term_w: u32, term_h: u32, mode: RenderMode) -> (dims: (
    u32,
    u32,
))
    requires
        video_w >= 1,
        video_h >= 1,
        term_h <= u32::MAX / 2,
    ensures
        ({
            let (fw, fh) = spec_fit_dimensions(
                video_w as int,
                video_h as int,
                term_w as int,
                term_h as int,
                mode,
            );
            dims.0 == fw && dims.1 == fh
        }),
{
    proof {
        assert((2 * (term_h as int)) * (video_w as int) <= u64::MAX) by (nonlinear_arith)
            requires
                0 <= term_h as int <= u32::MAX / 2,
                0 <= video_w as int <= u32::MAX,
        ;
    }
    let calc_w: u64 = 2 * (term_h as u64) * (video_w as u64) / (video_h as u64);
    if calc_w <= term_w as u64 {
        let fh: u32 = match mode {
            RenderMode::HalfPixel => 2 * term_h,
            RenderMode::Single => term_h,
        };
        (calc_w as u32, fh)
    } else {
        proof {
            assert((term_w as int) * (video_h as int) <= u64::MAX) by (nonlinear_arith)
                requires
                    0 <= term_w as int <= u32::MAX,
                    0 <= video_h as int <= u32::MAX,
            ;
        }
        let fh64: u64 = match mode {
            RenderMode::HalfPixel => (term_w as u64) * (video_h as u64) / (video_w as u64),
            RenderMode::Single => (term_w as u64) * (video_h as u64) / (2 * (video_w as u64)),
        };
        proof {
            let a = term_w as int;
            let b = video_w as int;
            let c = video_h as int;
            let d = term_h as int;
            match mode {
                RenderMode::HalfPixel => {
                    lemma_fit_height_bound(a, b, c, 2 * d);
                },
                RenderMode::Single => {
                    assert((2 * d) * b == d * (2 * b)) by (nonlinear_arith);
                    lemma_fit_height_bound(a, 2 * b, c, d);
                },
            }
        }
        (term_w, fh64 as u32)
    }
}

} // verus!
