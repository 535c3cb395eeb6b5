//! Sizing, resampling and still-image rendering with the real image library.
use batimg::buffer::{pack_strided_rgba, PixelBuffer};
use batimg::cell::RenderMode;
use batimg::media::{effective_loop, is_video_ext};
use batimg::render::{fit_dimensions, frame_rows, render_still, resize_image};

#[test]
fn resize_enlarges_a_single_red_pixel() {
    let buf = PixelBuffer::from_rgba(1, 1, vec![255, 0, 0, 255]).unwrap();
    let big = resize_image(&buf, 3, 2);
    assert_eq!(big.width, 3);
    assert_eq!(big.height, 2);
    assert_eq!(big.data.len(), 24);
    for pixel in big.data.chunks(4) {
        assert_eq!(pixel, [255, 0, 0, 255]);
    }
}

#[test]
fn resize_downscales_to_one_pixel() {
    let mut data = Vec::new();
    for _ in 0..4 {
        data.extend_from_slice(&[10, 20, 30, 255]);
    }
    let buf = PixelBuffer::from_rgba(2, 2, data).unwrap();
    let small = resize_image(&buf, 1, 1);
    assert_eq!(small.width, 1);
    assert_eq!(small.height, 1);
    assert_eq!(small.data, vec![10, 20, 30, 255]);
}

#[test]
fn render_still_single_mode_doubles_the_width() {
    let buf = PixelBuffer::from_rgba(1, 1, vec![255, 0, 0, 255]).unwrap();
    let text = render_still(&buf, 1, RenderMode::Single);
    let red = "\x1b[48;2;255;0;0m\x1b[38;2;255;0;0mX";
    assert_eq!(text, format!("{}{}\x1b[0m\n", red, red));
}

#[test]
fn render_still_half_mode_uses_double_density() {
    let buf = PixelBuffer::from_rgba(1, 1, vec![0, 200, 0, 255]).unwrap();
    let text = render_still(&buf, 1, RenderMode::HalfPixel);
    let cell = "\x1b[38;2;0;200;0m\x1b[48;2;0;200;0m\u{2580}";
    assert_eq!(text, format!("{}{}\x1b[0m\n", cell, cell));
}

#[test]
fn fit_keeps_aspect_when_the_height_binds() {
    assert_eq!(fit_dimensions(100, 50, 200, 20, RenderMode::HalfPixel), (80, 40));
    assert_eq!(fit_dimensions(100, 50, 200, 20, RenderMode::Single), (80, 20));
}

#[test]
fn fit_keeps_aspect_when_the_width_binds() {
    assert_eq!(fit_dimensions(100, 50, 40, 20, RenderMode::HalfPixel), (40, 20));
    assert_eq!(fit_dimensions(100, 50, 40, 20, RenderMode::Single), (40, 10));
}

#[test]
fn frame_rows_counts_terminal_lines() {
    assert_eq!(frame_rows(10, RenderMode::Single), 10);
    assert_eq!(frame_rows(10, RenderMode::HalfPixel), 5);
    assert_eq!(frame_rows(11, RenderMode::HalfPixel), 5);
    assert_eq!(frame_rows(1, RenderMode::HalfPixel), 0);
}

#[test]
fn strided_frame_is_packed_tightly() {
    // Two rows of two pixels, each row padded to a 12-byte stride.
    let data: Vec<u8> = vec![
        1, 2, 3, 4, 5, 6, 7, 8, 99, 99, 99, 99, // row 0 + padding
        11, 12, 13, 14, 15, 16, 17, 18, 99, 99, 99, 99, // row 1 + padding
    ];
    let buf = pack_strided_rgba(&data, 2, 2, 12);
    assert_eq!(buf.width, 2);
    assert_eq!(buf.height, 2);
    assert_eq!(buf.data, vec![1, 2, 3, 4, 5, 6, 7, 8, 11, 12, 13, 14, 15, 16, 17, 18]);
}

#[test]
fn tight_stride_copies_the_frame_unchanged() {
    let data: Vec<u8> = (0..16).collect();
    let buf = pack_strided_rgba(&data, 2, 2, 8);
    assert_eq!(buf.data, data);
}

#[test]
fn video_extensions_are_recognised() {
    for ext in ["gif", "avi", "mp4", "mkv", "webm", "3gp", "nsv"] {
        assert!(is_video_ext(ext), "{} should be a video extension", ext);
    }
    for ext in ["png", "jpg", "jpeg", "bmp", "", "mp3", "GIF"] {
        assert!(!is_video_ext(ext), "{} should not be a video extension", ext);
    }
}

#[test]
fn gifs_loop_by_default_and_the_flag_inverts() {
    assert!(effective_loop(true, false));
    assert!(!effective_loop(true, true));
    assert!(effective_loop(false, true));
    assert!(!effective_loop(false, false));
}
