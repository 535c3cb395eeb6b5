//! Rasterizer behaviour on concrete buffers.
use batimg::buffer::PixelBuffer;
use batimg::cell::{RenderMode, Rgb, TerminalCell};
use batimg::raster::rasterize;

/// An opaque pixel of the given colour.
fn px(r: u8, g: u8, b: u8) -> [u8; 4] {
    [r, g, b, 255]
}

/// A fully transparent pixel.
fn clear() -> [u8; 4] {
    [0, 0, 0, 0]
}

fn buf_from(width: u32, height: u32, pixels: Vec<[u8; 4]>) -> PixelBuffer {
    assert_eq!(pixels.len() as u32, width * height);
    let mut data = Vec::new();
    for p in pixels {
        data.extend_from_slice(&p);
    }
    PixelBuffer::from_rgba(width, height, data).expect("length matches dimensions")
}

#[test]
fn transparent_buffer_gives_only_transparent_cells_single() {
    let buf = buf_from(3, 2, vec![clear(); 6]);
    let rows = rasterize(&buf, RenderMode::Single);
    assert_eq!(rows.len(), 2);
    for row in &rows {
        assert_eq!(row.len(), 3);
        for cell in row {
            assert_eq!(*cell, TerminalCell::Transparent);
        }
    }
}

#[test]
fn transparent_buffer_gives_only_transparent_cells_half() {
    let buf = buf_from(3, 4, vec![clear(); 12]);
    let rows = rasterize(&buf, RenderMode::HalfPixel);
    assert_eq!(rows.len(), 2);
    for row in &rows {
        assert_eq!(row.len(), 3);
        for cell in row {
            assert_eq!(*cell, TerminalCell::Transparent);
        }
    }
}

#[test]
fn opaque_single_mode_emits_one_cell_per_pixel() {
    let buf = buf_from(3, 2, vec![px(9, 8, 7); 6]);
    let rows = rasterize(&buf, RenderMode::Single);
    let total: usize = rows.iter().map(|r| r.len()).sum();
    assert_eq!(total, 6);
    for row in &rows {
        for cell in row {
            assert_eq!(*cell, TerminalCell::Solid(Rgb { r: 9, g: 8, b: 7 }));
        }
    }
}

#[test]
fn opaque_half_mode_emits_half_the_rows() {
    let buf = buf_from(5, 6, vec![px(1, 2, 3); 30]);
    let rows = rasterize(&buf, RenderMode::HalfPixel);
    assert_eq!(rows.len(), 3);
    for row in &rows {
        assert_eq!(row.len(), 5);
    }
}

#[test]
fn half_mode_drops_odd_trailing_row() {
    let buf = buf_from(2, 5, vec![px(1, 2, 3); 10]);
    let rows = rasterize(&buf, RenderMode::HalfPixel);
    assert_eq!(rows.len(), 2);
}

#[test]
fn half_mode_on_single_row_buffer_is_empty() {
    let buf = buf_from(4, 1, vec![px(1, 2, 3); 4]);
    let rows = rasterize(&buf, RenderMode::HalfPixel);
    assert_eq!(rows.len(), 0);
}

#[test]
fn rasterize_twice_gives_identical_output() {
    let mut pixels = Vec::new();
    for i in 0..12u8 {
        if i % 3 == 0 {
            pixels.push(clear());
        } else {
            pixels.push(px(i, 2 * i, 3 * i));
        }
    }
    let buf = buf_from(4, 3, pixels);
    let first = rasterize(&buf, RenderMode::Single);
    let second = rasterize(&buf, RenderMode::Single);
    assert_eq!(first, second);
    let buf2 = buf_from(
        4,
        2,
        vec![px(1, 1, 1), clear(), px(2, 2, 2), clear(), clear(), px(3, 3, 3), clear(), px(4, 4, 4)],
    );
    let h1 = rasterize(&buf2, RenderMode::HalfPixel);
    let h2 = rasterize(&buf2, RenderMode::HalfPixel);
    assert_eq!(h1, h2);
}

#[test]
fn half_pixel_red_over_blue_gives_split_cells() {
    let red = px(255, 0, 0);
    let blue = px(0, 0, 255);
    let buf = buf_from(4, 2, vec![red, red, red, red, blue, blue, blue, blue]);
    let rows = rasterize(&buf, RenderMode::HalfPixel);
    assert_eq!(rows.len(), 1);
    assert_eq!(rows[0].len(), 4);
    for cell in &rows[0] {
        assert_eq!(
            *cell,
            TerminalCell::Split {
                upper: Rgb { r: 255, g: 0, b: 0 },
                lower: Rgb { r: 0, g: 0, b: 255 },
            }
        );
    }
}

#[test]
fn single_mode_mixed_transparency_row() {
    let green = px(0, 255, 0);
    let buf = buf_from(2, 2, vec![clear(), green, clear(), clear()]);
    let rows = rasterize(&buf, RenderMode::Single);
    assert_eq!(rows.len(), 2);
    assert_eq!(
        rows[0],
        vec![TerminalCell::Transparent, TerminalCell::Solid(Rgb { r: 0, g: 255, b: 0 })]
    );
    assert_eq!(rows[1], vec![TerminalCell::Transparent, TerminalCell::Transparent]);
}

#[test]
fn half_mode_lone_upper_and_lower_pixels() {
    let c = px(10, 20, 30);
    let buf = buf_from(2, 2, vec![c, clear(), clear(), c]);
    let rows = rasterize(&buf, RenderMode::HalfPixel);
    assert_eq!(rows.len(), 1);
    assert_eq!(rows[0][0], TerminalCell::UpperHalf(Rgb { r: 10, g: 20, b: 30 }));
    assert_eq!(rows[0][1], TerminalCell::LowerHalf(Rgb { r: 10, g: 20, b: 30 }));
}

#[test]
fn from_rgba_refuses_wrong_length() {
    assert!(PixelBuffer::from_rgba(2, 2, vec![0; 15]).is_none());
    assert!(PixelBuffer::from_rgba(2, 2, vec![0; 16]).is_some());
    assert!(PixelBuffer::from_rgba(0, 0, vec![]).is_some());
}
