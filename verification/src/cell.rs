//! The cell alphabet of the renderer: colours, terminal cells and the two
//! density modes.
use vstd::prelude::*;

verus! {

/// A 24-bit colour: one channel each for red, green and blue.
#[derive(Clone, Copy, PartialEq, Eq, Structural, Debug)]
pub struct Rgb {
    pub r: u8,
    pub g: u8,
    pub b: u8,
}

/// One printable terminal cell. Each variant fixes a glyph together with the
/// colours it carries:
/// - `Transparent`: a space with all attributes reset;
/// - `Solid`: a full block glyph, foreground and background both set to the
///   pixel colour;
/// - `UpperHalf` / `LowerHalf`: an upper or lower half-block glyph whose
///   foreground is the one opaque pixel of the pair;
/// - `Split`: an upper half-block glyph showing two stacked colours, the
///   upper pixel as foreground and the lower pixel as background.
#[derive(Clone, Copy, PartialEq, Eq, Structural, Debug)]
pub enum TerminalCell {
    Transparent,
    Solid(Rgb),
    UpperHalf(Rgb),
    LowerHalf(Rgb),
    Split { upper: Rgb, lower: Rgb },
}

/// How many source pixels one terminal cell covers vertically.
#[derive(Clone, Copy, PartialEq, Eq, Structural, Debug)]
pub enum RenderMode {
    /// One cell per source pixel.
    Single,
    /// One cell per two vertically stacked source pixels.
    HalfPixel,
}

} // verus!
