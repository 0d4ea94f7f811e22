use vstd::prelude::*;

verus! {

/// A color: four bytes, one per channel, in the order red, green, blue, alpha.
/// Any four bytes are a color; the framebuffer never interprets them.
pub type ColorRGBA = [u8; 4];

/// Fully opaque black.
pub const BLACK: ColorRGBA = [0, 0, 0, 255];

/// Fully opaque white.
pub const WHITE: ColorRGBA = [255, 255, 255, 255];

} // verus!
