//! Typed layout properties that widgets carry: lengths, positions,
//! sizes, colors, polygons, and the capability traits.

use vstd::prelude::*;

pub mod guicolor;
pub mod guipolygon;
pub mod guiposition;
pub mod guitraits;

pub use guicolor::GUIColor;

verus! {

/// An icon image handed to the windowing boundary: tightly packed
/// 8-bit RGBA rows, top to bottom.
pub struct GUIIcon {
    /// Four bytes per pixel, `width * height` pixels.
    pub rgba: Vec<u8>,
    /// Width of the image in pixels.
    pub width: u32,
    /// Height of the image in pixels.
    pub height: u32,
}

impl GUIIcon {
    /// A well-formed icon holds exactly four bytes for every pixel.
    pub open spec fn well_formed(&self) -> bool {
        self.rgba@.len() == 4 * self.width * self.height
    }
}

} // verus!
