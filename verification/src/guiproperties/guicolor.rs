//! Colors with an opacity channel.
//!
//! Each channel lives on the same eight-decimal grid as the lengths:
//! one hundred million grid units stand for a channel value of one.

use crate::guimath::{div_round_u128, round_div, SUBUNITS_PER_PIXEL};
use vstd::prelude::*;

verus! {

/// Represents a color and opacity.  Channels run from zero to
/// `SUBUNITS_PER_PIXEL` grid units, standing for the zero-to-one scale.
#[derive(Clone, Copy, Debug, PartialEq, Eq, Structural)]
pub struct GUIColor {
    /// Red channel.
    pub r: i64,
    /// Green channel.
    pub g: i64,
    /// Blue channel.
    pub b: i64,
    /// Opacity channel; full scale is opaque.
    pub a: i64,
}

impl Default for GUIColor {
    /// Returns the default mid-gray, fully opaque color.
    fn default() -> (r: Self)
        ensures
            r.r == 40_000_000,
            r.g == 40_000_000,
            r.b == 40_000_000,
            r.a == SUBUNITS_PER_PIXEL,
            r.valid(),
    {
        GUIColor { r: 40_000_000, g: 40_000_000, b: 40_000_000, a: SUBUNITS_PER_PIXEL }
    }
}

impl GUIColor {
    /// Every channel sits on the zero-to-one scale.
    pub open spec fn valid(&self) -> bool {
        &&& 0 <= self.r <= SUBUNITS_PER_PIXEL
        &&& 0 <= self.g <= SUBUNITS_PER_PIXEL
        &&& 0 <= self.b <= SUBUNITS_PER_PIXEL
        &&& 0 <= self.a <= SUBUNITS_PER_PIXEL
    }

    /// What an 8-bit channel value becomes on the zero-to-one grid
    /// scale: its 255th part, rounded to the nearest grid unit.
    pub open spec fn spec_channel(v: u8) -> int {
        round_div(v * SUBUNITS_PER_PIXEL, 255)
    }

    /// Creates an GUIColor from u8 red, green, blue, and alpha values.
    pub fn from_rgba_u8u8u8u8(r: u8, g: u8, b: u8, a: u8) -> (c: Self)
        ensures
            c.r == Self::spec_channel(r),
            c.g == Self::spec_channel(g),
            c.b == Self::spec_channel(b),
            c.a == Self::spec_channel(a),
            c.valid(),
    {
        GUIColor {
            r: channel_from_u8(r),
            g: channel_from_u8(g),
            b: channel_from_u8(b),
            a: channel_from_u8(a),
        }
    }
}

/// One 8-bit channel scaled onto the grid.
fn channel_from_u8(v: u8) -> (r: i64)
    ensures
        r == GUIColor::spec_channel(v),
        0 <= r <= SUBUNITS_PER_PIXEL,
{
    proof {
        assert(0 <= v * SUBUNITS_PER_PIXEL <= (SUBUNITS_PER_PIXEL as int) * 255)
            by (nonlinear_arith)
            requires
                v <= 255,
        ;
    }
    let wide: u128 = (v as u128) * (SUBUNITS_PER_PIXEL as u128);
    let q = div_round_u128(wide, 255);
    proof {
        crate::guimath::lemma_round_div_bounded(
            v * SUBUNITS_PER_PIXEL,
            255,
            SUBUNITS_PER_PIXEL as int,
        );
    }
    q as i64
}

} // verus!
