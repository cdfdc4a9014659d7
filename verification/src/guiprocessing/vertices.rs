//! Render-ready vertices and the clip-space mapping.
//!
//! A widget-local coordinate in `[0, parent]` is mapped into the
//! `[-1, 1]` clip-space range a rasterizer expects, with the vertical
//! axis inverted so that widget space grows downward while clip space
//! grows upward.  Clip coordinates stay on the eight-decimal grid:
//! `SUBUNITS_PER_PIXEL` grid units stand for clip-space one.

use crate::guimath::{div_round_i128, round_div, MAX_SUBUNITS, SUBUNITS_PER_PIXEL};
use vstd::prelude::*;

verus! {

/// Largest widget-local coordinate magnitude, in grid units, that the
/// clip mapping accepts; comfortably past anything a well-formed
/// widget tree can produce.
pub const MAX_CLIP_INPUT: i64 = 1_000_000_000_000_000;

/// A render-ready vertex: a clip-space position on the grid — the
/// third coordinate is fixed at zero for the flat case — with the
/// red, green and blue channels of its color and the emitting
/// widget's identifier.
#[derive(Clone, Copy, Debug, PartialEq, Eq, Structural)]
pub struct Vertex {
    /// Horizontal clip coordinate in grid units; full scale is one.
    pub x: i64,
    /// Vertical clip coordinate in grid units, growing upward.
    pub y: i64,
    /// Depth coordinate, zero for the flat case.
    pub z: i64,
    /// Red channel on the grid scale.
    pub r: i64,
    /// Green channel on the grid scale.
    pub g: i64,
    /// Blue channel on the grid scale.
    pub b: i64,
    /// Identifier of the widget the vertex belongs to.
    pub id: u128,
}

/// The horizontal clip coordinate, in grid units, of widget-local `x`
/// inside a parent of width `w`: `[0, w]` is mapped onto `[-1, 1]`.
pub open spec fn clip_x(x: int, w: int) -> int {
    round_div(2 * SUBUNITS_PER_PIXEL * x, w) - SUBUNITS_PER_PIXEL
}

/// The vertical clip coordinate, in grid units, of widget-local `y`
/// inside a parent of height `h`: `[0, h]` is mapped onto `[1, -1]`,
/// inverting the axis.
pub open spec fn clip_y(y: int, h: int) -> int {
    SUBUNITS_PER_PIXEL - round_div(2 * SUBUNITS_PER_PIXEL * y, h)
}

/// Computes the horizontal clip coordinate on the grid.
pub fn clip_x_units(x: i64, w: i64) -> (r: i64)
    requires
        SUBUNITS_PER_PIXEL <= w <= MAX_SUBUNITS,
        -MAX_CLIP_INPUT <= x <= MAX_CLIP_INPUT,
    ensures
        r == clip_x(x as int, w as int),
{
    let scaled: i128 = 2 * (SUBUNITS_PER_PIXEL as i128) * (x as i128);
    let q = div_round_i128(scaled, w as i128);
    proof {
        crate::guimath::lemma_round_div_magnitude(
            2 * SUBUNITS_PER_PIXEL * x,
            w as int,
            2_000_000_000_000_000_000,
        );
        assert(2_000_000_000_000_000_000int * (w as int) >= 2 * SUBUNITS_PER_PIXEL
            * MAX_CLIP_INPUT);
    }
    (q as i64) - SUBUNITS_PER_PIXEL
}

/// Computes the vertical clip coordinate on the grid.
pub fn clip_y_units(y: i64, h: i64) -> (r: i64)
    requires
        SUBUNITS_PER_PIXEL <= h <= MAX_SUBUNITS,
        -MAX_CLIP_INPUT <= y <= MAX_CLIP_INPUT,
    ensures
        r == clip_y(y as int, h as int),
{
    let scaled: i128 = 2 * (SUBUNITS_PER_PIXEL as i128) * (y as i128);
    let q = div_round_i128(scaled, h as i128);
    proof {
        crate::guimath::lemma_round_div_magnitude(
            2 * SUBUNITS_PER_PIXEL * y,
            h as int,
            2_000_000_000_000_000_000,
        );
        assert(2_000_000_000_000_000_000int * (h as int) >= 2 * SUBUNITS_PER_PIXEL
            * MAX_CLIP_INPUT);
    }
    SUBUNITS_PER_PIXEL - (q as i64)
}

/// The render-ready vertex for one outline position: its coordinates
/// mapped into clip space against the parent's extents, carrying the
/// widget's flat background color and identifier.
pub open spec fn clip_vertex(
    p: crate::guiproperties::guiposition::GUIPosition,
    w: int,
    h: int,
    color: crate::guiproperties::guicolor::GUIColor,
    id: u128,
) -> Vertex {
    Vertex {
        x: clip_x(p.x.subunits as int, w) as i64,
        y: clip_y(p.y.subunits as int, h) as i64,
        z: 0,
        r: color.r,
        g: color.g,
        b: color.b,
        id,
    }
}

/// Which vertex of its fan the `k`-th index entry names, relative to
/// the fan's first vertex: triple `i` reads vertex `0`, then `i + 1`,
/// then `i + 2`.
pub open spec fn fan_step(k: int) -> int {
    if k % 3 == 0 {
        0
    } else {
        k / 3 + k % 3
    }
}

/// The fan-triangulation indices of an outline of `n` vertices whose
/// first vertex sits at buffer slot `off`: one index triple for each
/// of the `n - 2` triangles, every entry shifted by `off`.
pub open spec fn fan_indices(off: int, n: int) -> Seq<u16> {
    Seq::new((3 * (n - 2)) as nat, |k: int| (off + fan_step(k)) as u16)
}

/// Builds the fan-triangulation indices for an outline of `count`
/// vertices placed at buffer slot `indice_offset`.
pub fn make_fan_indices(indice_offset: u16, count: usize) -> (out: Vec<u16>)
    requires
        3 <= count,
        indice_offset + count <= 65536,
    ensures
        out@ == fan_indices(indice_offset as int, count as int),
{
    let triangles: usize = count - 2;
    let mut out: Vec<u16> = Vec::new();
    let mut i: usize = 0;
    while i < triangles
        invariant
            triangles == count - 2,
            3 <= count,
            indice_offset + count <= 65536,
            i <= triangles,
            out@.len() == 3 * i,
            forall|k: int|
                0 <= k < 3 * i ==> out@[k] == (indice_offset + fan_step(k)) as u16,
        decreases triangles - i,
    {
        out.push(indice_offset);
        out.push(indice_offset + (i as u16) + 1);
        out.push(indice_offset + (i as u16) + 2);
        i = i + 1;
    }
    proof {
        assert(out@ =~= fan_indices(indice_offset as int, count as int));
    }
    out
}

/// Every fan index of an outline of `n` vertices at buffer slot `off`
/// refers into that outline's own slots: nothing before `off`, nothing
/// at `off + n` or past it.
pub proof fn lemma_fan_indices_in_range(off: int, n: int)
    requires
        0 <= off,
        3 <= n,
        off + n <= 65536,
    ensures
        fan_indices(off, n).len() == 3 * (n - 2),
        forall|k: int|
            0 <= k < 3 * (n - 2) ==> off <= #[trigger] fan_indices(off, n)[k] < off + n,
{
    assert forall|k: int| 0 <= k < 3 * (n - 2) implies off <= #[trigger] fan_indices(off, n)[k]
        < off + n by {
        assert(k / 3 < n - 2) by {
            vstd::arithmetic::div_mod::lemma_multiply_divide_lt(k, 3, n - 2);
        }
        assert(0 <= k % 3 < 3);
        assert(0 <= fan_step(k) <= n - 1);
        assert(off <= off + fan_step(k) <= 65535);
    }
}

/// Scaling a widget-local coordinate together with its parent's extent
/// leaves the clip coordinate unchanged: the logical-to-clip mapping
/// depends only on the coordinate's share of the parent, so a resize
/// moves every emitted vertex proportionally.
pub proof fn lemma_clip_scale_invariance(x: int, y: int, w: int, h: int, k: int)
    requires
        0 < w,
        0 < h,
        0 < k,
    ensures
        clip_x(k * x, k * w) == clip_x(x, w),
        clip_y(k * y, k * h) == clip_y(y, h),
{
    crate::guimath::lemma_round_div_scale_invariant(2 * SUBUNITS_PER_PIXEL * x, w, k);
    assert(k * (2 * SUBUNITS_PER_PIXEL * x) == 2 * SUBUNITS_PER_PIXEL * (k * x))
        by (nonlinear_arith);
    crate::guimath::lemma_round_div_scale_invariant(2 * SUBUNITS_PER_PIXEL * y, h, k);
    assert(k * (2 * SUBUNITS_PER_PIXEL * y) == 2 * SUBUNITS_PER_PIXEL * (k * y))
        by (nonlinear_arith);
}

} // verus!
