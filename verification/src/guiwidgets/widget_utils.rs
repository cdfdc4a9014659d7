//! Quarter-circle tessellation and outline transforms.
//!
//! A quarter arc of fidelity `f` is sampled at `f + 1` points.  The
//! sample at step `i` stands for the angle `θ_i = (π/2)·i/f`; its
//! coordinates are the radius times a rational approximation of
//! `cos θ_i` and `sin θ_i` whose value is exact at both ends of the
//! quadrant: sample `0` is `(r, 0)` and sample `f` is `(0, -r)`,
//! with negative `y` pointing up.  The other three quadrants are
//! mirrored from the first, reversing the order where needed so that a
//! rounded-rectangle outline built from all four winds continuously.

use crate::guimath::{div_round_i128, round_div, MAX_SUBUNITS};
use crate::guiproperties::guiposition::{GUILength, GUIPosition};
use vstd::prelude::*;

verus! {

/// Most fascets a single quarter arc will be sampled with.
pub const MAX_FASCETS: usize = 4096;

/// A fascet count of zero or less is recovered by clamping to one.
pub open spec fn clamped_fascets(fascets: int) -> int {
    if fascets < 1 {
        1
    } else {
        fascets
    }
}

/// Numerator of the cosine approximation at step `i` of `f`.
pub open spec fn quarter_cos_num(i: int, f: int) -> int {
    4 * (f * f - i * i)
}

/// Denominator of the cosine approximation at step `i` of `f`.
pub open spec fn quarter_cos_den(i: int, f: int) -> int {
    4 * (f * f) + i * i
}

/// Numerator of the sine approximation at step `i` of `f`.
pub open spec fn quarter_sin_num(i: int, f: int) -> int {
    4 * (i * (2 * f - i))
}

/// Denominator of the sine approximation at step `i` of `f`.
pub open spec fn quarter_sin_den(i: int, f: int) -> int {
    5 * (f * f) - 2 * (f * i) + i * i
}

/// Horizontal coordinate, in grid units, of sample `i` on a top-right
/// quarter arc of radius `r` grid units centered on the origin.
pub open spec fn arc_x(r: int, i: int, f: int) -> int {
    round_div(r * quarter_cos_num(i, f), quarter_cos_den(i, f))
}

/// Vertical coordinate of the same sample; negative `y` points up.
pub open spec fn arc_y(r: int, i: int, f: int) -> int {
    -round_div(r * quarter_sin_num(i, f), quarter_sin_den(i, f))
}

/// Sample `i` of the top-right quarter arc, carrying the radius's unit.
pub open spec fn arc_sample(radius: GUILength, i: int, f: int) -> GUIPosition {
    GUIPosition {
        x: GUILength {
            subunits: arc_x(radius.subunits as int, i, f) as i64,
            length_type: radius.length_type,
        },
        y: GUILength {
            subunits: arc_y(radius.subunits as int, i, f) as i64,
            length_type: radius.length_type,
        },
    }
}

/// The point mirrored across the vertical axis.
pub open spec fn mirrored_x(p: GUIPosition) -> GUIPosition {
    GUIPosition {
        x: GUILength { subunits: (-p.x.subunits) as i64, length_type: p.x.length_type },
        y: p.y,
    }
}

/// The point mirrored across the horizontal axis.
pub open spec fn mirrored_y(p: GUIPosition) -> GUIPosition {
    GUIPosition {
        x: p.x,
        y: GUILength { subunits: (-p.y.subunits) as i64, length_type: p.y.length_type },
    }
}

/// The point mirrored across both axes.
pub open spec fn mirrored_xy(p: GUIPosition) -> GUIPosition {
    mirrored_x(mirrored_y(p))
}

/// The top-right quarter arc, counter-clockwise from `(r, 0)` up to
/// `(0, -r)`.
pub open spec fn top_right_arc(radius: GUILength, f: int) -> Seq<GUIPosition> {
    Seq::new((f + 1) as nat, |i: int| arc_sample(radius, i, f))
}

/// The top-left quarter arc, counter-clockwise from `(0, -r)` down to
/// `(-r, 0)`: the top-right arc reversed and mirrored across the
/// vertical axis.
pub open spec fn top_left_arc(radius: GUILength, f: int) -> Seq<GUIPosition> {
    Seq::new((f + 1) as nat, |i: int| mirrored_x(arc_sample(radius, f - i, f)))
}

/// The bottom-right quarter arc, counter-clockwise from `(0, r)` over
/// to `(r, 0)`: the top-right arc reversed and mirrored across the
/// horizontal axis.
pub open spec fn bottom_right_arc(radius: GUILength, f: int) -> Seq<GUIPosition> {
    Seq::new((f + 1) as nat, |i: int| mirrored_y(arc_sample(radius, f - i, f)))
}

/// The bottom-left quarter arc, counter-clockwise from `(-r, 0)` down
/// to `(0, r)`: the top-right arc mirrored across both axes.
pub open spec fn bottom_left_arc(radius: GUILength, f: int) -> Seq<GUIPosition> {
    Seq::new((f + 1) as nat, |i: int| mirrored_xy(arc_sample(radius, i, f)))
}

/// The point lies within the radius on both axes and carries the
/// radius's unit on both coordinates.
pub open spec fn within_radius(p: GUIPosition, radius: GUILength) -> bool {
    &&& -radius.subunits <= p.x.subunits <= radius.subunits
    &&& -radius.subunits <= p.y.subunits <= radius.subunits
    &&& p.x.length_type == radius.length_type
    &&& p.y.length_type == radius.length_type
}

/// Every point of all four quarter arcs stays within the radius and
/// keeps the radius's unit.
pub proof fn lemma_arc_seqs_bounded(radius: GUILength, f: int)
    requires
        0 <= radius.subunits,
        1 <= f,
    ensures
        forall|k: int|
            0 <= k < f + 1 ==> within_radius(#[trigger] top_right_arc(radius, f)[k], radius),
        forall|k: int|
            0 <= k < f + 1 ==> within_radius(#[trigger] top_left_arc(radius, f)[k], radius),
        forall|k: int|
            0 <= k < f + 1 ==> within_radius(#[trigger] bottom_right_arc(radius, f)[k], radius),
        forall|k: int|
            0 <= k < f + 1 ==> within_radius(#[trigger] bottom_left_arc(radius, f)[k], radius),
{
    assert forall|k: int| 0 <= k < f + 1 implies within_radius(
        #[trigger] top_right_arc(radius, f)[k],
        radius,
    ) by {
        lemma_arc_sample_bounds(radius.subunits as int, k, f);
    }
    assert forall|k: int| 0 <= k < f + 1 implies within_radius(
        #[trigger] top_left_arc(radius, f)[k],
        radius,
    ) by {
        lemma_arc_sample_bounds(radius.subunits as int, f - k, f);
    }
    assert forall|k: int| 0 <= k < f + 1 implies within_radius(
        #[trigger] bottom_right_arc(radius, f)[k],
        radius,
    ) by {
        lemma_arc_sample_bounds(radius.subunits as int, f - k, f);
    }
    assert forall|k: int| 0 <= k < f + 1 implies within_radius(
        #[trigger] bottom_left_arc(radius, f)[k],
        radius,
    ) by {
        lemma_arc_sample_bounds(radius.subunits as int, k, f);
    }
}

/// Every sample of a quarter arc stays within the radius on both axes,
/// never to the left of the vertical axis and never below the
/// horizontal one.
pub proof fn lemma_arc_sample_bounds(r: int, i: int, f: int)
    requires
        0 <= r,
        1 <= f,
        0 <= i <= f,
    ensures
        0 <= arc_x(r, i, f) <= r,
        -r <= arc_y(r, i, f) <= 0,
{
    assert(0 <= quarter_cos_num(i, f) <= quarter_cos_den(i, f) && 0 < quarter_cos_den(i, f)
        && 0 <= quarter_sin_num(i, f) <= quarter_sin_den(i, f) && 0 < quarter_sin_den(i, f))
        by (nonlinear_arith)
        requires
            1 <= f && 0 <= i <= f,
    ;
    assert(r * quarter_cos_num(i, f) <= r * quarter_cos_den(i, f) && 0 <= r * quarter_cos_num(
        i,
        f,
    )) by (nonlinear_arith)
        requires
            0 <= r && 0 <= quarter_cos_num(i, f) <= quarter_cos_den(i, f),
    ;
    assert(r * quarter_sin_num(i, f) <= r * quarter_sin_den(i, f) && 0 <= r * quarter_sin_num(
        i,
        f,
    )) by (nonlinear_arith)
        requires
            0 <= r && 0 <= quarter_sin_num(i, f) <= quarter_sin_den(i, f),
    ;
    crate::guimath::lemma_round_div_bounded(
        r * quarter_cos_num(i, f),
        quarter_cos_den(i, f),
        r,
    );
    crate::guimath::lemma_round_div_bounded(
        r * quarter_sin_num(i, f),
        quarter_sin_den(i, f),
        r,
    );
}

/// The quadrant is sampled exactly at its ends: the first sample of
/// the top-right arc is `(r, 0)` and the last is `(0, -r)`.
pub proof fn lemma_arc_sample_endpoints(r: int, f: int)
    requires
        0 <= r,
        1 <= f,
    ensures
        arc_x(r, 0, f) == r,
        arc_y(r, 0, f) == 0,
        arc_x(r, f, f) == 0,
        arc_y(r, f, f) == -r,
{
    assert(quarter_cos_num(0, f) == quarter_cos_den(0, f) && 0 < quarter_cos_den(0, f)
        && quarter_sin_num(0, f) == 0 && 0 < quarter_sin_den(0, f) && quarter_cos_num(f, f) == 0
        && 0 < quarter_cos_den(f, f) && quarter_sin_num(f, f) == quarter_sin_den(f, f) && 0
        < quarter_sin_den(f, f)) by (nonlinear_arith)
        requires
            1 <= f,
    ;
    assert(r * quarter_cos_den(0, f) == r * quarter_cos_num(0, f));
    crate::guimath::lemma_round_div_exact(r, quarter_cos_den(0, f));
    assert(r * quarter_cos_num(0, f) == r * quarter_cos_den(0, f)) by (nonlinear_arith)
        requires
            quarter_cos_num(0, f) == quarter_cos_den(0, f),
    ;
    crate::guimath::lemma_round_div_bounded(0, quarter_sin_den(0, f), 0);
    assert(r * quarter_sin_num(0, f) == 0) by (nonlinear_arith)
        requires
            quarter_sin_num(0, f) == 0,
    ;
    crate::guimath::lemma_round_div_bounded(0, quarter_cos_den(f, f), 0);
    assert(r * quarter_cos_num(f, f) == 0) by (nonlinear_arith)
        requires
            quarter_cos_num(f, f) == 0,
    ;
    crate::guimath::lemma_round_div_exact(r, quarter_sin_den(f, f));
    assert(r * quarter_sin_num(f, f) == r * quarter_sin_den(f, f)) by (nonlinear_arith)
        requires
            quarter_sin_num(f, f) == quarter_sin_den(f, f),
    ;
}

/// One sample of the top-right quarter arc, computed on the grid.
fn arc_sample_point(radius: &GUILength, i: usize, f: usize) -> (p: GUIPosition)
    requires
        0 <= radius.subunits <= MAX_SUBUNITS,
        1 <= f <= MAX_FASCETS,
        i <= f,
    ensures
        p == arc_sample(*radius, i as int, f as int),
{
    let r_w: i128 = radius.subunits as i128;
    let f_w: i128 = f as i128;
    let i_w: i128 = i as i128;
    proof {
        assert(1 <= f_w * f_w <= 16_777_216 && 0 <= i_w * i_w <= f_w * f_w && 0 <= f_w * i_w
            <= 16_777_216 && 0 <= i_w * (2 * f_w - i_w) <= 16_777_216) by (nonlinear_arith)
            requires
                1 <= f_w <= 4096 && 0 <= i_w <= f_w,
        ;
    }
    let cos_num: i128 = 4 * (f_w * f_w - i_w * i_w);
    let cos_den: i128 = 4 * (f_w * f_w) + i_w * i_w;
    let sin_num: i128 = 4 * (i_w * (2 * f_w - i_w));
    let sin_den: i128 = 5 * (f_w * f_w) - 2 * (f_w * i_w) + i_w * i_w;
    proof {
        assert(0 <= r_w * cos_num <= 100_000_000_000_000 * 67_108_864 && 0 <= r_w * sin_num
            <= 100_000_000_000_000 * 67_108_864) by (nonlinear_arith)
            requires
                0 <= r_w <= 100_000_000_000_000 && 0 <= cos_num <= 67_108_864 && 0 <= sin_num
                    <= 67_108_864,
        ;
        assert(0 < sin_den) by (nonlinear_arith)
            requires
                1 <= f_w && 0 <= i_w <= f_w && sin_den == 5 * (f_w * f_w) - 2 * (f_w * i_w) + i_w
                    * i_w,
        ;
    }
    let x = div_round_i128(r_w * cos_num, cos_den);
    let y = div_round_i128(r_w * sin_num, sin_den);
    proof {
        let r = radius.subunits as int;
        let ii = i as int;
        let ff = f as int;
        assert(cos_num == quarter_cos_num(ii, ff));
        assert(cos_den == quarter_cos_den(ii, ff));
        assert(sin_num == quarter_sin_num(ii, ff));
        assert(sin_den == quarter_sin_den(ii, ff));
        assert(x == arc_x(r, ii, ff));
        assert(y == -arc_y(r, ii, ff));
        lemma_arc_sample_bounds(r, ii, ff);
    }
    GUIPosition {
        x: GUILength { subunits: x as i64, length_type: radius.length_type },
        y: GUILength { subunits: -(y as i64), length_type: radius.length_type },
    }
}

/// Creates a set of vertices to approximate the top right quadrant of
/// a circle.  The center of the arc has the coordinates 0, 0.
/// `fascets` is the number of fascets in the arc, so one quarter of
/// the number of fascets that would be in a similarly detailed circle;
/// a count below one is clamped to one.  The rightmost vertex comes
/// first, with the samples in counter-clockwise order, so the arc runs
/// from exactly `(r, 0)` to exactly `(0, -r)`.
pub fn make_top_right_arc(radius: GUILength, fascets: usize) -> (arc: Vec<GUIPosition>)
    requires
        0 <= radius.subunits <= MAX_SUBUNITS,
        fascets <= MAX_FASCETS,
    ensures
        arc@ == top_right_arc(radius, clamped_fascets(fascets as int)),
        arc@.len() == clamped_fascets(fascets as int) + 1,
        arc@[0].x.subunits == radius.subunits,
        arc@[0].y.subunits == 0,
        arc@[arc@.len() - 1].x.subunits == 0,
        arc@[arc@.len() - 1].y.subunits == -radius.subunits,
{
    let f: usize = if fascets < 1 {
        1
    } else {
        fascets
    };
    let count: usize = f + 1;
    let mut positions: Vec<GUIPosition> = Vec::new();
    let mut i: usize = 0;
    while i < count
        invariant
            0 <= radius.subunits <= MAX_SUBUNITS,
            1 <= f <= MAX_FASCETS,
            count == f + 1,
            i <= count,
            positions@.len() == i,
            forall|k: int| 0 <= k < i ==> positions@[k] == arc_sample(radius, k, f as int),
        decreases count - i,
    {
        let p = arc_sample_point(&radius, i, f);
        positions.push(p);
        i = i + 1;
    }
    proof {
        assert(positions@ =~= top_right_arc(radius, clamped_fascets(fascets as int)));
        lemma_arc_sample_endpoints(radius.subunits as int, f as int);
        lemma_arc_sample_bounds(radius.subunits as int, 0, f as int);
        lemma_arc_sample_bounds(radius.subunits as int, f as int, f as int);
    }
    positions
}

/// Creates a set of vertices to approximate the top left quadrant of a
/// circle: the top-right arc reversed and mirrored across the vertical
/// axis, so it runs counter-clockwise from exactly `(0, -r)` to
/// exactly `(-r, 0)`.
pub fn make_top_left_arc(radius: GUILength, fascets: usize) -> (arc: Vec<GUIPosition>)
    requires
        0 <= radius.subunits <= MAX_SUBUNITS,
        fascets <= MAX_FASCETS,
    ensures
        arc@ == top_left_arc(radius, clamped_fascets(fascets as int)),
        arc@.len() == clamped_fascets(fascets as int) + 1,
{
    let top_right = make_top_right_arc(radius, fascets);
    let count: usize = top_right.len();
    let ghost f: int = clamped_fascets(fascets as int);
    let mut positions: Vec<GUIPosition> = Vec::new();
    let mut i: usize = 0;
    while i < count
        invariant
            count == f + 1,
            0 <= radius.subunits <= MAX_SUBUNITS,
            1 <= f,
            top_right@ == top_right_arc(radius, f),
            top_right@.len() == count,
            i <= count,
            positions@.len() == i,
            forall|k: int|
                0 <= k < i ==> positions@[k] == mirrored_x(arc_sample(radius, f - k, f)),
        decreases count - i,
    {
        let source = top_right[count - 1 - i];
        proof {
            lemma_arc_sample_bounds(radius.subunits as int, f - i, f);
        }
        positions.push(
            GUIPosition {
                x: GUILength { subunits: -source.x.subunits, length_type: source.x.length_type },
                y: source.y,
            },
        );
        i = i + 1;
    }
    proof {
        assert(positions@ =~= top_left_arc(radius, f));
    }
    positions
}

/// Creates a set of vertices to approximate the bottom right quadrant
/// of a circle: the top-right arc reversed and mirrored across the
/// horizontal axis, so it runs counter-clockwise from exactly `(0, r)`
/// to exactly `(r, 0)`.
pub fn make_bottom_right_arc(radius: GUILength, fascets: usize) -> (arc: Vec<GUIPosition>)
    requires
        0 <= radius.subunits <= MAX_SUBUNITS,
        fascets <= MAX_FASCETS,
    ensures
        arc@ == bottom_right_arc(radius, clamped_fascets(fascets as int)),
        arc@.len() == clamped_fascets(fascets as int) + 1,
{
    let top_right = make_top_right_arc(radius, fascets);
    let count: usize = top_right.len();
    let ghost f: int = clamped_fascets(fascets as int);
    let mut positions: Vec<GUIPosition> = Vec::new();
    let mut i: usize = 0;
    while i < count
        invariant
            count == f + 1,
            0 <= radius.subunits <= MAX_SUBUNITS,
            1 <= f,
            top_right@ == top_right_arc(radius, f),
            top_right@.len() == count,
            i <= count,
            positions@.len() == i,
            forall|k: int|
                0 <= k < i ==> positions@[k] == mirrored_y(arc_sample(radius, f - k, f)),
        decreases count - i,
    {
        let source = top_right[count - 1 - i];
        proof {
            lemma_arc_sample_bounds(radius.subunits as int, f - i, f);
        }
        positions.push(
            GUIPosition {
                x: source.x,
                y: GUILength { subunits: -source.y.subunits, length_type: source.y.length_type },
            },
        );
        i = i + 1;
    }
    proof {
        assert(positions@ =~= bottom_right_arc(radius, f));
    }
    positions
}

/// Creates a set of vertices to approximate the bottom left quadrant
/// of a circle: the top-right arc mirrored across both axes, so it
/// runs counter-clockwise from exactly `(-r, 0)` to exactly `(0, r)`.
pub fn make_bottom_left_arc(radius: GUILength, fascets: usize) -> (arc: Vec<GUIPosition>)
    requires
        0 <= radius.subunits <= MAX_SUBUNITS,
        fascets <= MAX_FASCETS,
    ensures
        arc@ == bottom_left_arc(radius, clamped_fascets(fascets as int)),
        arc@.len() == clamped_fascets(fascets as int) + 1,
{
    let top_right = make_top_right_arc(radius, fascets);
    let count: usize = top_right.len();
    let ghost f: int = clamped_fascets(fascets as int);
    let mut positions: Vec<GUIPosition> = Vec::new();
    let mut i: usize = 0;
    while i < count
        invariant
            count == f + 1,
            0 <= radius.subunits <= MAX_SUBUNITS,
            1 <= f,
            top_right@ == top_right_arc(radius, f),
            top_right@.len() == count,
            i <= count,
            positions@.len() == i,
            forall|k: int|
                0 <= k < i ==> positions@[k] == mirrored_xy(arc_sample(radius, k, f)),
        decreases count - i,
    {
        let source = top_right[i];
        proof {
            lemma_arc_sample_bounds(radius.subunits as int, i as int, f);
        }
        positions.push(
            GUIPosition {
                x: GUILength { subunits: -source.x.subunits, length_type: source.x.length_type },
                y: GUILength { subunits: -source.y.subunits, length_type: source.y.length_type },
            },
        );
        i = i + 1;
    }
    proof {
        assert(positions@ =~= bottom_left_arc(radius, f));
    }
    positions
}

/// The outline moved elementwise by a fixed offset.
pub open spec fn translated(vs: Seq<GUIPosition>, dx: GUILength, dy: GUILength) -> Seq<
    GUIPosition,
> {
    Seq::new(vs.len(), |i: int| GUIPosition { x: vs[i].x.spec_add(dx), y: vs[i].y.spec_add(dy) })
}

/// Moves every vertex of an outline by the given offsets, with the
/// unit checks of length addition applied to every coordinate.
pub fn translate(vertices: Vec<GUIPosition>, dx: &GUILength, dy: &GUILength) -> (out: Vec<
    GUIPosition,
>)
    requires
        forall|k: int|
            0 <= k < vertices@.len() ==> (#[trigger] vertices@[k]).x.same_unit_or_zero(*dx)
                && vertices@[k].y.same_unit_or_zero(*dy),
        forall|k: int|
            0 <= k < vertices@.len() ==> i64::MIN <= (#[trigger] vertices@[k]).x.subunits
                + dx.subunits <= i64::MAX && i64::MIN <= vertices@[k].y.subunits + dy.subunits
                <= i64::MAX,
    ensures
        out@ == translated(vertices@, *dx, *dy),
{
    let mut vertices = vertices;
    let count: usize = vertices.len();
    let ghost original = vertices@;
    let mut i: usize = 0;
    while i < count
        invariant
            count == original.len(),
            vertices@.len() == original.len(),
            i <= count,
            forall|k: int|
                i <= k < count ==> vertices@[k] == original[k],
            forall|k: int|
                0 <= k < i ==> vertices@[k] == (GUIPosition {
                    x: original[k].x.spec_add(*dx),
                    y: original[k].y.spec_add(*dy),
                }),
            forall|k: int|
                0 <= k < count ==> (#[trigger] original[k]).x.same_unit_or_zero(*dx)
                    && original[k].y.same_unit_or_zero(*dy),
            forall|k: int|
                0 <= k < count ==> i64::MIN <= (#[trigger] original[k]).x.subunits + dx.subunits
                    <= i64::MAX && i64::MIN <= original[k].y.subunits + dy.subunits <= i64::MAX,
        decreases count - i,
    {
        let vertice = vertices[i];
        let moved = GUIPosition { x: vertice.x.add(dx), y: vertice.y.add(dy) };
        vertices.set(i, moved);
        i = i + 1;
    }
    proof {
        assert(vertices@ =~= translated(original, *dx, *dy));
    }
    vertices
}

} // verus!
