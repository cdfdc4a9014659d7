//! Arc tessellation behavior: the quarter arcs, their mirrored
//! variants, clamping, and translation.

use gui_rs::guimath::SUBUNITS_PER_PIXEL;
use gui_rs::guiproperties::guiposition::{GUILength, GUIPosition, LengthType};
use gui_rs::guiwidgets::widget_utils::{
    make_bottom_left_arc, make_bottom_right_arc, make_top_left_arc, make_top_right_arc, translate,
};

fn logical(subunits: i64) -> GUILength {
    GUILength {
        subunits,
        length_type: LengthType::LogicalLength,
    }
}

fn position(x: i64, y: i64) -> GUIPosition {
    GUIPosition {
        x: logical(x),
        y: logical(y),
    }
}

const R: i64 = 5 * SUBUNITS_PER_PIXEL;
// The interior samples of a radius-five, four-fascet quarter arc, in
// grid units: five times the rational cosine approximations 60/65,
// 48/68 and 28/73, rounded to the nearest grid unit.
const A1: i64 = 461_538_462;
const A2: i64 = 352_941_176;
const A3: i64 = 191_780_822;

#[test]
fn make_top_right_arc_good() {
    let actual = make_top_right_arc(GUILength::from_logical_pixels(5), 4);
    let expected = Vec::from([
        position(R, 0),
        position(A1, -A3),
        position(A2, -A2),
        position(A3, -A1),
        position(0, -R),
    ]);
    assert_eq!(actual, expected);
}

#[test]
fn make_top_left_arc_good() {
    let actual = make_top_left_arc(GUILength::from_logical_pixels(5), 4);
    let expected = Vec::from([
        position(0, -R),
        position(-A3, -A1),
        position(-A2, -A2),
        position(-A1, -A3),
        position(-R, 0),
    ]);
    assert_eq!(actual, expected);
}

#[test]
fn make_bottom_right_arc_good() {
    let actual = make_bottom_right_arc(GUILength::from_logical_pixels(5), 4);
    let expected = Vec::from([
        position(0, R),
        position(A3, A1),
        position(A2, A2),
        position(A1, A3),
        position(R, 0),
    ]);
    assert_eq!(actual, expected);
}

#[test]
fn make_bottom_left_arc_good() {
    let actual = make_bottom_left_arc(GUILength::from_logical_pixels(5), 4);
    let expected = Vec::from([
        position(-R, 0),
        position(-A1, A3),
        position(-A2, A2),
        position(-A3, A1),
        position(0, R),
    ]);
    assert_eq!(actual, expected);
}

#[test]
fn arc_has_fascets_plus_one_points_and_exact_endpoints() {
    for fascets in [1usize, 2, 3, 7, 16, 100] {
        let radius = GUILength::from_logical_pixels(12);
        let arc = make_top_right_arc(radius, fascets);
        assert_eq!(arc.len(), fascets + 1);
        assert_eq!(arc[0], position(12 * SUBUNITS_PER_PIXEL, 0));
        assert_eq!(arc[fascets], position(0, -12 * SUBUNITS_PER_PIXEL));
    }
}

#[test]
fn zero_fascets_clamp_to_one() {
    let arc = make_top_right_arc(GUILength::from_logical_pixels(3), 0);
    assert_eq!(arc.len(), 2);
    assert_eq!(arc[0], position(3 * SUBUNITS_PER_PIXEL, 0));
    assert_eq!(arc[1], position(0, -3 * SUBUNITS_PER_PIXEL));
}

#[test]
fn zero_radius_arc_collapses_to_origin() {
    let arc = make_top_right_arc(logical(0), 4);
    assert_eq!(arc.len(), 5);
    for p in arc {
        assert_eq!(p, position(0, 0));
    }
}

#[test]
fn translate_moves_every_vertex() {
    let outline = vec![position(0, 0), position(SUBUNITS_PER_PIXEL, -SUBUNITS_PER_PIXEL)];
    let moved = translate(outline, &logical(10), &logical(-20));
    assert_eq!(
        moved,
        vec![
            position(10, -20),
            position(SUBUNITS_PER_PIXEL + 10, -SUBUNITS_PER_PIXEL - 20)
        ]
    );
}
