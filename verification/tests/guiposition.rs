//! The unit-tagged length algebra: constructors, arithmetic,
//! conversions, and the round-trip laws on concrete values.

use gui_rs::guimath::SUBUNITS_PER_PIXEL;
use gui_rs::guiproperties::guicolor::GUIColor;
use gui_rs::guiproperties::guipolygon::GUIPolygon;
use gui_rs::guiproperties::guiposition::{
    GUILength, GUIPosition, GUISize, LengthType,
};

fn logical(subunits: i64) -> GUILength {
    GUILength {
        subunits,
        length_type: LengthType::LogicalLength,
    }
}

fn physical(subunits: i64) -> GUILength {
    GUILength {
        subunits,
        length_type: LengthType::PhysicalLength,
    }
}

fn generic(subunits: i64) -> GUILength {
    GUILength {
        subunits,
        length_type: LengthType::Generic,
    }
}

#[test]
fn default_length_is_zero_logical() {
    let l = GUILength::default();
    assert_eq!(l, logical(0));
}

#[test]
fn constructors_scale_pixels_onto_the_grid() {
    assert_eq!(GUILength::from_logical_pixels(7), logical(7 * SUBUNITS_PER_PIXEL));
    assert_eq!(GUILength::from_physical_pixels(-3), physical(-3 * SUBUNITS_PER_PIXEL));
}

#[test]
fn equality_needs_value_and_unit() {
    assert_eq!(logical(42), logical(42));
    assert_ne!(logical(42), physical(42));
    assert_ne!(logical(42), logical(43));
}

#[test]
fn negative_flips_sign_and_keeps_unit() {
    assert_eq!(logical(250).negative(), logical(-250));
    assert_eq!(physical(-1).negative(), physical(1));
}

#[test]
fn add_subtract_round_trip_recovers_the_original() {
    // Same unit: the round trip is exact on the grid.
    let a = logical(123_456_789);
    let b = logical(987_654_321);
    assert_eq!(a.add(&b).subtract(&b), a);
    let c = physical(-55);
    let d = physical(13);
    assert_eq!(c.add(&d).subtract(&d), c);
}

#[test]
fn add_takes_the_left_operands_unit_for_zero_operands() {
    let zero = GUILength::default();
    let p = physical(900);
    assert_eq!(zero.add(&p), logical(900));
    assert_eq!(p.add(&zero), physical(900));
}

#[test]
fn multiply_rounds_onto_the_grid() {
    // 2.0 * 3.5 == 7.0 on the grid.
    let two = logical(2 * SUBUNITS_PER_PIXEL);
    let three_and_a_half = logical(3 * SUBUNITS_PER_PIXEL + SUBUNITS_PER_PIXEL / 2);
    assert_eq!(two.multiply(&three_and_a_half), logical(7 * SUBUNITS_PER_PIXEL));
    // A generic scalar may scale any unit.
    let scale = generic(SUBUNITS_PER_PIXEL / 4);
    assert_eq!(physical(800).multiply(&scale), physical(200));
}

#[test]
fn devide_by_rounds_onto_the_grid() {
    let seven = logical(7 * SUBUNITS_PER_PIXEL);
    let two = generic(2 * SUBUNITS_PER_PIXEL);
    assert_eq!(
        seven.devide_by(&two),
        logical(3 * SUBUNITS_PER_PIXEL + SUBUNITS_PER_PIXEL / 2)
    );
    // One third of a pixel rounds to the nearest grid unit.
    let one = logical(SUBUNITS_PER_PIXEL);
    let three = generic(3 * SUBUNITS_PER_PIXEL);
    assert_eq!(one.devide_by(&three), logical(33_333_333));
    // A negative divisor carries the sign into the quotient.
    let minus_two = generic(-2 * SUBUNITS_PER_PIXEL);
    assert_eq!(seven.devide_by(&minus_two), logical(-(3 * SUBUNITS_PER_PIXEL + SUBUNITS_PER_PIXEL / 2)));
}

#[test]
fn logical_to_physical_multiplies_by_the_scale() {
    // Scale factor 1.5: 10 logical pixels are 15 physical pixels.
    let scale: i64 = SUBUNITS_PER_PIXEL + SUBUNITS_PER_PIXEL / 2;
    let l = GUILength::from_logical_pixels(10);
    assert_eq!(l.get_physical_length(scale), 15 * SUBUNITS_PER_PIXEL);
    // A physical length passes through unchanged.
    assert_eq!(physical(777).get_physical_length(scale), 777);
    // A generic scalar passes through unchanged.
    assert_eq!(generic(777).get_physical_length(scale), 777);
}

#[test]
fn physical_to_logical_divides_by_the_scale() {
    // Scale factor 2: 15 physical pixels are 7.5 logical pixels.
    let scale: i64 = 2 * SUBUNITS_PER_PIXEL;
    let p = GUILength::from_physical_pixels(15);
    assert_eq!(
        p.get_logical_length(scale),
        7 * SUBUNITS_PER_PIXEL + SUBUNITS_PER_PIXEL / 2
    );
    assert_eq!(logical(123).get_logical_length(scale), 123);
}

#[test]
fn logical_physical_round_trip_recovers_the_length() {
    // For a product that lands on the grid, converting to physical
    // pixels and back recovers the stored value exactly.
    let scale: i64 = SUBUNITS_PER_PIXEL / 4 * 5;  // 1.25
    let l = GUILength::from_logical_pixels(12);
    let phys = l.get_physical_length(scale);
    assert_eq!(phys, 15 * SUBUNITS_PER_PIXEL);
    let back = physical(phys).get_logical_length(scale);
    assert_eq!(back, l.subunits);
}

#[test]
fn color_defaults_and_channel_scaling() {
    let c = GUIColor::default();
    assert_eq!(
        c,
        GUIColor {
            r: 40_000_000,
            g: 40_000_000,
            b: 40_000_000,
            a: 100_000_000,
        }
    );
    // 51 of 255 is exactly a fifth; 128 of 255 rounds to the nearest
    // grid unit.
    let mixed = GUIColor::from_rgba_u8u8u8u8(51, 128, 0, 255);
    assert_eq!(mixed.r, 20_000_000);
    assert_eq!(mixed.g, 50_196_078);
    assert_eq!(mixed.b, 0);
    assert_eq!(mixed.a, 100_000_000);
}

#[test]
fn polygon_holds_outline_and_fan() {
    let polygon = GUIPolygon {
        vertices: vec![
            GUIPosition::from_logical_pixels(0, 0),
            GUIPosition::from_logical_pixels(1, 0),
            GUIPosition::from_logical_pixels(1, 1),
        ],
        indices: vec![0, 1, 2],
    };
    let copy = polygon.clone();
    assert_eq!(copy.vertices, polygon.vertices);
    assert_eq!(copy.indices, vec![0, 1, 2]);
}

#[test]
fn size_and_position_constructors() {
    let s = GUISize::default();
    assert_eq!(s.width, logical(500 * SUBUNITS_PER_PIXEL));
    assert_eq!(s.height, logical(500 * SUBUNITS_PER_PIXEL));
    let s2 = GUISize::from_physical_pixels(640, 480);
    assert_eq!(s2.width, physical(640 * SUBUNITS_PER_PIXEL));
    assert_eq!(s2.height, physical(480 * SUBUNITS_PER_PIXEL));
    let s3 = GUISize::from_lengths(logical(1), physical(2));
    assert_eq!(s3.width, logical(1));
    assert_eq!(s3.height, physical(2));
    let p = GUIPosition::new(logical(3), logical(4));
    assert_eq!(p, GUIPosition::from_lengths(logical(3), logical(4)));
    let p2 = GUIPosition::from_logical_pixels(1, 2);
    assert_eq!(p2.x, logical(SUBUNITS_PER_PIXEL));
    assert_eq!(p2.y, logical(2 * SUBUNITS_PER_PIXEL));
    let p3 = GUIPosition::from_physical_pixels(1, 2);
    assert_eq!(p3.x, physical(SUBUNITS_PER_PIXEL));
    assert_eq!(p3.y, physical(2 * SUBUNITS_PER_PIXEL));
}
