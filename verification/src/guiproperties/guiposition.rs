//! Linear measurements with unit tags, and the positions and sizes
//! built from them.
//!
//! A `GUILength` is a scalar on the eight-decimal measurement grid
//! together with a unit tag.  Arithmetic between two lengths demands
//! compatible units — adding a logical width to a physical one is a
//! defect caught at the call site, never coerced silently — while a
//! numerically zero length is a unit-polymorphic identity.

use crate::guimath::{
    round_div, round_div_any, div_round_i128, MAX_PIXELS, MAX_SUBUNITS, SUBUNITS_PER_PIXEL,
};
use vstd::prelude::*;

verus! {

/// The unit a measurement is expressed in.
#[derive(Clone, Copy, Debug, PartialEq, Eq, Structural)]
pub enum LengthType {
    /// A dimensionless scalar, compatible with every unit.
    Generic,
    /// Actual device pixels.
    PhysicalLength,
    /// Device-independent pixels; multiplied by the device scale
    /// factor to reach physical pixels.
    LogicalLength,
}

/// Largest device scale factor accepted by the unit conversions,
/// in grid units: a scale of one hundred physical pixels per logical pixel.
pub const MAX_SCALE_SUBUNITS: i64 = 10_000_000_000;

/// Smallest device scale factor accepted by the unit conversions,
/// in grid units: one tenth of a physical pixel per logical pixel.
pub const MIN_SCALE_SUBUNITS: i64 = 10_000_000;

/// Represents a linear dimension (height or width): a count of grid
/// units — one hundred million to the pixel — plus a unit tag.
#[derive(Clone, Copy, Debug, PartialEq, Eq, Structural)]
pub struct GUILength {
    /// The measurement in grid units of its unit.
    pub subunits: i64,
    /// The unit the measurement is expressed in.
    pub length_type: LengthType,
}

impl Default for GUILength {
    /// Returns the zero logical length.
    fn default() -> (r: Self)
        ensures
            r.subunits == 0,
            r.length_type == LengthType::LogicalLength,
    {
        GUILength { subunits: 0, length_type: LengthType::LogicalLength }
    }
}

impl GUILength {
    /// A well-formed length stays within one million pixels either way,
    /// which keeps every sum the geometry builder forms inside `i64`.
    pub open spec fn valid(&self) -> bool {
        -MAX_SUBUNITS <= self.subunits <= MAX_SUBUNITS
    }

    /// Two lengths may be added or subtracted when their units agree or
    /// either is numerically zero.
    pub open spec fn same_unit_or_zero(self, other: GUILength) -> bool {
        ||| self.length_type == other.length_type
        ||| self.subunits == 0
        ||| other.subunits == 0
    }

    /// Multiplication and division additionally accept a dimensionless
    /// operand on either side.
    pub open spec fn scalable_with(self, other: GUILength) -> bool {
        ||| self.same_unit_or_zero(other)
        ||| self.length_type == LengthType::Generic
        ||| other.length_type == LengthType::Generic
    }

    /// The sum of two lengths, carrying the left operand's unit.
    pub open spec fn spec_add(self, other: GUILength) -> GUILength {
        GUILength {
            subunits: (self.subunits + other.subunits) as i64,
            length_type: self.length_type,
        }
    }

    /// The difference of two lengths, carrying the left operand's unit.
    pub open spec fn spec_subtract(self, other: GUILength) -> GUILength {
        GUILength {
            subunits: (self.subunits - other.subunits) as i64,
            length_type: self.length_type,
        }
    }

    /// The product of two lengths on the grid: the real-valued product
    /// rounded to the nearest grid unit.
    pub open spec fn spec_multiply(self, other: GUILength) -> int {
        round_div(self.subunits * other.subunits, SUBUNITS_PER_PIXEL as int)
    }

    /// The quotient of two lengths on the grid: the real-valued
    /// quotient rounded to the nearest grid unit.
    pub open spec fn spec_devide_by(self, other: GUILength) -> int {
        round_div_any(self.subunits * SUBUNITS_PER_PIXEL, other.subunits as int)
    }

    /// The measurement expressed in logical pixels, in grid units,
    /// rounded to the nearest grid unit.  `scale` is the device scale
    /// factor in grid units.
    pub open spec fn spec_logical_subunits(self, scale: int) -> int {
        match self.length_type {
            LengthType::Generic => self.subunits as int,
            LengthType::LogicalLength => self.subunits as int,
            LengthType::PhysicalLength => round_div(
                self.subunits * SUBUNITS_PER_PIXEL,
                scale,
            ),
        }
    }

    /// The measurement expressed in physical pixels, in grid units,
    /// rounded to the nearest grid unit: logical values are multiplied
    /// by the device scale factor.
    pub open spec fn spec_physical_subunits(self, scale: int) -> int {
        match self.length_type {
            LengthType::Generic => self.subunits as int,
            LengthType::PhysicalLength => self.subunits as int,
            LengthType::LogicalLength => round_div(
                self.subunits * scale,
                SUBUNITS_PER_PIXEL as int,
            ),
        }
    }

    /// The same measurement with its sign flipped.
    pub fn negative(&self) -> (r: Self)
        requires
            self.subunits != i64::MIN,
        ensures
            r.subunits == -self.subunits,
            r.length_type == self.length_type,
    {
        GUILength { subunits: -self.subunits, length_type: self.length_type }
    }

    /// The length converted to logical pixels, in grid units, rounded
    /// to the nearest grid unit.
    pub fn get_logical_length(&self, scale: i64) -> (r: i64)
        requires
            self.valid(),
            MIN_SCALE_SUBUNITS <= scale <= MAX_SCALE_SUBUNITS,
        ensures
            r == self.spec_logical_subunits(scale as int),
    {
        match self.length_type {
            LengthType::Generic => self.subunits,
            LengthType::LogicalLength => self.subunits,
            LengthType::PhysicalLength => {
                proof {
                    assert(
                        -1_000_000_000_000_000 * (scale as int)
                            <= self.subunits * SUBUNITS_PER_PIXEL
                            <= 1_000_000_000_000_000 * (scale as int)
                    ) by (nonlinear_arith)
                        requires
                            -MAX_SUBUNITS <= self.subunits <= MAX_SUBUNITS
                                && MIN_SCALE_SUBUNITS <= scale,
                    ;
                }
                let wide: i128 = (self.subunits as i128) * (SUBUNITS_PER_PIXEL as i128);
                let q = div_round_i128(wide, scale as i128);
                proof {
                    crate::guimath::lemma_round_div_magnitude(
                        self.subunits * SUBUNITS_PER_PIXEL,
                        scale as int,
                        1_000_000_000_000_000,
                    );
                }
                q as i64
            },
        }
    }

    /// The length converted to physical pixels, in grid units, rounded
    /// to the nearest grid unit.
    pub fn get_physical_length(&self, scale: i64) -> (r: i64)
        requires
            self.valid(),
            MIN_SCALE_SUBUNITS <= scale <= MAX_SCALE_SUBUNITS,
        ensures
            r == self.spec_physical_subunits(scale as int),
    {
        match self.length_type {
            LengthType::Generic => self.subunits,
            LengthType::PhysicalLength => self.subunits,
            LengthType::LogicalLength => {
                proof {
                    assert(
                        -10_000_000_000_000_000 * (SUBUNITS_PER_PIXEL as int)
                            <= self.subunits * scale
                            <= 10_000_000_000_000_000 * (SUBUNITS_PER_PIXEL as int)
                    ) by (nonlinear_arith)
                        requires
                            -MAX_SUBUNITS <= self.subunits <= MAX_SUBUNITS
                                && 0 < scale <= MAX_SCALE_SUBUNITS,
                    ;
                }
                let wide: i128 = (self.subunits as i128) * (scale as i128);
                let q = div_round_i128(wide, SUBUNITS_PER_PIXEL as i128);
                proof {
                    crate::guimath::lemma_round_div_magnitude(
                        self.subunits * scale,
                        SUBUNITS_PER_PIXEL as int,
                        10_000_000_000_000_000,
                    );
                }
                q as i64
            },
        }
    }

    /// A length of so many logical pixels.
    pub fn from_logical_pixels(pixels: i64) -> (r: Self)
        requires
            -MAX_PIXELS <= pixels <= MAX_PIXELS,
        ensures
            r.subunits == pixels * SUBUNITS_PER_PIXEL,
            r.length_type == LengthType::LogicalLength,
            r.valid(),
    {
        GUILength {
            subunits: pixels * SUBUNITS_PER_PIXEL,
            length_type: LengthType::LogicalLength,
        }
    }

    /// A length of so many physical pixels.
    pub fn from_physical_pixels(pixels: i64) -> (r: Self)
        requires
            -MAX_PIXELS <= pixels <= MAX_PIXELS,
        ensures
            r.subunits == pixels * SUBUNITS_PER_PIXEL,
            r.length_type == LengthType::PhysicalLength,
            r.valid(),
    {
        GUILength {
            subunits: pixels * SUBUNITS_PER_PIXEL,
            length_type: LengthType::PhysicalLength,
        }
    }

    /// The sum of two unit-compatible lengths.  A unit mismatch between
    /// two non-zero, differently tagged operands is a contract
    /// violation at the call site.
    pub fn add(&self, other: &GUILength) -> (r: Self)
        requires
            self.same_unit_or_zero(*other),
            i64::MIN <= self.subunits + other.subunits <= i64::MAX,
        ensures
            r == self.spec_add(*other),
    {
        GUILength {
            subunits: self.subunits + other.subunits,
            length_type: self.length_type,
        }
    }

    /// The difference of two unit-compatible lengths.
    pub fn subtract(&self, other: &GUILength) -> (r: Self)
        requires
            self.same_unit_or_zero(*other),
            i64::MIN <= self.subunits - other.subunits <= i64::MAX,
        ensures
            r == self.spec_subtract(*other),
    {
        GUILength {
            subunits: self.subunits - other.subunits,
            length_type: self.length_type,
        }
    }

    /// The product of two lengths, at least one dimensionless or zero
    /// unless the units agree, rounded to the nearest grid unit.
    pub fn multiply(&self, other: &GUILength) -> (r: Self)
        requires
            self.scalable_with(*other),
            self.valid(),
            other.valid(),
            -i64::MAX <= self.spec_multiply(*other) <= i64::MAX,
        ensures
            r.subunits == self.spec_multiply(*other),
            r.length_type == self.length_type,
    {
        proof {
            assert(
                -(MAX_SUBUNITS as int) * (MAX_SUBUNITS as int)
                    <= self.subunits * other.subunits
                    <= (MAX_SUBUNITS as int) * (MAX_SUBUNITS as int)
            ) by (nonlinear_arith)
                requires
                    -MAX_SUBUNITS <= self.subunits <= MAX_SUBUNITS
                        && -MAX_SUBUNITS <= other.subunits <= MAX_SUBUNITS,
            ;
        }
        let wide: i128 = (self.subunits as i128) * (other.subunits as i128);
        let q = div_round_i128(wide, SUBUNITS_PER_PIXEL as i128);
        GUILength { subunits: q as i64, length_type: self.length_type }
    }

    /// The quotient of two lengths, at least one dimensionless or zero
    /// unless the units agree, rounded to the nearest grid unit.  The
    /// divisor must be non-zero.
    pub fn devide_by(&self, other: &GUILength) -> (r: Self)
        requires
            self.scalable_with(*other),
            self.valid(),
            other.valid(),
            other.subunits != 0,
            -i64::MAX <= self.spec_devide_by(*other) <= i64::MAX,
        ensures
            r.subunits == self.spec_devide_by(*other),
            r.length_type == self.length_type,
    {
        proof {
            assert(
                -(MAX_SUBUNITS as int) * (SUBUNITS_PER_PIXEL as int)
                    <= self.subunits * SUBUNITS_PER_PIXEL
                    <= (MAX_SUBUNITS as int) * (SUBUNITS_PER_PIXEL as int)
            ) by (nonlinear_arith)
                requires
                    -MAX_SUBUNITS <= self.subunits <= MAX_SUBUNITS,
            ;
        }
        let wide: i128 = (self.subunits as i128) * (SUBUNITS_PER_PIXEL as i128);
        let q = if other.subunits > 0 {
            div_round_i128(wide, other.subunits as i128)
        } else {
            div_round_i128(-wide, -(other.subunits as i128))
        };
        GUILength { subunits: q as i64, length_type: self.length_type }
    }
}

/// Adding a length and then subtracting it again returns exactly the
/// original measurement: the grid arithmetic is exact, so the round
/// trip loses nothing.
pub proof fn lemma_add_subtract_round_trip(a: GUILength, b: GUILength)
    requires
        a.length_type == b.length_type,
        i64::MIN <= a.subunits + b.subunits <= i64::MAX,
    ensures
        a.spec_add(b).spec_subtract(b) == a,
{
}

/// Converting a logical length to physical pixels multiplies by the
/// device scale factor, and converting the product back recovers the
/// original length exactly, whenever the product lands on the grid.
pub proof fn lemma_logical_physical_round_trip(a: GUILength, b: GUILength, scale: int)
    requires
        a.length_type == LengthType::LogicalLength,
        b.length_type == LengthType::PhysicalLength,
        0 < scale,
        (a.subunits * scale) % (SUBUNITS_PER_PIXEL as int) == 0,
        b.subunits == a.spec_physical_subunits(scale),
    ensures
        b.subunits * (SUBUNITS_PER_PIXEL as int) == a.subunits * scale,
        b.spec_logical_subunits(scale) == a.subunits,
{
    let grid = SUBUNITS_PER_PIXEL as int;
    let product = a.subunits * scale;
    let q = product / grid;
    vstd::arithmetic::div_mod::lemma_fundamental_div_mod(product, grid);
    assert(product == q * grid);
    crate::guimath::lemma_round_div_exact(q, grid);
    assert(a.spec_physical_subunits(scale) == q);
    assert(b.subunits * grid == q * grid);
    crate::guimath::lemma_round_div_exact(a.subunits as int, scale);
    assert(q * grid == a.subunits * scale);
    assert(b.spec_logical_subunits(scale) == round_div(b.subunits * SUBUNITS_PER_PIXEL, scale));
    assert(b.subunits * SUBUNITS_PER_PIXEL == a.subunits * scale);
}

/// A logical length of so many grid units, as a specification value.
pub open spec fn logical_units(v: int) -> GUILength {
    GUILength { subunits: v as i64, length_type: LengthType::LogicalLength }
}

/// A position in logical grid units, as a specification value.
pub open spec fn logical_position_units(x: int, y: int) -> GUIPosition {
    GUIPosition { x: logical_units(x), y: logical_units(y) }
}

/// For every positive scale factor, converting a logical length to
/// physical pixels lands within half a grid unit of the exact
/// product: the conversion never drifts past the eight-decimal
/// tolerance, whether or not the product is representable.
pub proof fn lemma_physical_conversion_error(a: GUILength, scale: int)
    requires
        a.length_type == LengthType::LogicalLength,
        0 < scale,
    ensures
        -SUBUNITS_PER_PIXEL <= 2 * (a.spec_physical_subunits(scale) * SUBUNITS_PER_PIXEL
            - a.subunits * scale) <= SUBUNITS_PER_PIXEL,
{
    crate::guimath::lemma_round_div_error(a.subunits * scale, SUBUNITS_PER_PIXEL as int);
}

/// Represents an area: a width and a height.
#[derive(Clone, Copy, Debug, PartialEq, Eq, Structural)]
pub struct GUISize {
    /// Horizontal extent.
    pub width: GUILength,
    /// Vertical extent.
    pub height: GUILength,
}

impl Default for GUISize {
    /// Returns the default area of 500 by 500 logical pixels.
    fn default() -> (r: GUISize)
        ensures
            r.width.subunits == 500 * SUBUNITS_PER_PIXEL,
            r.height.subunits == 500 * SUBUNITS_PER_PIXEL,
            r.width.length_type == LengthType::LogicalLength,
            r.height.length_type == LengthType::LogicalLength,
    {
        GUISize::from_logical_pixels(500, 500)
    }
}

impl GUISize {
    /// Both extents are well-formed lengths.
    pub open spec fn valid(&self) -> bool {
        self.width.valid() && self.height.valid()
    }

    /// An area assembled from two lengths.
    pub fn from_lengths(width: GUILength, height: GUILength) -> (r: Self)
        ensures
            r.width == width,
            r.height == height,
    {
        GUISize { width, height }
    }

    /// An area of so many logical pixels each way.
    pub fn from_logical_pixels(width: i64, height: i64) -> (r: Self)
        requires
            -MAX_PIXELS <= width <= MAX_PIXELS,
            -MAX_PIXELS <= height <= MAX_PIXELS,
        ensures
            r.width.subunits == width * SUBUNITS_PER_PIXEL,
            r.height.subunits == height * SUBUNITS_PER_PIXEL,
            r.width.length_type == LengthType::LogicalLength,
            r.height.length_type == LengthType::LogicalLength,
            r.valid(),
    {
        GUISize {
            width: GUILength::from_logical_pixels(width),
            height: GUILength::from_logical_pixels(height),
        }
    }

    /// An area of so many physical pixels each way.
    pub fn from_physical_pixels(width: i64, height: i64) -> (r: Self)
        requires
            -MAX_PIXELS <= width <= MAX_PIXELS,
            -MAX_PIXELS <= height <= MAX_PIXELS,
        ensures
            r.width.subunits == width * SUBUNITS_PER_PIXEL,
            r.height.subunits == height * SUBUNITS_PER_PIXEL,
            r.width.length_type == LengthType::PhysicalLength,
            r.height.length_type == LengthType::PhysicalLength,
            r.valid(),
    {
        GUISize {
            width: GUILength::from_physical_pixels(width),
            height: GUILength::from_physical_pixels(height),
        }
    }
}

/// A point in a widget's local coordinate space.
#[derive(Clone, Copy, Debug, PartialEq, Eq, Structural)]
pub struct GUIPosition {
    /// Horizontal coordinate, growing rightward.
    pub x: GUILength,
    /// Vertical coordinate, growing downward.
    pub y: GUILength,
}

impl GUIPosition {
    /// Both coordinates are well-formed lengths.
    pub open spec fn valid(&self) -> bool {
        self.x.valid() && self.y.valid()
    }

    /// A position from two coordinates.
    pub fn new(x: GUILength, y: GUILength) -> (r: Self)
        ensures
            r.x == x,
            r.y == y,
    {
        GUIPosition { x, y }
    }

    /// A position from two coordinates.
    pub fn from_lengths(x: GUILength, y: GUILength) -> (r: Self)
        ensures
            r.x == x,
            r.y == y,
    {
        GUIPosition { x, y }
    }

    /// A position of so many logical pixels each way.
    pub fn from_logical_pixels(x: i64, y: i64) -> (r: Self)
        requires
            -MAX_PIXELS <= x <= MAX_PIXELS,
            -MAX_PIXELS <= y <= MAX_PIXELS,
        ensures
            r.x.subunits == x * SUBUNITS_PER_PIXEL,
            r.y.subunits == y * SUBUNITS_PER_PIXEL,
            r.x.length_type == LengthType::LogicalLength,
            r.y.length_type == LengthType::LogicalLength,
            r.valid(),
    {
        GUIPosition {
            x: GUILength::from_logical_pixels(x),
            y: GUILength::from_logical_pixels(y),
        }
    }

    /// A position of so many physical pixels each way.
    pub fn from_physical_pixels(x: i64, y: i64) -> (r: Self)
        requires
            -MAX_PIXELS <= x <= MAX_PIXELS,
            -MAX_PIXELS <= y <= MAX_PIXELS,
        ensures
            r.x.subunits == x * SUBUNITS_PER_PIXEL,
            r.y.subunits == y * SUBUNITS_PER_PIXEL,
            r.x.length_type == LengthType::PhysicalLength,
            r.y.length_type == LengthType::PhysicalLength,
            r.valid(),
    {
        GUIPosition {
            x: GUILength::from_physical_pixels(x),
            y: GUILength::from_physical_pixels(y),
        }
    }
}

} // verus!
