//! The canonical renderable widget: a rounded-rectangle button.

use crate::guiprocessing::vertices::{
    clip_vertex, clip_x_units, clip_y_units, fan_indices, make_fan_indices, Vertex,
};
use crate::guiproperties::guicolor::GUIColor;
use crate::guiproperties::guiposition::{
    logical_position_units, logical_units, GUILength, GUIPosition, GUISize, LengthType,
};
use crate::guiproperties::guitraits::{
    spec_position_from_logical_pixels, Child, Family, Parent, Widget,
};
use crate::guimath::{MAX_PIXELS, MAX_SUBUNITS, SUBUNITS_PER_PIXEL};
use crate::guiwidgets::widget_utils;
use crate::guiwidgets::widget_utils::{
    arc_sample, bottom_left_arc, bottom_right_arc, lemma_arc_sample_endpoints, mirrored_x,
    mirrored_xy, mirrored_y, top_left_arc, top_right_arc, translated, within_radius,
};
use crate::guiwidgets::GUINode;
use vstd::prelude::*;

verus! {

/// Fidelity of a rounded corner: the number of fascets each quarter
/// arc is approximated with.
pub const FASCET_COUNT: usize = 7;

/// The human readable name a fresh button carries.
pub const DEFAULT_BUTTON_NAME: &'static str = "this is the default name of the window";

/// Represents a gui button: a rounded rectangle with a background
/// color, positioned inside its parent, owning an ordered list of
/// child widgets.
pub struct GUIButton {
    /// The title of the button.
    pub text: &'static str,
    /// The size of the button.
    pub size: GUISize,
    /// The location of the button.
    pub position: GUIPosition,
    /// Radius of the button corners.
    pub radius: GUILength,
    /// The background color for the button.
    pub background_color: GUIColor,
    /// A list of child widgets.
    pub children: Vec<GUINode>,
    /// The human readable name of the button.
    pub name: &'static str,
    /// The identifier carried by every vertex the button emits.
    pub id: u128,
}

/// Relies on `uuid::Uuid::new_v4` and `Uuid::as_u128` for a freshly
/// drawn random widget identifier; the value is random, so nothing is
/// promised of it.
#[verifier::external_body]
fn new_widget_id() -> u128 {
    uuid::Uuid::new_v4().as_u128()
}

impl Default for GUIButton {
    /// Returns a button with all of the default values: 200 by 100
    /// logical pixels at the parent's origin, 25-pixel corners, a
    /// plum background, no children, and a freshly drawn identifier.
    fn default() -> (r: GUIButton)
        ensures
            r.text == "Button",
            r.size.width.subunits == 200 * SUBUNITS_PER_PIXEL,
            r.size.height.subunits == 100 * SUBUNITS_PER_PIXEL,
            r.size.width.length_type == LengthType::LogicalLength,
            r.size.height.length_type == LengthType::LogicalLength,
            r.position == spec_position_from_logical_pixels(0, 0),
            r.radius.subunits == 25 * SUBUNITS_PER_PIXEL,
            r.radius.length_type == LengthType::LogicalLength,
            r.background_color == (GUIColor {
                r: 70_000_000,
                g: 10_000_000,
                b: 40_000_000,
                a: 100_000_000,
            }),
            r.children@ == Seq::<GUINode>::empty(),
            r.name == DEFAULT_BUTTON_NAME,
    {
        GUIButton {
            text: "Button",
            size: GUISize::from_logical_pixels(200, 100),
            position: GUIPosition::from_logical_pixels(0, 0),
            radius: GUILength::from_logical_pixels(25),
            background_color: GUIColor {
                r: 70_000_000,
                g: 10_000_000,
                b: 40_000_000,
                a: 100_000_000,
            },
            children: Vec::new(),
            name: DEFAULT_BUTTON_NAME,
            id: new_widget_id(),
        }
    }
}

impl Widget for GUIButton {
    /// A button always contributes visible geometry.
    open spec fn spec_rendered(&self) -> bool {
        true
    }

    open spec fn with_size(self, size: GUISize) -> Self {
        GUIButton { size, ..self }
    }

    open spec fn with_background_color(self, color: GUIColor) -> Self {
        GUIButton { background_color: color, ..self }
    }

    fn is_rendered(&self) -> bool {
        true
    }

    /// Set the size (width and height) of the button in units of
    /// logical pixels.
    fn set_size(&mut self, size: GUISize) {
        self.size = size;
    }

    /// Set background color of the button.
    fn set_background_color(&mut self, color: GUIColor) {
        self.background_color = color;
    }
}

impl Parent for GUIButton {
    open spec fn children_view(&self) -> Seq<GUINode> {
        self.children@
    }

    open spec fn same_but_children(self, other: Self) -> bool {
        &&& other.text == self.text
        &&& other.size == self.size
        &&& other.position == self.position
        &&& other.radius == self.radius
        &&& other.background_color == self.background_color
        &&& other.name == self.name
        &&& other.id == self.id
    }

    /// Adds a child to the GUIButton.  Children, and grandchildren,
    /// will be rendered in the order in which they are added, so
    /// children that should be visually obscured by other children
    /// should be added before the obscuring children.
    fn add_child(&mut self, child: GUINode) {
        self.children.push(child);
    }

    /// Gets the children.
    fn get_children(&self) -> &Vec<GUINode> {
        &self.children
    }
}

impl GUIButton {
    /// Whether the stored properties admit geometry generation: every
    /// measurement is logical and in range, so the outline arithmetic
    /// stays exact.
    pub open spec fn properties_ready(&self) -> bool {
        &&& self.size.width.length_type == LengthType::LogicalLength
        &&& self.size.height.length_type == LengthType::LogicalLength
        &&& self.position.x.length_type == LengthType::LogicalLength
        &&& self.position.y.length_type == LengthType::LogicalLength
        &&& self.radius.length_type == LengthType::LogicalLength
        &&& SUBUNITS_PER_PIXEL <= self.size.width.subunits <= MAX_SUBUNITS
        &&& SUBUNITS_PER_PIXEL <= self.size.height.subunits <= MAX_SUBUNITS
        &&& self.position.x.valid()
        &&& self.position.y.valid()
        &&& self.radius.valid()
        &&& self.background_color.valid()
    }

    /// The corner radius actually tessellated: a degenerate stored
    /// radius is recovered by clamping it between zero and half the
    /// button's shorter side.
    pub open spec fn effective_radius(&self) -> int {
        let w = self.size.width.subunits as int;
        let h = self.size.height.subunits as int;
        let half = if w <= h {
            w / 2
        } else {
            h / 2
        };
        if self.radius.subunits < 0 {
            0
        } else if self.radius.subunits > half {
            half
        } else {
            self.radius.subunits as int
        }
    }

    /// How many vertices the button's outline holds: four corner
    /// points when the corners are square — no arc fan — or four
    /// quarter arcs of `FASCET_COUNT` fascets each when rounded.
    pub open spec fn outline_len(&self) -> int {
        if self.effective_radius() == 0 {
            4
        } else {
            4 * (FASCET_COUNT + 1)
        }
    }

    /// The button's outline in its parent's coordinate space, wound
    /// counter-clockwise: the four corner arcs, each translated to its
    /// true corner, concatenated top-left, bottom-left, bottom-right,
    /// top-right; or the bare rectangle when the radius degenerates to
    /// zero.
    pub open spec fn spec_outline(&self) -> Seq<GUIPosition> {
        let r = self.effective_radius();
        let w = self.size.width.subunits as int;
        let h = self.size.height.subunits as int;
        let px = self.position.x.subunits as int;
        let py = self.position.y.subunits as int;
        if r == 0 {
            seq![
                logical_position_units(px, py),
                logical_position_units(px, py + h),
                logical_position_units(px + w, py + h),
                logical_position_units(px + w, py),
            ]
        } else {
            let rad = logical_units(r);
            let f = FASCET_COUNT as int;
            translated(top_left_arc(rad, f), logical_units(px + r), logical_units(py + r))
                + translated(
                bottom_left_arc(rad, f),
                logical_units(px + r),
                logical_units(py + h - r),
            ) + translated(
                bottom_right_arc(rad, f),
                logical_units(px + w - r),
                logical_units(py + h - r),
            ) + translated(top_right_arc(rad, f), logical_units(px + w - r), logical_units(py + r))
        }
    }

    /// Whether the stored properties admit geometry generation,
    /// decided at run time for trees built by unchecked callers.
    pub fn check_properties(&self) -> (r: bool)
        ensures
            r == self.properties_ready(),
    {
        self.size.width.length_type == LengthType::LogicalLength
            && self.size.height.length_type == LengthType::LogicalLength
            && self.position.x.length_type == LengthType::LogicalLength
            && self.position.y.length_type == LengthType::LogicalLength
            && self.radius.length_type == LengthType::LogicalLength
            && SUBUNITS_PER_PIXEL <= self.size.width.subunits
            && self.size.width.subunits <= MAX_SUBUNITS
            && SUBUNITS_PER_PIXEL <= self.size.height.subunits
            && self.size.height.subunits <= MAX_SUBUNITS
            && -MAX_SUBUNITS <= self.position.x.subunits
            && self.position.x.subunits <= MAX_SUBUNITS
            && -MAX_SUBUNITS <= self.position.y.subunits
            && self.position.y.subunits <= MAX_SUBUNITS
            && -MAX_SUBUNITS <= self.radius.subunits
            && self.radius.subunits <= MAX_SUBUNITS
            && 0 <= self.background_color.r && self.background_color.r <= SUBUNITS_PER_PIXEL
            && 0 <= self.background_color.g && self.background_color.g <= SUBUNITS_PER_PIXEL
            && 0 <= self.background_color.b && self.background_color.b <= SUBUNITS_PER_PIXEL
            && 0 <= self.background_color.a && self.background_color.a <= SUBUNITS_PER_PIXEL
    }

    /// How many vertices the button's own outline will hold.
    pub fn outline_vertex_count(&self) -> (n: usize)
        requires
            self.properties_ready(),
        ensures
            n == self.outline_len(),
    {
        let w = self.size.width.subunits;
        let h = self.size.height.subunits;
        let half: i64 = if w <= h {
            ((w as u64) / 2) as i64
        } else {
            ((h as u64) / 2) as i64
        };
        let r_eff: i64 = if self.radius.subunits < 0 {
            0
        } else if self.radius.subunits > half {
            half
        } else {
            self.radius.subunits
        };
        proof {
            assert(r_eff == self.effective_radius());
        }
        if r_eff == 0 {
            4
        } else {
            4 * (FASCET_COUNT + 1)
        }
    }

    /// Builds the outline in the parent's coordinate space.
    fn build_outline(&self) -> (outline: Vec<GUIPosition>)
        requires
            self.properties_ready(),
        ensures
            outline@ == self.spec_outline(),
            outline@.len() == self.outline_len(),
    {
        let w = self.size.width.subunits;
        let h = self.size.height.subunits;
        let px = self.position.x.subunits;
        let py = self.position.y.subunits;
        let half: i64 = if w <= h {
            ((w as u64) / 2) as i64
        } else {
            ((h as u64) / 2) as i64
        };
        let r_eff: i64 = if self.radius.subunits < 0 {
            0
        } else if self.radius.subunits > half {
            half
        } else {
            self.radius.subunits
        };
        proof {
            assert(r_eff == self.effective_radius());
        }
        if r_eff == 0 {
            let mut outline: Vec<GUIPosition> = Vec::new();
            outline.push(
                GUIPosition {
                    x: GUILength { subunits: px, length_type: LengthType::LogicalLength },
                    y: GUILength { subunits: py, length_type: LengthType::LogicalLength },
                },
            );
            outline.push(
                GUIPosition {
                    x: GUILength { subunits: px, length_type: LengthType::LogicalLength },
                    y: GUILength { subunits: py + h, length_type: LengthType::LogicalLength },
                },
            );
            outline.push(
                GUIPosition {
                    x: GUILength { subunits: px + w, length_type: LengthType::LogicalLength },
                    y: GUILength { subunits: py + h, length_type: LengthType::LogicalLength },
                },
            );
            outline.push(
                GUIPosition {
                    x: GUILength { subunits: px + w, length_type: LengthType::LogicalLength },
                    y: GUILength { subunits: py, length_type: LengthType::LogicalLength },
                },
            );
            proof {
                assert(outline@ =~= self.spec_outline());
            }
            outline
        } else {
            let rad = GUILength { subunits: r_eff, length_type: LengthType::LogicalLength };
            proof {
                widget_utils::lemma_arc_seqs_bounded(rad, FASCET_COUNT as int);
            }
            let dx_left = rad.add(&self.position.x);
            let dy_top = rad.add(&self.position.y);
            let dx_right = self.size.width.subtract(&rad).add(&self.position.x);
            let dy_bottom = self.size.height.subtract(&rad).add(&self.position.y);
            let tl = widget_utils::make_top_left_arc(rad, FASCET_COUNT);
            let mut outline = widget_utils::translate(tl, &dx_left, &dy_top);
            let bl = widget_utils::make_bottom_left_arc(rad, FASCET_COUNT);
            let mut bl = widget_utils::translate(bl, &dx_left, &dy_bottom);
            let br = widget_utils::make_bottom_right_arc(rad, FASCET_COUNT);
            let mut br = widget_utils::translate(br, &dx_right, &dy_bottom);
            let tr = widget_utils::make_top_right_arc(rad, FASCET_COUNT);
            let mut tr = widget_utils::translate(tr, &dx_right, &dy_top);
            outline.append(&mut bl);
            outline.append(&mut br);
            outline.append(&mut tr);
            proof {
                assert(outline@ =~= self.spec_outline());
            }
            outline
        }
    }

    /// Replaces the whole child list at once.
    pub fn set_children(&mut self, children: Vec<GUINode>)
        ensures
            final(self).children@ == children@,
            old(self).same_but_children(*final(self)),
    {
        self.children = children;
    }

    /// Replaces the identifier carried by the button's vertices.
    pub fn set_id(&mut self, id: u128)
        ensures
            *final(self) == (GUIButton { id, ..*old(self) }),
    {
        self.id = id;
    }

    /// Rounds the button's corners to so many logical pixels.
    pub fn set_radius_from_pixels(&mut self, pixels: i64)
        requires
            -MAX_PIXELS <= pixels <= MAX_PIXELS,
        ensures
            *final(self) == (GUIButton {
                radius: GUILength {
                    subunits: (pixels * SUBUNITS_PER_PIXEL) as i64,
                    length_type: LengthType::LogicalLength,
                },
                ..*old(self)
            }),
    {
        self.radius = GUILength::from_logical_pixels(pixels);
    }

    /// Rounds the button's corners to the given length.
    pub fn set_radius_from_length(&mut self, length: GUILength)
        ensures
            *final(self) == (GUIButton { radius: length, ..*old(self) }),
    {
        self.radius = length;
    }
}

/// Every outline coordinate of a well-formed button stays within
/// three times the measurement bound, so the clip mapping accepts it.
pub proof fn lemma_outline_bounds(b: GUIButton)
    requires
        b.properties_ready(),
    ensures
        forall|k: int|
            0 <= k < b.spec_outline().len() ==> -3 * MAX_SUBUNITS <= (
            #[trigger] b.spec_outline()[k]).x.subunits <= 3 * MAX_SUBUNITS && -3 * MAX_SUBUNITS
                <= b.spec_outline()[k].y.subunits <= 3 * MAX_SUBUNITS,
{
    let r = b.effective_radius();
    let w = b.size.width.subunits as int;
    let h = b.size.height.subunits as int;
    let px = b.position.x.subunits as int;
    let py = b.position.y.subunits as int;
    if r == 0 {
        assert forall|k: int| 0 <= k < b.spec_outline().len() implies -3 * MAX_SUBUNITS <= (
        #[trigger] b.spec_outline()[k]).x.subunits <= 3 * MAX_SUBUNITS && -3 * MAX_SUBUNITS <= b
            .spec_outline()[k].y.subunits <= 3 * MAX_SUBUNITS by {
            assert(b.spec_outline().len() == 4);
        }
    } else {
        let rad = logical_units(r);
        let f = FASCET_COUNT as int;
        widget_utils::lemma_arc_seqs_bounded(rad, f);
        let s1 = translated(top_left_arc(rad, f), logical_units(px + r), logical_units(py + r));
        let s2 = translated(
            bottom_left_arc(rad, f),
            logical_units(px + r),
            logical_units(py + h - r),
        );
        let s3 = translated(
            bottom_right_arc(rad, f),
            logical_units(px + w - r),
            logical_units(py + h - r),
        );
        let s4 = translated(
            top_right_arc(rad, f),
            logical_units(px + w - r),
            logical_units(py + r),
        );
        let n = f + 1;
        assert forall|k: int| 0 <= k < b.spec_outline().len() implies -3 * MAX_SUBUNITS <= (
        #[trigger] b.spec_outline()[k]).x.subunits <= 3 * MAX_SUBUNITS && -3 * MAX_SUBUNITS <= b
            .spec_outline()[k].y.subunits <= 3 * MAX_SUBUNITS by {
            if k < n {
                assert(b.spec_outline()[k] == s1[k]);
                assert(within_radius(top_left_arc(rad, f)[k], rad));
            } else if k < 2 * n {
                assert(b.spec_outline()[k] == s2[k - n]);
                assert(within_radius(bottom_left_arc(rad, f)[k - n], rad));
            } else if k < 3 * n {
                assert(b.spec_outline()[k] == s3[k - 2 * n]);
                assert(within_radius(bottom_right_arc(rad, f)[k - 2 * n], rad));
            } else {
                assert(b.spec_outline()[k] == s4[k - 3 * n]);
                assert(within_radius(top_right_arc(rad, f)[k - 3 * n], rad));
            }
        }
    }
}

/// A button whose stored radius is zero or negative degenerates to a
/// plain rectangle: its outline is the four corner points, in the
/// same winding as the arc composition, with no arc fan at all.
pub proof fn lemma_zero_radius_degenerates(b: GUIButton)
    requires
        b.properties_ready(),
        b.radius.subunits <= 0,
    ensures
        b.effective_radius() == 0,
        b.outline_len() == 4,
        b.spec_outline() == seq![
            logical_position_units(
                b.position.x.subunits as int,
                b.position.y.subunits as int,
            ),
            logical_position_units(
                b.position.x.subunits as int,
                b.position.y.subunits + b.size.height.subunits,
            ),
            logical_position_units(
                b.position.x.subunits + b.size.width.subunits,
                b.position.y.subunits + b.size.height.subunits,
            ),
            logical_position_units(
                b.position.x.subunits + b.size.width.subunits,
                b.position.y.subunits as int,
            ),
        ],
{
    let w = b.size.width.subunits as int;
    let h = b.size.height.subunits as int;
    assert(w / 2 >= 0 && h / 2 >= 0);
}

/// The four quadrant arcs, mirrored from the same radius and fascet
/// count, tile into one closed rounded-rectangle outline: each arc
/// ends on the rectangle edge where the next one begins — the pair
/// shares its edge coordinate — the last arc closes back to the first
/// along the top edge, and while the radius stays strictly inside
/// half the rectangle no boundary vertex is duplicated at a seam.
pub proof fn lemma_rounded_outline_seams(b: GUIButton)
    requires
        b.properties_ready(),
        0 < b.radius.subunits,
        2 * b.radius.subunits <= b.size.width.subunits,
        2 * b.radius.subunits <= b.size.height.subunits,
    ensures
        b.effective_radius() == b.radius.subunits,
        b.spec_outline().len() == 4 * (FASCET_COUNT + 1),
        b.spec_outline()[0] == logical_position_units(
            b.position.x.subunits + b.radius.subunits,
            b.position.y.subunits as int,
        ),
        b.spec_outline()[FASCET_COUNT as int] == logical_position_units(
            b.position.x.subunits as int,
            b.position.y.subunits + b.radius.subunits,
        ),
        b.spec_outline()[FASCET_COUNT + 1] == logical_position_units(
            b.position.x.subunits as int,
            b.position.y.subunits + b.size.height.subunits - b.radius.subunits,
        ),
        b.spec_outline()[2 * (FASCET_COUNT + 1) - 1] == logical_position_units(
            b.position.x.subunits + b.radius.subunits,
            b.position.y.subunits + b.size.height.subunits,
        ),
        b.spec_outline()[2 * (FASCET_COUNT + 1)] == logical_position_units(
            b.position.x.subunits + b.size.width.subunits - b.radius.subunits,
            b.position.y.subunits + b.size.height.subunits,
        ),
        b.spec_outline()[3 * (FASCET_COUNT + 1) - 1] == logical_position_units(
            b.position.x.subunits + b.size.width.subunits,
            b.position.y.subunits + b.size.height.subunits - b.radius.subunits,
        ),
        b.spec_outline()[3 * (FASCET_COUNT + 1)] == logical_position_units(
            b.position.x.subunits + b.size.width.subunits,
            b.position.y.subunits + b.radius.subunits,
        ),
        b.spec_outline()[4 * (FASCET_COUNT + 1) - 1] == logical_position_units(
            b.position.x.subunits + b.size.width.subunits - b.radius.subunits,
            b.position.y.subunits as int,
        ),
        2 * b.radius.subunits < b.size.height.subunits ==> b.spec_outline()[FASCET_COUNT as int]
            != b.spec_outline()[FASCET_COUNT + 1] && b.spec_outline()[3 * (FASCET_COUNT + 1) - 1]
            != b.spec_outline()[3 * (FASCET_COUNT + 1)],
        2 * b.radius.subunits < b.size.width.subunits ==> b.spec_outline()[2 * (FASCET_COUNT + 1)
            - 1] != b.spec_outline()[2 * (FASCET_COUNT + 1)] && b.spec_outline()[4 * (FASCET_COUNT
            + 1) - 1] != b.spec_outline()[0],
{
    let r = b.radius.subunits as int;
    let w = b.size.width.subunits as int;
    let h = b.size.height.subunits as int;
    let px = b.position.x.subunits as int;
    let py = b.position.y.subunits as int;
    assert(r <= w / 2 && r <= h / 2);
    assert(b.effective_radius() == r);
    let rad = logical_units(r);
    let f = FASCET_COUNT as int;
    let n = f + 1;
    lemma_arc_sample_endpoints(r, f);
    let s1 = translated(top_left_arc(rad, f), logical_units(px + r), logical_units(py + r));
    let s2 = translated(
        bottom_left_arc(rad, f),
        logical_units(px + r),
        logical_units(py + h - r),
    );
    let s3 = translated(
        bottom_right_arc(rad, f),
        logical_units(px + w - r),
        logical_units(py + h - r),
    );
    let s4 = translated(top_right_arc(rad, f), logical_units(px + w - r), logical_units(py + r));
    assert(b.spec_outline() == s1 + s2 + s3 + s4);
    assert(b.spec_outline()[0] == s1[0]);
    assert(top_left_arc(rad, f)[0] == mirrored_x(arc_sample(rad, f, f)));
    assert(b.spec_outline()[n - 1] == s1[n - 1]);
    assert(top_left_arc(rad, f)[n - 1] == mirrored_x(arc_sample(rad, 0, f)));
    assert(b.spec_outline()[n] == s2[0]);
    assert(bottom_left_arc(rad, f)[0] == mirrored_xy(arc_sample(rad, 0, f)));
    assert(b.spec_outline()[2 * n - 1] == s2[n - 1]);
    assert(bottom_left_arc(rad, f)[n - 1] == mirrored_xy(arc_sample(rad, f, f)));
    assert(b.spec_outline()[2 * n] == s3[0]);
    assert(bottom_right_arc(rad, f)[0] == mirrored_y(arc_sample(rad, f, f)));
    assert(b.spec_outline()[3 * n - 1] == s3[n - 1]);
    assert(bottom_right_arc(rad, f)[n - 1] == mirrored_y(arc_sample(rad, 0, f)));
    assert(b.spec_outline()[3 * n] == s4[0]);
    assert(top_right_arc(rad, f)[0] == arc_sample(rad, 0, f));
    assert(b.spec_outline()[4 * n - 1] == s4[n - 1]);
    assert(top_right_arc(rad, f)[n - 1] == arc_sample(rad, f, f));
}

impl Child for GUIButton {
    /// The stored properties are in range, the parent's extents are
    /// logical and at least a pixel each way, and the index offset
    /// leaves room for the whole mesh in a 16-bit index buffer.
    open spec fn geometry_ready(&self, parent: GUISize, indice_offset: u16) -> bool {
        &&& self.properties_ready()
        &&& parent.width.length_type == LengthType::LogicalLength
        &&& parent.height.length_type == LengthType::LogicalLength
        &&& SUBUNITS_PER_PIXEL <= parent.width.subunits <= MAX_SUBUNITS
        &&& SUBUNITS_PER_PIXEL <= parent.height.subunits <= MAX_SUBUNITS
        &&& indice_offset + self.outline_len() <= 65536
    }

    /// Each outline position mapped into clip space against the
    /// parent, wearing the button's flat background color and its
    /// identifier.
    open spec fn emitted_vertices(&self, parent: GUISize) -> Seq<Vertex> {
        Seq::new(
            self.spec_outline().len() as nat,
            |i: int|
                clip_vertex(
                    self.spec_outline()[i],
                    parent.width.subunits as int,
                    parent.height.subunits as int,
                    self.background_color,
                    self.id,
                ),
        )
    }

    /// The fan triangulation of the outline, every index shifted by
    /// `indice_offset` so the mesh concatenates into a shared buffer
    /// without collisions.
    open spec fn emitted_indices(&self, parent: GUISize, indice_offset: u16) -> Seq<u16> {
        fan_indices(indice_offset as int, self.outline_len())
    }

    open spec fn with_position(self, position: GUIPosition) -> Self {
        GUIButton { position, ..self }
    }

    /// Builds the button's rounded-rectangle outline at fascet
    /// fidelity `FASCET_COUNT`, converts each outline position to
    /// clip-space coordinates against the parent's extents with
    /// inverted y, attaches the button's background color to every
    /// vertex, and fan-triangulates from the outline's first vertex,
    /// offsetting every index by `indice_offset`.
    fn get_vertices_and_indices(&self, parent_size: &GUISize, indice_offset: u16) -> (out: (
        Vec<Vertex>,
        Vec<u16>,
    )) {
        let outline = self.build_outline();
        proof {
            lemma_outline_bounds(*self);
        }
        let w = parent_size.width.subunits;
        let h = parent_size.height.subunits;
        let count = outline.len();
        let mut vertices: Vec<Vertex> = Vec::new();
        let mut i: usize = 0;
        while i < count
            invariant
                count == outline@.len(),
                outline@ == self.spec_outline(),
                SUBUNITS_PER_PIXEL <= w <= MAX_SUBUNITS,
                SUBUNITS_PER_PIXEL <= h <= MAX_SUBUNITS,
                forall|k: int|
                    0 <= k < count ==> -3 * MAX_SUBUNITS <= (
                    #[trigger] outline@[k]).x.subunits <= 3 * MAX_SUBUNITS && -3 * MAX_SUBUNITS
                        <= outline@[k].y.subunits <= 3 * MAX_SUBUNITS,
                i <= count,
                vertices@.len() == i,
                forall|k: int|
                    0 <= k < i ==> vertices@[k] == clip_vertex(
                        outline@[k],
                        w as int,
                        h as int,
                        self.background_color,
                        self.id,
                    ),
            decreases count - i,
        {
            let p = outline[i];
            let vx = clip_x_units(p.x.subunits, w);
            let vy = clip_y_units(p.y.subunits, h);
            vertices.push(
                Vertex {
                    x: vx,
                    y: vy,
                    z: 0,
                    r: self.background_color.r,
                    g: self.background_color.g,
                    b: self.background_color.b,
                    id: self.id,
                },
            );
            i = i + 1;
        }
        proof {
            assert(vertices@ =~= self.emitted_vertices(*parent_size));
        }
        let indices = make_fan_indices(indice_offset, count);
        (vertices, indices)
    }

    fn set_position_from_pixels(&mut self, x: i64, y: i64) {
        self.position = GUIPosition::from_logical_pixels(x, y);
    }

    fn set_position_from_lengths(&mut self, x: GUILength, y: GUILength) {
        self.position = GUIPosition::from_lengths(x, y);
    }

    fn set_position_from_position(&mut self, position: GUIPosition) {
        self.position = position;
    }
}

impl Family for GUIButton {
}

} // verus!
