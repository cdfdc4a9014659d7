//! Widget behavior: defaults, setters, button meshes, and the
//! tree-flattening pass.

use gui_rs::guimath::SUBUNITS_PER_PIXEL;
use gui_rs::guiprocessing::vertices::Vertex;
use gui_rs::guiprocessing::window_building_utils::make_vertices_and_indices;
use gui_rs::guiproperties::guicolor::GUIColor;
use gui_rs::guiproperties::guiposition::{GUILength, GUIPosition, GUISize, LengthType};
use gui_rs::guiproperties::guitraits::{Child, Parent, Widget, Wind};
use gui_rs::guiproperties::GUIIcon;
use gui_rs::guiwidgets::{check_tree, GUIButton, GUINode, GUIWindow};

fn logical(subunits: i64) -> GUILength {
    GUILength {
        subunits,
        length_type: LengthType::LogicalLength,
    }
}

fn square_button(id: u128) -> GUIButton {
    let mut b = GUIButton::default();
    b.set_radius_from_pixels(0);
    b.set_id(id);
    b
}

#[test]
fn button_default_values() {
    let b = GUIButton::default();
    assert_eq!(b.text, "Button");
    assert_eq!(b.size.width, logical(200 * SUBUNITS_PER_PIXEL));
    assert_eq!(b.size.height, logical(100 * SUBUNITS_PER_PIXEL));
    assert_eq!(b.position, GUIPosition::from_logical_pixels(0, 0));
    assert_eq!(b.radius, logical(25 * SUBUNITS_PER_PIXEL));
    assert_eq!(
        b.background_color,
        GUIColor {
            r: 70_000_000,
            g: 10_000_000,
            b: 40_000_000,
            a: 100_000_000,
        }
    );
    assert_eq!(b.children.len(), 0);
    assert!(b.is_rendered());
}

#[test]
fn button_setters_replace_exactly_one_property() {
    let mut b = GUIButton::default();
    b.set_size(GUISize::from_logical_pixels(40, 30));
    assert_eq!(b.size, GUISize::from_logical_pixels(40, 30));
    b.set_background_color(GUIColor::from_rgba_u8u8u8u8(255, 0, 51, 255));
    assert_eq!(
        b.background_color,
        GUIColor {
            r: 100_000_000,
            g: 0,
            b: 20_000_000,
            a: 100_000_000,
        }
    );
    b.set_position_from_pixels(5, 6);
    assert_eq!(b.position, GUIPosition::from_logical_pixels(5, 6));
    b.set_position_from_lengths(logical(7), logical(8));
    assert_eq!(b.position, GUIPosition::from_lengths(logical(7), logical(8)));
    b.set_position_from_position(GUIPosition::from_logical_pixels(1, 2));
    assert_eq!(b.position, GUIPosition::from_logical_pixels(1, 2));
    b.set_radius_from_length(logical(90));
    assert_eq!(b.radius, logical(90));
    let child = GUINode::Button(GUIButton::default());
    b.add_child(child);
    assert_eq!(b.get_children().len(), 1);
}

#[test]
fn window_default_values() {
    let w = GUIWindow::default();
    assert_eq!(w.title, "Form1");
    assert_eq!(w.size, GUISize::from_logical_pixels(500, 500));
    assert_eq!(w.min_size, GUISize::from_logical_pixels(100, 100));
    assert_eq!(w.max_size, GUISize::from_logical_pixels(800, 800));
    assert!(w.resizable);
    assert!(!w.always_on_top);
    assert!(w.window_icon.is_none());
    assert!(w.children.is_none());
    assert!(w.logical_scale.is_none());
    assert!(w.is_rendered());
}

#[test]
fn window_setters_and_children() {
    let mut w = GUIWindow::default();
    w.set_title("hello");
    assert_eq!(w.title, "hello");
    w.set_resizable(false);
    assert!(!w.resizable);
    w.set_always_on_top(true);
    assert!(w.always_on_top);
    w.set_min_size(GUISize::from_logical_pixels(10, 10));
    assert_eq!(w.min_size, GUISize::from_logical_pixels(10, 10));
    w.set_size(GUISize::from_logical_pixels(900, 700));
    assert_eq!(w.size, GUISize::from_logical_pixels(900, 700));
    w.set_window_icon(GUIIcon {
        rgba: vec![0, 0, 0, 255],
        width: 1,
        height: 1,
    });
    assert!(w.window_icon.is_some());
    assert_eq!(w.children_len(), 0);
    w.add_child(GUINode::Button(GUIButton::default()));
    assert_eq!(w.children_len(), 1);
    w.add_child(GUINode::Button(GUIButton::default()));
    assert_eq!(w.children_len(), 2);
    assert_eq!(w.get_area_children().as_ref().map(|c| c.len()), Some(2));
}

#[test]
fn zero_radius_button_is_a_plain_rectangle() {
    // Default 200 by 100 button at the origin, radius forced to zero,
    // inside a 500 by 500 parent: four corner vertices, no arc fan.
    let b = square_button(9);
    let parent = GUISize::from_logical_pixels(500, 500);
    let (vertices, indices) = b.get_vertices_and_indices(&parent, 0);
    let color = b.background_color;
    let expected = vec![
        vertex(-100_000_000, 100_000_000, color, 9),
        vertex(-100_000_000, 60_000_000, color, 9),
        vertex(-20_000_000, 60_000_000, color, 9),
        vertex(-20_000_000, 100_000_000, color, 9),
    ];
    assert_eq!(vertices, expected);
    assert_eq!(indices, vec![0, 1, 2, 0, 2, 3]);
}

fn vertex(x: i64, y: i64, color: GUIColor, id: u128) -> Vertex {
    Vertex {
        x,
        y,
        z: 0,
        r: color.r,
        g: color.g,
        b: color.b,
        id,
    }
}

#[test]
fn rounded_button_mesh_has_four_arc_fans() {
    let mut b = GUIButton::default();
    b.set_id(1);
    let parent = GUISize::from_logical_pixels(500, 500);
    let (vertices, indices) = b.get_vertices_and_indices(&parent, 5);
    // Four quarter arcs of seven fascets each: 4 * 8 vertices, and
    // three index entries for each of the 30 triangles.
    assert_eq!(vertices.len(), 32);
    assert_eq!(indices.len(), 90);
    assert_eq!(&indices[0..3], &[5, 6, 7]);
    for ix in indices {
        assert!(5 <= ix && ix < 5 + 32);
    }
}

#[test]
fn oversized_radius_is_clamped_to_half_the_shorter_side() {
    // A 200 by 100 button with a requested 500-pixel corner radius
    // still yields a well-formed mesh: the radius is clamped to 50
    // pixels, so the outline spans the whole button.
    let mut b = GUIButton::default();
    b.set_id(2);
    b.set_radius_from_pixels(500);
    let parent = GUISize::from_logical_pixels(500, 500);
    let (vertices, indices) = b.get_vertices_and_indices(&parent, 0);
    assert_eq!(vertices.len(), 32);
    assert_eq!(indices.len(), 90);
    for ix in indices {
        assert!((ix as usize) < vertices.len());
    }
}

#[test]
fn three_level_tree_flattens_to_concatenated_buffers() {
    // A root with two children, the first child carrying one
    // grandchild: three renderable widgets of four vertices each give
    // exactly twelve vertices, and every index stays inside the
    // shared buffer, each widget's fan offset past the vertices
    // emitted before it.
    let mut first = square_button(1);
    first.add_child(GUINode::Button(square_button(3)));
    let second = square_button(2);
    let children = vec![GUINode::Button(first), GUINode::Button(second)];
    let parent = GUISize::from_logical_pixels(500, 500);
    let (vertices, indices) = make_vertices_and_indices(&parent, &children);
    assert_eq!(vertices.len(), 12);
    assert_eq!(
        indices,
        vec![0, 1, 2, 0, 2, 3, 4, 5, 6, 4, 6, 7, 8, 9, 10, 8, 10, 11]
    );
    for ix in indices {
        assert!((ix as usize) < vertices.len());
    }
    // Depth first: the grandchild's vertices sit between the first
    // child's and the second child's, all carrying their own ids.
    assert!(vertices[0..4].iter().all(|v| v.id == 1));
    assert!(vertices[4..8].iter().all(|v| v.id == 3));
    assert!(vertices[8..12].iter().all(|v| v.id == 2));
}

#[test]
fn empty_tree_flattens_to_empty_buffers() {
    let parent = GUISize::from_logical_pixels(500, 500);
    let children: Vec<GUINode> = Vec::new();
    let (vertices, indices) = make_vertices_and_indices(&parent, &children);
    assert!(vertices.is_empty());
    assert!(indices.is_empty());
}

#[test]
fn check_tree_accepts_ready_trees_and_rejects_bad_units() {
    let parent = GUISize::from_logical_pixels(500, 500);
    let children = vec![GUINode::Button(square_button(1))];
    assert!(check_tree(&parent, &children));
    // Physical-tagged parent extents are refused: the flattening pass
    // works in logical pixels.
    let physical_parent = GUISize::from_physical_pixels(500, 500);
    assert!(!check_tree(&physical_parent, &children));
    // So is a widget whose own width carries the wrong unit.
    let mut bad = GUIButton::default();
    bad.set_size(GUISize::from_physical_pixels(10, 10));
    let bad_children = vec![GUINode::Button(bad)];
    assert!(!check_tree(&parent, &bad_children));
}

#[test]
fn check_tree_rejects_an_oversized_tree() {
    // 2100 rounded buttons emit 32 vertices each, past what a 16-bit
    // index buffer can address; 2047 of them still fit.
    let mut children = Vec::new();
    for i in 0..2100u32 {
        let mut b = GUIButton::default();
        b.set_id(i as u128);
        children.push(GUINode::Button(b));
    }
    let parent = GUISize::from_logical_pixels(500, 500);
    assert!(!check_tree(&parent, &children));
    children.truncate(2047);
    assert!(check_tree(&parent, &children));
}

#[test]
fn clip_coordinates_scale_with_the_parent() {
    // Scaling a widget's position and size together with the parent
    // leaves the emitted clip coordinates unchanged: the mapping
    // depends only on each coordinate's share of the parent.
    let mut small = square_button(7);
    small.set_position_from_pixels(10, 20);
    small.set_size(GUISize::from_logical_pixels(100, 50));
    let mut large = square_button(7);
    large.set_position_from_pixels(20, 40);
    large.set_size(GUISize::from_logical_pixels(200, 100));
    let (small_vertices, small_indices) =
        small.get_vertices_and_indices(&GUISize::from_logical_pixels(500, 500), 0);
    let (large_vertices, large_indices) =
        large.get_vertices_and_indices(&GUISize::from_logical_pixels(1000, 1000), 0);
    assert_eq!(small_vertices, large_vertices);
    assert_eq!(small_indices, large_indices);
}

#[test]
fn resize_regenerates_geometry_and_leaves_properties_alone() {
    let b = square_button(4);
    let before_size = b.size;
    let before_position = b.position;
    let before_radius = b.radius;
    let (narrow, _) = b.get_vertices_and_indices(&GUISize::from_logical_pixels(400, 400), 0);
    let (wide, _) = b.get_vertices_and_indices(&GUISize::from_logical_pixels(800, 800), 0);
    // The stored logical properties are untouched by flattening.
    assert_eq!(b.size, before_size);
    assert_eq!(b.position, before_position);
    assert_eq!(b.radius, before_radius);
    // The emitted coordinates moved: the same button covers a smaller
    // share of the wider parent.
    assert_ne!(narrow, wide);
    // Doubling the parent halves each vertex's distance from the
    // upper-left clip corner (-1, 1), exactly, on the grid.
    for (n, w) in narrow.iter().zip(wide.iter()) {
        assert_eq!(n.x + 100_000_000, 2 * (w.x + 100_000_000));
        assert_eq!(100_000_000 - n.y, 2 * (100_000_000 - w.y));
    }
}
