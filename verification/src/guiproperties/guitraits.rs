//! The widget capability model.
//!
//! Widgets are polymorphic over small, independently composable
//! capability traits rather than one inheritance chain: a concrete
//! widget kind opts into exactly the behaviors it needs.  Every
//! method's contract is stated over spec views that each widget kind
//! defines for itself, so a caller knows precisely which part of the
//! widget a setter replaces.

use crate::guiprocessing::vertices::Vertex;
use crate::guiproperties::guicolor::GUIColor;
use crate::guiproperties::guiposition::{GUILength, GUIPosition, GUISize};
use crate::guiproperties::GUIIcon;
use crate::guimath::MAX_PIXELS;
use crate::guiwidgets::GUINode;
use vstd::prelude::*;

verus! {

/// A node of the widget tree: something with an area and a background.
pub trait Widget: Sized {
    /// Whether the node contributes visible geometry at all.
    spec fn spec_rendered(&self) -> bool;

    /// The widget with its size replaced and all else kept.
    spec fn with_size(self, size: GUISize) -> Self;

    /// The widget with its background color replaced and all else kept.
    spec fn with_background_color(self, color: GUIColor) -> Self;

    fn is_rendered(&self) -> (r: bool)
        ensures
            r == self.spec_rendered(),
    ;

    /// Set the size (width and height) of the widget in units of
    /// logical pixels.
    fn set_size(&mut self, size: GUISize)
        ensures
            *final(self) == old(self).with_size(size),
    ;

    /// Set the background color of the widget.
    fn set_background_color(&mut self, color: GUIColor)
        ensures
            *final(self) == old(self).with_background_color(color),
    ;
}

/// Root-container-only properties, forwarded to the windowing boundary
/// and never used in geometry generation.
pub trait Wind: Widget {
    /// The window with its minimum size replaced and all else kept.
    spec fn with_min_size(self, size: GUISize) -> Self;

    /// The window with its title replaced and all else kept.
    spec fn with_title(self, title: &'static str) -> Self;

    /// The window with its resizability replaced and all else kept.
    spec fn with_resizable(self, resizable: bool) -> Self;

    /// The window with its stacking preference replaced and all else
    /// kept.
    spec fn with_always_on_top(self, always_on_top: bool) -> Self;

    /// The window with its icon replaced and all else kept.
    spec fn with_window_icon(self, icon: GUIIcon) -> Self;

    /// Set the minimum size (width and height) of the window in units
    /// of logical pixels.
    fn set_min_size(&mut self, size: GUISize)
        ensures
            *final(self) == old(self).with_min_size(size),
    ;

    /// Sets the title of the window.
    fn set_title(&mut self, title: &'static str)
        ensures
            *final(self) == old(self).with_title(title),
    ;

    /// Set whether or not a window is resizable.
    fn set_resizable(&mut self, resizable: bool)
        ensures
            *final(self) == old(self).with_resizable(resizable),
    ;

    /// Set whether or not a window is always on top.
    fn set_always_on_top(&mut self, always_on_top: bool)
        ensures
            *final(self) == old(self).with_always_on_top(always_on_top),
    ;

    /// Sets the window icon.
    fn set_window_icon(&mut self, icon: GUIIcon)
        ensures
            *final(self) == old(self).with_window_icon(icon),
    ;
}

/// Exclusive ownership of an ordered child list.  Children render in
/// insertion order, so later-added children visually occlude earlier
/// ones where they overlap.
pub trait Parent: Widget {
    /// The ordered children of this widget.
    spec fn children_view(&self) -> Seq<GUINode>;

    /// Everything except the child list agrees between the two widgets.
    spec fn same_but_children(self, other: Self) -> bool;

    /// Adds a child after all children added before it.
    fn add_child(&mut self, child: GUINode)
        ensures
            final(self).children_view() == old(self).children_view().push(child),
            old(self).same_but_children(*final(self)),
    ;

    /// Gets the children.
    fn get_children(&self) -> (r: &Vec<GUINode>)
        ensures
            r@ == self.children_view(),
    ;
}

/// The geometry contract every renderable node satisfies, together
/// with the setters that reposition it inside its parent.
pub trait Child: Widget {
    /// Whether the widget's stored properties and the parent context
    /// admit geometry generation: units line up, measurements are in
    /// range and the index offset leaves room for the mesh.
    spec fn geometry_ready(&self, parent: GUISize, indice_offset: u16) -> bool;

    /// The vertices the widget emits inside the given parent.
    spec fn emitted_vertices(&self, parent: GUISize) -> Seq<Vertex>;

    /// The triangle indices the widget emits, offset so they stay
    /// correct inside a shared buffer.
    spec fn emitted_indices(&self, parent: GUISize, indice_offset: u16) -> Seq<u16>;

    /// The widget with its position replaced and all else kept.
    spec fn with_position(self, position: GUIPosition) -> Self;

    /// Builds the widget's mesh: its outline vertices in clip space
    /// and the fan-triangulation indices referring to them, shifted by
    /// `indice_offset`.
    fn get_vertices_and_indices(&self, parent_size: &GUISize, indice_offset: u16) -> (out: (
        Vec<Vertex>,
        Vec<u16>,
    ))
        requires
            self.geometry_ready(*parent_size, indice_offset),
        ensures
            out.0@ == self.emitted_vertices(*parent_size),
            out.1@ == self.emitted_indices(*parent_size, indice_offset),
    ;

    /// Moves the widget to the given logical-pixel coordinates.
    fn set_position_from_pixels(&mut self, x: i64, y: i64)
        requires
            -MAX_PIXELS <= x <= MAX_PIXELS,
            -MAX_PIXELS <= y <= MAX_PIXELS,
        ensures
            *final(self) == old(self).with_position(spec_position_from_logical_pixels(x as int, y as int)),
    ;

    /// Moves the widget to the given coordinates.
    fn set_position_from_lengths(&mut self, x: GUILength, y: GUILength)
        ensures
            *final(self) == old(self).with_position(GUIPosition { x, y }),
    ;

    /// Moves the widget to the given position.
    fn set_position_from_position(&mut self, position: GUIPosition)
        ensures
            *final(self) == old(self).with_position(position),
    ;
}

/// A position so many logical pixels across and down.
pub open spec fn spec_position_from_logical_pixels(x: int, y: int) -> GUIPosition {
    GUIPosition {
        x: GUILength {
            subunits: (x * crate::guimath::SUBUNITS_PER_PIXEL) as i64,
            length_type: crate::guiproperties::guiposition::LengthType::LogicalLength,
        },
        y: GUILength {
            subunits: (y * crate::guimath::SUBUNITS_PER_PIXEL) as i64,
            length_type: crate::guiproperties::guiposition::LengthType::LogicalLength,
        },
    }
}

/// A node that is both renderable and a container: the full contract a
/// nestable widget satisfies.
pub trait Family: Child + Parent {
}

} // verus!
