//! The root container: a window.
//!
//! Given the number of properties that a window has, rather than
//! accounting for all of them in its creation, a window is built with
//! default values and then customized through setters.  The window is
//! not itself tessellated into a mesh — it is the rendering surface —
//! but it supplies the parent size and device scale context that the
//! flattening pass works against.

use crate::guiproperties::guicolor::GUIColor;
use crate::guiproperties::guiposition::{GUIPosition, GUISize, LengthType};
use crate::guiproperties::guitraits::{Widget, Wind};
use crate::guiproperties::GUIIcon;
use crate::guimath::SUBUNITS_PER_PIXEL;
use crate::guiwidgets::GUINode;
use vstd::prelude::*;

verus! {

/// Represents a gui window.
pub struct GUIWindow {
    /// The title of the window.
    pub title: &'static str,
    /// The size of the window.
    pub size: GUISize,
    /// The minimum size of the window.
    pub min_size: GUISize,
    /// The maximum size of the window.
    pub max_size: GUISize,
    /// Whether or not the window is resizable.
    pub resizable: bool,
    /// Whether or not the window is always on top of other windows.
    pub always_on_top: bool,
    /// The window's icon.
    pub window_icon: Option<GUIIcon>,
    /// The window's input-method position.
    pub ime_position: Option<GUIPosition>,
    /// The background color for the window.
    pub background_color: GUIColor,
    /// A list of child widgets.
    pub children: Option<Vec<GUINode>>,
    /// The scale that converts between the device's logical and
    /// physical pixels, in grid units, once the windowing boundary has
    /// reported it.
    pub logical_scale: Option<i64>,
}

impl Default for GUIWindow {
    /// Returns a window with all of the default values: 500 by 500
    /// logical pixels, resizable between 100 and 800, an opaque
    /// mid-gray background, and no children yet.
    fn default() -> (r: GUIWindow)
        ensures
            r.title == "Form1",
            r.size.width.subunits == 500 * SUBUNITS_PER_PIXEL,
            r.size.height.subunits == 500 * SUBUNITS_PER_PIXEL,
            r.size.width.length_type == LengthType::LogicalLength,
            r.size.height.length_type == LengthType::LogicalLength,
            r.min_size.width.subunits == 100 * SUBUNITS_PER_PIXEL,
            r.min_size.height.subunits == 100 * SUBUNITS_PER_PIXEL,
            r.max_size.width.subunits == 800 * SUBUNITS_PER_PIXEL,
            r.max_size.height.subunits == 800 * SUBUNITS_PER_PIXEL,
            r.resizable == true,
            r.always_on_top == false,
            r.window_icon is None,
            r.ime_position is None,
            r.background_color == (GUIColor {
                r: 40_000_000,
                g: 40_000_000,
                b: 40_000_000,
                a: 100_000_000,
            }),
            r.children is None,
            r.logical_scale is None,
    {
        GUIWindow {
            title: "Form1",
            size: GUISize::from_logical_pixels(500, 500),
            min_size: GUISize::from_logical_pixels(100, 100),
            max_size: GUISize::from_logical_pixels(800, 800),
            resizable: true,
            always_on_top: false,
            window_icon: None,
            ime_position: None,
            background_color: GUIColor {
                r: 40_000_000,
                g: 40_000_000,
                b: 40_000_000,
                a: 100_000_000,
            },
            children: None,
            logical_scale: None,
        }
    }
}

impl Widget for GUIWindow {
    /// The window is the rendering surface itself and always shows.
    open spec fn spec_rendered(&self) -> bool {
        true
    }

    open spec fn with_size(self, size: GUISize) -> Self {
        GUIWindow { size, ..self }
    }

    open spec fn with_background_color(self, color: GUIColor) -> Self {
        GUIWindow { background_color: color, ..self }
    }

    fn is_rendered(&self) -> bool {
        true
    }

    /// Set the size (width and height) of the window in units of
    /// logical pixels.  The stored children are untouched: their
    /// geometry is regenerated against the new size on the next
    /// flattening pass rather than cached.
    fn set_size(&mut self, size: GUISize) {
        self.size = size;
    }

    /// Set background color of the window.
    fn set_background_color(&mut self, color: GUIColor) {
        self.background_color = color;
    }
}

impl Wind for GUIWindow {
    open spec fn with_min_size(self, size: GUISize) -> Self {
        GUIWindow { min_size: size, ..self }
    }

    open spec fn with_title(self, title: &'static str) -> Self {
        GUIWindow { title, ..self }
    }

    open spec fn with_resizable(self, resizable: bool) -> Self {
        GUIWindow { resizable, ..self }
    }

    open spec fn with_always_on_top(self, always_on_top: bool) -> Self {
        GUIWindow { always_on_top, ..self }
    }

    open spec fn with_window_icon(self, icon: GUIIcon) -> Self {
        GUIWindow { window_icon: Some(icon), ..self }
    }

    /// Set the minimum size (width and height) of the window in units
    /// of logical pixels.
    fn set_min_size(&mut self, size: GUISize) {
        self.min_size = size;
    }

    /// Sets the title of the window.
    fn set_title(&mut self, title: &'static str) {
        self.title = title;
    }

    /// Set whether or not a window is resizable.
    fn set_resizable(&mut self, resizable: bool) {
        self.resizable = resizable;
    }

    /// Set whether or not a window is always on top.
    fn set_always_on_top(&mut self, always_on_top: bool) {
        self.always_on_top = always_on_top;
    }

    /// Sets the window icon.
    fn set_window_icon(&mut self, icon: GUIIcon) {
        self.window_icon = Some(icon);
    }
}

impl GUIWindow {
    /// The ordered children, whether or not any have been added yet.
    pub open spec fn children_view(&self) -> Seq<GUINode> {
        match self.children {
            Some(children) => children@,
            None => Seq::empty(),
        }
    }

    /// Everything except the child list agrees between the two windows.
    pub open spec fn same_but_children(self, other: Self) -> bool {
        &&& other.title == self.title
        &&& other.size == self.size
        &&& other.min_size == self.min_size
        &&& other.max_size == self.max_size
        &&& other.resizable == self.resizable
        &&& other.always_on_top == self.always_on_top
        &&& other.window_icon == self.window_icon
        &&& other.ime_position == self.ime_position
        &&& other.background_color == self.background_color
        &&& other.logical_scale == self.logical_scale
    }

    /// Adds a child to the GUIWindow.  Children, and grandchildren,
    /// will be rendered in the order in which they are added, so
    /// children that should be visually obscured by other children
    /// should be added before the obscuring children.
    pub fn add_child(&mut self, child: GUINode)
        ensures
            final(self).children_view() == old(self).children_view().push(child),
            old(self).same_but_children(*final(self)),
    {
        match &mut self.children {
            Some(children) => {
                children.push(child);
            },
            _ => {
                let mut fresh: Vec<GUINode> = Vec::new();
                fresh.push(child);
                self.children = Some(fresh);
                proof {
                    assert(final(self).children_view() =~= old(self).children_view().push(
                        child,
                    ));
                }
            },
        }
    }

    /// Returns the number of children.
    pub fn children_len(&self) -> (n: usize)
        ensures
            n == self.children_view().len(),
    {
        match &self.children {
            Some(children) => children.len(),
            None => 0,
        }
    }

    /// Gets the children.
    pub fn get_area_children(&self) -> (r: &Option<Vec<GUINode>>)
        ensures
            *r == self.children,
    {
        &self.children
    }
}

} // verus!
