//! A widget-tree-to-geometry compiler for an immediate-style GUI toolkit.
//!
//! A tree of widgets carrying typed layout properties (position, size,
//! corner radius, color) is flattened into one vertex buffer and one
//! triangle-index buffer in normalized device coordinates, ready for a
//! rasterizer.  Every linear measurement is held on a fixed decimal grid
//! of eight places, so the whole pipeline is exact integer arithmetic:
//! unit-checked length algebra, quarter-circle tessellation, rounded
//! rectangle outlines, and clip-space conversion.

pub mod guimath;
pub mod guiprocessing;
pub mod guiproperties;
pub mod guiresources;
pub mod guiwidgets;
