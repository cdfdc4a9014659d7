//! The flattening pass: render-ready vertices and the assembler that
//! walks a widget tree into one vertex buffer and one index buffer.

pub mod vertices;
pub mod window_building_utils;
