//! A tessellated outline: vertices plus the index triples that
//! fan-triangulate them.

use crate::guiproperties::guiposition::GUIPosition;
use vstd::prelude::*;

verus! {

/// An ordered outline of positions together with triangle indices into
/// it.  The indices always fan out from vertex zero, three entries to
/// the triangle.
#[derive(Clone)]
pub struct GUIPolygon {
    /// The outline, wound counter-clockwise.
    pub vertices: Vec<GUIPosition>,
    /// Triangle corners, three consecutive entries each, referring
    /// into `vertices`.
    pub indices: Vec<u16>,
}

impl GUIPolygon {
    /// A well-formed polygon fans from vertex zero: it holds three
    /// index entries per triangle, each inside the vertex list.
    pub open spec fn well_formed(&self) -> bool {
        &&& self.vertices@.len() >= 3
        &&& self.indices@.len() == 3 * (self.vertices@.len() - 2)
        &&& forall|k: int|
            0 <= k < self.indices@.len() ==> self.indices@[k] < self.vertices@.len()
    }
}

} // verus!
