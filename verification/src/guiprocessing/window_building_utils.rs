//! The tree-flattening assembler.
//!
//! Walks the widget tree depth first.  Each visited node emits its
//! mesh with the running vertex count as its index offset, then its
//! children follow in insertion order, so every triangle index stays
//! valid against the final concatenated buffers.  All descendants are
//! flattened against the root parent's extents: children do not yet
//! open local coordinate frames for their grandchildren.

use crate::guiprocessing::vertices::Vertex;
use crate::guiproperties::guiposition::GUISize;
use crate::guiproperties::guitraits::Child;
use crate::guiwidgets::{
    children_indices, children_ready, children_vertex_count, children_vertices,
    lemma_children_counts, lemma_children_indices_in_range, lemma_node_counts, node_ready,
    node_vertex_count, parent_extents_ready, GUINode,
};
use vstd::prelude::*;

verus! {

/// Flattens the subtrees of `children` from position `start` on,
/// filling a buffer whose next free vertex slot is `base`.
fn flatten_children_from(
    children: &Vec<GUINode>,
    parent_size: &GUISize,
    base: u16,
    start: usize,
) -> (out: (Vec<Vertex>, Vec<u16>))
    requires
        parent_extents_ready(*parent_size),
        start <= children@.len(),
        children_ready(children@.skip(start as int)),
        base + children_vertex_count(children@.skip(start as int)) <= 65535,
    ensures
        out.0@ == children_vertices(children@.skip(start as int), *parent_size),
        out.1@ == children_indices(children@.skip(start as int), *parent_size, base as int),
        out.0@.len() == children_vertex_count(children@.skip(start as int)),
    decreases *children, children@.len() - start,
{
    proof {
        lemma_children_counts(children@.skip(start as int), *parent_size);
    }
    if start == children.len() {
        let out: (Vec<Vertex>, Vec<u16>) = (Vec::new(), Vec::new());
        proof {
            assert(children@.skip(start as int) =~= Seq::<GUINode>::empty());
        }
        out
    } else {
        let ghost suffix = children@.skip(start as int);
        proof {
            assert(suffix[0] == children@[start as int]);
            assert(suffix.drop_first() =~= children@.skip(start as int + 1));
            lemma_node_counts(suffix[0], *parent_size);
            lemma_children_counts(suffix.drop_first(), *parent_size);
            vstd::std_specs::vec::axiom_vec_index_decreases(*children, start as int);
        }
        match &children[start] {
            GUINode::Button(b) => {
                proof {
                    assert(suffix[0] == GUINode::Button(*b));
                    assert(node_ready(suffix[0]));
                    assert(b.properties_ready());
                    assert(children_ready(b.children@));
                    assert(node_vertex_count(suffix[0]) == b.outline_len()
                        + children_vertex_count(b.children@));
                    lemma_children_counts(b.children@, *parent_size);
                    assert(b.children@.skip(0) =~= b.children@);
                    assert(base + b.outline_len() <= 65535);
                }
                let (mut vertices, mut indices) = b.get_vertices_and_indices(parent_size, base);
                let own_len = vertices.len();
                proof {
                    assert(own_len == b.outline_len());
                }
                let next_base = base + (own_len as u16);
                let (mut child_vertices, mut child_indices) = flatten_children_from(
                    &b.children,
                    parent_size,
                    next_base,
                    0,
                );
                let child_len = child_vertices.len();
                vertices.append(&mut child_vertices);
                indices.append(&mut child_indices);
                let sibling_base = next_base + (child_len as u16);
                let (mut sibling_vertices, mut sibling_indices) = flatten_children_from(
                    children,
                    parent_size,
                    sibling_base,
                    start + 1,
                );
                vertices.append(&mut sibling_vertices);
                indices.append(&mut sibling_indices);
                proof {
                    assert(vertices@ =~= children_vertices(suffix, *parent_size));
                    assert(next_base as int == base as int + b.outline_len());
                    assert(sibling_base as int == base as int + node_vertex_count(suffix[0]));
                    assert(crate::guiwidgets::node_indices(suffix[0], *parent_size, base as int)
                        == crate::guiprocessing::vertices::fan_indices(
                        base as int,
                        b.outline_len(),
                    ) + children_indices(
                        b.children@,
                        *parent_size,
                        base as int + b.outline_len(),
                    ));
                    assert(children_indices(suffix, *parent_size, base as int)
                        == crate::guiwidgets::node_indices(suffix[0], *parent_size, base as int)
                        + children_indices(
                        suffix.drop_first(),
                        *parent_size,
                        base as int + node_vertex_count(suffix[0]),
                    ));
                    assert(indices@ =~= children_indices(suffix, *parent_size, base as int));
                }
                (vertices, indices)
            },
        }
    }
}

/// Flattens a widget tree into one vertex buffer and one index
/// buffer: each child subtree of the root, depth first and in
/// insertion order, every widget's mesh offset by the vertices
/// emitted before it.  The buffers fully replace any earlier pair —
/// geometry is regenerated from the stored logical properties on
/// every pass, never cached.  Every returned index points inside the
/// returned vertex buffer.
pub fn make_vertices_and_indices(parent_size: &GUISize, children: &Vec<GUINode>) -> (out: (
    Vec<Vertex>,
    Vec<u16>,
))
    requires
        parent_extents_ready(*parent_size),
        children_ready(children@),
        children_vertex_count(children@) <= 65535,
    ensures
        out.0@ == children_vertices(children@, *parent_size),
        out.1@ == children_indices(children@, *parent_size, 0),
        out.0@.len() == children_vertex_count(children@),
        forall|k: int| 0 <= k < out.1@.len() ==> (#[trigger] out.1@[k]) < out.0@.len(),
{
    proof {
        assert(children@.skip(0) =~= children@);
    }
    let out = flatten_children_from(children, parent_size, 0, 0);
    proof {
        lemma_children_indices_in_range(children@, *parent_size, 0);
    }
    out
}

} // verus!
