//! The concrete widgets, the tessellation helpers they share, and the
//! tagged union that a widget tree is built from.

use crate::guiproperties::guitraits::Child;
use vstd::prelude::*;

pub mod guibutton;
pub mod guiwindow;
pub mod widget_utils;

pub use guibutton::GUIButton;
pub use guiwindow::GUIWindow;

verus! {

/// One node of a widget tree: the tagged union of the widget kinds
/// satisfying the full `Family` contract — renderable, positionable
/// and a container of further nodes.  New widget kinds become new
/// variants here, opting into exactly the capability traits they need.
pub enum GUINode {
    /// The canonical renderable leaf or container.
    Button(GUIButton),
}

/// The parent extents the flattening pass works against: logical and
/// between one pixel and the measurement bound each way.
pub open spec fn parent_extents_ready(parent: crate::guiproperties::guiposition::GUISize) -> bool {
    &&& parent.width.length_type
        == crate::guiproperties::guiposition::LengthType::LogicalLength
    &&& parent.height.length_type
        == crate::guiproperties::guiposition::LengthType::LogicalLength
    &&& crate::guimath::SUBUNITS_PER_PIXEL <= parent.width.subunits
        <= crate::guimath::MAX_SUBUNITS
    &&& crate::guimath::SUBUNITS_PER_PIXEL <= parent.height.subunits
        <= crate::guimath::MAX_SUBUNITS
}

/// Every widget in the subtree under this node has well-formed stored
/// properties.
pub open spec fn node_ready(node: GUINode) -> bool
    decreases node,
{
    match node {
        GUINode::Button(b) => b.properties_ready() && children_ready(b.children@),
    }
}

/// Every widget in every subtree of this child list has well-formed
/// stored properties.
pub open spec fn children_ready(children: Seq<GUINode>) -> bool
    decreases children,
{
    if children.len() == 0 {
        true
    } else {
        node_ready(children[0]) && children_ready(children.drop_first())
    }
}

/// How many vertices the whole subtree under this node emits: the
/// node's own outline plus everything its descendants contribute.
pub open spec fn node_vertex_count(node: GUINode) -> int
    decreases node,
{
    match node {
        GUINode::Button(b) => b.outline_len() + children_vertex_count(b.children@),
    }
}

/// How many vertices the subtrees of this child list emit together.
pub open spec fn children_vertex_count(children: Seq<GUINode>) -> int
    decreases children,
{
    if children.len() == 0 {
        0
    } else {
        node_vertex_count(children[0]) + children_vertex_count(children.drop_first())
    }
}

/// The vertices the whole subtree under this node emits, depth first:
/// the node's own mesh, then each child subtree in insertion order.
pub open spec fn node_vertices(
    node: GUINode,
    parent: crate::guiproperties::guiposition::GUISize,
) -> Seq<crate::guiprocessing::vertices::Vertex>
    decreases node,
{
    match node {
        GUINode::Button(b) => b.emitted_vertices(parent) + children_vertices(b.children@, parent),
    }
}

/// The vertices the subtrees of this child list emit, in order.
pub open spec fn children_vertices(
    children: Seq<GUINode>,
    parent: crate::guiproperties::guiposition::GUISize,
) -> Seq<crate::guiprocessing::vertices::Vertex>
    decreases children,
{
    if children.len() == 0 {
        Seq::empty()
    } else {
        node_vertices(children[0], parent) + children_vertices(children.drop_first(), parent)
    }
}

/// The triangle indices the whole subtree under this node emits when
/// its first vertex lands at buffer slot `off`.
pub open spec fn node_indices(
    node: GUINode,
    parent: crate::guiproperties::guiposition::GUISize,
    off: int,
) -> Seq<u16>
    decreases node,
{
    match node {
        GUINode::Button(b) => crate::guiprocessing::vertices::fan_indices(off, b.outline_len())
            + children_indices(b.children@, parent, off + b.outline_len()),
    }
}

/// The triangle indices the subtrees of this child list emit, each
/// subtree offset by the vertices emitted before it.
pub open spec fn children_indices(
    children: Seq<GUINode>,
    parent: crate::guiproperties::guiposition::GUISize,
    off: int,
) -> Seq<u16>
    decreases children,
{
    if children.len() == 0 {
        Seq::empty()
    } else {
        node_indices(children[0], parent, off) + children_indices(
            children.drop_first(),
            parent,
            off + node_vertex_count(children[0]),
        )
    }
}

/// A subtree emits at least its own four corner points, and exactly
/// as many vertices as its vertex count says.
pub proof fn lemma_node_counts(node: GUINode, parent: crate::guiproperties::guiposition::GUISize)
    ensures
        4 <= node_vertex_count(node),
        node_vertices(node, parent).len() == node_vertex_count(node),
    decreases node,
{
    match node {
        GUINode::Button(b) => {
            lemma_children_counts(b.children@, parent);
        },
    }
}

/// A child list emits no vertex it does not account for: its vertex
/// count is non-negative and matches the emitted sequence exactly.
pub proof fn lemma_children_counts(
    children: Seq<GUINode>,
    parent: crate::guiproperties::guiposition::GUISize,
)
    ensures
        0 <= children_vertex_count(children),
        children_vertices(children, parent).len() == children_vertex_count(children),
    decreases children,
{
    if children.len() == 0 {
    } else {
        lemma_node_counts(children[0], parent);
        lemma_children_counts(children.drop_first(), parent);
    }
}

/// Every index a subtree emits at slot `off` refers into that
/// subtree's own vertex range.
pub proof fn lemma_node_indices_in_range(
    node: GUINode,
    parent: crate::guiproperties::guiposition::GUISize,
    off: int,
)
    requires
        0 <= off,
        off + node_vertex_count(node) <= 65536,
    ensures
        forall|k: int|
            0 <= k < node_indices(node, parent, off).len() ==> off <= #[trigger] node_indices(
                node,
                parent,
                off,
            )[k] < off + node_vertex_count(node),
    decreases node,
{
    match node {
        GUINode::Button(b) => {
            lemma_children_counts(b.children@, parent);
            crate::guiprocessing::vertices::lemma_fan_indices_in_range(off, b.outline_len());
            lemma_children_indices_in_range(b.children@, parent, off + b.outline_len());
            let fan = crate::guiprocessing::vertices::fan_indices(off, b.outline_len());
            let rest = children_indices(b.children@, parent, off + b.outline_len());
            assert forall|k: int| 0 <= k < node_indices(node, parent, off).len() implies off
                <= #[trigger] node_indices(node, parent, off)[k] < off + node_vertex_count(
                node,
            ) by {
                if k < fan.len() {
                    assert(node_indices(node, parent, off)[k] == fan[k]);
                } else {
                    assert(node_indices(node, parent, off)[k] == rest[k - fan.len()]);
                }
            }
        },
    }
}

/// Checks the subtrees of `children` from position `start` on, and
/// counts their vertices, saturating at one past the largest 16-bit
/// offset so the count cannot wrap however deep the tree is.
fn check_children_from(children: &Vec<GUINode>, start: usize) -> (out: (bool, u32))
    requires
        start <= children@.len(),
    ensures
        out.0 == children_ready(children@.skip(start as int)),
        out.1 <= 65536,
        out.0 ==> out.1 == if children_vertex_count(children@.skip(start as int)) <= 65536 {
            children_vertex_count(children@.skip(start as int))
        } else {
            65536int
        },
    decreases *children, children@.len() - start,
{
    if start == children.len() {
        proof {
            assert(children@.skip(start as int) =~= Seq::<GUINode>::empty());
        }
        (true, 0)
    } else {
        let ghost suffix = children@.skip(start as int);
        proof {
            assert(suffix[0] == children@[start as int]);
            assert(suffix.drop_first() =~= children@.skip(start as int + 1));
            vstd::std_specs::vec::axiom_vec_index_decreases(*children, start as int);
        }
        match &children[start] {
            GUINode::Button(b) => {
                proof {
                    assert(suffix[0] == GUINode::Button(*b));
                    assert(b.children@.skip(0) =~= b.children@);
                }
                if !b.check_properties() {
                    proof {
                        assert(!node_ready(suffix[0]));
                        assert(!children_ready(suffix));
                    }
                    return (false, 0);
                }
                let (descendants_ok, descendant_count) = check_children_from(&b.children, 0);
                if !descendants_ok {
                    proof {
                        assert(!children_ready(b.children@));
                        assert(!node_ready(suffix[0]));
                        assert(!children_ready(suffix));
                    }
                    return (false, 0);
                }
                let own = b.outline_vertex_count() as u32;
                let mut total = own + descendant_count;
                if total > 65536 {
                    total = 65536;
                }
                let (siblings_ok, sibling_count) = check_children_from(children, start + 1);
                if !siblings_ok {
                    return (false, 0);
                }
                proof {
                    lemma_children_counts_nonneg(b.children@);
                    lemma_children_counts_nonneg(suffix.drop_first());
                    assert(node_ready(suffix[0]));
                    assert(children_ready(suffix.drop_first()));
                    assert(children_ready(suffix));
                    assert(node_vertex_count(suffix[0]) == b.outline_len()
                        + children_vertex_count(b.children@));
                    assert(children_vertex_count(suffix) == node_vertex_count(suffix[0])
                        + children_vertex_count(suffix.drop_first()));
                    assert(total == if node_vertex_count(suffix[0]) <= 65536 {
                        node_vertex_count(suffix[0])
                    } else {
                        65536int
                    });
                }
                let mut grand = total + sibling_count;
                if grand > 65536 {
                    grand = 65536;
                }
                proof {
                    assert(grand == if children_vertex_count(suffix) <= 65536 {
                        children_vertex_count(suffix)
                    } else {
                        65536int
                    });
                }
                (true, grand)
            },
        }
    }
}

/// A child list never accounts for a negative number of vertices.
pub proof fn lemma_children_counts_nonneg(children: Seq<GUINode>)
    ensures
        0 <= children_vertex_count(children),
    decreases children,
{
    if children.len() == 0 {
    } else {
        lemma_node_counts_nonneg(children[0]);
        lemma_children_counts_nonneg(children.drop_first());
    }
}

/// A subtree accounts for at least its own outline's vertices.
pub proof fn lemma_node_counts_nonneg(node: GUINode)
    ensures
        4 <= node_vertex_count(node),
    decreases node,
{
    match node {
        GUINode::Button(b) => {
            lemma_children_counts_nonneg(b.children@);
        },
    }
}

/// Decides at run time whether a widget tree is ready to flatten
/// against the given parent extents: the extents themselves are in
/// range, every stored property in the tree is, and the whole tree
/// stays small enough for one 16-bit index buffer.  The flattening
/// pass may be called exactly when this passes, so an unverified
/// caller can guard the build and fail loudly instead of emitting
/// wrong geometry.
pub fn check_tree(
    parent_size: &crate::guiproperties::guiposition::GUISize,
    children: &Vec<GUINode>,
) -> (r: bool)
    ensures
        r == (parent_extents_ready(*parent_size) && children_ready(children@)
            && children_vertex_count(children@) <= 65535),
{
    let parent_ok = parent_size.width.length_type
        == crate::guiproperties::guiposition::LengthType::LogicalLength
        && parent_size.height.length_type
        == crate::guiproperties::guiposition::LengthType::LogicalLength
        && crate::guimath::SUBUNITS_PER_PIXEL <= parent_size.width.subunits
        && parent_size.width.subunits <= crate::guimath::MAX_SUBUNITS
        && crate::guimath::SUBUNITS_PER_PIXEL <= parent_size.height.subunits
        && parent_size.height.subunits <= crate::guimath::MAX_SUBUNITS;
    if !parent_ok {
        return false;
    }
    proof {
        assert(children@.skip(0) =~= children@);
    }
    let (ready, count) = check_children_from(children, 0);
    ready && count <= 65535
}

/// Every index a child list emits at slot `off` refers into the
/// vertex range that the list itself fills.
pub proof fn lemma_children_indices_in_range(
    children: Seq<GUINode>,
    parent: crate::guiproperties::guiposition::GUISize,
    off: int,
)
    requires
        0 <= off,
        off + children_vertex_count(children) <= 65536,
    ensures
        forall|k: int|
            0 <= k < children_indices(children, parent, off).len() ==> off
                <= #[trigger] children_indices(children, parent, off)[k] < off
                + children_vertex_count(children),
    decreases children,
{
    if children.len() == 0 {
    } else {
        let head = children[0];
        let tail = children.drop_first();
        lemma_node_counts(head, parent);
        lemma_children_counts(tail, parent);
        lemma_node_indices_in_range(head, parent, off);
        lemma_children_indices_in_range(tail, parent, off + node_vertex_count(head));
        let first = node_indices(head, parent, off);
        let rest = children_indices(tail, parent, off + node_vertex_count(head));
        assert forall|k: int| 0 <= k < children_indices(children, parent, off).len() implies off
            <= #[trigger] children_indices(children, parent, off)[k] < off
            + children_vertex_count(children) by {
            if k < first.len() {
                assert(children_indices(children, parent, off)[k] == first[k]);
            } else {
                assert(children_indices(children, parent, off)[k] == rest[k - first.len()]);
            }
        }
    }
}

} // verus!
