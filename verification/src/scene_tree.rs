//! Walks over a loaded scene's node tree. When an object is selected, every
//! mesh node below it gets a highlight copy, tagged with the nearest
//! enclosing editor object as its root; when a scene finishes loading, its
//! mesh nodes are wired up for click selection, except inside nested editor
//! objects, which wire themselves.

use vstd::prelude::*;

verus! {

/// One node of a loaded scene, in a flattened layout where children come
/// after their parent.
pub struct SceneNode {
    /// The node carries a mesh.
    pub has_mesh: bool,
    /// The node is itself an editor object parented into this one.
    pub is_editor_child: bool,
    /// The slots of the node's children.
    pub children: Vec<usize>,
}

/// Child slots point forward and stay inside the tree, as a flattened scene
/// guarantees; this is what makes every walk finite.
pub open spec fn scene_nodes_wf(nodes: Seq<SceneNode>) -> bool {
    forall|i: int, k: int|
        0 <= i < nodes.len() && 0 <= k < nodes[i].children@.len() ==> i < #[trigger] nodes[i].children@[k]
            < nodes.len()
}

/// The (mesh node, highlight root) pairs below `node`, in walk order. A
/// nested editor object redirects the root for its own subtree.
pub open spec fn spec_highlight_targets(nodes: Seq<SceneNode>, node: int, root: int) -> Seq<
    (usize, usize),
>
    decreases nodes.len() - node, 1int, 0int,
{
    if !(0 <= node < nodes.len()) {
        Seq::empty()
    } else {
        let new_root = if nodes[node].is_editor_child {
            node
        } else {
            root
        };
        let own: Seq<(usize, usize)> = if nodes[node].has_mesh {
            seq![(node as usize, new_root as usize)]
        } else {
            Seq::empty()
        };
        own + spec_highlight_children(nodes, node, 0, new_root)
    }
}

/// The highlight pairs contributed by `node`'s children from slot `k` on.
pub open spec fn spec_highlight_children(
    nodes: Seq<SceneNode>,
    node: int,
    k: int,
    root: int,
) -> Seq<(usize, usize)>
    decreases nodes.len() - node, 0int, nodes[node].children@.len() - k,
{
    if !(0 <= node < nodes.len()) || k < 0 || k >= nodes[node].children@.len() {
        Seq::empty()
    } else {
        let child = nodes[node].children@[k] as int;
        let sub = if node < child < nodes.len() {
            spec_highlight_targets(nodes, child, root)
        } else {
            Seq::empty()
        };
        sub + spec_highlight_children(nodes, node, k + 1, root)
    }
}

/// Collects, for the subtree at `node`, each mesh node together with the
/// editor object whose highlight it belongs to: `root` until a nested
/// editor object takes over for its own subtree.
pub fn highlight_targets(nodes: &Vec<SceneNode>, node: usize, root: usize) -> (r: Vec<
    (usize, usize),
>)
    requires
        scene_nodes_wf(nodes@),
        node < nodes@.len(),
        root < nodes@.len(),
    ensures
        r@ == spec_highlight_targets(nodes@, node as int, root as int),
    decreases nodes@.len() - node,
{
    let new_root = if nodes[node].is_editor_child {
        node
    } else {
        root
    };
    let mut r: Vec<(usize, usize)> = Vec::new();
    if nodes[node].has_mesh {
        r.push((node, new_root));
    }
    let num_children = nodes[node].children.len();
    let mut k: usize = 0;
    proof {
        assert(spec_highlight_targets(nodes@, node as int, root as int) =~= r@
            + spec_highlight_children(nodes@, node as int, 0, new_root as int));
    }
    while k < num_children
        invariant
            scene_nodes_wf(nodes@),
            node < nodes@.len(),
            new_root < nodes@.len(),
            k <= num_children,
            num_children == nodes@[node as int].children@.len(),
            spec_highlight_targets(nodes@, node as int, root as int) == r@
                + spec_highlight_children(nodes@, node as int, k as int, new_root as int),
        decreases num_children - k,
    {
        let child = nodes[node].children[k];
        proof {
            assert(nodes@[node as int].children@[k as int] == child);
        }
        let mut sub = highlight_targets(nodes, child, new_root);
        let ghost r_before = r@;
        r.append(&mut sub);
        proof {
            assert(r@ =~= r_before + spec_highlight_targets(
                nodes@,
                child as int,
                new_root as int,
            ));
            assert(r_before + (spec_highlight_targets(nodes@, child as int, new_root as int)
                + spec_highlight_children(nodes@, node as int, k as int + 1, new_root as int))
                =~= r@ + spec_highlight_children(nodes@, node as int, k as int + 1,
                new_root as int));
        }
        k = k + 1;
    }
    proof {
        assert(r@ + spec_highlight_children(nodes@, node as int, num_children as int,
            new_root as int) =~= r@);
    }
    r
}

/// The mesh nodes below `node` to wire for click selection, in walk order.
/// A nested editor object's subtree is left alone: it wires itself.
pub open spec fn spec_observe_targets(nodes: Seq<SceneNode>, node: int, entry: int) -> Seq<usize>
    decreases nodes.len() - node, 1int, 0int,
{
    if !(0 <= node < nodes.len()) {
        Seq::empty()
    } else if node != entry && nodes[node].is_editor_child {
        Seq::empty()
    } else {
        let own: Seq<usize> = if nodes[node].has_mesh {
            seq![node as usize]
        } else {
            Seq::empty()
        };
        own + spec_observe_children(nodes, node, 0, entry)
    }
}

/// The selection targets contributed by `node`'s children from slot `k` on.
pub open spec fn spec_observe_children(
    nodes: Seq<SceneNode>,
    node: int,
    k: int,
    entry: int,
) -> Seq<usize>
    decreases nodes.len() - node, 0int, nodes[node].children@.len() - k,
{
    if !(0 <= node < nodes.len()) || k < 0 || k >= nodes[node].children@.len() {
        Seq::empty()
    } else {
        let child = nodes[node].children@[k] as int;
        let sub = if node < child < nodes.len() {
            spec_observe_targets(nodes, child, entry)
        } else {
            Seq::empty()
        };
        sub + spec_observe_children(nodes, node, k + 1, entry)
    }
}

/// Collects the mesh nodes of the subtree at `entry` that should react to
/// clicks on behalf of `entry`, skipping nested editor objects.
pub fn observe_targets(nodes: &Vec<SceneNode>, node: usize, entry: usize) -> (r: Vec<usize>)
    requires
        scene_nodes_wf(nodes@),
        node < nodes@.len(),
    ensures
        r@ == spec_observe_targets(nodes@, node as int, entry as int),
    decreases nodes@.len() - node,
{
    let mut r: Vec<usize> = Vec::new();
    if node != entry && nodes[node].is_editor_child {
        proof {
            assert(r@ =~= spec_observe_targets(nodes@, node as int, entry as int));
        }
        return r;
    }
    if nodes[node].has_mesh {
        r.push(node);
    }
    let num_children = nodes[node].children.len();
    let mut k: usize = 0;
    proof {
        assert(spec_observe_targets(nodes@, node as int, entry as int) =~= r@
            + spec_observe_children(nodes@, node as int, 0, entry as int));
    }
    while k < num_children
        invariant
            scene_nodes_wf(nodes@),
            node < nodes@.len(),
            k <= num_children,
            num_children == nodes@[node as int].children@.len(),
            spec_observe_targets(nodes@, node as int, entry as int) == r@
                + spec_observe_children(nodes@, node as int, k as int, entry as int),
        decreases num_children - k,
    {
        let child = nodes[node].children[k];
        proof {
            assert(nodes@[node as int].children@[k as int] == child);
        }
        let mut sub = observe_targets(nodes, child, entry);
        let ghost r_before = r@;
        r.append(&mut sub);
        proof {
            assert(r@ =~= r_before + spec_observe_targets(nodes@, child as int, entry as int));
            assert(r_before + (spec_observe_targets(nodes@, child as int, entry as int)
                + spec_observe_children(nodes@, node as int, k as int + 1, entry as int)) =~= r@
                + spec_observe_children(nodes@, node as int, k as int + 1, entry as int));
        }
        k = k + 1;
    }
    proof {
        assert(r@ + spec_observe_children(nodes@, node as int, num_children as int, entry as int)
            =~= r@);
    }
    r
}

} // verus!
