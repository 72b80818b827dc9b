use editor_core::SceneNode;
use editor_core::highlight_targets;
use editor_core::observe_targets;

fn node(has_mesh: bool, is_editor_child: bool, children: &[usize]) -> SceneNode {
    SceneNode {
        has_mesh,
        is_editor_child,
        children: children.to_vec(),
    }
}

// A selected object at slot 0 with a plain mesh child at 1 and a nested
// editor object at 2 whose own mesh sits at 3.
fn sample_tree() -> Vec<SceneNode> {
    vec![
        node(false, false, &[1, 2]),
        node(true, false, &[]),
        node(false, true, &[3]),
        node(true, false, &[]),
    ]
}

#[test]
fn highlights_tag_meshes_with_nearest_editor_object() {
    let nodes = sample_tree();
    let targets = highlight_targets(&nodes, 0, 0);
    assert_eq!(targets, vec![(1, 0), (3, 2)]);
}

#[test]
fn highlight_root_carries_into_plain_subtrees() {
    let nodes = vec![
        node(false, false, &[1]),
        node(false, false, &[2]),
        node(true, false, &[]),
    ];
    let targets = highlight_targets(&nodes, 0, 0);
    assert_eq!(targets, vec![(2, 0)]);
}

#[test]
fn mesh_on_the_root_itself_is_highlighted() {
    let nodes = vec![node(true, false, &[])];
    let targets = highlight_targets(&nodes, 0, 0);
    assert_eq!(targets, vec![(0, 0)]);
}

#[test]
fn observing_skips_nested_editor_objects() {
    let nodes = sample_tree();
    let targets = observe_targets(&nodes, 0, 0);
    assert_eq!(targets, vec![1]);
}

#[test]
fn observing_entry_ignores_its_own_editor_child_marker() {
    let mut nodes = sample_tree();
    nodes[0].is_editor_child = true;
    nodes[0].has_mesh = true;
    let targets = observe_targets(&nodes, 0, 0);
    assert_eq!(targets, vec![0, 1]);
}
