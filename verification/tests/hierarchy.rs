use editor_core::EditorHierarchy;
use editor_core::select_parent_by_name;

#[test]
fn new_forest_is_all_roots() {
    let h = EditorHierarchy::new(3);
    assert_eq!(h.len(), 3);
    assert_eq!(h.parent_of(0), None);
    assert_eq!(h.parent_of(1), None);
    assert_eq!(h.parent_of(2), None);
}

#[test]
fn reparent_links_child() {
    let mut h = EditorHierarchy::new(3);
    assert!(h.reparent(0, 1));
    assert_eq!(h.parent_of(0), Some(1));
    assert_eq!(h.parent_of(1), None);
}

#[test]
fn reparent_refuses_self() {
    let mut h = EditorHierarchy::new(2);
    assert!(!h.reparent(1, 1));
    assert_eq!(h.parent_of(1), None);
}

#[test]
fn reparent_refuses_cycle() {
    let mut h = EditorHierarchy::new(3);
    assert!(h.reparent(0, 1));
    assert!(h.reparent(1, 2));
    // 2 stands above 0 through 1; hanging it below 0 would close a loop.
    assert!(!h.reparent(2, 0));
    assert_eq!(h.parent_of(2), None);
    assert!(!h.reparent(1, 0));
    assert_eq!(h.parent_of(1), Some(2));
}

#[test]
fn would_create_cycle_walks_whole_chain() {
    let mut h = EditorHierarchy::new(4);
    assert!(h.reparent(0, 1));
    assert!(h.reparent(1, 2));
    assert!(h.reparent(2, 3));
    assert!(h.would_create_cycle(3, 0));
    assert!(h.would_create_cycle(2, 0));
    assert!(h.would_create_cycle(1, 0));
    assert!(!h.would_create_cycle(0, 3));
    assert!(!h.would_create_cycle(0, 0));
}

#[test]
fn would_create_cycle_false_for_sibling() {
    let mut h = EditorHierarchy::new(3);
    assert!(h.reparent(1, 0));
    assert!(h.reparent(2, 0));
    assert!(!h.would_create_cycle(1, 2));
    assert!(h.reparent(1, 2));
    assert_eq!(h.parent_of(1), Some(2));
}

#[test]
fn make_root_clears_parent() {
    let mut h = EditorHierarchy::new(2);
    assert!(h.reparent(0, 1));
    h.make_root(0);
    assert_eq!(h.parent_of(0), None);
}

#[test]
fn parent_picker_finds_first_match() {
    let names = vec![
        String::from("floor"),
        String::from("crate"),
        String::from("crate"),
    ];
    let entities: Vec<u64> = vec![10, 20, 30];
    let query = String::from("crate");
    assert_eq!(select_parent_by_name(&names, &entities, &query, 10), Some(20));
}

#[test]
fn parent_picker_refuses_self() {
    let names = vec![String::from("floor"), String::from("crate")];
    let entities: Vec<u64> = vec![10, 20];
    let query = String::from("crate");
    assert_eq!(select_parent_by_name(&names, &entities, &query, 20), None);
}

#[test]
fn parent_picker_needs_exact_name() {
    let names = vec![String::from("floor"), String::from("crate")];
    let entities: Vec<u64> = vec![10, 20];
    let query = String::from("lamp");
    assert_eq!(select_parent_by_name(&names, &entities, &query, 10), None);
}
