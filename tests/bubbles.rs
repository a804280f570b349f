use zeal::bubbles::{find_first, Bubbles};
use zeal::graph::BubbleGraphError;

#[test]
fn spawn_child_links_to_parent() {
    let mut bubbles = Bubbles::new();
    let root = bubbles.spawn_orphan();
    let child = bubbles.spawn_child(root).unwrap();
    assert_ne!(child, root);
    assert!(bubbles.contains(child));
    assert_eq!(bubbles.neighbors(root), vec![child]);
    assert_eq!(bubbles.neighbors(child), vec![root]);
}

#[test]
fn spawn_child_of_stale_parent_is_not_present() {
    let mut bubbles = Bubbles::new();
    let root = bubbles.spawn_orphan();
    assert!(bubbles.remove(root));
    assert_eq!(bubbles.spawn_child(root), Err(BubbleGraphError::NotPresent));
    assert!(!bubbles.contains(0));
    assert!(!bubbles.contains(1));
}

#[test]
fn spawn_orphan_has_no_links() {
    let mut bubbles = Bubbles::new();
    let a = bubbles.spawn_orphan();
    let b = bubbles.spawn_orphan();
    assert_ne!(a, b);
    assert!(bubbles.neighbors(a).is_empty());
    assert_eq!(bubbles.connect(a, b), Ok(()));
    assert_eq!(bubbles.neighbors(b), vec![a]);
}

#[test]
fn link_targets_skip_missing_positions() {
    let mut bubbles = Bubbles::new();
    let root = bubbles.spawn_orphan();
    let c1 = bubbles.spawn_child(root).unwrap();
    let c2 = bubbles.spawn_child(root).unwrap();
    let other = bubbles.spawn_orphan();
    // Snapshot order differs from id order; c2 is missing from it.
    let snapshot = vec![other, c1, root];
    assert_eq!(bubbles.link_targets(root, &snapshot), vec![1]);
    assert_eq!(bubbles.link_targets(c1, &snapshot), vec![2]);
    assert_eq!(bubbles.link_targets(c2, &snapshot), vec![2]);
    assert!(bubbles.link_targets(other, &snapshot).is_empty());
    let full = vec![c2, root, c1, root];
    let mut t = bubbles.link_targets(root, &full);
    t.sort();
    assert_eq!(t, vec![0, 2]);
    assert_eq!(bubbles.link_targets(c1, &full), vec![1]);
}

#[test]
fn find_first_gives_first_position() {
    let snapshot = vec![4, 2, 4];
    assert_eq!(find_first(&snapshot, 4), Some(0));
    assert_eq!(find_first(&snapshot, 2), Some(1));
    assert_eq!(find_first(&snapshot, 9), None);
    assert_eq!(find_first(&Vec::new(), 0), None);
}

#[test]
fn spawned_bubbles_have_expected_neighbours() {
    let mut bubbles = Bubbles::default();
    let root = bubbles.spawn_orphan();
    assert_eq!(root, 0);
    assert!(bubbles.neighbors(root).is_empty());
    let child = bubbles.spawn_child(root).unwrap();
    assert_eq!(child, 1);
    assert_eq!(bubbles.neighbors(child), vec![root]);
    assert_eq!(bubbles.len(), 2);
    assert_eq!(bubbles.link_count(), 1);
}
