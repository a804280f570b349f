use zeal::graph::{BubbleGraph, BubbleGraphError};

#[test]
fn end_to_end_insert_connect_remove() {
    let mut g = BubbleGraph::new();
    let a = g.insert();
    let b = g.insert();
    assert_eq!(a, 0);
    assert_eq!(b, 1);
    assert_eq!(g.connect(0, 1), Ok(()));
    assert_eq!(g.neighbors(0), vec![1]);
    assert_eq!(g.neighbors(1), vec![0]);
    assert!(g.remove(0));
    assert_eq!(g.neighbors(1), Vec::<u32>::new());
    assert_eq!(g.connect(0, 1), Err(BubbleGraphError::NotPresent));
}

#[test]
fn connect_absent_endpoint_is_not_present() {
    let mut g = BubbleGraph::new();
    let a = g.insert();
    assert_eq!(g.connect(a, 7), Err(BubbleGraphError::NotPresent));
    assert_eq!(g.connect(7, a), Err(BubbleGraphError::NotPresent));
    assert_eq!(g.connect(7, 8), Err(BubbleGraphError::NotPresent));
    assert!(g.neighbors(a).is_empty());
    assert!(g.contains_node(a));
    assert!(!g.contains_node(7));
}

#[test]
fn connect_to_itself_is_refused() {
    let mut g = BubbleGraph::new();
    let a = g.insert();
    assert_eq!(g.connect(a, a), Err(BubbleGraphError::SelfLink));
    assert!(g.neighbors(a).is_empty());
}

#[test]
fn neighbors_are_symmetric() {
    let mut g = BubbleGraph::new();
    let a = g.add_bubble();
    let b = g.add_bubble();
    let c = g.add_bubble();
    assert_eq!(g.add_edge(a, b), Ok(()));
    assert_eq!(g.connect(c, a), Ok(()));
    let mut na = g.neighbors(a);
    na.sort();
    assert_eq!(na, vec![b, c]);
    assert_eq!(g.neighbors(b), vec![a]);
    assert_eq!(g.neighbors(c), vec![a]);
}

#[test]
fn connecting_twice_keeps_one_link() {
    let mut g = BubbleGraph::new();
    let a = g.insert();
    let b = g.insert();
    assert_eq!(g.connect(a, b), Ok(()));
    assert_eq!(g.connect(b, a), Ok(()));
    assert_eq!(g.connect(a, b), Ok(()));
    assert_eq!(g.neighbors(a), vec![b]);
    assert_eq!(g.neighbors(b), vec![a]);
}

#[test]
fn neighbors_of_absent_bubble_is_empty() {
    let g = BubbleGraph::new();
    assert!(g.neighbors(3).is_empty());
}

#[test]
fn remove_reports_presence_and_cascades() {
    let mut g = BubbleGraph::new();
    let a = g.insert();
    let b = g.insert();
    let c = g.insert();
    assert_eq!(g.connect(a, b), Ok(()));
    assert_eq!(g.connect(b, c), Ok(()));
    assert!(g.remove(b));
    assert!(!g.remove(b));
    assert!(!g.contains_node(b));
    assert!(g.neighbors(a).is_empty());
    assert!(g.neighbors(c).is_empty());
    assert_eq!(g.connect(a, c), Ok(()));
    assert_eq!(g.neighbors(a), vec![c]);
}

#[test]
fn fresh_id_is_not_live() {
    let mut g = BubbleGraph::new();
    let a = g.insert();
    let b = g.insert();
    assert!(g.remove(a));
    let c = g.insert();
    assert_ne!(c, b);
    assert!(g.contains_node(c));
    assert!(g.contains_node(b));
}

#[test]
fn remove_edge_by_index() {
    let mut g = BubbleGraph::new();
    let a = g.insert();
    let b = g.insert();
    assert_eq!(g.connect(a, b), Ok(()));
    assert_eq!(g.remove_edge(0), Some(()));
    assert_eq!(g.remove_edge(0), None);
    assert!(g.neighbors(a).is_empty());
    assert!(g.contains_node(a) && g.contains_node(b));
}

#[test]
fn no_dangling_links_after_mixed_operations() {
    let mut g = BubbleGraph::new();
    let mut live: Vec<u32> = Vec::new();
    let mut seed: u64 = 12345;
    for _ in 0..400 {
        seed = seed.wrapping_mul(6364136223846793005).wrapping_add(1442695040888963407);
        let op = (seed >> 33) % 3;
        let x = ((seed >> 40) % 12) as u32;
        let y = ((seed >> 50) % 12) as u32;
        match op {
            0 => live.push(g.insert()),
            1 => {
                let r = g.connect(x, y);
                let both = g.contains_node(x) && g.contains_node(y);
                if !both {
                    assert_eq!(r, Err(BubbleGraphError::NotPresent));
                } else if x == y {
                    assert_eq!(r, Err(BubbleGraphError::SelfLink));
                } else {
                    assert_eq!(r, Ok(()));
                    assert!(g.neighbors(x).contains(&y));
                    assert!(g.neighbors(y).contains(&x));
                }
            }
            _ => {
                let was = g.contains_node(x);
                assert_eq!(g.remove(x), was);
                live.retain(|&v| v != x);
            }
        }
        for &n in &live {
            assert!(g.contains_node(n));
            let ns = g.neighbors(n);
            for &m in &ns {
                assert!(g.contains_node(m));
                assert_ne!(m, n);
                assert!(g.neighbors(m).contains(&n));
            }
            let mut sorted = ns.clone();
            sorted.sort();
            sorted.dedup();
            assert_eq!(sorted.len(), ns.len());
        }
    }
    assert_eq!(g.node_count(), live.len());
}

#[test]
fn fresh_graph_hands_out_ids_in_order() {
    let mut g = BubbleGraph::default();
    for k in 0..5u32 {
        assert_eq!(g.add_bubble(), k);
    }
    assert_eq!(g.node_count(), 5);
    assert_eq!(g.edge_count(), 0);
}
