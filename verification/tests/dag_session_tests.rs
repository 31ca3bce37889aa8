use rhizo_crypt_core::dag_session::DagSession;
use rhizo_crypt_core::types::VertexId;

fn v(n: u8) -> VertexId {
    VertexId::new([n; 32])
}

fn sorted(mut ids: Vec<VertexId>) -> Vec<[u8; 32]> {
    let mut raw: Vec<[u8; 32]> = ids.drain(..).map(|i| i.0).collect();
    raw.sort();
    raw
}

#[test]
fn session_indexes_follow_puts() {
    let mut s = DagSession::new();
    s.put_vertex(v(1), &[]);
    s.put_vertex(v(2), &[v(1)]);
    s.put_vertex(v(3), &[v(1)]);
    s.put_vertex(v(4), &[v(2), v(3)]);
    assert_eq!(s.count_vertices(), 4);
    assert!(s.contains(&v(4)));
    assert!(!s.contains(&v(9)));
    assert_eq!(sorted(s.get_genesis()), vec![[1u8; 32]]);
    assert_eq!(sorted(s.get_frontier()), vec![[4u8; 32]]);
    assert_eq!(sorted(s.get_children(&v(1))), vec![[2u8; 32], [3u8; 32]]);
    assert!(s.get_children(&v(4)).is_empty());
    assert_eq!(sorted(s.get_parents(&v(4)).unwrap()), vec![[2u8; 32], [3u8; 32]]);
    assert!(s.get_parents(&v(9)).is_none());
}

#[test]
fn topological_order_puts_parents_first() {
    let mut s = DagSession::new();
    s.put_vertex(v(1), &[]);
    s.put_vertex(v(5), &[v(3), v(1)]);
    s.put_vertex(v(2), &[v(1)]);
    s.put_vertex(v(3), &[v(2)]);
    let order: Vec<[u8; 32]> = s.topological_order().into_iter().map(|i| i.0).collect();
    assert_eq!(order.len(), 4);
    let pos = |n: u8| order.iter().position(|x| *x == [n; 32]).unwrap();
    assert!(pos(1) < pos(2));
    assert!(pos(2) < pos(3));
    assert!(pos(3) < pos(5));
}

#[test]
fn vertex_with_missing_parent_is_left_out() {
    let mut s = DagSession::new();
    s.put_vertex(v(1), &[]);
    s.put_vertex(v(2), &[v(7)]);
    let order: Vec<[u8; 32]> = s.topological_order().into_iter().map(|i| i.0).collect();
    assert_eq!(order, vec![[1u8; 32]]);
}

#[test]
fn update_frontier_moves_past_consumed() {
    let mut s = DagSession::new();
    s.put_vertex(v(1), &[]);
    s.update_frontier(v(2), &[v(1)]);
    assert_eq!(sorted(s.get_frontier()), vec![[2u8; 32]]);
}
