use ardutils::cut_edge::{CutEdge, Graph};

#[test]
fn simple() {
    let mut graph: Graph<u64, &str> = Graph::default();
    graph.insert_edge((1, 2, "n1"));
    graph.insert_edge((2, 3, "n3"));
    graph.insert_edge((1, 3, "n4"));
    graph.insert_edge((1, 4, "n1"));
    graph.insert_edge((5, 4, "n1"));
    graph.insert_edge((5, 2, "n1"));

    println!("{:?}", graph.cut_edges())
}

#[test]
fn empty_graph_has_no_cut_edges() {
    let graph: Graph<u64, &str> = Graph::default();
    assert!(graph.cut_edges().is_empty());
}

#[test]
fn single_edge_is_a_cut_edge() {
    let mut graph: Graph<u64, &str> = Graph::default();
    graph.insert_edge((1, 2, "only"));
    let cuts = graph.cut_edges();
    assert!(cuts.contains(&(1, 2)));
    assert!(cuts.contains(&(2, 1)));
}

#[test]
fn triangle_has_no_cut_edges() {
    let mut graph: Graph<u64, &str> = Graph::default();
    graph.insert_edge((1, 2, "a"));
    graph.insert_edge((2, 3, "b"));
    graph.insert_edge((3, 1, "c"));
    assert!(graph.cut_edges().is_empty());
}

#[test]
fn path_edges_are_all_cut_edges() {
    let mut graph: Graph<u64, &str> = Graph::default();
    graph.insert_edge((1, 2, "a"));
    graph.insert_edge((2, 3, "b"));

    let cuts = graph.cut_edges();
    assert_eq!(cuts.len(), 4);
    assert!(cuts.contains(&(1, 2)));
    assert!(cuts.contains(&(2, 1)));
    assert!(cuts.contains(&(2, 3)));
    assert!(cuts.contains(&(3, 2)));
}

#[test]
fn bridge_off_a_triangle_remains() {
    // A triangle with a tail: the triangle's edges lie on a cycle and are
    // struck; the tail is the one cut edge.
    let mut graph: Graph<u64, &str> = Graph::default();
    graph.insert_edge((1, 2, "a"));
    graph.insert_edge((2, 3, "b"));
    graph.insert_edge((3, 1, "c"));
    graph.insert_edge((3, 4, "tail"));

    let cuts = graph.cut_edges();
    assert!(cuts.contains(&(3, 4)));
    assert!(cuts.contains(&(4, 3)));
    for p in &cuts {
        assert!(p == &(3, 4) || p == &(4, 3));
    }
}

#[test]
fn reported_pairs_are_edges() {
    let mut graph: Graph<u64, &str> = Graph::default();
    graph.insert_edge((1, 2, "a"));
    graph.insert_edge((2, 3, "b"));
    for (a, b) in graph.cut_edges() {
        assert!(
            graph.edges.iter().any(|e| (e.0 == a && e.1 == b) || (e.0 == b && e.1 == a))
        );
    }
}
