//! Cut-edge search on an undirected graph held as an edge list.
//!
//! The traversal starts from all edges, walks the graph once, and removes
//! from the result every edge it finds lying on a cycle; what remains is
//! reported as the cut edges.  This is a one-pass heuristic, not a
//! textbook bridge search: nodes are marked as discovered when they are
//! enqueued, and a discovered neighbour met again closes a cycle whose
//! whole backtracking path is struck from the result.

use vstd::prelude::*;
use vstd::seq_lib::group_seq_properties;

verus! {

broadcast use group_seq_properties;

/// An undirected graph: one entry per edge, endpoints and a label.
#[derive(Debug, Default)]
pub struct Graph<T, E> {
    pub edges: Vec<(T, T, E)>,
}

impl<T, E> Graph<T, E> {
    /// Records one undirected edge between the two endpoints.
    pub fn insert_edge(&mut self, edge: (T, T, E))
        ensures
            final(self).edges@ == old(self).edges@.push(edge),
    {
        self.edges.push(edge);
    }
}

/// Whether `a` and `b` are joined by some recorded edge, in either
/// orientation.
pub open spec fn is_edge<T, E>(edges: Seq<(T, T, E)>, a: T, b: T) -> bool {
    exists|k: int|
        0 <= k < edges.len() && ((#[trigger] edges[k]).0 == a && edges[k].1 == b || edges[k].0 == b
            && edges[k].1 == a)
}

/// A graph whose edges not on any discovered cycle can be reported.
pub trait CutEdge<T> {
    /// The recorded edges, as unordered endpoint pairs.
    spec fn edge_rel(&self, a: T, b: T) -> bool;

    /// The candidate cut edges: every reported pair is a recorded edge,
    /// and each pair is reported together with its reverse.
    fn cut_edges(&self) -> (r: Vec<(T, T)>)
        ensures
            forall|p: (T, T)| r@.contains(p) ==> self.edge_rel(p.0, p.1),
            forall|p: (T, T)| r@.contains(p) ==> r@.contains((p.1, p.0)),
    ;
}

/// Whether `v` holds `x`.
fn contains_u64(v: &Vec<u64>, x: u64) -> (r: bool)
    ensures
        r == v@.contains(x),
{
    let n = v.len();
    let mut i: usize = 0;
    while i < n
        invariant
            n == v@.len(),
            0 <= i <= n,
            forall|j: int| 0 <= j < i ==> v@[j] != x,
        decreases n - i,
    {
        if v[i] == x {
            return true;
        }
        i = i + 1;
    }
    false
}

/// The parent recorded for `k` in the backtracking map, if any.
fn assoc_get(v: &Vec<(u64, u64)>, k: u64) -> (r: Option<u64>) {
    let n = v.len();
    let mut i: usize = 0;
    while i < n
        invariant
            n == v@.len(),
            0 <= i <= n,
        decreases n - i,
    {
        if v[i].0 == k {
            return Some(v[i].1);
        }
        i = i + 1;
    }
    None
}

/// Strikes the pair `(a, b)`, in both orientations, from the result.
fn remove_edge(res: &mut Vec<(u64, u64)>, a: u64, b: u64)
    ensures
        forall|p: (u64, u64)|
            final(res)@.contains(p) <==> old(res)@.contains(p) && p != (a, b) && p != (b, a),
{
    let n = res.len();
    let mut kept: Vec<(u64, u64)> = Vec::new();
    let mut i: usize = 0;
    while i < n
        invariant
            n == res@.len(),
            0 <= i <= n,
            forall|p: (u64, u64)|
                kept@.contains(p) <==> res@.subrange(0, i as int).contains(p) && p != (a, b) && p
                    != (b, a),
        decreases n - i,
    {
        let ghost prefix = res@.subrange(0, i as int);
        let p = res[i];
        if !(p.0 == a && p.1 == b) && !(p.0 == b && p.1 == a) {
            kept.push(p);
        }
        proof {
            assert(res@.subrange(0, i as int + 1) =~= prefix.push(res@[i as int]));
        }
        i = i + 1;
    }
    proof {
        assert(res@.subrange(0, n as int) =~= res@);
    }
    *res = kept;
}

impl<E> CutEdge<u64> for Graph<u64, E> {
    open spec fn edge_rel(&self, a: u64, b: u64) -> bool {
        is_edge(self.edges@, a, b)
    }

    fn cut_edges(&self) -> (r: Vec<(u64, u64)>) {
        let m = self.edges.len();
        if m == 0 {
            return Vec::new();
        }
        // Start from every edge, in both orientations.
        let mut res: Vec<(u64, u64)> = Vec::new();
        let mut e: usize = 0;
        while e < m
            invariant
                m == self.edges@.len(),
                0 <= e <= m,
                forall|p: (u64, u64)| res@.contains(p) ==> is_edge(self.edges@, p.0, p.1),
                forall|p: (u64, u64)| res@.contains(p) ==> res@.contains((p.1, p.0)),
            decreases m - e,
        {
            let edge = &self.edges[e];
            let (x, y) = (edge.0, edge.1);
            res.push((x, y));
            res.push((y, x));
            proof {
                assert(is_edge(self.edges@, x, y));
                assert(is_edge(self.edges@, y, x));
            }
            e = e + 1;
        }
        let mut visited: Vec<u64> = Vec::new();
        let mut to_visit: Vec<u64> = Vec::new();
        let mut backtracking: Vec<(u64, u64)> = Vec::new();
        let start = self.edges[0].0;
        visited.push(start);
        to_visit.push(start);
        // Every node enters the queue at most once (it is marked discovered
        // as it is enqueued), and the graph has at most 2 * m nodes, so
        // this budget outlives the whole walk.
        let mut fuel: usize = m.saturating_add(m).saturating_add(2);
        while fuel > 0
            invariant
                m == self.edges@.len(),
                forall|p: (u64, u64)| res@.contains(p) ==> is_edge(self.edges@, p.0, p.1),
                forall|p: (u64, u64)| res@.contains(p) ==> res@.contains((p.1, p.0)),
            decreases fuel,
        {
            fuel = fuel - 1;
            if to_visit.len() == 0 {
                break;
            }
            let cur = to_visit.remove(0);
            let mut e: usize = 0;
            while e < m
                invariant
                    m == self.edges@.len(),
                    0 <= e <= m,
                    forall|p: (u64, u64)| res@.contains(p) ==> is_edge(self.edges@, p.0, p.1),
                    forall|p: (u64, u64)| res@.contains(p) ==> res@.contains((p.1, p.0)),
                decreases m - e,
            {
                let edge = &self.edges[e];
                let (x, y) = (edge.0, edge.1);
                let neighbor = if x == cur {
                    y
                } else if y == cur {
                    x
                } else {
                    e = e + 1;
                    continue;
                };
                // Do not walk straight back along the edge that led here.
                let back_again = match assoc_get(&backtracking, cur) {
                    Some(back) => back == neighbor,
                    None => false,
                };
                if back_again {
                    e = e + 1;
                    continue;
                }
                if contains_u64(&visited, neighbor) {
                    // A discovered node reached a second way: the edges
                    // along the backtracking path lie on a cycle.
                    remove_edge(&mut res, neighbor, cur);
                    let mut step = cur;
                    // A backtracking chain never revisits an entry, so its
                    // length bounds this walk.
                    let mut walk_fuel = backtracking.len();
                    while walk_fuel > 0
                        invariant
                            forall|p: (u64, u64)|
                                res@.contains(p) ==> is_edge(self.edges@, p.0, p.1),
                            forall|p: (u64, u64)| res@.contains(p) ==> res@.contains((p.1, p.0)),
                        decreases walk_fuel,
                    {
                        walk_fuel = walk_fuel - 1;
                        match assoc_get(&backtracking, step) {
                            Some(back) => {
                                remove_edge(&mut res, back, step);
                                step = back;
                            }
                            None => {
                                break;
                            }
                        }
                    }
                } else {
                    to_visit.insert(0, neighbor);
                    visited.push(neighbor);
                    backtracking.push((neighbor, cur));
                }
                e = e + 1;
            }
        }
        res
    }
}

} // verus!
