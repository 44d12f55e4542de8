//! The graph model submitted for one workflow run.
//!
//! A submission is an ordered sequence of nodes and edges. Before any
//! traversal, validation requires exactly one node with zero incoming edges —
//! the start node. Edge declaration order is load-bearing: it fixes each
//! node's successor order and thereby the visitation order.

use vstd::prelude::*;

verus! {

/// A node of a submitted execution graph. Identity is `id`, unique within a
/// submission; `name` is the display name drawn from the node's structured
/// data, when it carries one.
#[derive(Debug, Clone)]
pub struct Node {
    pub id: String,
    pub node_type: String,
    pub name: Option<String>,
}

/// A directed edge of a submitted execution graph. Multiple edges may share a
/// source or target; self-loops are permitted structurally.
#[derive(Debug, Clone)]
pub struct Edge {
    pub id: String,
    pub source: String,
    pub target: String,
}

/// A full graph description submitted for one run.
#[derive(Debug, Clone)]
pub struct GraphDescription {
    pub nodes: Vec<Node>,
    pub edges: Vec<Edge>,
}

impl GraphDescription {
    /// Node ids, in declaration order.
    pub open spec fn ids(self) -> Seq<Seq<char>> {
        self.nodes@.map(|i: int, n: Node| n.id@)
    }

    /// Well-formed: node ids are unique within the submission.
    pub open spec fn wf(self) -> bool {
        forall|i: int, j: int|
            0 <= i < j < self.nodes@.len() ==> self.ids()[i] != self.ids()[j]
    }

    /// Whether some edge ends at node `i`.
    pub open spec fn has_incoming(self, i: int) -> bool {
        exists|e: int|
            0 <= e < self.edges@.len() && (#[trigger] self.edges@[e]).target@
                == self.nodes@[i].id@
    }

    /// A start-node candidate: a node with zero incoming edges.
    pub open spec fn is_start_candidate(self, i: int) -> bool {
        0 <= i < self.nodes@.len() && !self.has_incoming(i)
    }

    /// The number of start-node candidates among the first `k` nodes.
    pub open spec fn start_count_upto(self, k: int) -> int
        decreases k,
    {
        if k <= 0 {
            0
        } else {
            self.start_count_upto(k - 1) + if self.has_incoming(k - 1) {
                0int
            } else {
                1int
            }
        }
    }

    /// The number of nodes with zero incoming edges.
    pub open spec fn start_count(self) -> int {
        self.start_count_upto(self.nodes@.len() as int)
    }

    /// The index of the unique start node; meaningful when `start_count == 1`.
    pub open spec fn start_index(self) -> int {
        choose|i: int| self.is_start_candidate(i)
    }

    /// The index of the node whose id is `id`, or `-1` when there is none.
    pub open spec fn node_index(self, id: Seq<char>) -> int {
        if exists|i: int| 0 <= i < self.nodes@.len() && self.ids()[i] == id {
            choose|i: int| 0 <= i < self.nodes@.len() && self.ids()[i] == id
        } else {
            -1
        }
    }

    /// Successor indices of node `i` contributed by the first `e` edges, in
    /// declaration order. An edge contributes when its source is node `i`'s id
    /// and its target is the id of some node.
    pub open spec fn succ_upto(self, i: int, e: int) -> Seq<int>
        decreases e,
    {
        if e <= 0 {
            Seq::empty()
        } else {
            let prev = self.succ_upto(i, e - 1);
            let ed = self.edges@[e - 1];
            if ed.source@ == self.ids()[i] && self.node_index(ed.target@) >= 0 {
                prev.push(self.node_index(ed.target@))
            } else {
                prev
            }
        }
    }

    /// The ordered successor indices of node `i`.
    pub open spec fn succ(self, i: int) -> Seq<int> {
        self.succ_upto(i, self.edges@.len() as int)
    }

    /// The adjacency structure: for each node, its ordered successor indices.
    pub open spec fn adjacency(self) -> Seq<Seq<int>> {
        Seq::new(self.nodes@.len() as nat, |i: int| self.succ(i))
    }

    /// Counting is monotone in the prefix length.
    proof fn lemma_start_count_monotone(self, m: int, k: int)
        requires
            0 <= m <= k,
        ensures
            self.start_count_upto(m) <= self.start_count_upto(k),
            self.start_count_upto(k) - self.start_count_upto(m) <= k - m,
        decreases k,
    {
        if m < k {
            self.lemma_start_count_monotone(m, k - 1);
        }
    }

    /// Prefix counts are never negative.
    proof fn lemma_start_count_nonneg(self, k: int)
        ensures
            self.start_count_upto(k) >= 0,
        decreases k,
    {
        if k > 0 {
            self.lemma_start_count_nonneg(k - 1);
        }
    }

    /// A candidate below `k` forces the count of the first `k` nodes past the
    /// count of the prefix ending at the candidate.
    proof fn lemma_candidate_counts(self, i: int, k: int)
        requires
            self.is_start_candidate(i),
            i < k <= self.nodes@.len(),
        ensures
            self.start_count_upto(k) >= self.start_count_upto(i) + 1,
        decreases k,
    {
        if k == i + 1 {
        } else {
            self.lemma_candidate_counts(i, k - 1);
        }
    }

    /// When exactly one start-node candidate exists, any two candidates
    /// coincide: the start index is unique.
    pub proof fn lemma_unique_start(self, i: int, j: int)
        requires
            self.start_count() == 1,
            self.is_start_candidate(i),
            self.is_start_candidate(j),
        ensures
            i == j,
    {
        if i < j {
            self.lemma_two_candidates_make_two(i, j);
        } else if j < i {
            self.lemma_two_candidates_make_two(j, i);
        }
    }

    proof fn lemma_two_candidates_make_two(self, i: int, j: int)
        requires
            self.is_start_candidate(i),
            self.is_start_candidate(j),
            i < j,
        ensures
            self.start_count() >= 2,
    {
        let n = self.nodes@.len() as int;
        self.lemma_start_count_nonneg(i);
        self.lemma_candidate_counts(i, j);
        self.lemma_candidate_counts(j, n);
        self.lemma_start_count_monotone(i + 1, j);
    }


    /// A positive candidate count yields a candidate.
    proof fn lemma_count_has_candidate(self, k: int)
        requires
            self.start_count_upto(k) > 0,
            k <= self.nodes@.len(),
        ensures
            exists|i: int| i < k && self.is_start_candidate(i),
        decreases k,
    {
        if k > 0 {
            if !self.has_incoming(k - 1) {
                assert(self.is_start_candidate(k - 1));
            } else {
                self.lemma_count_has_candidate(k - 1);
            }
        }
    }

    /// When at least one candidate exists, the chosen start index is one.
    pub proof fn lemma_start_index_is_candidate(self)
        requires
            self.start_count() >= 1,
        ensures
            self.is_start_candidate(self.start_index()),
    {
        self.lemma_count_has_candidate(self.nodes@.len() as int);
    }

    /// Whether some edge ends at node `i`, by scan over the edges.
    pub fn node_has_incoming(&self, i: usize) -> (r: bool)
        requires
            i < self.nodes@.len(),
        ensures
            r == self.has_incoming(i as int),
    {
        let mut e: usize = 0;
        while e < self.edges.len()
            invariant
                i < self.nodes@.len(),
                e <= self.edges@.len(),
                forall|k: int|
                    0 <= k < e ==> (#[trigger] self.edges@[k]).target@ != self.nodes@[i as int].id@,
            decreases self.edges@.len() - e,
        {
            if self.edges[e].target == self.nodes[i].id {
                return true;
            }
            e += 1;
        }
        false
    }

    /// Count the start-node candidates; also report the first candidate when
    /// one exists (and `0` otherwise).
    pub fn count_start_candidates(&self) -> (r: (usize, usize))
        ensures
            r.0 == self.start_count(),
            r.0 > 0 ==> self.is_start_candidate(r.1 as int),
    {
        let mut count: usize = 0;
        let mut first: usize = 0;
        let mut i: usize = 0;
        while i < self.nodes.len()
            invariant
                i <= self.nodes@.len(),
                count == self.start_count_upto(i as int),
                count <= i,
                count > 0 ==> self.is_start_candidate(first as int),
            decreases self.nodes@.len() - i,
        {
            proof {
                self.lemma_start_count_nonneg(i as int);
                self.lemma_start_count_monotone(0, i as int);
            }
            if !self.node_has_incoming(i) {
                if count == 0 {
                    first = i;
                }
                count += 1;
            }
            i += 1;
        }
        (count, first)
    }

    /// The index of the node whose id is `id`, by scan over the nodes.
    pub fn find_node(&self, id: &String) -> (r: Option<usize>)
        requires
            self.wf(),
        ensures
            match r {
                Some(i) => i < self.nodes@.len() && self.ids()[i as int] == id@
                    && self.node_index(id@) == i,
                None => self.node_index(id@) == -1,
            },
    {
        let mut i: usize = 0;
        while i < self.nodes.len()
            invariant
                self.wf(),
                i <= self.nodes@.len(),
                forall|k: int| 0 <= k < i ==> self.ids()[k] != id@,
            decreases self.nodes@.len() - i,
        {
            if self.nodes[i].id == *id {
                proof {
                    assert(self.ids()[i as int] == id@);
                    let w = choose|k: int| 0 <= k < self.nodes@.len() && self.ids()[k] == id@;
                    assert(self.ids()[w] == id@);
                    if w != i {
                        if w < i {
                            assert(self.ids()[w] != self.ids()[i as int]);
                        } else {
                            assert(self.ids()[i as int] != self.ids()[w]);
                        }
                    }
                }
                return Some(i);
            }
            i += 1;
        }
        None
    }

    /// Whether the node ids of this submission are unique, by pairwise scan.
    pub fn has_unique_ids(&self) -> (r: bool)
        ensures
            r == self.wf(),
    {
        let mut i: usize = 0;
        while i < self.nodes.len()
            invariant
                i <= self.nodes@.len(),
                forall|a: int, b: int| 0 <= a < b < i ==> self.ids()[a] != self.ids()[b],
            decreases self.nodes@.len() - i,
        {
            let mut j: usize = 0;
            while j < i
                invariant
                    j <= i < self.nodes@.len(),
                    forall|b: int| 0 <= b < j ==> self.ids()[b] != self.ids()[i as int],
                decreases i - j,
            {
                if self.nodes[j].id == self.nodes[i].id {
                    assert(self.ids()[j as int] == self.ids()[i as int]);
                    return false;
                }
                j += 1;
            }
            i += 1;
        }
        true
    }
}

} // verus!
