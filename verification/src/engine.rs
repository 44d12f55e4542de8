//! The traversal engine.
//!
//! A validated graph is walked breadth-first from its unique start node, using
//! a FIFO queue and a visited set; a node is enqueued at most once, on first
//! discovery, so the walk terminates on arbitrary graphs, cycles included.
//! The walk is a pure function of the submission's declared ordering: the
//! resulting event sequence is the same on every run.

use vstd::prelude::*;
use vstd::set_lib::{set_int_range, lemma_int_range, lemma_len_subset};
use crate::events::{EventModel, WorkflowError, WorkflowEvent};
use crate::graph::{GraphDescription, Node};

verus! {

/// One discovery step: walk `succs` left to right, enqueueing and marking
/// each index that is not yet visited.
pub open spec fn discover(succs: Seq<int>, queue: Seq<int>, visited: Set<int>) -> (Seq<
    int,
>, Set<int>)
    decreases succs.len(),
{
    if succs.len() == 0 {
        (queue, visited)
    } else {
        let s0 = succs[0];
        if visited.contains(s0) {
            discover(succs.drop_first(), queue, visited)
        } else {
            discover(succs.drop_first(), queue.push(s0), visited.insert(s0))
        }
    }
}

/// The state invariant threaded through the traversal: the visited set is a
/// finite set of node indices, every queued index is already visited, and the
/// queue holds no duplicates.
pub open spec fn bfs_state_inv(adj: Seq<Seq<int>>, queue: Seq<int>, visited: Set<int>) -> bool {
    &&& visited.finite()
    &&& forall|x: int| visited.contains(x) ==> 0 <= x < adj.len()
    &&& forall|k: int| 0 <= k < queue.len() ==> visited.contains(#[trigger] queue[k])
    &&& queue.no_duplicates()
}

/// Every successor index is itself a node index.
pub open spec fn adj_wf(adj: Seq<Seq<int>>) -> bool {
    forall|i: int, k: int|
        0 <= i < adj.len() && 0 <= k < adj[i].len() ==> 0 <= #[trigger] adj[i][k] < adj.len()
}

/// Discovery keeps the traversal-state invariant and grows the queue and the
/// visited set in lock step: the new queue entries are exactly the newly
/// visited indices, in discovery order.
pub proof fn lemma_discover(succs: Seq<int>, queue: Seq<int>, visited: Set<int>)
    requires
        visited.finite(),
        forall|k: int| 0 <= k < queue.len() ==> visited.contains(#[trigger] queue[k]),
        queue.no_duplicates(),
    ensures
        ({
            let dq = discover(succs, queue, visited);
            &&& dq.1.finite()
            &&& visited.subset_of(dq.1)
            &&& forall|x: int| dq.1.contains(x) ==> visited.contains(x) || succs.contains(x)
            &&& forall|k: int| 0 <= k < succs.len() ==> dq.1.contains(#[trigger] succs[k])
            &&& dq.0.len() - queue.len() == dq.1.len() - visited.len()
            &&& dq.0.len() >= queue.len()
            &&& dq.0.take(queue.len() as int) == queue
            &&& forall|k: int| 0 <= k < dq.0.len() ==> dq.1.contains(#[trigger] dq.0[k])
            &&& forall|k: int|
                queue.len() <= k < dq.0.len() ==> !visited.contains(#[trigger] dq.0[k])
            &&& forall|x: int| dq.1.contains(x) && !visited.contains(x) ==> dq.0.contains(x)
            &&& dq.0.no_duplicates()
        }),
    decreases succs.len(),
{
    if succs.len() == 0 {
        let dq = discover(succs, queue, visited);
        assert(dq.0.take(queue.len() as int) =~= queue);
    } else {
        let s0 = succs[0];
        let rest = succs.drop_first();
        assert(forall|k: int| 0 <= k < rest.len() ==> rest[k] == succs[k + 1]);
        if visited.contains(s0) {
            lemma_discover(rest, queue, visited);
            let dq = discover(succs, queue, visited);
            assert(forall|x: int| dq.1.contains(x) ==> visited.contains(x) || succs.contains(x))
                by {
                assert forall|x: int| dq.1.contains(x) implies visited.contains(x)
                    || succs.contains(x) by {
                    if !visited.contains(x) {
                        assert(rest.contains(x));
                        let k = choose|k: int| 0 <= k < rest.len() && rest[k] == x;
                        assert(rest[k] == succs[k + 1]);
                        assert(succs[k + 1] == x);
                    }
                }
            }
            assert forall|k: int| 0 <= k < succs.len() implies dq.1.contains(
                #[trigger] succs[k],
            ) by {
                if k == 0 {
                    assert(visited.contains(s0));
                } else {
                    assert(rest[k - 1] == succs[k]);
                }
            }
        } else {
            let q1 = queue.push(s0);
            let v1 = visited.insert(s0);
            assert(forall|k: int| 0 <= k < q1.len() ==> v1.contains(#[trigger] q1[k]));
            assert(q1.no_duplicates()) by {
                assert(forall|k: int| 0 <= k < queue.len() ==> queue[k] != s0);
            }
            lemma_discover(rest, q1, v1);
            let dq = discover(succs, queue, visited);
            assert(dq == discover(rest, q1, v1));
            // prefix: dq.0.take(queue.len()) agrees with queue index-wise
            assert(dq.0.take(q1.len() as int) == q1);
            assert(dq.0.take(queue.len() as int) =~= queue) by {
                assert(forall|k: int|
                    0 <= k < q1.len() ==> #[trigger] dq.0[k] == dq.0.take(q1.len() as int)[k]);
                assert(forall|k: int| 0 <= k < queue.len() ==> q1[k] == queue[k]);
            }
            // membership of dq.1 in visited or succs
            assert forall|x: int| dq.1.contains(x) implies visited.contains(x) || succs.contains(
                x,
            ) by {
                if !visited.contains(x) && x != s0 {
                    assert(!v1.contains(x));
                    assert(rest.contains(x));
                    let k = choose|k: int| 0 <= k < rest.len() && rest[k] == x;
                    assert(rest[k] == succs[k + 1]);
                    assert(succs[k + 1] == x);
                }
            }
            assert forall|k: int| 0 <= k < succs.len() implies dq.1.contains(
                #[trigger] succs[k],
            ) by {
                if k == 0 {
                    assert(v1.contains(s0));
                } else {
                    assert(rest[k - 1] == succs[k]);
                }
            }
            // new entries beyond the original queue are unvisited
            assert forall|k: int|
                queue.len() <= k < dq.0.len() implies !visited.contains(#[trigger] dq.0[k]) by {
                if k == queue.len() {
                    assert(dq.0[k] == dq.0.take(q1.len() as int)[k]);
                    assert(dq.0[k] == s0);
                } else {
                    assert(!v1.contains(dq.0[k]));
                }
            }
            // every newly visited index stands in the queue
            assert forall|x: int| dq.1.contains(x) && !visited.contains(x) implies dq.0.contains(
                x,
            ) by {
                if x == s0 {
                    assert(dq.0[queue.len() as int] == dq.0.take(q1.len() as int)[queue.len() as int]);
                    assert(dq.0[queue.len() as int] == s0);
                } else {
                    assert(!v1.contains(x));
                }
            }
        }
    }
}

/// The breadth-first visitation order from a given traversal state: the head
/// of the queue is visited, and its not-yet-visited successors are enqueued,
/// in successor order.
pub open spec fn bfs_order(adj: Seq<Seq<int>>, queue: Seq<int>, visited: Set<int>) -> Seq<int>
    decreases adj.len() - visited.len(), queue.len()
        when bfs_state_inv(adj, queue, visited) && adj_wf(adj)
        via bfs_order_decreases
{
    if queue.len() == 0 {
        Seq::empty()
    } else {
        let u = queue[0];
        let dq = discover(adj[u], queue.drop_first(), visited);
        seq![u] + bfs_order(adj, dq.0, dq.1)
    }
}

/// The traversal state invariant is kept by one visitation step.
pub proof fn lemma_bfs_step_inv(adj: Seq<Seq<int>>, queue: Seq<int>, visited: Set<int>)
    requires
        bfs_state_inv(adj, queue, visited),
        adj_wf(adj),
        queue.len() != 0,
    ensures
        ({
            let dq = discover(adj[queue[0]], queue.drop_first(), visited);
            &&& bfs_state_inv(adj, dq.0, dq.1)
            &&& visited.subset_of(dq.1)
            &&& visited.len() <= dq.1.len()
            &&& dq.1.len() <= adj.len()
            &&& dq.0.len() - (queue.len() - 1) == dq.1.len() - visited.len()
        }),
{
    let u = queue[0];
    let tail = queue.drop_first();
    assert(0 <= u < adj.len());
    assert(forall|k: int| 0 <= k < tail.len() ==> tail[k] == queue[k + 1]);
    assert(forall|k: int| 0 <= k < tail.len() ==> visited.contains(#[trigger] tail[k]));
    assert(tail.no_duplicates());
    lemma_discover(adj[u], tail, visited);
    let dq = discover(adj[u], tail, visited);
    assert forall|x: int| dq.1.contains(x) implies 0 <= x < adj.len() by {
        if !visited.contains(x) {
            let k = choose|k: int| 0 <= k < adj[u].len() && adj[u][k] == x;
        }
    }
    assert(dq.1.subset_of(set_int_range(0, adj.len() as int)));
    lemma_int_range(0, adj.len() as int);
    lemma_len_subset(dq.1, set_int_range(0, adj.len() as int));
    lemma_len_subset(visited, dq.1);
}

#[via_fn]
proof fn bfs_order_decreases(adj: Seq<Seq<int>>, queue: Seq<int>, visited: Set<int>) {
    if queue.len() != 0 {
        lemma_bfs_step_inv(adj, queue, visited);
    }
}

/// A path in the adjacency structure: consecutive entries are successor
/// steps.
pub open spec fn is_path(adj: Seq<Seq<int>>, p: Seq<int>) -> bool {
    &&& p.len() >= 1
    &&& forall|k: int| 0 <= k < p.len() ==> 0 <= #[trigger] p[k] < adj.len()
    &&& forall|k: int| 0 <= k < p.len() - 1 ==> (#[trigger] adj[p[k]]).contains(p[k + 1])
}

/// Whether node `t` can be reached from node `s` by following edges forward.
pub open spec fn reachable(adj: Seq<Seq<int>>, s: int, t: int) -> bool {
    exists|p: Seq<int>| is_path(adj, p) && p.first() == s && p.last() == t
}

/// The set of nodes reachable from `s`, including `s` itself.
pub open spec fn reachable_set(adj: Seq<Seq<int>>, s: int) -> Set<int> {
    Set::new(|t: int| reachable(adj, s, t))
}

/// A set closed under successor steps.
pub open spec fn closed_under_succ(adj: Seq<Seq<int>>, sset: Set<int>) -> bool {
    forall|x: int, k: int|
        sset.contains(x) && 0 <= x < adj.len() && 0 <= k < adj[x].len() ==> sset.contains(
            #[trigger] adj[x][k],
        )
}

/// Every node reaches itself.
pub proof fn lemma_reachable_refl(adj: Seq<Seq<int>>, s: int)
    requires
        0 <= s < adj.len(),
    ensures
        reachable(adj, s, s),
{
    let p = seq![s];
    assert(is_path(adj, p) && p.first() == s && p.last() == s);
}

/// Reachability extends along a successor step.
pub proof fn lemma_reachable_step(adj: Seq<Seq<int>>, s: int, u: int, w: int)
    requires
        reachable(adj, s, u),
        0 <= w < adj.len(),
        adj[u].contains(w),
    ensures
        reachable(adj, s, w),
{
    let p = choose|p: Seq<int>| is_path(adj, p) && p.first() == s && p.last() == u;
    let p2 = p.push(w);
    assert(forall|k: int| 0 <= k < p.len() ==> p2[k] == p[k]);
    assert(adj[p2[p.len() - 1]].contains(p2[p.len() as int]));
    assert(is_path(adj, p2));
    assert(p2.first() == s && p2.last() == w);
}

/// A path starting in a successor-closed set ends in it.
pub proof fn lemma_path_stays_in_closed(adj: Seq<Seq<int>>, sset: Set<int>, p: Seq<int>)
    requires
        is_path(adj, p),
        closed_under_succ(adj, sset),
        sset.contains(p.first()),
    ensures
        sset.contains(p.last()),
    decreases p.len(),
{
    if p.len() > 1 {
        let rest = p.drop_first();
        assert(adj[p[0]].contains(p[1]));
        let k = choose|k: int| 0 <= k < adj[p[0]].len() && adj[p[0]][k] == p[1];
        assert(sset.contains(p[1]));
        assert(forall|m: int| 0 <= m < rest.len() ==> rest[m] == p[m + 1]);
        assert(is_path(adj, rest));
        assert(rest.first() == p[1]);
        lemma_path_stays_in_closed(adj, sset, rest);
        assert(rest.last() == p.last());
    }
}

/// The queue already stands inside the visited set; any node of the visited
/// set that has left the queue has all its successors visited.
pub open spec fn frontier_closed(adj: Seq<Seq<int>>, queue: Seq<int>, visited: Set<int>) -> bool {
    forall|x: int, k: int|
        visited.contains(x) && !queue.contains(x) && 0 <= x < adj.len() && 0 <= k < adj[x].len()
            ==> visited.contains(#[trigger] adj[x][k])
}

/// Structural properties of the visitation order: it has no duplicates, it
/// covers the queue, it revisits no node already worked off, and together
/// with the visited set it is closed under successor steps.
pub proof fn lemma_bfs_props(adj: Seq<Seq<int>>, queue: Seq<int>, visited: Set<int>)
    requires
        bfs_state_inv(adj, queue, visited),
        adj_wf(adj),
        frontier_closed(adj, queue, visited),
    ensures
        ({
            let r = bfs_order(adj, queue, visited);
            &&& r.no_duplicates()
            &&& forall|k: int| 0 <= k < queue.len() ==> r.to_set().contains(#[trigger] queue[k])
            &&& forall|x: int|
                r.to_set().contains(x) && visited.contains(x) ==> queue.contains(x)
            &&& forall|x: int| r.to_set().contains(x) ==> 0 <= x < adj.len()
            &&& closed_under_succ(adj, r.to_set().union(visited))
        }),
    decreases adj.len() - visited.len(), queue.len(),
{
    let r = bfs_order(adj, queue, visited);
    if queue.len() == 0 {
        assert(r == Seq::<int>::empty());
        assert(forall|x: int| !r.contains(x));
        assert(r.to_set().union(visited) =~= visited);
        assert(closed_under_succ(adj, visited));
    } else {
        let u = queue[0];
        let tail = queue.drop_first();
        assert(forall|k: int| 0 <= k < tail.len() ==> tail[k] == queue[k + 1]);
        lemma_bfs_step_inv(adj, queue, visited);
        lemma_discover(adj[u], tail, visited);
        let dq = discover(adj[u], tail, visited);
        let q2 = dq.0;
        let v2 = dq.1;
        assert(r == seq![u] + bfs_order(adj, q2, v2));
        let r2 = bfs_order(adj, q2, v2);

        // u has been worked off: it is visited but no longer queued
        assert(!q2.contains(u)) by {
            assert(forall|k: int| 0 <= k < tail.len() ==> tail[k] != u);
            assert(forall|k: int| 0 <= k < tail.len() ==> q2[k] == tail[k]);
            if q2.contains(u) {
                let k = choose|k: int| 0 <= k < q2.len() && q2[k] == u;
                assert(k >= tail.len());
                assert(!visited.contains(q2[k]));
            }
        }

        // the new state keeps the frontier closed
        assert(frontier_closed(adj, q2, v2)) by {
            assert forall|x: int, k: int|
                v2.contains(x) && !q2.contains(x) && 0 <= x < adj.len() && 0 <= k
                    < adj[x].len() implies v2.contains(#[trigger] adj[x][k]) by {
                if visited.contains(x) {
                    if x == u {
                        assert(v2.contains(adj[u][k]));
                    } else if queue.contains(x) {
                        let m = choose|m: int| 0 <= m < queue.len() && queue[m] == x;
                        assert(m != 0);
                        assert(tail[m - 1] == x);
                        assert(q2[m - 1] == tail[m - 1]);
                        assert(q2.contains(x));
                    } else {
                        assert(visited.contains(adj[x][k]));
                    }
                } else {
                    assert(q2.contains(x));
                }
            }
        }

        lemma_bfs_props(adj, q2, v2);

        // relate the order and its tail
        assert(r[0] == u);
        assert(forall|k: int| 0 <= k < r2.len() ==> r[k + 1] == r2[k]);
        assert(forall|x: int| r.contains(x) <==> x == u || r2.contains(x)) by {
            assert forall|x: int| r.contains(x) implies x == u || r2.contains(x) by {
                let k = choose|k: int| 0 <= k < r.len() && r[k] == x;
                if k > 0 {
                    assert(r2[k - 1] == x);
                }
            }
            assert forall|x: int| x == u || r2.contains(x) implies r.contains(x) by {
                if x == u {
                    assert(r[0] == x);
                } else {
                    let k = choose|k: int| 0 <= k < r2.len() && r2[k] == x;
                    assert(r[k + 1] == x);
                }
            }
        }

        // u is never popped again
        assert(!r2.contains(u)) by {
            assert(v2.contains(u));
            if r2.to_set().contains(u) {
                assert(q2.contains(u));
            }
        }

        // no duplicates
        assert(r.no_duplicates()) by {
            assert forall|i: int, j: int| 0 <= i < j < r.len() implies r[i] != r[j] by {
                if i == 0 {
                    assert(r[j] == r2[j - 1]);
                    assert(r2.contains(r2[j - 1]));
                } else {
                    assert(r[i] == r2[i - 1] && r[j] == r2[j - 1]);
                }
            }
        }

        // the queue is covered
        assert forall|k: int| 0 <= k < queue.len() implies r.to_set().contains(
            #[trigger] queue[k],
        ) by {
            if k == 0 {
                assert(r.contains(u));
            } else {
                assert(q2[k - 1] == tail[k - 1]);
                assert(q2[k - 1] == queue[k]);
                assert(r2.to_set().contains(q2[k - 1]));
            }
        }

        // nodes already worked off are not revisited
        assert forall|x: int|
            r.to_set().contains(x) && visited.contains(x) implies queue.contains(x) by {
            if x != u {
                assert(r2.to_set().contains(x));
                assert(v2.contains(x));
                assert(q2.contains(x));
                let k = choose|k: int| 0 <= k < q2.len() && q2[k] == x;
                if k < tail.len() {
                    assert(q2[k] == tail[k]);
                    assert(queue[k + 1] == x);
                } else {
                    assert(!visited.contains(q2[k]));
                }
            }
        }

        // the order stays within the node indices
        assert forall|x: int| r.to_set().contains(x) implies 0 <= x < adj.len() by {
            if x == u {
                assert(visited.contains(u));
            } else {
                assert(r2.to_set().contains(x));
            }
        }

        // closure: the combined set is the same one step later
        let s_now = r.to_set().union(visited);
        let s_next = r2.to_set().union(v2);
        assert(s_now =~= s_next) by {
            assert forall|x: int| s_now.contains(x) implies s_next.contains(x) by {
                if r.to_set().contains(x) && x == u {
                    assert(v2.contains(u));
                }
            }
            assert forall|x: int| s_next.contains(x) implies s_now.contains(x) by {
                if v2.contains(x) && !visited.contains(x) {
                    assert(q2.contains(x));
                    assert(r2.to_set().contains(x));
                }
            }
        }
        assert(closed_under_succ(adj, s_now));
    }
}

/// Every node the walk pops is reachable from `s`, provided every node
/// already visited is.
pub proof fn lemma_bfs_sound(adj: Seq<Seq<int>>, queue: Seq<int>, visited: Set<int>, s: int)
    requires
        bfs_state_inv(adj, queue, visited),
        adj_wf(adj),
        forall|x: int| visited.contains(x) ==> reachable(adj, s, x),
    ensures
        forall|x: int|
            bfs_order(adj, queue, visited).to_set().contains(x) ==> reachable(adj, s, x),
    decreases adj.len() - visited.len(), queue.len(),
{
    let r = bfs_order(adj, queue, visited);
    if queue.len() == 0 {
        assert(r == Seq::<int>::empty());
        assert(forall|x: int| !r.contains(x));
    } else {
        let u = queue[0];
        let tail = queue.drop_first();
        assert(forall|k: int| 0 <= k < tail.len() ==> tail[k] == queue[k + 1]);
        lemma_bfs_step_inv(adj, queue, visited);
        lemma_discover(adj[u], tail, visited);
        let dq = discover(adj[u], tail, visited);
        assert(r == seq![u] + bfs_order(adj, dq.0, dq.1));
        let r2 = bfs_order(adj, dq.0, dq.1);
        assert forall|x: int| dq.1.contains(x) implies reachable(adj, s, x) by {
            if !visited.contains(x) {
                assert(adj[u].contains(x));
                assert(reachable(adj, s, u));
                lemma_reachable_step(adj, s, u, x);
            }
        }
        lemma_bfs_sound(adj, dq.0, dq.1, s);
        assert forall|x: int| r.to_set().contains(x) implies reachable(adj, s, x) by {
            let k = choose|k: int| 0 <= k < r.len() && r[k] == x;
            if k == 0 {
                assert(x == u);
            } else {
                assert(r2[k - 1] == x);
                assert(r2.to_set().contains(x));
            }
        }
    }
}

/// From a start node, the breadth-first walk pops exactly the nodes reachable
/// from it, each exactly once.
pub proof fn lemma_bfs_reachable(adj: Seq<Seq<int>>, s: int)
    requires
        adj_wf(adj),
        0 <= s < adj.len(),
    ensures
        ({
            let r = bfs_order(adj, seq![s], Set::empty().insert(s));
            &&& r.no_duplicates()
            &&& r.to_set() == reachable_set(adj, s)
            &&& r.len() == reachable_set(adj, s).len()
        }),
{
    let queue = seq![s];
    let visited = Set::empty().insert(s);
    assert(queue.no_duplicates());
    assert(bfs_state_inv(adj, queue, visited));
    assert(frontier_closed(adj, queue, visited)) by {
        assert(queue[0] == s);
        assert(queue.contains(s));
    }
    lemma_bfs_props(adj, queue, visited);
    let r = bfs_order(adj, queue, visited);
    assert(r.to_set().contains(s)) by {
        assert(r.to_set().contains(queue[0]));
    }
    assert forall|x: int| visited.contains(x) implies reachable(adj, s, x) by {
        lemma_reachable_refl(adj, s);
    }
    lemma_bfs_sound(adj, queue, visited, s);
    let s_all = r.to_set().union(visited);
    assert(s_all =~= r.to_set());
    assert(closed_under_succ(adj, r.to_set()));
    assert forall|t: int| reachable_set(adj, s).contains(t) implies r.to_set().contains(t) by {
        let p = choose|p: Seq<int>| is_path(adj, p) && p.first() == s && p.last() == t;
        lemma_path_stays_in_closed(adj, r.to_set(), p);
    }
    assert(r.to_set() =~= reachable_set(adj, s));
    r.unique_seq_to_set();
}

/// The log message for an empty submission.
pub open spec fn empty_graph_message() -> Seq<char> {
    "[INFO] Workflow is empty. Nothing to run."@
}

/// The log message pushed after the walk has worked off its queue.
pub open spec fn traversal_complete_message() -> Seq<char> {
    "[INFO] Workflow traversal complete."@
}

/// The placeholder used for a node without a declared name.
pub open spec fn fallback_name() -> Seq<char> {
    "Unnamed"@
}

/// The log message announcing one node visit.
pub open spec fn visit_message(name: Option<Seq<char>>, node_type: Seq<char>) -> Seq<char> {
    "[EXEC] Visiting node '"@ + (match name {
        Some(n) => n,
        None => fallback_name(),
    }) + "' (Type: "@ + node_type + ")"@
}

/// The declared name of a node, when it carries one.
pub open spec fn node_name_view(n: Node) -> Option<Seq<char>> {
    match n.name {
        Some(s) => Some(s@),
        None => None,
    }
}

/// The event announcing the visit of node `i`.
pub open spec fn visit_event(g: GraphDescription, i: int) -> EventModel {
    EventModel::Log {
        message: visit_message(node_name_view(g.nodes@[i]), g.nodes@[i].node_type@),
    }
}

/// The deterministic visitation order of a validated graph: breadth-first
/// from the unique start node.
pub open spec fn traversal_order(g: GraphDescription) -> Seq<int> {
    bfs_order(g.adjacency(), seq![g.start_index()], Set::empty().insert(g.start_index()))
}

/// The full event sequence of a successful run: one visit log per visited
/// node in visitation order, one informational log, and exactly one terminal
/// completion event carrying `success: true`. An empty submission
/// short-circuits to the informational log and the completion event alone.
pub open spec fn workflow_events(g: GraphDescription) -> Seq<EventModel> {
    if g.nodes@.len() == 0 {
        seq![
            EventModel::Log { message: empty_graph_message() },
            EventModel::Finished { success: true },
        ]
    } else {
        traversal_order(g).map_values(|i: int| visit_event(g, i)) + seq![
            EventModel::Log { message: traversal_complete_message() },
            EventModel::Finished { success: true },
        ]
    }
}

/// Successor indices drawn from any edge prefix stay within the node range.
proof fn lemma_succ_upto_range(g: GraphDescription, i: int, e: int)
    requires
        0 <= e <= g.edges@.len(),
    ensures
        forall|k: int|
            0 <= k < g.succ_upto(i, e).len() ==> 0 <= #[trigger] g.succ_upto(i, e)[k]
                < g.nodes@.len(),
    decreases e,
{
    if e > 0 {
        lemma_succ_upto_range(g, i, e - 1);
        let prev = g.succ_upto(i, e - 1);
        let cur = g.succ_upto(i, e);
        let ed = g.edges@[e - 1];
        if ed.source@ == g.ids()[i] && g.node_index(ed.target@) >= 0 {
            let w = g.node_index(ed.target@);
            assert(0 <= w < g.nodes@.len()) by {
                let c = choose|c: int| 0 <= c < g.nodes@.len() && g.ids()[c] == ed.target@;
            }
            assert(cur == prev.push(w));
            assert forall|k: int| 0 <= k < cur.len() implies 0 <= #[trigger] cur[k]
                < g.nodes@.len() by {
                if k < prev.len() {
                    assert(cur[k] == prev[k]);
                } else {
                    assert(cur[k] == w);
                }
            }
        } else {
            assert(cur == prev);
            assert forall|k: int| 0 <= k < cur.len() implies 0 <= #[trigger] cur[k]
                < g.nodes@.len() by {
                assert(cur[k] == prev[k]);
            }
        }
    }
}

/// The adjacency structure of a graph is well-formed.
pub proof fn lemma_adjacency_wf(g: GraphDescription)
    ensures
        adj_wf(g.adjacency()),
        g.adjacency().len() == g.nodes@.len(),
{
    assert forall|i: int, k: int|
        0 <= i < g.adjacency().len() && 0 <= k < g.adjacency()[i].len() implies 0 <= #[trigger] g.adjacency()[i][k]
        < g.adjacency().len() by {
        lemma_succ_upto_range(g, i, g.edges@.len() as int);
    }
}

/// The adjacency structure as mathematical sequences.
pub open spec fn adj_view(a: Seq<Vec<usize>>) -> Seq<Seq<int>> {
    a.map_values(|row: Vec<usize>| row@.map_values(|u: usize| u as int))
}

/// Build the ordered successor lists of a submission: for each node, the
/// targets of its outgoing edges, in edge declaration order.
pub fn build_adjacency(g: &GraphDescription) -> (adj: Vec<Vec<usize>>)
    requires
        g.wf(),
    ensures
        adj@.len() == g.nodes@.len(),
        forall|i: int|
            0 <= i < adj@.len() ==> adj@[i]@.map_values(|u: usize| u as int) == g.succ(i),
{
    let n = g.nodes.len();
    let mut adj: Vec<Vec<usize>> = Vec::new();
    let mut i: usize = 0;
    while i < n
        invariant
            g.wf(),
            n == g.nodes@.len(),
            i <= n,
            adj@.len() == i,
            forall|t: int|
                0 <= t < i ==> adj@[t]@.map_values(|u: usize| u as int) == g.succ(t),
        decreases n - i,
    {
        let mut row: Vec<usize> = Vec::new();
        let mut e: usize = 0;
        while e < g.edges.len()
            invariant
                g.wf(),
                n == g.nodes@.len(),
                i < n,
                e <= g.edges@.len(),
                row@.map_values(|u: usize| u as int) == g.succ_upto(i as int, e as int),
            decreases g.edges@.len() - e,
        {
            let ghost prev = row@.map_values(|u: usize| u as int);
            if g.edges[e].source == g.nodes[i].id {
                match g.find_node(&g.edges[e].target) {
                    Some(t) => {
                        row.push(t);
                        proof {
                            assert(row@.map_values(|u: usize| u as int) =~= prev.push(t as int));
                        }
                    },
                    None => {},
                }
            }
            proof {
                assert(row@.map_values(|u: usize| u as int) == g.succ_upto(
                    i as int,
                    e as int + 1,
                ));
            }
            e += 1;
        }
        adj.push(row);
        i += 1;
    }
    adj
}

/// The indices marked `true`.
pub open spec fn visited_set(v: Seq<bool>) -> Set<int> {
    Set::new(|x: int| 0 <= x < v.len() && v[x])
}

/// Walk the successor structure breadth-first from `start`, returning the
/// visitation order: a node is worked off the FIFO queue once, and its
/// not-yet-visited successors are enqueued in successor order.
pub fn bfs_from(adj: &Vec<Vec<usize>>, start: usize) -> (order: Vec<usize>)
    requires
        start < adj@.len(),
        forall|i: int, k: int|
            0 <= i < adj@.len() && 0 <= k < adj@[i]@.len() ==> (#[trigger] adj@[i]@[k]) < adj@.len(),
    ensures
        order@.map_values(|u: usize| u as int) == bfs_order(
            adj_view(adj@),
            seq![start as int],
            Set::empty().insert(start as int),
        ),
{
    let n = adj.len();
    let ghost av = adj_view(adj@);
    proof {
        assert(av.len() == n);
        assert(adj_wf(av)) by {
            assert forall|i: int, k: int|
                0 <= i < av.len() && 0 <= k < av[i].len() implies 0 <= #[trigger] av[i][k]
                < av.len() by {
                assert(av[i][k] == adj@[i]@[k] as int);
            }
        }
    }
    let mut visited: Vec<bool> = Vec::new();
    let mut i: usize = 0;
    while i < n
        invariant
            i <= n,
            visited@.len() == i,
            forall|k: int| 0 <= k < i ==> !visited@[k],
        decreases n - i,
    {
        visited.push(false);
        i += 1;
    }
    visited.set(start, true);
    let ghost vinit = visited_set(visited@);
    proof {
        assert(vinit =~= Set::empty().insert(start as int));
        assert(Set::empty().insert(start as int).len() == 1);
    }
    let mut queue: Vec<usize> = Vec::new();
    queue.push(start);
    let mut order: Vec<usize> = Vec::new();
    let mut head: usize = 0;
    let mut vcount: usize = 1;
    let ghost target = bfs_order(av, seq![start as int], Set::empty().insert(start as int));
    proof {
        assert(queue@.skip(0).map_values(|u: usize| u as int) =~= seq![start as int]);
    }
    while head < queue.len()
        invariant
            n == adj@.len(),
            av == adj_view(adj@),
            adj_wf(av),
            av.len() == n,
            visited@.len() == n,
            head <= queue@.len(),
            bfs_state_inv(
                av,
                queue@.skip(head as int).map_values(|u: usize| u as int),
                visited_set(visited@),
            ),
            vcount == visited_set(visited@).len(),
            vcount <= n,
            order@.map_values(|u: usize| u as int) + bfs_order(
                av,
                queue@.skip(head as int).map_values(|u: usize| u as int),
                visited_set(visited@),
            ) == target,
            forall|k: int| 0 <= k < queue@.len() ==> (#[trigger] queue@[k]) < n,
        decreases n - vcount, queue@.len() - head,
    {
        let ghost tail_before = queue@.skip(head as int).map_values(|u: usize| u as int);
        let ghost vset_before = visited_set(visited@);
        let u = queue[head];
        head += 1;
        proof {
            assert(tail_before[0] == u as int);
            lemma_bfs_step_inv(av, tail_before, vset_before);
            lemma_discover(av[u as int], tail_before.drop_first(), vset_before);
            assert(queue@.skip(head as int).map_values(|u: usize| u as int) =~= tail_before.drop_first());
        }
        let ghost tail0 = tail_before.drop_first();
        proof {
            assert(forall|k: int| 0 <= k < tail0.len() ==> #[trigger] tail0[k] == tail_before[k + 1]);
            assert(forall|k: int| 0 <= k < tail0.len() ==> vset_before.contains(#[trigger] tail0[k]));
            assert(tail0.no_duplicates());
            assert(av[u as int].skip(0) =~= av[u as int]);
        }
        let ghost dq = discover(av[u as int], tail0, vset_before);
        order.push(u);
        let ghost ocount = order@.len();
        let row_len = adj[u].len();
        let mut j: usize = 0;
        while j < row_len
            invariant
                n == adj@.len(),
                av == adj_view(adj@),
                adj_wf(av),
                av.len() == n,
                u < n,
                row_len == av[u as int].len(),
                j <= row_len,
                visited@.len() == n,
                head <= queue@.len(),
                vcount == visited_set(visited@).len(),
                vcount <= n,
                forall|k: int| 0 <= k < queue@.len() ==> (#[trigger] queue@[k]) < n,
                visited_set(visited@).finite(),
                forall|x: int| visited_set(visited@).contains(x) ==> 0 <= x < n,
                ({
                    let ct = queue@.skip(head as int).map_values(|u: usize| u as int);
                    let cv = visited_set(visited@);
                    &&& forall|k: int| 0 <= k < ct.len() ==> cv.contains(#[trigger] ct[k])
                    &&& ct.no_duplicates()
                    &&& discover(av[u as int].skip(j as int), ct, cv) == discover(
                        av[u as int],
                        tail0,
                        vset_before,
                    )
                }),
            decreases row_len - j,
        {
            let ghost ct = queue@.skip(head as int).map_values(|q: usize| q as int);
            let ghost cv = visited_set(visited@);
            let ghost srest = av[u as int].skip(j as int);
            proof {
                assert(srest[0] == av[u as int][j as int]);
                assert(av[u as int][j as int] == adj@[u as int]@[j as int] as int);
                assert(srest.drop_first() =~= av[u as int].skip(j as int + 1));
            }
            let t = adj[u][j];
            if !visited[t] {
                visited.set(t, true);
                queue.push(t);
                proof {
                    assert(!cv.contains(t as int));
                    assert(visited_set(visited@) =~= cv.insert(t as int));
                    assert(queue@.skip(head as int).map_values(|q: usize| q as int) =~= ct.push(
                        t as int,
                    ));
                    assert(cv.insert(t as int).len() == vcount + 1);
                    assert(cv.insert(t as int).subset_of(set_int_range(0, n as int)));
                    lemma_int_range(0, n as int);
                    lemma_len_subset(cv.insert(t as int), set_int_range(0, n as int));
                    assert(ct.push(t as int).no_duplicates()) by {
                        assert(forall|k: int| 0 <= k < ct.len() ==> ct[k] != t as int);
                    }
                }
                vcount += 1;
            } else {
                proof {
                    assert(cv.contains(t as int));
                }
            }
            j += 1;
        }
        proof {
            let ct = queue@.skip(head as int).map_values(|q: usize| q as int);
            let cv = visited_set(visited@);
            assert(av[u as int].skip(row_len as int) =~= Seq::<int>::empty());
            assert(discover(av[u as int].skip(row_len as int), ct, cv) == (ct, cv));
            assert((ct, cv) == dq);
            assert(bfs_order(av, tail_before, vset_before) == seq![u as int] + bfs_order(
                av,
                dq.0,
                dq.1,
            ));
            assert(order@.map_values(|q: usize| q as int) =~= order@.map_values(
                |q: usize| q as int,
            ).take(ocount - 1) + seq![u as int]) by {
                assert(order@.map_values(|q: usize| q as int).len() == ocount);
                assert(order@[ocount - 1] == u);
            }
            assert(order@.map_values(|q: usize| q as int) + bfs_order(av, ct, cv) =~= (
            order@.map_values(|q: usize| q as int).take(ocount - 1) + bfs_order(
                av,
                tail_before,
                vset_before,
            )));
        }
    }
    proof {
        let ct = queue@.skip(head as int).map_values(|q: usize| q as int);
        assert(ct =~= Seq::<int>::empty());
        assert(bfs_order(av, ct, visited_set(visited@)) == Seq::<int>::empty());
        assert(order@.map_values(|q: usize| q as int) =~= target);
    }
    order
}

/// The deterministic traversal order of a validated graph visits exactly the
/// nodes reachable from the start node, each once, and stays within the node
/// indices.
pub proof fn lemma_traversal_order_props(g: GraphDescription)
    requires
        g.wf(),
        g.nodes@.len() > 0,
        g.start_count() == 1,
    ensures
        traversal_order(g).no_duplicates(),
        traversal_order(g).to_set() == reachable_set(g.adjacency(), g.start_index()),
        traversal_order(g).len() == reachable_set(g.adjacency(), g.start_index()).len(),
        forall|m: int|
            0 <= m < traversal_order(g).len() ==> 0 <= #[trigger] traversal_order(g)[m]
                < g.nodes@.len(),
{
    lemma_adjacency_wf(g);
    g.lemma_start_index_is_candidate();
    lemma_bfs_reachable(g.adjacency(), g.start_index());
    let r = traversal_order(g);
    assert forall|m: int| 0 <= m < r.len() implies 0 <= #[trigger] r[m] < g.nodes@.len() by {
        assert(r.to_set().contains(r[m]));
        assert(reachable(g.adjacency(), g.start_index(), r[m]));
        let p = choose|p: Seq<int>|
            is_path(g.adjacency(), p) && p.first() == g.start_index() && p.last() == r[m];
        assert(0 <= p[p.len() - 1] < g.adjacency().len());
    }
}

/// For any graph with a unique start node, the event sequence holds one
/// visiting notification per node reachable from the start node — each node
/// counted once, cycles notwithstanding — followed by one informational log
/// and the terminal completion event.
pub proof fn lemma_visits_count_reachable(g: GraphDescription)
    requires
        g.wf(),
        g.nodes@.len() > 0,
        g.start_count() == 1,
    ensures
        workflow_events(g).len() == reachable_set(g.adjacency(), g.start_index()).len() + 2,
        traversal_order(g).no_duplicates(),
        traversal_order(g).to_set() == reachable_set(g.adjacency(), g.start_index()),
        forall|k: int|
            0 <= k < workflow_events(g).len() - 2 ==> workflow_events(g)[k] == visit_event(
                g,
                traversal_order(g)[k],
            ),
        workflow_events(g)[workflow_events(g).len() - 2] == (EventModel::Log {
            message: traversal_complete_message(),
        }),
        workflow_events(g)[workflow_events(g).len() - 1] == (EventModel::Finished {
            success: true,
        }),
{
    lemma_traversal_order_props(g);
}

/// For an empty node list, exactly two events are pushed, in order: one
/// informational log, then the terminal completion event carrying `true` —
/// and no visiting notification.
pub proof fn lemma_empty_workflow_events(g: GraphDescription)
    requires
        g.nodes@.len() == 0,
    ensures
        workflow_events(g).len() == 2,
        workflow_events(g)[0] == (EventModel::Log { message: empty_graph_message() }),
        workflow_events(g)[1] == (EventModel::Finished { success: true }),
{
}

/// Run one workflow: validate the submission and, on success, produce the
/// ordered event sequence of its traversal. Validation fails — before any
/// event exists — exactly when a non-empty submission does not have exactly
/// one start node, and the error carries the candidate count found.
pub fn run_workflow(g: &GraphDescription) -> (r: Result<Vec<WorkflowEvent>, WorkflowError>)
    requires
        g.wf(),
    ensures
        match r {
            Ok(events) => (g.nodes@.len() == 0 || g.start_count() == 1) && events@.map_values(
                |e: WorkflowEvent| e@,
            ) == workflow_events(*g),
            Err(err) => g.nodes@.len() > 0 && g.start_count() != 1 && (err
                matches WorkflowError::GraphValidation { found } && found == g.start_count()),
        },
{
    if g.nodes.len() == 0 {
        let mut events: Vec<WorkflowEvent> = Vec::new();
        events.push(
            WorkflowEvent::Log {
                message: String::from_str("[INFO] Workflow is empty. Nothing to run."),
            },
        );
        events.push(WorkflowEvent::Finished { success: true });
        proof {
            assert(events@.map_values(|e: WorkflowEvent| e@) =~= workflow_events(*g));
        }
        return Ok(events);
    }
    let counted = g.count_start_candidates();
    let count = counted.0;
    let first = counted.1;
    if count != 1 {
        return Err(WorkflowError::GraphValidation { found: count });
    }
    let start = first;
    proof {
        g.lemma_start_index_is_candidate();
        g.lemma_unique_start(start as int, g.start_index());
        lemma_adjacency_wf(*g);
        lemma_traversal_order_props(*g);
    }
    let adj = build_adjacency(g);
    proof {
        assert(adj_view(adj@) =~= g.adjacency()) by {
            assert forall|i: int| 0 <= i < adj@.len() implies adj_view(adj@)[i]
                == g.adjacency()[i] by {
                assert(adj_view(adj@)[i] == adj@[i]@.map_values(|u: usize| u as int));
            }
        }
        assert forall|i: int, k: int|
            0 <= i < adj@.len() && 0 <= k < adj@[i]@.len() implies (#[trigger] adj@[i]@[k])
            < adj@.len() by {
            assert(adj@[i]@[k] as int == adj_view(adj@)[i][k]);
            assert(adj_wf(g.adjacency()));
        }
    }
    let order = bfs_from(&adj, start);
    proof {
        assert(order@.map_values(|u: usize| u as int) == traversal_order(*g));
        assert forall|m: int| 0 <= m < order@.len() implies (#[trigger] order@[m])
            < g.nodes@.len() by {
            assert(order@.map_values(|u: usize| u as int)[m] == order@[m] as int);
            assert(0 <= traversal_order(*g)[m] < g.nodes@.len());
        }
    }
    let mut events: Vec<WorkflowEvent> = Vec::new();
    let mut k: usize = 0;
    while k < order.len()
        invariant
            g.wf(),
            g.nodes@.len() > 0,
            g.start_count() == 1,
            order@.map_values(|u: usize| u as int) == traversal_order(*g),
            forall|m: int| 0 <= m < order@.len() ==> (#[trigger] order@[m]) < g.nodes@.len(),
            k <= order@.len(),
            events@.len() == k,
            forall|m: int|
                0 <= m < k ==> (#[trigger] events@[m])@ == visit_event(*g, order@[m] as int),
        decreases order@.len() - k,
    {
        let u = order[k];
        let name_str: &str = match &g.nodes[u].name {
            Some(nm) => nm.as_str(),
            None => "Unnamed",
        };
        let mut msg = String::from_str("[EXEC] Visiting node '");
        msg.append(name_str);
        msg.append("' (Type: ");
        msg.append(g.nodes[u].node_type.as_str());
        msg.append(")");
        proof {
            assert(msg@ =~= visit_message(
                node_name_view(g.nodes@[u as int]),
                g.nodes@[u as int].node_type@,
            ));
        }
        events.push(WorkflowEvent::Log { message: msg });
        k += 1;
    }
    events.push(
        WorkflowEvent::Log { message: String::from_str("[INFO] Workflow traversal complete.") },
    );
    events.push(WorkflowEvent::Finished { success: true });
    proof {
        let evs = events@.map_values(|e: WorkflowEvent| e@);
        let want = workflow_events(*g);
        assert(evs =~= want) by {
            assert(traversal_order(*g).len() == order@.len());
            assert(evs.len() == want.len());
            assert forall|m: int| 0 <= m < evs.len() implies evs[m] == want[m] by {
                if m < order@.len() {
                    assert(evs[m] == events@[m]@);
                    assert(want[m] == visit_event(*g, traversal_order(*g)[m]));
                    assert(traversal_order(*g)[m] == order@[m] as int);
                } else if m == order@.len() {
                    assert(events@[m]@ == EventModel::Log {
                        message: traversal_complete_message(),
                    });
                } else {
                    assert(events@[m]@ == EventModel::Finished { success: true });
                }
            }
        }
    }
    Ok(events)
}

} // verus!
