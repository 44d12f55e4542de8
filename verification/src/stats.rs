//! Aggregate statistics over recorded interactions.
//!
//! One pass over a collection of interactions yields the totals surfaced to
//! callers: how many interactions fall in scope, how many completed, how many
//! failed, how many are still unresolved, and the mean duration of those that
//! carry one.

use vstd::prelude::*;
use vstd::arithmetic::div_mod::{lemma_div_is_ordered, lemma_div_multiples_vanish};
use crate::interaction::{AgentInteraction, InteractionStatus};

verus! {

/// Aggregate statistics over a collection of interactions.
#[derive(Debug, Clone, PartialEq)]
pub struct InteractionStats {
    /// Interactions in scope.
    pub total: usize,
    /// Interactions in scope with status `Completed`.
    pub completed: usize,
    /// Interactions in scope with status `Failed`.
    pub failed: usize,
    /// Interactions in scope that are neither completed nor failed.
    pub pending: usize,
    /// Arithmetic mean of the recorded durations in scope, rounded down;
    /// zero when none carries a duration.
    pub avg_duration_ms: u64,
}

/// Whether an interaction falls under the workflow filter: `None` takes all
/// interactions, `Some(w)` those of workflow `w`.
pub open spec fn in_scope(it: AgentInteraction, workflow_id: Option<Seq<char>>) -> bool {
    match workflow_id {
        None => true,
        Some(w) => it.workflow_id@ == w,
    }
}

/// The workflow filter as a sequence of characters.
pub open spec fn filter_view(workflow_id: Option<String>) -> Option<Seq<char>> {
    match workflow_id {
        None => None,
        Some(w) => Some(w@),
    }
}

/// How many interactions fall in scope.
pub open spec fn scoped_count(s: Seq<AgentInteraction>, w: Option<Seq<char>>) -> int
    decreases s.len(),
{
    if s.len() == 0 {
        0
    } else {
        scoped_count(s.drop_last(), w) + if in_scope(s.last(), w) {
            1int
        } else {
            0int
        }
    }
}

/// How many interactions in scope hold status `st`.
pub open spec fn scoped_status_count(
    s: Seq<AgentInteraction>,
    w: Option<Seq<char>>,
    st: InteractionStatus,
) -> int
    decreases s.len(),
{
    if s.len() == 0 {
        0
    } else {
        scoped_status_count(s.drop_last(), w, st) + if in_scope(s.last(), w) && s.last().status
            == st {
            1int
        } else {
            0int
        }
    }
}

/// How many interactions in scope carry a recorded duration.
pub open spec fn scoped_duration_count(s: Seq<AgentInteraction>, w: Option<Seq<char>>) -> int
    decreases s.len(),
{
    if s.len() == 0 {
        0
    } else {
        scoped_duration_count(s.drop_last(), w) + if in_scope(s.last(), w) && s.last().duration_ms
            is Some {
            1int
        } else {
            0int
        }
    }
}

/// The sum of the recorded durations in scope.
pub open spec fn scoped_duration_sum(s: Seq<AgentInteraction>, w: Option<Seq<char>>) -> int
    decreases s.len(),
{
    if s.len() == 0 {
        0
    } else {
        scoped_duration_sum(s.drop_last(), w) + match s.last().duration_ms {
            Some(d) => if in_scope(s.last(), w) {
                d as int
            } else {
                0int
            },
            None => 0int,
        }
    }
}

/// The mean recorded duration in scope, rounded down; zero without any.
pub open spec fn scoped_avg_duration(s: Seq<AgentInteraction>, w: Option<Seq<char>>) -> int {
    if scoped_duration_count(s, w) == 0 {
        0
    } else {
        scoped_duration_sum(s, w) / scoped_duration_count(s, w)
    }
}

/// The counters of any prefix stay ordered and bounded.
proof fn lemma_scoped_bounds(s: Seq<AgentInteraction>, w: Option<Seq<char>>)
    ensures
        0 <= scoped_status_count(s, w, InteractionStatus::Completed) + scoped_status_count(
            s,
            w,
            InteractionStatus::Failed,
        ) <= scoped_count(s, w) <= s.len(),
        0 <= scoped_duration_count(s, w) <= scoped_count(s, w),
        0 <= scoped_duration_sum(s, w) <= scoped_duration_count(s, w) * (u64::MAX as int),
        scoped_status_count(s, w, InteractionStatus::Completed) >= 0,
        scoped_status_count(s, w, InteractionStatus::Failed) >= 0,
    decreases s.len(),
{
    if s.len() > 0 {
        lemma_scoped_bounds(s.drop_last(), w);
        let dc0 = scoped_duration_count(s.drop_last(), w);
        let dc = scoped_duration_count(s, w);
        assert(scoped_duration_sum(s, w) <= dc * (u64::MAX as int)) by (nonlinear_arith)
            requires
                scoped_duration_sum(s.drop_last(), w) <= dc0 * (u64::MAX as int),
                scoped_duration_sum(s, w) <= scoped_duration_sum(s.drop_last(), w) + (
                u64::MAX as int),
                dc == dc0 || dc == dc0 + 1,
                scoped_duration_sum(s, w) == scoped_duration_sum(s.drop_last(), w) || dc == dc0
                    + 1,
        {}
    }
}

/// Compute the aggregate statistics of the interactions that fall under the
/// workflow filter, in one pass: the totals count exactly the matching
/// interactions, `pending` is what is neither completed nor failed, and the
/// mean duration is the exact arithmetic mean of the recorded durations,
/// rounded down.
pub fn interaction_stats(items: &Vec<AgentInteraction>, workflow_id: Option<String>) -> (r:
    InteractionStats)
    ensures
        r.total == scoped_count(items@, filter_view(workflow_id)),
        r.completed == scoped_status_count(
            items@,
            filter_view(workflow_id),
            InteractionStatus::Completed,
        ),
        r.failed == scoped_status_count(
            items@,
            filter_view(workflow_id),
            InteractionStatus::Failed,
        ),
        r.pending == r.total - r.completed - r.failed,
        r.avg_duration_ms == scoped_avg_duration(items@, filter_view(workflow_id)),
{
    let ghost w = filter_view(workflow_id);
    let mut total: usize = 0;
    let mut completed: usize = 0;
    let mut failed: usize = 0;
    let mut dcount: usize = 0;
    let mut dsum: u128 = 0;
    let mut i: usize = 0;
    while i < items.len()
        invariant
            i <= items@.len(),
            w == filter_view(workflow_id),
            total == scoped_count(items@.take(i as int), w),
            completed == scoped_status_count(items@.take(i as int), w, InteractionStatus::Completed),
            failed == scoped_status_count(items@.take(i as int), w, InteractionStatus::Failed),
            dcount == scoped_duration_count(items@.take(i as int), w),
            dsum == scoped_duration_sum(items@.take(i as int), w),
            total <= i,
        decreases items@.len() - i,
    {
        proof {
            lemma_scoped_bounds(items@.take(i as int), w);
            assert(items@.take(i as int + 1).drop_last() =~= items@.take(i as int));
            assert(items@.take(i as int + 1).last() == items@[i as int]);
        }
        let matches_scope: bool = match &workflow_id {
            None => true,
            Some(wid) => items[i].workflow_id == *wid,
        };
        if matches_scope {
            total += 1;
            match items[i].status {
                InteractionStatus::Completed => {
                    completed += 1;
                },
                InteractionStatus::Failed => {
                    failed += 1;
                },
                _ => {},
            }
            match items[i].duration_ms {
                Some(d) => {
                    proof {
                        let pre = items@.take(i as int);
                        assert(dsum + d <= (dcount + 1) * (u64::MAX as int)) by (nonlinear_arith)
                            requires
                                dsum <= dcount * (u64::MAX as int),
                                d <= u64::MAX as int,
                        {}
                        assert((dcount + 1) * (u64::MAX as int) < u128::MAX) by (nonlinear_arith)
                            requires
                                dcount + 1 <= usize::MAX as int,
                        {}
                    }
                    dcount += 1;
                    dsum += d as u128;
                },
                None => {},
            }
        }
        i += 1;
        proof {
            assert(items@.take(i as int) == items@.take((i - 1) as int + 1));
        }
    }
    proof {
        assert(items@.take(items@.len() as int) =~= items@);
        lemma_scoped_bounds(items@, w);
    }
    let avg: u64 = if dcount == 0 {
        0
    } else {
        proof {
            lemma_div_is_ordered(
                dsum as int,
                (dcount as int) * (u64::MAX as int),
                dcount as int,
            );
            lemma_div_multiples_vanish(u64::MAX as int, dcount as int);
        }
        (dsum / (dcount as u128)) as u64
    };
    let pending = total - completed - failed;
    InteractionStats { total, completed, failed, pending, avg_duration_ms: avg }
}

} // verus!
