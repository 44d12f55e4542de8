//! Coordination core for networks of autonomous agents organized into
//! workflows: graph validation, deterministic breadth-first traversal with an
//! ordered event stream, agent and interaction state machines, streaming
//! performance metrics, and relationship authority resolution.

use vstd::prelude::*;

pub mod agent;
pub mod codec;
pub mod project;
pub mod relationship;
pub mod role;
pub mod interaction;
pub mod stats;
pub mod store;
pub mod clock;
pub mod events;
pub mod engine;
pub mod graph;

verus! {

/// Returns `true` exactly when the two string slices hold the same characters.
pub fn str_eq(a: &str, b: &str) -> (r: bool)
    ensures
        r == (a@ == b@),
{
    let alen = a.unicode_len();
    let blen = b.unicode_len();
    if alen != blen {
        assert(a@ != b@);
        return false;
    }
    let mut i: usize = 0;
    while i < alen
        invariant
            alen == a@.len(),
            blen == b@.len(),
            alen == blen,
            i <= alen,
            forall|k: int| 0 <= k < i ==> a@[k] == b@[k],
        decreases alen - i,
    {
        if a.get_char(i) != b.get_char(i) {
            assert(a@ != b@);
            return false;
        }
        i += 1;
    }
    proof {
        assert(a@ =~= b@);
    }
    true
}

/// Duplicate an optional string, preserving the value.
pub fn clone_opt_string(o: &Option<String>) -> (r: Option<String>)
    ensures
        r == *o,
{
    match o {
        Some(s) => Some(s.clone()),
        None => None,
    }
}

} // verus!
