//! How the ingestion endpoints sum up the health of the feeds.

use vstd::prelude::*;

verus! {

/// Whether every feed of a list is healthy.
pub open spec fn all_healthy(statuses: Seq<bool>) -> bool {
    forall|i: int| 0 <= i < statuses.len() ==> statuses[i]
}

/// The word for the health of all feeds together: "healthy" only while
/// every feed is, "degraded" as soon as one is not.
pub fn overall_health(statuses: &Vec<bool>) -> (word: &'static str)
    ensures
        word@ == if all_healthy(statuses@) {
            "healthy"@
        } else {
            "degraded"@
        },
{
    let mut i: usize = 0;
    while i < statuses.len()
        invariant
            0 <= i <= statuses.len(),
            forall|k: int| 0 <= k < i ==> statuses@[k],
        decreases statuses.len() - i,
    {
        if !statuses[i] {
            return "degraded";
        }
        i += 1;
    }
    "healthy"
}

} // verus!
