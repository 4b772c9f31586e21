//! Ranking of search results for the "did you mean…" suggestion path.
//!
//! The resolver's allow-list filter already encodes the relevance tiers in
//! the order it preserves, so ranking only caps how many records are shown:
//! the first `cap` of them, in the order the remote API returned them.

use vstd::prelude::*;

use crate::record::PackageRecord;

verus! {

/// How many suggestions are shown at most after a failed resolution.
pub const SUGGESTION_CAP: usize = 8;

/// At most `cap` of the given records, input order preserved: the whole
/// input when it is short enough, its first `cap` records otherwise.
pub fn rank(results: &Vec<PackageRecord>, cap: usize) -> (r: Vec<PackageRecord>)
    ensures
        r@.len() <= cap,
        results@.len() <= cap ==> r@ == results@,
        results@.len() > cap ==> r@ == results@.subrange(0, cap as int),
        forall|i: int| 0 <= i < r@.len() ==> r@[i] == results@[i],
{
    let n = results.len();
    let take = if n < cap {
        n
    } else {
        cap
    };
    let mut out: Vec<PackageRecord> = Vec::new();
    let mut idx: usize = 0;
    while idx < take
        invariant
            take <= n,
            n == results@.len(),
            idx <= take,
            out@ == results@.subrange(0, idx as int),
        decreases take - idx,
    {
        out.push(results[idx].clone());
        proof {
            assert(results@.subrange(0, idx + 1) =~= results@.subrange(0, idx as int).push(
                results@[idx as int],
            ));
        }
        idx = idx + 1;
    }
    proof {
        if results@.len() <= cap {
            assert(results@.subrange(0, take as int) =~= results@);
        }
    }
    out
}

} // verus!
