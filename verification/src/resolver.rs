//! Resolution of a package name against the remote repository's metadata.
//!
//! The transport (issuing the HTTP query and decoding the JSON body) lives at
//! the program's edge; this module consumes the decoded record list. Exact
//! resolution takes the first record of the response; the broader search is
//! narrowed client-side by the allow-list relevance rule of [`crate::matcher`].

use vstd::prelude::*;

use crate::matcher::relevant;
use crate::record::PackageRecord;

verus! {

/// The records of `results` that are relevant to `query`, in their original
/// order: the allow-list filter keeps a record iff its lower-cased name
/// matches the lower-cased query.
pub open spec fn filtered_results(results: Seq<PackageRecord>, query: Seq<char>) -> Seq<
    PackageRecord,
>
    decreases results.len(),
{
    if results.len() == 0 {
        Seq::empty()
    } else {
        let rest = filtered_results(results.drop_last(), query);
        if relevant(results.last().name@, query) {
            rest.push(results.last())
        } else {
            rest
        }
    }
}

/// Exact resolution consumes a decoded metadata response: the first record
/// if the response holds any, none otherwise. Later records are never
/// consulted.
pub fn resolve_exact(results: Vec<PackageRecord>) -> (r: Option<PackageRecord>)
    ensures
        results@.len() == 0 ==> r is None,
        results@.len() > 0 ==> r == Some(results@[0]),
{
    let mut results = results;
    if results.len() == 0 {
        None
    } else {
        Some(results.remove(0))
    }
}

/// Client-side narrowing of a search response: keeps exactly the records
/// whose name is relevant to the query, preserving the response's order.
pub fn search_filter(results: &Vec<PackageRecord>, query: &str) -> (r: Vec<PackageRecord>)
    ensures
        r@ == filtered_results(results@, query@),
{
    let mut out: Vec<PackageRecord> = Vec::new();
    let n = results.len();
    let mut idx: usize = 0;
    while idx < n
        invariant
            n == results@.len(),
            idx <= n,
            out@ == filtered_results(results@.subrange(0, idx as int), query@),
        decreases n - idx,
    {
        let keep = crate::matcher::name_relevant(results[idx].name.as_str(), query);
        if keep {
            out.push(results[idx].clone());
        }
        proof {
            let prefix = results@.subrange(0, idx as int);
            let longer = results@.subrange(0, idx + 1);
            assert(longer.drop_last() =~= prefix);
            assert(longer.last() == results@[idx as int]);
        }
        idx = idx + 1;
    }
    proof {
        assert(results@.subrange(0, n as int) =~= results@);
    }
    out
}

/// The filter is a strict allow-list: every record it returns is relevant
/// to the query — none violates all three tiers of the matching rule.
pub proof fn lemma_filtered_all_relevant(results: Seq<PackageRecord>, query: Seq<char>)
    ensures
        forall|i: int|
            0 <= i < filtered_results(results, query).len() ==> relevant(
                #[trigger] filtered_results(results, query)[i].name@,
                query,
            ),
    decreases results.len(),
{
    if results.len() > 0 {
        lemma_filtered_all_relevant(results.drop_last(), query);
    }
}

/// The input positions of the records the filter keeps, in the order the
/// filter emits them.
pub open spec fn filtered_indices(results: Seq<PackageRecord>, query: Seq<char>) -> Seq<int>
    decreases results.len(),
{
    if results.len() == 0 {
        Seq::empty()
    } else {
        let rest = filtered_indices(results.drop_last(), query);
        if relevant(results.last().name@, query) {
            rest.push(results.len() - 1)
        } else {
            rest
        }
    }
}

/// The filter preserves the response's order: its output reads off the
/// input at strictly increasing positions.
pub proof fn lemma_filtered_preserves_order(results: Seq<PackageRecord>, query: Seq<char>)
    ensures
        ({
            let out = filtered_results(results, query);
            let idx = filtered_indices(results, query);
            &&& idx.len() == out.len()
            &&& forall|k: int| 0 <= k < idx.len() ==> 0 <= #[trigger] idx[k] < results.len()
            &&& forall|k: int| 0 <= k < idx.len() ==> out[k] == results[#[trigger] idx[k]]
            &&& forall|k: int| 0 < k < idx.len() ==> #[trigger] idx[k - 1] < idx[k]
        }),
    decreases results.len(),
{
    if results.len() > 0 {
        lemma_filtered_preserves_order(results.drop_last(), query);
        let shorter = results.drop_last();
        let ridx = filtered_indices(shorter, query);
        assert forall|k: int| 0 <= k < ridx.len() implies shorter[ridx[k]] == results[ridx[k]] by {
            assert(0 <= ridx[k] < shorter.len());
        }
    }
}

/// The filter drops nothing it should keep: every relevant record of the
/// input appears in the output.
pub proof fn lemma_filtered_complete(results: Seq<PackageRecord>, query: Seq<char>)
    ensures
        forall|i: int|
            0 <= i < results.len() && relevant(#[trigger] results[i].name@, query)
                ==> filtered_results(results, query).contains(results[i]),
    decreases results.len(),
{
    if results.len() > 0 {
        lemma_filtered_complete(results.drop_last(), query);
        assert forall|i: int|
            0 <= i < results.len() && relevant(#[trigger] results[i].name@, query) implies filtered_results(
            results,
            query,
        ).contains(results[i]) by {
            let out = filtered_results(results, query);
            let rest = filtered_results(results.drop_last(), query);
            if i < results.len() - 1 {
                assert(results.drop_last()[i] == results[i]);
                let w = choose|w: int| 0 <= w < rest.len() && rest[w] == results[i];
                assert(out[w] == results[i]);
            } else {
                assert(out.last() == results[i]);
            }
        }
    }
}

} // verus!
