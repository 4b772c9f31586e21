//! The relevance filter applied to remote search results.
//!
//! The remote API's own search is too permissive, so a candidate is kept iff
//! its lower-cased name equals the lower-cased query, starts with it, or
//! contains it as a token delimited by non-alphanumeric boundaries. The rule
//! is a strict allow-list: a name matching none of the three tiers is dropped.

use vstd::prelude::*;
use vstd::string::StrSliceExecFns;

verus! {

/// The lower-cased form of a character sequence, as `str::to_lowercase`
/// computes it. The result depends on the characters alone.
pub uninterp spec fn lower_of(s: Seq<char>) -> Seq<char>;

/// Whether a character is alphanumeric, as `char::is_alphanumeric`
/// classifies it. The result depends on the character alone.
pub uninterp spec fn is_alnum(c: char) -> bool;

/// Relies on `str::to_lowercase`: the returned string is the lower-cased
/// form of the input, a function of the input characters alone.
#[verifier::external_body]
pub(crate) fn lowercase(s: &str) -> (r: String)
    ensures
        r@ == lower_of(s@),
{
    s.to_lowercase()
}

/// Relies on `char::is_alphanumeric`: the classification is a function of
/// the character alone.
#[verifier::external_body]
fn alnum_char(c: char) -> (r: bool)
    ensures
        r == is_alnum(c),
{
    c.is_alphanumeric()
}

/// Every character of `s` is alphanumeric.
pub open spec fn all_alnum(s: Seq<char>) -> bool {
    forall|i: int| 0 <= i < s.len() ==> #[trigger] is_alnum(s[i])
}

/// Tier 1: the name is exactly the query.
pub open spec fn matches_exact(name: Seq<char>, query: Seq<char>) -> bool {
    name == query
}

/// Tier 2: the name starts with the query.
pub open spec fn matches_prefix(name: Seq<char>, query: Seq<char>) -> bool {
    query.len() <= name.len() && name.subrange(0, query.len() as int) == query
}

/// The query occurs in `name` at position `i`, delimited on both sides by
/// the name's edge or by a non-alphanumeric character.
pub open spec fn token_at(name: Seq<char>, query: Seq<char>, i: int) -> bool {
    &&& 0 <= i
    &&& i + query.len() <= name.len()
    &&& name.subrange(i, i + query.len() as int) == query
    &&& (i == 0 || !is_alnum(name[i - 1]))
    &&& (i + query.len() == name.len() || !is_alnum(name[i + query.len()]))
}

/// Tier 3: the query is a whole token of the name. Splitting a name at its
/// non-alphanumeric characters yields only alphanumeric runs, so a query
/// containing a non-alphanumeric character can never equal such a token.
pub open spec fn matches_token(name: Seq<char>, query: Seq<char>) -> bool {
    all_alnum(query) && exists|i: int| token_at(name, query, i)
}

/// The allow-list rule over already lower-cased name and query: one of the
/// three tiers holds.
pub open spec fn matches_query(name: Seq<char>, query: Seq<char>) -> bool {
    matches_exact(name, query) || matches_prefix(name, query) || matches_token(name, query)
}

/// A name is relevant to a query when the lower-cased name matches the
/// lower-cased query under the allow-list rule.
pub open spec fn relevant(name: Seq<char>, query: Seq<char>) -> bool {
    matches_query(lower_of(name), lower_of(query))
}

/// `name[i .. i + |query|] == query`, decided character by character.
fn range_eq(name: &str, query: &str, i: usize) -> (r: bool)
    requires
        i + query@.len() <= name@.len(),
    ensures
        r == (name@.subrange(i as int, i + query@.len()) == query@),
{
    let n = name.unicode_len();
    let m = query.unicode_len();
    let mut k: usize = 0;
    while k < m
        invariant
            n == name@.len(),
            m == query@.len(),
            k <= m,
            i + m <= n,
            forall|j: int| 0 <= j < k ==> name@[i + j] == query@[j],
        decreases m - k,
    {
        let nc = name.get_char(i + k);
        let qc = query.get_char(k);
        if nc != qc {
            proof {
                assert(name@.subrange(i as int, i + query@.len())[k as int] == name@[i + k]);
                assert(name@.subrange(i as int, i + query@.len()) != query@);
            }
            return false;
        }
        k = k + 1;
    }
    proof {
        assert(name@.subrange(i as int, i + query@.len()) =~= query@);
    }
    true
}

/// The two strings hold the same characters.
fn str_eq(a: &str, b: &str) -> (r: bool)
    ensures
        r == (a@ == b@),
{
    let n = a.unicode_len();
    let m = b.unicode_len();
    if n != m {
        return false;
    }
    let r = range_eq(a, b, 0);
    proof {
        assert(a@.subrange(0, b@.len() as int) =~= a@);
    }
    r
}

/// The name starts with the query.
fn str_starts_with(name: &str, query: &str) -> (r: bool)
    ensures
        r == matches_prefix(name@, query@),
{
    let n = name.unicode_len();
    let m = query.unicode_len();
    if m > n {
        return false;
    }
    range_eq(name, query, 0)
}

/// Every character of the string is alphanumeric.
fn str_all_alnum(s: &str) -> (r: bool)
    ensures
        r == all_alnum(s@),
{
    let n = s.unicode_len();
    let mut k: usize = 0;
    while k < n
        invariant
            n == s@.len(),
            k <= n,
            forall|j: int| 0 <= j < k ==> #[trigger] is_alnum(s@[j]),
        decreases n - k,
    {
        if !alnum_char(s.get_char(k)) {
            return false;
        }
        k = k + 1;
    }
    true
}

/// The query occurs in the name as a whole, boundary-delimited token.
fn str_has_token(name: &str, query: &str) -> (r: bool)
    ensures
        r == matches_token(name@, query@),
{
    if !str_all_alnum(query) {
        return false;
    }
    let n = name.unicode_len();
    let m = query.unicode_len();
    if m > n {
        proof {
            assert(forall|i: int| !token_at(name@, query@, i));
        }
        return false;
    }
    let last: usize = n - m;
    let mut i: usize = 0;
    loop
        invariant
            all_alnum(query@),
            n == name@.len(),
            m == query@.len(),
            m <= n,
            last == n - m,
            i <= last,
            forall|j: int| 0 <= j < i ==> !token_at(name@, query@, j),
        ensures
            forall|j: int| 0 <= j <= last ==> !token_at(name@, query@, j),
        decreases last - i,
    {
        let left_ok = i == 0 || !alnum_char(name.get_char(i - 1));
        let right_ok = i + m == n || !alnum_char(name.get_char(i + m));
        if left_ok && right_ok && range_eq(name, query, i) {
            proof {
                assert(token_at(name@, query@, i as int));
            }
            return true;
        }
        proof {
            assert(!token_at(name@, query@, i as int));
        }
        if i == last {
            break;
        }
        i = i + 1;
    }
    proof {
        assert(forall|j: int| !token_at(name@, query@, j)) by {
            assert(forall|j: int| j > last ==> !token_at(name@, query@, j));
        }
    }
    false
}

/// The allow-list rule on strings that are already lower-cased.
pub fn str_matches_query(name: &str, query: &str) -> (r: bool)
    ensures
        r == matches_query(name@, query@),
{
    if str_eq(name, query) {
        return true;
    }
    if str_starts_with(name, query) {
        return true;
    }
    str_has_token(name, query)
}

/// Whether a package name is relevant to a query: the comparison is
/// case-insensitive, through the lower-cased forms of both.
pub fn name_relevant(name: &str, query: &str) -> (r: bool)
    ensures
        r == relevant(name@, query@),
{
    let name_lower = lowercase(name);
    let query_lower = lowercase(query);
    str_matches_query(name_lower.as_str(), query_lower.as_str())
}

} // verus!
