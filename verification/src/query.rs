//! Pagination of the bridge's list queries.
use vstd::prelude::*;
use crate::bridge::MAX_PAGE_LIMIT;

verus! {

/// Page size of a list query: the requested limit, `MAX_PAGE_LIMIT` when none
/// is given, and never more than `MAX_PAGE_LIMIT`.
pub open spec fn page_size(limit: Option<u32>) -> u32 {
    match limit {
        Some(l) => if l < MAX_PAGE_LIMIT {
            l
        } else {
            MAX_PAGE_LIMIT
        },
        None => MAX_PAGE_LIMIT,
    }
}

/// Computes the page size of a list query.
pub fn page_limit(limit: Option<u32>) -> (r: u32)
    ensures
        r == page_size(limit),
        r <= MAX_PAGE_LIMIT,
{
    let l = match limit {
        Some(l) => l,
        None => MAX_PAGE_LIMIT,
    };
    if l < MAX_PAGE_LIMIT {
        l
    } else {
        MAX_PAGE_LIMIT
    }
}

/// One page of a list query: the values of the first `limit` entries, in
/// order, and the key of the last entry returned, from which the next page
/// starts (`None` when the page is empty).
pub fn take_page<K, V>(entries: Vec<(K, V)>, limit: u32) -> (res: (Vec<V>, Option<K>))
    ensures
        ({
            let n = if limit < entries@.len() {
                limit as int
            } else {
                entries@.len() as int
            };
            &&& res.0@ == entries@.subrange(0, n).map_values(|e: (K, V)| e.1)
            &&& res.1 == if n == 0 {
                None
            } else {
                Some(entries@[n - 1].0)
            }
        }),
{
    let ghost original = entries@;
    let mut remaining = entries;
    let mut values: Vec<V> = Vec::new();
    let mut last_key: Option<K> = None;
    let mut taken: u32 = 0;
    while taken < limit && remaining.len() > 0
        invariant
            taken <= limit,
            taken as int + remaining@.len() == original.len(),
            remaining@ == original.subrange(taken as int, original.len() as int),
            values@ == original.subrange(0, taken as int).map_values(|e: (K, V)| e.1),
            last_key == if taken == 0 {
                None
            } else {
                Some(original[taken - 1].0)
            },
        decreases remaining@.len(),
    {
        let (key, value) = remaining.remove(0);
        values.push(value);
        last_key = Some(key);
        proof {
            assert(original.subrange(0, taken + 1).map_values(|e: (K, V)| e.1) =~= original.subrange(
                0,
                taken as int,
            ).map_values(|e: (K, V)| e.1).push(original[taken as int].1));
        }
        taken = taken + 1;
        assert(remaining@ =~= original.subrange(taken as int, original.len() as int));
    }
    (values, last_key)
}

/// A page holds the requested number of entries when that is at most
/// `MAX_PAGE_LIMIT`, `MAX_PAGE_LIMIT` when none is requested, and never more.
pub proof fn lemma_page_size(limit: Option<u32>)
    ensures
        page_size(limit) <= MAX_PAGE_LIMIT,
        limit is Some && limit->Some_0 <= MAX_PAGE_LIMIT ==> page_size(limit) == limit->Some_0,
        limit is Some && limit->Some_0 > MAX_PAGE_LIMIT ==> page_size(limit) == MAX_PAGE_LIMIT,
        limit is None ==> page_size(limit) == MAX_PAGE_LIMIT,
{
}

} // verus!
