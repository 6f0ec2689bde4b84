//! Column projections: which columns of a source a query asks for, and in
//! what order.
//!
//! A projection is a list of column positions. It may repeat a position and
//! may reorder them. It is valid for a source of `n` columns when every
//! position is below `n`.

use vstd::prelude::*;

verus! {

/// The projection that keeps every column of a source of `count` columns in
/// its place: `0, 1, .., count - 1`.
pub open spec fn identity(count: nat) -> Seq<usize> {
    Seq::new(count, |i: int| i as usize)
}

/// The positions that a request stands for: the request itself, or every
/// column in order when nothing is requested.
pub open spec fn resolved(request: Option<Vec<usize>>, count: nat) -> Seq<usize> {
    match request {
        Some(positions) => positions@,
        None => identity(count),
    }
}

/// Every position is below `count`.
pub open spec fn in_range(positions: Seq<usize>, count: nat) -> bool {
    forall|k: int| 0 <= k < positions.len() ==> (#[trigger] positions[k]) < count
}

/// `at` is the place of the first position that is not below `count`.
pub open spec fn first_outside(positions: Seq<usize>, count: nat, at: int) -> bool {
    &&& 0 <= at < positions.len()
    &&& positions[at] >= count
    &&& in_range(positions.take(at), count)
}

/// The items that a projection picks: item `positions[k]` in place `k`.
pub open spec fn select<T>(items: Seq<T>, positions: Seq<usize>) -> Seq<T> {
    Seq::new(positions.len(), |k: int| items[positions[k] as int])
}

/// Builds the identity projection for a source of `count` columns.
pub fn identity_projection(count: usize) -> (positions: Vec<usize>)
    ensures
        positions@ == identity(count as nat),
{
    let mut positions: Vec<usize> = Vec::with_capacity(count);
    let mut i: usize = 0;
    while i < count
        invariant
            i <= count,
            positions@ == identity(i as nat),
        decreases count - i,
    {
        positions.push(i);
        i += 1;
    }
    positions
}

/// Resolves a request against a source of `count` columns.
pub fn resolve(request: &Option<Vec<usize>>, count: usize) -> (positions: Vec<usize>)
    ensures
        positions@ == resolved(*request, count as nat),
{
    match request {
        Some(requested) => requested.clone(),
        None => identity_projection(count),
    }
}

/// Finds the first position that lies outside a source of `count` columns.
///
/// Returns its place in the list, or `None` when the projection is valid.
pub fn find_outside(positions: &Vec<usize>, count: usize) -> (found: Option<usize>)
    ensures
        found is None <==> in_range(positions@, count as nat),
        found matches Some(at) ==> first_outside(positions@, count as nat, at as int),
{
    let mut k: usize = 0;
    while k < positions.len()
        invariant
            k <= positions.len(),
            in_range(positions@.take(k as int), count as nat),
        decreases positions.len() - k,
    {
        if positions[k] >= count {
            return Some(k);
        }
        k += 1;
    }
    assert(positions@.take(k as int) =~= positions@);
    None
}

/// The identity projection is valid for the source it was made for, and
/// selects the source unchanged. The source is one that a machine can hold:
/// its length fits a `usize`.
pub proof fn identity_selects_all<T>(items: Seq<T>)
    requires
        items.len() <= usize::MAX,
    ensures
        in_range(identity(items.len()), items.len()),
        select(items, identity(items.len())) == items,
{
}

/// A selection has one item for each requested position, and the item in
/// place `k` is the source's item at position `positions[k]`.
pub proof fn select_matches_request<T>(items: Seq<T>, positions: Seq<usize>, k: int)
    requires
        0 <= k < positions.len(),
    ensures
        select(items, positions).len() == positions.len(),
        select(items, positions)[k] == items[positions[k] as int],
{
}

} // verus!
