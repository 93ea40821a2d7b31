//! Combining the exercise ids of the library and of the tracker.

use vstd::prelude::*;

verus! {

pub open spec fn ascending(s: Seq<u32>) -> bool {
    forall|i: int, j: int| 0 <= i <= j < s.len() ==> s[i] <= s[j]
}

/// Relies on `slice::sort_unstable`: the same items, in ascending order.
#[verifier::external_body]
fn sort_ids(v: &mut Vec<u32>)
    ensures
        final(v)@.to_multiset() == old(v)@.to_multiset(),
        ascending(final(v)@),
{
    v.sort_unstable();
}

/// `ids` followed by each id of `more` that is not already among them, once.
pub open spec fn merged(ids: Seq<u32>, more: Seq<u32>) -> Seq<u32>
    decreases more.len(),
{
    if more.len() == 0 {
        ids
    } else {
        let acc = merged(ids, more.drop_last());
        if acc.contains(more.last()) {
            acc
        } else {
            acc.push(more.last())
        }
    }
}

fn contains(v: &Vec<u32>, x: u32) -> (r: bool)
    ensures
        r == v@.contains(x),
{
    let mut i: usize = 0;
    while i < v.len()
        invariant
            i <= v@.len(),
            forall|j: int| 0 <= j < i ==> v@[j] != x,
        decreases v@.len() - i,
    {
        if v[i] == x {
            return true;
        }
        i = i + 1;
    }
    false
}

/// All ids of the library, and those of the tracker that the library lacks
/// (each once), in ascending order.
pub fn merge_ids(library: Vec<u32>, tracker: Vec<u32>) -> (r: Vec<u32>)
    ensures
        r@.to_multiset() == merged(library@, tracker@).to_multiset(),
        ascending(r@),
{
    let mut ids = library;
    let mut i: usize = 0;
    while i < tracker.len()
        invariant
            i <= tracker@.len(),
            ids@ == merged(library@, tracker@.take(i as int)),
        decreases tracker@.len() - i,
    {
        assert(tracker@.take(i as int + 1).drop_last() =~= tracker@.take(i as int));
        let id = tracker[i];
        if !contains(&ids, id) {
            ids.push(id);
        }
        i = i + 1;
    }
    assert(tracker@.take(i as int) =~= tracker@);
    sort_ids(&mut ids);
    ids
}

} // verus!
