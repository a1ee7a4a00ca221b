//! Median of a set of sample counts, taken as the middle entry of their
//! ascending order.
use vstd::prelude::*;
use vstd::relations::{sorted_by, total_ordering};

verus! {

broadcast use vstd::seq_lib::group_to_multiset_ensures;

/// The ascending order on sample counts.
pub open spec fn ascending() -> spec_fn(usize, usize) -> bool {
    |a: usize, b: usize| a <= b
}

/// `values` in ascending order.
pub open spec fn sorted_ascending(values: Seq<usize>) -> Seq<usize> {
    values.sort_by(ascending())
}

/// The entry at index `len / 2` of `values` in ascending order: the middle
/// entry for an odd count, the upper of the two middle entries for an even one.
pub open spec fn median(values: Seq<usize>) -> usize {
    sorted_ascending(values)[(values.len() / 2) as int]
}

pub proof fn lemma_ascending_total()
    ensures
        total_ordering(ascending()),
{
}

/// The ascending order of a sequence has its length and its entries.
pub proof fn lemma_sorted_ascending(values: Seq<usize>)
    ensures
        sorted_ascending(values).to_multiset() == values.to_multiset(),
        sorted_ascending(values).len() == values.len(),
        sorted_by(sorted_ascending(values), ascending()),
{
    lemma_ascending_total();
    values.lemma_sort_by_ensures(ascending());
    vstd::seq_lib::to_multiset_len(values);
    vstd::seq_lib::to_multiset_len(sorted_ascending(values));
}

/// Two ascending sequences with the same entries are equal: the ascending
/// order of a set of counts is unique.
pub proof fn lemma_sorted_unique(a: Seq<usize>, b: Seq<usize>)
    requires
        sorted_by(a, ascending()),
        sorted_by(b, ascending()),
        a.to_multiset() == b.to_multiset(),
    ensures
        a == b,
    decreases a.len(),
{
    vstd::seq_lib::to_multiset_len(a);
    vstd::seq_lib::to_multiset_len(b);
    if a.len() == 0 {
        assert(b.to_multiset().len() == 0);
        assert(a =~= b);
    } else {
        assert(b.len() == a.len());
        assert(a.to_multiset().count(a[0]) > 0);
        assert(b.contains(a[0]));
        let j = choose|j: int| 0 <= j < b.len() && b[j] == a[0];
        if j > 0 {
            assert(ascending()(b[0], b[j]));
        }
        assert(b.to_multiset().count(b[0]) > 0);
        assert(a.contains(b[0]));
        let k = choose|k: int| 0 <= k < a.len() && a[k] == b[0];
        if k > 0 {
            assert(ascending()(a[0], a[k]));
        }
        assert(a[0] == b[0]);
        let ra = a.drop_first();
        let rb = b.drop_first();
        assert(ra == a.remove(0));
        assert(rb == b.remove(0));
        assert(ra.to_multiset() == rb.to_multiset());
        assert(sorted_by(ra, ascending())) by {
            assert forall|i: int, j: int| 0 <= i < j < ra.len() implies #[trigger] ascending()(ra[i], ra[j]) by {
                assert(ascending()(a[i + 1], a[j + 1]));
            }
        }
        assert(sorted_by(rb, ascending())) by {
            assert forall|i: int, j: int| 0 <= i < j < rb.len() implies #[trigger] ascending()(rb[i], rb[j]) by {
                assert(ascending()(b[i + 1], b[j + 1]));
            }
        }
        lemma_sorted_unique(ra, rb);
        assert forall|i: int| 0 <= i < a.len() implies a[i] == b[i] by {
            if i > 0 {
                assert(a[i] == ra[i - 1]);
                assert(b[i] == rb[i - 1]);
            }
        }
        assert(a =~= b);
    }
}

/// `values` in ascending order, in a new vector.
pub fn sort_ascending(values: &Vec<usize>) -> (r: Vec<usize>)
    ensures
        r@ == sorted_ascending(values@),
{
    let mut out: Vec<usize> = Vec::with_capacity(values.len());
    let n = values.len();
    for i in 0..n
        invariant
            n == values@.len(),
            sorted_by(out@, ascending()),
            out@.to_multiset() == values@.subrange(0, i as int).to_multiset(),
    {
        let x = values[i];
        let mut p: usize = 0;
        while p < out.len() && out[p] <= x
            invariant
                p <= out@.len(),
                forall|q: int| 0 <= q < p ==> out@[q] <= x,
            decreases out@.len() - p,
        {
            p = p + 1;
        }
        let ghost before = out@;
        out.insert(p, x);
        assert(sorted_by(out@, ascending())) by {
            assert forall|a: int, b: int| 0 <= a < b < out@.len() implies #[trigger] ascending()(
                out@[a],
                out@[b],
            ) by {
                if b < p {
                    assert(ascending()(before[a], before[b]));
                } else if a > p {
                    assert(ascending()(before[a - 1], before[b - 1]));
                } else if a == p {
                    if p < before.len() {
                        assert(before[p as int] > x);
                        if b - 1 > p {
                            assert(ascending()(before[p as int], before[b - 1]));
                        }
                    }
                } else {
                    if b > p {
                        if p < before.len() {
                            assert(before[p as int] > x);
                            if b - 1 > p {
                                assert(ascending()(before[p as int], before[b - 1]));
                            }
                        }
                    }
                }
            }
        }
        assert(values@.subrange(0, i + 1) == values@.subrange(0, i as int).push(x));
    }
    proof {
        assert(values@.subrange(0, n as int) == values@);
        lemma_sorted_ascending(values@);
        lemma_sorted_unique(out@, sorted_ascending(values@));
    }
    out
}

/// The median of a non-empty run of sample counts.
pub fn median_of(values: &Vec<usize>) -> (r: usize)
    requires
        values@.len() > 0,
    ensures
        r == median(values@),
{
    let sorted = sort_ascending(values);
    proof {
        lemma_sorted_ascending(values@);
    }
    sorted[values.len() / 2]
}

} // verus!
