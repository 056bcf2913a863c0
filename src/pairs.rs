use vstd::prelude::*;

verus! {

/// Whether `p` is an unordered pair of distinct indices below `n`, smaller first.
pub open spec fn is_pair_below(n: int, p: (usize, usize)) -> bool {
    0 <= p.0 < p.1 < n
}

/// Strict lexicographic order on index pairs.
pub open spec fn pair_before(p: (usize, usize), q: (usize, usize)) -> bool {
    p.0 < q.0 || (p.0 == q.0 && p.1 < q.1)
}

/// Every unordered pair `(i, j)` with `i < j < n`, each exactly once, in
/// lexicographic order. Both the force pass and the collision pass visit
/// the bodies in this order.
pub fn unordered_pairs(n: usize) -> (r: Vec<(usize, usize)>)
    ensures
        forall|k: int| 0 <= k < r@.len() ==> is_pair_below(n as int, #[trigger] r@[k]),
        forall|k1: int, k2: int|
            0 <= k1 < k2 < r@.len() ==> pair_before(#[trigger] r@[k1], #[trigger] r@[k2]),
        forall|i: usize, j: usize| i < j < n ==> r@.contains((i, j)),
{
    let mut r: Vec<(usize, usize)> = Vec::new();
    let mut i: usize = 0;
    while i < n
        invariant
            i <= n,
            forall|k: int| 0 <= k < r@.len() ==> is_pair_below(n as int, #[trigger] r@[k]),
            forall|k: int| 0 <= k < r@.len() ==> (#[trigger] r@[k]).0 < i,
            forall|k1: int, k2: int|
                0 <= k1 < k2 < r@.len() ==> pair_before(#[trigger] r@[k1], #[trigger] r@[k2]),
            forall|a: usize, b: usize| a < i && a < b < n ==> r@.contains((a, b)),
        decreases n - i,
    {
        let mut j: usize = i + 1;
        while j < n
            invariant
                i < n,
                i + 1 <= j <= n,
                forall|k: int| 0 <= k < r@.len() ==> is_pair_below(n as int, #[trigger] r@[k]),
                forall|k: int|
                    0 <= k < r@.len() ==> pair_before(#[trigger] r@[k], (i, j)),
                forall|k1: int, k2: int|
                    0 <= k1 < k2 < r@.len() ==> pair_before(#[trigger] r@[k1], #[trigger] r@[k2]),
                forall|a: usize, b: usize| a < i && a < b < n ==> r@.contains((a, b)),
                forall|b: usize| i < b < j ==> r@.contains((i, b)),
            decreases n - j,
        {
            let ghost prev = r@;
            r.push((i, j));
            proof {
                assert forall|a: usize, b: usize| a < i && a < b < n implies r@.contains((a, b)) by {
                    assert(prev.contains((a, b)));
                    let k = choose|k: int| 0 <= k < prev.len() && prev[k] == (a, b);
                    assert(r@[k] == (a, b));
                }
                assert forall|b: usize| i < b < j + 1 implies r@.contains((i, b)) by {
                    if b == j {
                        assert(r@[prev.len() as int] == (i, b));
                    } else {
                        assert(prev.contains((i, b)));
                        let k = choose|k: int| 0 <= k < prev.len() && prev[k] == (i, b);
                        assert(r@[k] == (i, b));
                    }
                }
            }
            j = j + 1;
        }
        i = i + 1;
    }
    r
}

} // verus!
