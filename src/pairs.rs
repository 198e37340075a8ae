use vstd::prelude::*;

verus! {

/// Lexicographic order on index pairs: first by the first index, then by
/// the second.
pub open spec fn pair_before(a: (usize, usize), b: (usize, usize)) -> bool {
    a.0 < b.0 || (a.0 == b.0 && a.1 < b.1)
}

/// Whether `p` is an unordered pair `{i, j}` of `n` bodies, written with
/// `i < j`.
pub open spec fn is_pair_of(p: (usize, usize), n: nat) -> bool {
    p.0 < p.1 && p.1 < n
}

/// The order in which one integration step visits the bodies `0..n` two at
/// a time: every unordered pair `(i, j)` with `i < j < n` exactly once, in
/// lexicographic order.
pub fn pair_schedule(n: usize) -> (pairs: Vec<(usize, usize)>)
    ensures
        forall|k: int| 0 <= k < pairs.len() ==> is_pair_of(#[trigger] pairs[k], n as nat),
        forall|k: int, l: int|
            0 <= k < l < pairs.len() ==> pair_before(#[trigger] pairs[k], #[trigger] pairs[l]),
        forall|i: usize, j: usize| i < j < n ==> #[trigger] pairs@.contains((i, j)),
        forall|k: int, l: int|
            0 <= k < pairs.len() && 0 <= l < pairs.len() && k != l ==> #[trigger] pairs[k]
                != #[trigger] pairs[l],
{
    let mut pairs: Vec<(usize, usize)> = Vec::new();
    let mut i: usize = 0;
    while i < n
        invariant
            i <= n,
            forall|k: int|
                0 <= k < pairs.len() ==> is_pair_of(#[trigger] pairs[k], n as nat) && pairs[k].0
                    < i,
            forall|k: int, l: int|
                0 <= k < l < pairs.len() ==> pair_before(#[trigger] pairs[k], #[trigger] pairs[l]),
            forall|a: usize, b: usize| a < i && a < b < n ==> #[trigger] pairs@.contains((a, b)),
        decreases n - i,
    {
        let mut j: usize = i + 1;
        while j < n
            invariant
                i < n,
                i + 1 <= j <= n,
                forall|k: int|
                    0 <= k < pairs.len() ==> is_pair_of(#[trigger] pairs[k], n as nat) && (
                    pairs[k].0 < i || (pairs[k].0 == i && pairs[k].1 < j)),
                forall|k: int, l: int|
                    0 <= k < l < pairs.len() ==> pair_before(
                        #[trigger] pairs[k],
                        #[trigger] pairs[l],
                    ),
                forall|a: usize, b: usize|
                    (a < i && a < b < n) || (a == i && i < b < j) ==> #[trigger] pairs@.contains(
                        (a, b),
                    ),
            decreases n - j,
        {
            let ghost before = pairs@;
            pairs.push((i, j));
            assert forall|a: usize, b: usize|
                (a < i && a < b < n) || (a == i && i < b < j + 1) implies #[trigger] pairs@.contains(
                (a, b),
            ) by {
                if a == i && b == j {
                    assert(pairs@[before.len() as int] == (a, b));
                } else {
                    assert(before.contains((a, b)));
                    let k = choose|k: int| 0 <= k < before.len() && before[k] == (a, b);
                    assert(pairs@[k] == (a, b));
                }
            }
            j += 1;
        }
        i += 1;
    }
    pairs
}

} // verus!
