//! The unordered pairs of a list, in ascending order.
//!
//! Midpoints are taken between every pair `(i, j)` of positions of a list
//! with `i < j`. This module fixes the order in which the pairs come: by `i`,
//! then by `j`.

use vstd::prelude::*;

verus! {

/// The pairs `(i, i + 1)`, `(i, i + 2)`, ... up to but without `(i, j)`.
pub open spec fn pair_row(i: int, j: int) -> Seq<(int, int)>
    decreases j - i,
{
    if j <= i + 1 {
        Seq::empty()
    } else {
        pair_row(i, j - 1).push((i, j - 1))
    }
}

/// The pairs of a list of length `n` whose first index is below `i`.
pub open spec fn pair_rows(n: int, i: int) -> Seq<(int, int)>
    decreases i,
{
    if i <= 0 {
        Seq::empty()
    } else {
        pair_rows(n, i - 1) + pair_row(i - 1, n)
    }
}

/// All pairs `(i, j)` with `0 <= i < j < n`, ordered by `i`, then by `j`.
pub open spec fn pair_indices(n: int) -> Seq<(int, int)> {
    pair_rows(n, n)
}

/// The number of unordered pairs of `n` items.
pub open spec fn pair_count(n: int) -> int {
    n * (n - 1) / 2
}

/// All pairs of places of a list of `n` items, ordered by the first place,
/// then by the second.
pub fn index_pairs(n: usize) -> (r: Vec<(usize, usize)>)
    ensures
        r@.len() == pair_indices(n as int).len(),
        r@.len() == pair_count(n as int),
        forall|k: int|
            0 <= k < r@.len() ==> (#[trigger] r@[k]).0 < r@[k].1 < n && (
            r@[k].0 as int,
            r@[k].1 as int,
        ) == pair_indices(n as int)[k],
{
    let mut pairs: Vec<(usize, usize)> = Vec::new();
    let mut i: usize = 0;
    while i < n
        invariant
            i <= n,
            pairs@.len() == pair_rows(n as int, i as int).len(),
            forall|k: int|
                0 <= k < pairs@.len() ==> (#[trigger] pairs@[k]).0 < pairs@[k].1 < n && (
                pairs@[k].0 as int,
                pairs@[k].1 as int,
            ) == pair_rows(n as int, i as int)[k],
        decreases n - i,
    {
        let mut j: usize = i + 1;
        while j < n
            invariant
                i < n,
                i < j <= n,
                pairs@.len() == (pair_rows(n as int, i as int) + pair_row(
                    i as int,
                    j as int,
                )).len(),
                forall|k: int|
                    0 <= k < pairs@.len() ==> (#[trigger] pairs@[k]).0 < pairs@[k].1 < n && (
                    pairs@[k].0 as int,
                    pairs@[k].1 as int,
                ) == (pair_rows(n as int, i as int) + pair_row(i as int, j as int))[k],
            decreases n - j,
        {
            pairs.push((i, j));
            j = j + 1;
        }
        i = i + 1;
    }
    proof {
        lemma_pair_count(n as int);
    }
    pairs
}

/// A row holds the pairs of one first index, in ascending order of the second.
pub proof fn lemma_pair_row(i: int, j: int)
    requires
        i < j,
    ensures
        pair_row(i, j).len() == j - i - 1,
        forall|k: int| 0 <= k < j - i - 1 ==> #[trigger] pair_row(i, j)[k] == (i, i + 1 + k),
    decreases j - i,
{
    if j > i + 1 {
        lemma_pair_row(i, j - 1);
    }
}

/// The rows below `i` hold `i * (2n - i - 1) / 2` pairs.
pub proof fn lemma_pair_rows_len(n: int, i: int)
    requires
        0 <= i <= n,
    ensures
        2 * pair_rows(n, i).len() == i * (2 * n - i - 1),
    decreases i,
{
    if i > 0 {
        lemma_pair_rows_len(n, i - 1);
        lemma_pair_row(i - 1, n);
        assert((i - 1) * (2 * n - (i - 1) - 1) + 2 * (n - i) == i * (2 * n - i - 1))
            by (nonlinear_arith);
    } else {
        assert(0 * (2 * n - 0 - 1) == 0);
    }
}

/// A list of `n` items has exactly `n * (n - 1) / 2` unordered pairs.
pub proof fn lemma_pair_count(n: int)
    requires
        0 <= n,
    ensures
        pair_indices(n).len() == pair_count(n),
{
    lemma_pair_rows_len(n, n);
    assert(n * (2 * n - n - 1) == n * (n - 1)) by (nonlinear_arith);
}

/// Every entry of the rows below `i` is a pair `(a, b)` with `a < b < n` and
/// `a < i`.
pub proof fn lemma_pair_rows_sound(n: int, i: int, k: int)
    requires
        0 <= i <= n,
        0 <= k < pair_rows(n, i).len(),
    ensures
        0 <= pair_rows(n, i)[k].0 < i,
        pair_rows(n, i)[k].0 < pair_rows(n, i)[k].1 < n,
    decreases i,
{
    if i > 0 {
        lemma_pair_row(i - 1, n);
        if k < pair_rows(n, i - 1).len() {
            lemma_pair_rows_sound(n, i - 1, k);
        } else {
            let offset = k - pair_rows(n, i - 1).len();
            assert(pair_row(i - 1, n)[offset] == (i - 1, i + offset));
        }
    }
}

/// The pair `(a, b)` stands in the rows below `i` once `a < i`, at the place
/// that the pairs before it leave.
pub proof fn lemma_pair_rows_complete(n: int, i: int, a: int, b: int)
    requires
        0 <= a < i <= n,
        a < b < n,
    ensures
        pair_rows(n, a).len() + (b - a - 1) < pair_rows(n, i).len(),
        pair_rows(n, i)[pair_rows(n, a).len() + (b - a - 1)] == (a, b),
    decreases i,
{
    lemma_pair_row(i - 1, n);
    if a == i - 1 {
        assert(pair_row(a, n)[b - a - 1] == (a, a + 1 + (b - a - 1)));
    } else {
        lemma_pair_rows_complete(n, i - 1, a, b);
    }
}

/// Each unordered pair of a list of `n` items occurs among the pairs, every
/// entry is such a pair, and there are `n * (n - 1) / 2` entries: each pair
/// occurs exactly once.
pub proof fn lemma_pairs_once(n: int, a: int, b: int)
    requires
        0 <= a < b < n,
    ensures
        pair_indices(n).len() == pair_count(n),
        exists|k: int| 0 <= k < pair_indices(n).len() && pair_indices(n)[k] == (a, b),
        forall|k: int|
            0 <= k < pair_indices(n).len() ==> 0 <= (#[trigger] pair_indices(n)[k]).0
                < pair_indices(n)[k].1 < n,
{
    lemma_pair_count(n);
    lemma_pair_rows_complete(n, n, a, b);
    let at = pair_rows(n, a).len() + (b - a - 1);
    assert(pair_indices(n)[at] == (a, b));
    assert forall|k: int| 0 <= k < pair_indices(n).len() implies 0 <= (#[trigger] pair_indices(
        n,
    )[k]).0 < pair_indices(n)[k].1 < n by {
        lemma_pair_rows_sound(n, n, k);
    }
}

} // verus!
