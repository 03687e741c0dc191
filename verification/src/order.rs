//! Sorting the keys of a catalog into display order.
//!
//! Keys are sorted by the version order; keys that are equal in that order
//! keep the order in which the catalog lists them. The result is given as a
//! list of positions in the catalog.

use crate::text::texts;
use crate::version::{compare_sign, lemma_compare_antisymmetric, lemma_compare_transitive, order_sign};
use vstd::prelude::*;

verus! {

/// Whether the key at position `x` comes before the key at position `y`:
/// it is smaller in the version order, or equal to it and listed earlier.
pub open spec fn before(keys: Seq<Seq<char>>, x: int, y: int) -> bool {
    compare_sign(keys[x], keys[y]) < 0 || (compare_sign(keys[x], keys[y]) == 0 && x < y)
}

/// Whether `order` lists its positions in ascending order.
pub open spec fn sorted(keys: Seq<Seq<char>>, order: Seq<usize>) -> bool {
    forall|p: int, q: int|
        0 <= p < q < order.len() ==> before(keys, #[trigger] order[p] as int, #[trigger] order[q] as int)
}

/// Whether `order` holds the positions of `of`, each once.
pub open spec fn rearranges(order: Seq<usize>, of: Seq<usize>) -> bool {
    &&& order.len() == of.len()
    &&& order.no_duplicates()
    &&& forall|x: usize| order.contains(x) <==> of.contains(x)
}

/// `before` orders any two different positions, one way only, and is transitive.
pub proof fn lemma_before_is_strict_total_order(keys: Seq<Seq<char>>, x: int, y: int, z: int)
    ensures
        !before(keys, x, x),
        x != y ==> (before(keys, x, y) <==> !before(keys, y, x)),
        before(keys, x, y) && before(keys, y, z) ==> before(keys, x, z),
{
    lemma_compare_antisymmetric(keys[x], keys[y]);
    lemma_compare_antisymmetric(keys[x], keys[x]);
    if before(keys, x, y) && before(keys, y, z) {
        lemma_compare_transitive(keys[x], keys[y], keys[z]);
    }
}

/// There is only one way to sort a list of positions.
pub proof fn lemma_sorted_order_unique(
    keys: Seq<Seq<char>>,
    of: Seq<usize>,
    first: Seq<usize>,
    second: Seq<usize>,
)
    requires
        rearranges(first, of),
        rearranges(second, of),
        sorted(keys, first),
        sorted(keys, second),
    ensures
        first == second,
{
    assert forall|i: int| 0 <= i < first.len() implies first[i] == second[i] by {
        lemma_same_at(keys, of, first, second, i);
    }
}

proof fn lemma_same_at(
    keys: Seq<Seq<char>>,
    of: Seq<usize>,
    first: Seq<usize>,
    second: Seq<usize>,
    i: int,
)
    requires
        rearranges(first, of),
        rearranges(second, of),
        sorted(keys, first),
        sorted(keys, second),
        0 <= i < first.len(),
    ensures
        first[i] == second[i],
    decreases i,
{
    assert forall|k: int| 0 <= k < i implies first[k] == second[k] by {
        lemma_same_at(keys, of, first, second, k);
    }
    let a = first[i];
    let b = second[i];
    if a != b {
        // each of the two stands later in the other list, which orders it
        // after the other one
        assert(first.contains(a));
        assert(second.contains(b));
        lemma_before_is_strict_total_order(keys, a as int, b as int, a as int);
    }
}

/// Whether the key at position `x` comes before the key at position `y`.
pub fn is_before(keys: &Vec<Vec<char>>, x: usize, y: usize) -> (r: bool)
    requires
        x < keys.len(),
        y < keys.len(),
    ensures
        r == before(texts(keys@), x as int, y as int),
{
    let sign = order_sign(&keys[x], &keys[y]);
    sign < 0 || (sign == 0 && x < y)
}

/// Exchanges the entries at `j - 1` and `j`.
fn swap_with_previous(order: &mut Vec<usize>, j: usize)
    requires
        0 < j < old(order).len(),
    ensures
        final(order)@ == old(order)@.update(j - 1, old(order)@[j as int]).update(
            j as int,
            old(order)@[j - 1],
        ),
{
    let low = order[j - 1];
    let high = order[j];
    order.set(j - 1, high);
    order.set(j, low);
}

proof fn lemma_swap_rearranges(before_swap: Seq<usize>, after: Seq<usize>, of: Seq<usize>, j: int)
    requires
        0 < j < before_swap.len(),
        rearranges(before_swap, of),
        after == before_swap.update(j - 1, before_swap[j]).update(j, before_swap[j - 1]),
    ensures
        rearranges(after, of),
{
    assert forall|p: int, q: int| 0 <= p < after.len() && 0 <= q < after.len() && p != q implies after[p]
        != after[q] by {
        let sp = if p == j { j - 1 } else if p == j - 1 { j } else { p };
        let sq = if q == j { j - 1 } else if q == j - 1 { j } else { q };
    }
    assert forall|x: usize| after.contains(x) <==> of.contains(x) by {
        if after.contains(x) {
            let p = choose|p: int| 0 <= p < after.len() && after[p] == x;
            let sp = if p == j { j - 1 } else if p == j - 1 { j } else { p };
        }
        if of.contains(x) {
            let p = choose|p: int| 0 <= p < before_swap.len() && before_swap[p] == x;
            let sp = if p == j { j - 1 } else if p == j - 1 { j } else { p };
            assert(after[sp] == x);
        }
    }
}

/// Sorts a list of positions into display order.
pub fn sort_positions(keys: &Vec<Vec<char>>, positions: Vec<usize>) -> (order: Vec<usize>)
    requires
        positions@.no_duplicates(),
        forall|i: int| 0 <= i < positions.len() ==> positions@[i] < keys.len(),
    ensures
        rearranges(order@, positions@),
        sorted(texts(keys@), order@),
{
    let mut order = positions;
    let ghost source = order@;
    let n = order.len();
    let mut i: usize = 1;
    while i < n
        invariant
            n == order.len(),
            1 <= i,
            rearranges(order@, source),
            forall|k: int| 0 <= k < n ==> order@[k] < keys.len(),
            forall|p: int, q: int|
                0 <= p < q < i && q < n ==> before(
                    texts(keys@),
                    #[trigger] order@[p] as int,
                    #[trigger] order@[q] as int,
                ),
        decreases n - i,
    {
        let mut j: usize = i;
        while j > 0 && is_before(keys, order[j], order[j - 1])
            invariant
                n == order.len(),
                j <= i < n,
                rearranges(order@, source),
                forall|k: int| 0 <= k < n ==> order@[k] < keys.len(),
                forall|p: int, q: int|
                    0 <= p < q <= i && p != j && q != j ==> before(
                        texts(keys@),
                        #[trigger] order@[p] as int,
                        #[trigger] order@[q] as int,
                    ),
                forall|q: int|
                    j < q <= i ==> before(texts(keys@), order@[j as int] as int, #[trigger] order@[q] as int),
            decreases j,
        {
            let ghost prev = order@;
            swap_with_previous(&mut order, j);
            proof {
                lemma_swap_rearranges(prev, order@, source, j as int);
            }
            j -= 1;
        }
        proof {
            let t = texts(keys@);
            assert forall|p: int, q: int| 0 <= p < q < i + 1 implies before(
                t,
                #[trigger] order@[p] as int,
                #[trigger] order@[q] as int,
            ) by {
                if q == j && j > 0 {
                    // the entry stopped here because it is not before its
                    // neighbour, so the neighbour is before it
                    let here = order@[j as int] as int;
                    let below = order@[j - 1] as int;
                    lemma_before_is_strict_total_order(t, below, here, below);
                    if p < j - 1 {
                        lemma_before_is_strict_total_order(t, order@[p] as int, below, here);
                    }
                }
            }
        }
        i += 1;
    }
    order
}

} // verus!
