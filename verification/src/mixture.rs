//! Which components and pairs of components a mixture sum runs over.
//!
//! The mixing rules sum over the components whose mole fraction is above a
//! floor and over the pairs of such components, in index order. The order
//! matters to the caller, who adds the contributions up in it.

use vstd::prelude::*;
use vstd::arithmetic::power2::{lemma2_to64, lemma2_to64_rest};
use crate::binary64::{gt, is_ratio, lemma_is_ratio, spec_gt};

verus! {

/// Whether the mole fraction `x` counts as present above `floor`.
pub open spec fn spec_present(x: u64, floor: u64) -> bool {
    spec_gt(x, floor)
}

/// Whether `list` holds the indices of the fractions of `x` that are present
/// above `floor`, each once and in increasing order.
pub open spec fn lists_components(list: Seq<usize>, x: Seq<u64>, floor: u64) -> bool {
    &&& forall|k: int, l: int| 0 <= k < l < list.len() ==> list[k] < list[l]
    &&& forall|k: int|
        0 <= k < list.len() ==> (#[trigger] list[k]) < x.len() && spec_present(
            x[list[k] as int],
            floor,
        )
    &&& forall|i: int|
        0 <= i < x.len() && spec_present(#[trigger] x[i], floor) ==> list.contains(i as usize)
}

/// Whether `(i, j)` is a pair that a sum over `x` runs over: both fractions
/// are present above `floor` and `i` is below `j`, or equal to it where the
/// sum takes in the diagonal.
pub open spec fn is_pair(i: int, j: int, x: Seq<u64>, floor: u64, diagonal: bool) -> bool {
    &&& 0 <= i <= j < x.len()
    &&& diagonal || i < j
    &&& spec_present(x[i], floor)
    &&& spec_present(x[j], floor)
}

/// Whether the pair `(a, b)` comes before the pair `(i, j)` in the order of a
/// sum: by first index, then by second.
pub open spec fn precedes(a: int, b: int, i: int, j: int) -> bool {
    a < i || (a == i && b < j)
}

/// Whether `list` holds the pairs of `x` that come before `(i, j)`, each
/// once and in order.
pub open spec fn lists_pairs_before(
    list: Seq<(usize, usize)>,
    x: Seq<u64>,
    floor: u64,
    diagonal: bool,
    i: int,
    j: int,
) -> bool {
    &&& forall|k: int, l: int|
        0 <= k < l < list.len() ==> precedes(
            list[k].0 as int,
            list[k].1 as int,
            list[l].0 as int,
            list[l].1 as int,
        )
    &&& forall|k: int|
        0 <= k < list.len() ==> {
            &&& is_pair((#[trigger] list[k]).0 as int, list[k].1 as int, x, floor, diagonal)
            &&& precedes(list[k].0 as int, list[k].1 as int, i, j)
        }
    &&& forall|a: int, b: int|
        #![trigger is_pair(a, b, x, floor, diagonal)]
        is_pair(a, b, x, floor, diagonal) && precedes(a, b, i, j) ==> list.contains(
            (a as usize, b as usize),
        )
}

/// Whether `list` holds all the pairs of `x`, each once and in order.
pub open spec fn lists_pairs(list: Seq<(usize, usize)>, x: Seq<u64>, floor: u64, diagonal: bool) -> bool {
    lists_pairs_before(list, x, floor, diagonal, x.len() as int, 0)
}

/// Encoding of 1.0, the weight of a component paired with itself.
pub const ONCE: u64 = 0x3FF0_0000_0000_0000;

/// Encoding of 2.0, the weight of a pair of two components, which stands for
/// both orders.
pub const TWICE: u64 = 0x4000_0000_0000_0000;

/// The weights encode one and two exactly.
pub proof fn lemma_weights()
    ensures
        is_ratio(ONCE, 1, 1),
        is_ratio(TWICE, 2, 1),
{
    lemma2_to64();
    lemma2_to64_rest();
    lemma_is_ratio(ONCE, 1, 1, 52);
    lemma_is_ratio(TWICE, 2, 1, 51);
}

/// The weight of the pair `(i, j)` in a mixture sum.
pub open spec fn spec_weight(i: usize, j: usize) -> u64 {
    if i == j {
        ONCE
    } else {
        TWICE
    }
}

/// The weight of the pair `(i, j)`.
#[verifier::when_used_as_spec(spec_weight)]
pub fn weight(i: usize, j: usize) -> (w: u64)
    ensures
        w == spec_weight(i, j),
{
    if i == j {
        ONCE
    } else {
        TWICE
    }
}

/// Whether the mole fraction `x` is present above `floor`.
#[verifier::when_used_as_spec(spec_present)]
pub fn present(x: u64, floor: u64) -> (r: bool)
    ensures
        r == spec_present(x, floor),
{
    gt(x, floor)
}

/// The components of the composition `x` that are present above `floor`.
pub fn components(x: &[u64], floor: u64) -> (list: Vec<usize>)
    ensures
        lists_components(list@, x@, floor),
{
    let mut list: Vec<usize> = Vec::new();
    let mut i: usize = 0;
    while i < x.len()
        invariant
            i <= x@.len(),
            lists_components(list@, x@.take(i as int), floor),
        decreases x@.len() - i,
    {
        let ghost before = list@;
        if present(x[i], floor) {
            list.push(i);
            proof {
                assert forall|n: int|
                    0 <= n < i + 1 && spec_present(
                        #[trigger] x@.take(i + 1)[n],
                        floor,
                    ) implies list@.contains(n as usize) by {
                    if n < i {
                        assert(spec_present(x@.take(i as int)[n], floor));
                        let k = choose|k: int| 0 <= k < before.len() && before[k] == n as usize;
                        assert(list@[k] == n as usize);
                    } else {
                        assert(list@[before.len() as int] == n as usize);
                    }
                }
            }
        }
        i = i + 1;
    }
    proof {
        assert(x@.take(i as int) =~= x@);
    }
    list
}

/// The pairs of components of the composition `x` that are present above
/// `floor`, with the pairs of a component with itself where `diagonal` is
/// set.
pub fn pairs(x: &[u64], floor: u64, diagonal: bool) -> (list: Vec<(usize, usize)>)
    ensures
        lists_pairs(list@, x@, floor, diagonal),
{
    let n = x.len();
    let mut list: Vec<(usize, usize)> = Vec::new();
    let mut i: usize = 0;
    while i < n
        invariant
            n == x@.len(),
            i <= n,
            lists_pairs_before(list@, x@, floor, diagonal, i as int, 0),
        decreases n - i,
    {
        if present(x[i], floor) {
            let mut j: usize = i;
            while j < n
                invariant
                    n == x@.len(),
                    i <= j <= n,
                    i < n,
                    spec_present(x@[i as int], floor),
                    lists_pairs_before(list@, x@, floor, diagonal, i as int, j as int),
                decreases n - j,
            {
                let ghost before = list@;
                if (diagonal || i < j) && present(x[j], floor) {
                    list.push((i, j));
                    proof {
                        assert forall|a: int, b: int|
                            #![trigger is_pair(a, b, x@, floor, diagonal)]
                            is_pair(a, b, x@, floor, diagonal) && precedes(
                                a,
                                b,
                                i as int,
                                j + 1,
                            ) implies list@.contains((a as usize, b as usize)) by {
                            if precedes(a, b, i as int, j as int) {
                                let k = choose|k: int|
                                    0 <= k < before.len() && before[k] == (a as usize, b as usize);
                                assert(list@[k] == (a as usize, b as usize));
                            } else {
                                assert(list@[before.len() as int] == (a as usize, b as usize));
                            }
                        }
                    }
                }
                j = j + 1;
            }
        }
        i = i + 1;
    }
    list
}

/// Two lists of the components of `x` agree in their first `k` entries.
proof fn lemma_components_agree(a: Seq<usize>, b: Seq<usize>, x: Seq<u64>, floor: u64, k: int)
    requires
        lists_components(a, x, floor),
        lists_components(b, x, floor),
        0 <= k <= a.len(),
        k <= b.len(),
    ensures
        forall|j: int| 0 <= j < k ==> a[j] == b[j],
    decreases k,
{
    if k > 0 {
        lemma_components_agree(a, b, x, floor, k - 1);
        let i = k - 1;
        assert(spec_present(x[a[i] as int], floor));
        assert(b.contains(a[i]));
        let m = choose|m: int| 0 <= m < b.len() && b[m] == a[i];
        assert(spec_present(x[b[i] as int], floor));
        assert(a.contains(b[i]));
        let n = choose|n: int| 0 <= n < a.len() && a[n] == b[i];
        if m < i {
            assert(a[m] == b[m]);
            assert(a[m] < a[i]);
        }
        if n < i {
            assert(a[n] == b[n]);
            assert(b[n] < b[i]);
        }
    }
}

/// There is one list of the components of a composition: what `components`
/// ensures determines its result.
pub proof fn lemma_components_unique(a: Seq<usize>, b: Seq<usize>, x: Seq<u64>, floor: u64)
    requires
        lists_components(a, x, floor),
        lists_components(b, x, floor),
    ensures
        a == b,
{
    if a.len() < b.len() {
        lemma_components_agree(a, b, x, floor, a.len() as int);
        let extra = b[a.len() as int];
        assert(spec_present(x[extra as int], floor));
        assert(a.contains(extra));
        let n = choose|n: int| 0 <= n < a.len() && a[n] == extra;
        assert(b[n] < b[a.len() as int]);
    } else if b.len() < a.len() {
        lemma_components_agree(a, b, x, floor, b.len() as int);
        let extra = a[b.len() as int];
        assert(spec_present(x[extra as int], floor));
        assert(b.contains(extra));
        let m = choose|m: int| 0 <= m < b.len() && b[m] == extra;
        assert(a[m] < a[b.len() as int]);
    } else {
        lemma_components_agree(a, b, x, floor, a.len() as int);
        assert(a =~= b);
    }
}

/// Two lists of the pairs of `x` agree in their first `k` entries.
proof fn lemma_pairs_agree(
    a: Seq<(usize, usize)>,
    b: Seq<(usize, usize)>,
    x: Seq<u64>,
    floor: u64,
    diagonal: bool,
    k: int,
)
    requires
        lists_pairs(a, x, floor, diagonal),
        lists_pairs(b, x, floor, diagonal),
        0 <= k <= a.len(),
        k <= b.len(),
    ensures
        forall|j: int| 0 <= j < k ==> a[j] == b[j],
    decreases k,
{
    if k > 0 {
        lemma_pairs_agree(a, b, x, floor, diagonal, k - 1);
        let i = k - 1;
        assert(is_pair(a[i].0 as int, a[i].1 as int, x, floor, diagonal));
        assert(b.contains((a[i].0 as int as usize, a[i].1 as int as usize)));
        let m = choose|m: int| 0 <= m < b.len() && b[m] == a[i];
        assert(is_pair(b[i].0 as int, b[i].1 as int, x, floor, diagonal));
        assert(a.contains((b[i].0 as int as usize, b[i].1 as int as usize)));
        let n = choose|n: int| 0 <= n < a.len() && a[n] == b[i];
        if m < i {
            assert(a[m] == b[m]);
            assert(precedes(a[m].0 as int, a[m].1 as int, a[i].0 as int, a[i].1 as int));
        }
        if n < i {
            assert(a[n] == b[n]);
            assert(precedes(b[n].0 as int, b[n].1 as int, b[i].0 as int, b[i].1 as int));
        }
        if m > i {
            assert(precedes(b[i].0 as int, b[i].1 as int, b[m].0 as int, b[m].1 as int));
        }
        if n > i {
            assert(precedes(a[i].0 as int, a[i].1 as int, a[n].0 as int, a[n].1 as int));
        }
    }
}

/// There is one list of the pairs of a composition: what `pairs` ensures
/// determines its result.
pub proof fn lemma_pairs_unique(
    a: Seq<(usize, usize)>,
    b: Seq<(usize, usize)>,
    x: Seq<u64>,
    floor: u64,
    diagonal: bool,
)
    requires
        lists_pairs(a, x, floor, diagonal),
        lists_pairs(b, x, floor, diagonal),
    ensures
        a == b,
{
    if a.len() < b.len() {
        lemma_pairs_agree(a, b, x, floor, diagonal, a.len() as int);
        let extra = b[a.len() as int];
        assert(is_pair(extra.0 as int, extra.1 as int, x, floor, diagonal));
        assert(a.contains((extra.0 as int as usize, extra.1 as int as usize)));
        let n = choose|n: int| 0 <= n < a.len() && a[n] == extra;
        assert(b[n] == extra);
        assert(precedes(
            b[n].0 as int,
            b[n].1 as int,
            b[a.len() as int].0 as int,
            b[a.len() as int].1 as int,
        ));
    } else if b.len() < a.len() {
        lemma_pairs_agree(a, b, x, floor, diagonal, b.len() as int);
        let extra = a[b.len() as int];
        assert(is_pair(extra.0 as int, extra.1 as int, x, floor, diagonal));
        assert(b.contains((extra.0 as int as usize, extra.1 as int as usize)));
        let m = choose|m: int| 0 <= m < b.len() && b[m] == extra;
        assert(a[m] == extra);
        assert(precedes(
            a[m].0 as int,
            a[m].1 as int,
            a[b.len() as int].0 as int,
            a[b.len() as int].1 as int,
        ));
    } else {
        lemma_pairs_agree(a, b, x, floor, diagonal, a.len() as int);
        assert(a =~= b);
    }
}

/// The pairs of a composition are the pairs of its components: both members
/// of a listed pair are listed components, and any two listed components,
/// the earlier first, are a listed pair.
pub proof fn lemma_pairs_of_components(
    list: Seq<usize>,
    couples: Seq<(usize, usize)>,
    x: Seq<u64>,
    floor: u64,
    diagonal: bool,
)
    requires
        lists_components(list, x, floor),
        lists_pairs(couples, x, floor, diagonal),
    ensures
        forall|k: int|
            0 <= k < couples.len() ==> list.contains((#[trigger] couples[k]).0) && list.contains(
                couples[k].1,
            ),
        forall|a: int, b: int|
            0 <= a <= b < list.len() && (diagonal || a < b) ==> couples.contains(
                (#[trigger] list[a], #[trigger] list[b]),
            ),
{
    assert forall|k: int| 0 <= k < couples.len() implies list.contains(
        (#[trigger] couples[k]).0,
    ) && list.contains(couples[k].1) by {
        assert(is_pair(couples[k].0 as int, couples[k].1 as int, x, floor, diagonal));
        assert(spec_present(x[couples[k].0 as int], floor));
        assert(spec_present(x[couples[k].1 as int], floor));
    }
    assert forall|a: int, b: int|
        0 <= a <= b < list.len() && (diagonal || a < b) implies couples.contains(
        (#[trigger] list[a], #[trigger] list[b]),
    ) by {
        assert(is_pair(list[a] as int, list[b] as int, x, floor, diagonal));
    }
}

} // verus!
