//! Predicates on integers and sums over a slice, plain and filtered by a
//! predicate that the caller passes in.
use vstd::prelude::*;

verus! {

pub fn is_odd(n: &i32) -> (r: bool)
    ensures
        r == (*n as int % 2 != 0),
{
    n % 2 != 0
}

pub fn is_even(n: &i32) -> (r: bool)
    ensures
        r == (*n as int % 2 == 0),
{
    n % 2 == 0
}

/// The predicate that keeps every value.
pub fn is_all(n: &i32) -> (r: bool)
    ensures
        r,
{
    true
}

/// The sum of the first `k` values of `vs`.
pub open spec fn prefix_sum(vs: Seq<i32>, k: int) -> int
    decreases k,
{
    if k <= 0 {
        0
    } else {
        prefix_sum(vs, k - 1) + vs[k - 1]
    }
}

/// The sum of the first `k` values of `vs` that `keep` marks.
pub open spec fn kept_sum(vs: Seq<i32>, keep: Seq<bool>, k: int) -> int
    decreases k,
{
    if k <= 0 {
        0
    } else if keep[k - 1] {
        kept_sum(vs, keep, k - 1) + vs[k - 1]
    } else {
        kept_sum(vs, keep, k - 1)
    }
}

/// The sum of the positive values among the first `k`.
pub open spec fn positive_sum(vs: Seq<i32>, k: int) -> int
    decreases k,
{
    if k <= 0 {
        0
    } else if vs[k - 1] > 0 {
        positive_sum(vs, k - 1) + vs[k - 1]
    } else {
        positive_sum(vs, k - 1)
    }
}

/// The sum of the negative values among the first `k`.
pub open spec fn negative_sum(vs: Seq<i32>, k: int) -> int
    decreases k,
{
    if k <= 0 {
        0
    } else if vs[k - 1] < 0 {
        negative_sum(vs, k - 1) + vs[k - 1]
    } else {
        negative_sum(vs, k - 1)
    }
}

/// Whatever values are kept, every running total of `vs` fits in `i32`.
pub open spec fn any_selection_fits(vs: Seq<i32>) -> bool {
    &&& positive_sum(vs, vs.len() as int) <= i32::MAX
    &&& negative_sum(vs, vs.len() as int) >= i32::MIN
}

proof fn lemma_kept_sum_bounds(vs: Seq<i32>, keep: Seq<bool>, k: int)
    requires
        0 <= k <= vs.len(),
        keep.len() == vs.len(),
    ensures
        negative_sum(vs, k) <= kept_sum(vs, keep, k) <= positive_sum(vs, k),
    decreases k,
{
    if k > 0 {
        lemma_kept_sum_bounds(vs, keep, k - 1);
    }
}

proof fn lemma_partial_sums_grow(vs: Seq<i32>, k: int, n: int)
    requires
        0 <= k <= n <= vs.len(),
    ensures
        positive_sum(vs, k) <= positive_sum(vs, n),
        negative_sum(vs, k) >= negative_sum(vs, n),
    decreases n - k,
{
    if k < n {
        lemma_partial_sums_grow(vs, k, n - 1);
    }
}

/// The sum of all values of `vs`.
pub fn total(vs: &[i32]) -> (r: i32)
    requires
        forall|k: int|
            0 <= k <= vs@.len() ==> i32::MIN <= #[trigger] prefix_sum(vs@, k) <= i32::MAX,
    ensures
        r == prefix_sum(vs@, vs@.len() as int),
{
    let mut sum: i32 = 0;
    let mut i: usize = 0;
    while i < vs.len()
        invariant
            i <= vs@.len(),
            sum == prefix_sum(vs@, i as int),
            forall|k: int|
                0 <= k <= vs@.len() ==> i32::MIN <= #[trigger] prefix_sum(vs@, k) <= i32::MAX,
        decreases vs.len() - i,
    {
        assert(i32::MIN <= prefix_sum(vs@, i + 1) <= i32::MAX);
        sum = sum + vs[i];
        i = i + 1;
    }
    sum
}

/// The sum of the values of `vs` that `predicate` accepts. `keep` in the
/// contract records the verdict that `predicate` gave on each value.
pub fn filter_sum<F: Fn(&i32) -> bool>(vs: &[i32], predicate: F) -> (r: i32)
    requires
        forall|x: &i32| #[trigger] predicate.requires((x,)),
        any_selection_fits(vs@),
    ensures
        exists|keep: Seq<bool>|
            {
                &&& keep.len() == vs@.len()
                &&& forall|i: int|
                    0 <= i < vs@.len() ==> #[trigger] predicate.ensures((&vs@[i],), keep[i])
                &&& r == kept_sum(vs@, keep, vs@.len() as int)
            },
{
    let mut sum: i32 = 0;
    let mut i: usize = 0;
    let ghost mut keep: Seq<bool> = Seq::empty();
    while i < vs.len()
        invariant
            i <= vs@.len(),
            keep.len() == i,
            forall|x: &i32| #[trigger] predicate.requires((x,)),
            any_selection_fits(vs@),
            forall|j: int| 0 <= j < i ==> #[trigger] predicate.ensures((&vs@[j],), keep[j]),
            sum == kept_sum(vs@, keep, i as int),
        decreases vs.len() - i,
    {
        let v = &vs[i];
        let b = predicate(v);
        proof {
            let keep2 = keep.push(b);
            lemma_kept_prefix(vs@, keep, keep2, i as int);
            let full = keep2 + Seq::new((vs@.len() - i - 1) as nat, |j: int| false);
            lemma_kept_prefix(vs@, keep2, full, i + 1);
            lemma_kept_sum_bounds(vs@, full, i + 1);
            lemma_partial_sums_grow(vs@, i + 1, vs@.len() as int);
            keep = keep2;
        }
        if b {
            sum = sum + *v;
        }
        i = i + 1;
    }
    sum
}

proof fn lemma_kept_prefix(vs: Seq<i32>, a: Seq<bool>, b: Seq<bool>, k: int)
    requires
        0 <= k <= a.len(),
        k <= b.len(),
        forall|j: int| 0 <= j < k ==> a[j] == b[j],
    ensures
        kept_sum(vs, a, k) == kept_sum(vs, b, k),
    decreases k,
{
    if k > 0 {
        lemma_kept_prefix(vs, a, b, k - 1);
    }
}

} // verus!
