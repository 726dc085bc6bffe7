//! Integer sums over sequences, measured by an arbitrary spec function.
//!
//! The benchmark's aggregation step is an element-wise sum of per-worker
//! records, so its laws (order-independence, bounds on single elements) are
//! stated once here, over `sum_of`, and instantiated per field elsewhere.
use vstd::prelude::*;

verus! {

/// Sum of `f` over all elements of `s`.
pub open spec fn sum_of<A>(s: Seq<A>, f: spec_fn(A) -> int) -> int
    decreases s.len(),
{
    if s.len() == 0 {
        0
    } else {
        sum_of(s.drop_last(), f) + f(s.last())
    }
}

/// Appending one element adds its measure to the sum.
pub proof fn lemma_sum_of_push<A>(s: Seq<A>, f: spec_fn(A) -> int, x: A)
    ensures
        sum_of(s.push(x), f) == sum_of(s, f) + f(x),
{
    assert(s.push(x).drop_last() =~= s);
}

/// Removing the element at `i` subtracts exactly its measure from the sum.
pub proof fn lemma_sum_of_remove<A>(s: Seq<A>, f: spec_fn(A) -> int, i: int)
    requires
        0 <= i < s.len(),
    ensures
        sum_of(s, f) == sum_of(s.remove(i), f) + f(s[i]),
    decreases s.len(),
{
    if i == s.len() - 1 {
        assert(s.remove(i) =~= s.drop_last());
    } else {
        lemma_sum_of_remove(s.drop_last(), f, i);
        assert(s.remove(i).drop_last() =~= s.drop_last().remove(i));
        assert(s.remove(i).last() == s.last());
    }
}

/// A sum of non-negative measures is non-negative.
pub proof fn lemma_sum_of_nonneg<A>(s: Seq<A>, f: spec_fn(A) -> int)
    requires
        forall|a: A| #[trigger] f(a) >= 0,
    ensures
        sum_of(s, f) >= 0,
    decreases s.len(),
{
    if s.len() > 0 {
        lemma_sum_of_nonneg(s.drop_last(), f);
    }
}

/// With non-negative measures, each element's measure is bounded by the sum.
pub proof fn lemma_sum_of_element_bound<A>(s: Seq<A>, f: spec_fn(A) -> int, i: int)
    requires
        forall|a: A| #[trigger] f(a) >= 0,
        0 <= i < s.len(),
    ensures
        f(s[i]) <= sum_of(s, f),
{
    lemma_sum_of_remove(s, f, i);
    lemma_sum_of_nonneg(s.remove(i), f);
}

/// Two equally long sequences whose elements carry equal measures,
/// position by position, have equal sums.
pub proof fn lemma_sum_of_pointwise<A, B>(
    s1: Seq<A>,
    s2: Seq<B>,
    f: spec_fn(A) -> int,
    g: spec_fn(B) -> int,
)
    requires
        s1.len() == s2.len(),
        forall|j: int| 0 <= j < s1.len() ==> #[trigger] f(s1[j]) == g(s2[j]),
    ensures
        sum_of(s1, f) == sum_of(s2, g),
    decreases s1.len(),
{
    if s1.len() > 0 {
        assert forall|j: int| 0 <= j < s1.drop_last().len() implies #[trigger] f(
            s1.drop_last()[j],
        ) == g(s2.drop_last()[j]) by {
            assert(f(s1[j]) == g(s2[j]));
        }
        lemma_sum_of_pointwise(s1.drop_last(), s2.drop_last(), f, g);
        assert(f(s1.last()) == g(s2.last()));
    }
}

/// A sum of a constant measure is the length times the constant.
pub proof fn lemma_sum_of_constant<A>(s: Seq<A>, f: spec_fn(A) -> int, c: int)
    requires
        forall|j: int| 0 <= j < s.len() ==> #[trigger] f(s[j]) == c,
    ensures
        sum_of(s, f) == s.len() * c,
    decreases s.len(),
{
    if s.len() == 0 {
    } else {
        assert forall|j: int| 0 <= j < s.drop_last().len() implies #[trigger] f(
            s.drop_last()[j],
        ) == c by {
            assert(f(s[j]) == c);
        }
        lemma_sum_of_constant(s.drop_last(), f, c);
        assert(f(s.last()) == c);
        assert((s.len() - 1) * c + c == s.len() * c) by (nonlinear_arith);
    }
}

/// A sum of a pointwise addition of two measures is the sum of the two
/// sums.
pub proof fn lemma_sum_of_add<A>(s: Seq<A>, f: spec_fn(A) -> int, g: spec_fn(A) -> int, h: spec_fn(
    A,
) -> int)
    requires
        forall|a: A| #[trigger] h(a) == f(a) + g(a),
    ensures
        sum_of(s, h) == sum_of(s, f) + sum_of(s, g),
    decreases s.len(),
{
    if s.len() > 0 {
        lemma_sum_of_add(s.drop_last(), f, g, h);
    }
}

/// A sum of a measure scaled by a constant is the unscaled sum times the
/// constant.
pub proof fn lemma_sum_of_scale<A>(s: Seq<A>, f: spec_fn(A) -> int, g: spec_fn(A) -> int, c: int)
    requires
        forall|a: A| #[trigger] g(a) == f(a) * c,
    ensures
        sum_of(s, g) == sum_of(s, f) * c,
    decreases s.len(),
{
    if s.len() > 0 {
        lemma_sum_of_scale(s.drop_last(), f, g, c);
        assert(sum_of(s.drop_last(), f) * c + f(s.last()) * c == (sum_of(s.drop_last(), f) + f(
            s.last(),
        )) * c) by (nonlinear_arith);
    }
}

/// Reordering a sequence does not change the sum: two sequences holding the
/// same elements with the same multiplicities have equal sums.
pub proof fn lemma_sum_of_permutation<A>(s1: Seq<A>, s2: Seq<A>, f: spec_fn(A) -> int)
    requires
        s1.to_multiset() == s2.to_multiset(),
    ensures
        sum_of(s1, f) == sum_of(s2, f),
    decreases s1.len(),
{
    broadcast use vstd::seq_lib::group_to_multiset_ensures;

    if s1.len() == 0 {
        assert(s2.to_multiset().len() == 0);
    } else {
        let x = s1.last();
        assert(s1.contains(x));
        assert(s2.to_multiset().count(x) > 0);
        assert(s2.contains(x));
        let i = choose|i: int| 0 <= i < s2.len() && s2[i] == x;
        lemma_sum_of_remove(s2, f, i);
        assert(s1.drop_last().push(x) =~= s1);
        assert(s1.to_multiset() =~= s1.drop_last().to_multiset().insert(x));
        assert(s2.remove(i).to_multiset() =~= s1.drop_last().to_multiset()) by {
            assert(s2.remove(i).to_multiset() =~= s2.to_multiset().remove(x));
        }
        lemma_sum_of_permutation(s1.drop_last(), s2.remove(i), f);
    }
}

} // verus!
