//! Cartesian products of case sources.
//!
//! `Product` composes independent [`TestCases`] sources into one source of
//! tuples, enumerated in row-major order: the last component cycles fastest,
//! and the first component only advances once the later components are
//! exhausted.

use vstd::arithmetic::div_mod::{
    lemma_div_is_ordered, lemma_div_pos_is_pos, lemma_fundamental_div_mod,
    lemma_fundamental_div_mod_converse, lemma_mod_division_less_than_divisor,
    lemma_multiply_divide_lt,
};
use vstd::arithmetic::mul::{
    lemma_mul_inequality, lemma_mul_is_associative, lemma_mul_is_commutative,
};
use vstd::prelude::*;

use crate::cases::TestCases;

verus! {

/// Cartesian product of several case sources, supporting tuples of 2 up to
/// 8 sources.
pub struct Product<Ts>(pub Ts);

/// The pairs of the Cartesian product of `a` and `b`, in row-major order:
/// the pair at position `k` is `(a[k / b.len()], b[k % b.len()])`.
pub open spec fn spec_product2<T, U>(a: Seq<T>, b: Seq<U>) -> Seq<(T, U)> {
    Seq::new(a.len() * b.len(), |k: int| (a[k / b.len() as int], b[k % b.len() as int]))
}

/// The Cartesian product of `a` and `b` yields exactly `a.len() * b.len()`
/// pairs, with the second component cycling fastest: position `i * b.len() +
/// j` holds `(a[i], b[j])`.
pub proof fn lemma_product_pairs<T, U>(a: Seq<T>, b: Seq<U>)
    ensures
        spec_product2(a, b).len() == a.len() * b.len(),
        forall|i: int, j: int|
            0 <= i < a.len() && 0 <= j < b.len() ==> spec_product2(a, b)[i * b.len() + j] == (
            a[i],
            b[j],
            ),
{
    assert forall|i: int, j: int|
        0 <= i < a.len() && 0 <= j < b.len() implies spec_product2(a, b)[i * b.len() + j] == (
        a[i],
        b[j],
    ) by {
        let n = b.len() as int;
        lemma_mul_inequality(i + 1, a.len() as int, n);
        assert((i + 1) * n == i * n + n) by (nonlinear_arith);
        lemma_fundamental_div_mod_converse(i * n + j, n, i, j);
    }
}

/// Iterator over the pairs of a two-source [`Product`].
pub struct ProductIter<T, U> {
    first: TestCases<T>,
    second: TestCases<U>,
    first_idx: usize,
    second_pos: usize,
    is_finished: bool,
}

impl<T, U> ProductIter<T, U> {
    /// The first source's cases.
    pub closed spec fn firsts(self) -> Seq<T> {
        self.first@
    }

    /// The second source's cases.
    pub closed spec fn seconds(self) -> Seq<U> {
        self.second@
    }

    /// The number of pairs the product yields in total.
    pub open spec fn total(self) -> nat {
        self.firsts().len() * self.seconds().len()
    }

    /// How many pairs have been yielded so far.
    pub closed spec fn emitted(self) -> nat {
        if self.is_finished {
            self.total()
        } else if self.seconds().len() == 0 {
            0
        } else {
            self.first_idx as nat * self.seconds().len() + self.second_pos as nat
        }
    }

    /// Internal consistency of the cursor.
    pub closed spec fn wf(self) -> bool {
        !self.is_finished ==> {
            &&& (self.firsts().len() == 0 || self.seconds().len() == 0) ==> (self.first_idx == 0
                && self.second_pos == 0)
            &&& (self.firsts().len() > 0 && self.seconds().len() > 0) ==> (self.second_pos
                <= self.seconds().len() && self.first_idx < self.firsts().len())
        }
    }
}

impl<T: Copy, U: Copy> ProductIter<T, U> {
    /// Yields the next pair of the product, or `None` once all
    /// `firsts().len() * seconds().len()` pairs have been yielded.
    pub fn next(&mut self) -> (r: Option<(T, U)>)
        requires
            old(self).wf(),
        ensures
            final(self).wf(),
            final(self).firsts() == old(self).firsts(),
            final(self).seconds() == old(self).seconds(),
            old(self).emitted() < old(self).total() ==> (r matches Some(pair) && pair
                == spec_product2(old(self).firsts(), old(self).seconds())[old(self).emitted() as int]
                && final(self).emitted() == old(self).emitted() + 1),
            old(self).emitted() == old(self).total() ==> r is None && final(self).emitted() == old(
                self,
            ).emitted(),
    {
        proof {
            lemma_emitted_bound(*self);
        }
        let ghost fi0 = self.first_idx as int;
        let ghost pos0 = self.second_pos as int;
        let ghost e0 = old(self).emitted() as int;
        if self.is_finished {
            return None;
        }
        let m = self.first.len();
        let n = self.second.len();
        if m == 0 || n == 0 {
            self.is_finished = true;
            proof {
                assert(e0 == 0) by (nonlinear_arith)
                    requires
                        m == 0 || n == 0,
                        n == 0 ==> e0 == 0,
                        n != 0 ==> e0 == fi0 * n as int + pos0,
                        fi0 == 0,
                        pos0 == 0,
                ;
                let ghost t0 = old(self).total() as int;
                assert(t0 == 0) by (nonlinear_arith)
                    requires
                        t0 == m as int * n as int,
                        m == 0 || n == 0,
                ;
            }
            return None;
        }
        if self.second_pos >= n {
            self.first_idx = self.first_idx + 1;
            self.second_pos = 0;
            if self.first_idx >= m {
                self.is_finished = true;
                proof {
                    assert(e0 == m as int * n as int) by (nonlinear_arith)
                        requires
                            e0 == fi0 * n as int + n as int,
                            fi0 + 1 == m as int,
                    ;
                }
                return None;
            }
        }
        let ghost fi1 = self.first_idx as int;
        let ghost pos1 = self.second_pos as int;
        proof {
            assert(fi1 * n as int + pos1 == e0) by (nonlinear_arith)
                requires
                    e0 == fi0 * n as int + pos0,
                    (fi1 == fi0 && pos1 == pos0) || (fi1 == fi0 + 1 && pos1 == 0 && pos0
                        == n as int),
            ;
            assert(fi1 * n as int + pos1 < m as int * n as int) by (nonlinear_arith)
                requires
                    fi1 < m as int,
                    0 <= pos1 < n as int,
                    0 <= fi1,
            ;
            lemma_fundamental_div_mod_converse(e0, n as int, fi1, pos1);
        }
        let pair = (self.first.get(self.first_idx), self.second.get(self.second_pos));
        self.second_pos = self.second_pos + 1;
        proof {
            assert(self.emitted() as int == fi1 * n as int + pos1 + 1);
        }
        Some(pair)
    }
}

/// While the cursor is consistent, the count of yielded pairs never exceeds
/// the total.
proof fn lemma_emitted_bound<T, U>(it: ProductIter<T, U>)
    requires
        it.wf(),
    ensures
        it.emitted() <= it.total(),
{
    if !it.is_finished && it.seconds().len() > 0 && it.firsts().len() > 0 {
        let m = it.firsts().len() as int;
        let n = it.seconds().len() as int;
        assert(it.emitted() <= it.total()) by (nonlinear_arith)
            requires
                it.emitted() == it.first_idx * n + it.second_pos,
                it.total() == m * n,
                it.first_idx < m,
                it.second_pos <= n,
        ;
    }
}

impl<T: Copy, U: Copy> Product<(TestCases<T>, TestCases<U>)> {
    /// The pairs this product yields, in order.
    pub open spec fn spec_cases(self) -> Seq<(T, U)> {
        spec_product2(self.0.0@, self.0.1@)
    }

    /// Turns the product into an iterator over its pairs.
    pub fn into_iter(self) -> (it: ProductIter<T, U>)
        ensures
            it.wf(),
            it.emitted() == 0,
            it.firsts() == self.0.0@,
            it.seconds() == self.0.1@,
    {
        let (first, second) = self.0;
        ProductIter { first, second, first_idx: 0, second_pos: 0, is_finished: false }
    }

    /// All pairs this product yields, in order.
    pub fn all_cases(self) -> (r: Vec<(T, U)>)
        ensures
            r@ == self.spec_cases(),
    {
        let ghost expected = self.spec_cases();
        let mut it = self.into_iter();
        let mut out: Vec<(T, U)> = Vec::new();
        loop
            invariant
                it.wf(),
                spec_product2(it.firsts(), it.seconds()) == expected,
                it.emitted() <= it.total(),
                out@ == expected.take(it.emitted() as int),
            ensures
                out@ == expected,
            decreases it.total() - it.emitted(),
        {
            let ghost before = it.emitted();
            match it.next() {
                Some(pair) => {
                    out.push(pair);
                    proof {
                        assert(expected.take(before as int + 1) =~= expected.take(
                            before as int,
                        ).push(expected[before as int]));
                    }
                },
                None => {
                    proof {
                        assert(before == it.total());
                        assert(expected.len() == it.total());
                        assert(out@ =~= expected);
                    }
                    break;
                },
            }
        }
        out
    }
}

/// The triples of the Cartesian product of three sources, in row-major
/// order with the last component cycling fastest.
pub open spec fn spec_product3<T, U, V>(a: Seq<T>, b: Seq<U>, c: Seq<V>) -> Seq<(T, U, V)> {
    spec_product2(a, spec_product2(b, c)).map_values(|p: (T, (U, V))| (p.0, p.1.0, p.1.1))
}

impl<T: Copy, U: Copy, V: Copy> Product<(TestCases<T>, TestCases<U>, TestCases<V>)> {
    /// The triples this product yields, in order.
    pub open spec fn spec_cases(self) -> Seq<(T, U, V)> {
        spec_product3(self.0.0@, self.0.1@, self.0.2@)
    }

    /// All triples this product yields, in order.
    pub fn all_cases(self) -> (r: Vec<(T, U, V)>)
        ensures
            r@ == self.spec_cases(),
    {
        let ghost expected = self.spec_cases();
        let (a, b, c) = self.0;
        let tail = Product((b, c)).all_cases();
        let nested = Product((a, TestCases::new(tail))).all_cases();
        let mut out: Vec<(T, U, V)> = Vec::new();
        let mut i: usize = 0;
        while i < nested.len()
            invariant
                i <= nested@.len(),
                nested@.map_values(|p: (T, (U, V))| (p.0, p.1.0, p.1.1)) == expected,
                out@ == expected.take(i as int),
            decreases nested@.len() - i,
        {
            let p = nested[i];
            out.push((p.0, p.1.0, p.1.1));
            proof {
                assert(expected.take(i + 1) =~= expected.take(i as int).push(
                    expected[i as int],
                ));
            }
            i = i + 1;
        }
        proof {
            assert(expected.take(expected.len() as int) =~= expected);
        }
        out
    }
}

/// The quadruples of the Cartesian product of four sources, in row-major
/// order with the last component cycling fastest.
pub open spec fn spec_product4<T, U, V, W>(a: Seq<T>, b: Seq<U>, c: Seq<V>, d: Seq<W>) -> Seq<
    (T, U, V, W),
> {
    spec_product2(a, spec_product3(b, c, d)).map_values(
        |p: (T, (U, V, W))| (p.0, p.1.0, p.1.1, p.1.2),
    )
}

impl<T: Copy, U: Copy, V: Copy, W: Copy> Product<
    (TestCases<T>, TestCases<U>, TestCases<V>, TestCases<W>),
> {
    /// The quadruples this product yields, in order.
    pub open spec fn spec_cases(self) -> Seq<(T, U, V, W)> {
        spec_product4(self.0.0@, self.0.1@, self.0.2@, self.0.3@)
    }

    /// All quadruples this product yields, in order.
    pub fn all_cases(self) -> (r: Vec<(T, U, V, W)>)
        ensures
            r@ == self.spec_cases(),
    {
        let ghost expected = self.spec_cases();
        let (a, b, c, d) = self.0;
        let tail = Product((b, c, d)).all_cases();
        let nested = Product((a, TestCases::new(tail))).all_cases();
        let mut out: Vec<(T, U, V, W)> = Vec::new();
        let mut i: usize = 0;
        while i < nested.len()
            invariant
                i <= nested@.len(),
                nested@.map_values(|p: (T, (U, V, W))| (p.0, p.1.0, p.1.1, p.1.2)) == expected,
                out@ == expected.take(i as int),
            decreases nested@.len() - i,
        {
            let p = nested[i];
            out.push((p.0, p.1.0, p.1.1, p.1.2));
            proof {
                assert(expected.take(i + 1) =~= expected.take(i as int).push(expected[i as int]));
            }
            i = i + 1;
        }
        proof {
            assert(expected.take(expected.len() as int) =~= expected);
        }
        out
    }
}

/// The quintuples of the Cartesian product of five sources, in row-major
/// order with the last component cycling fastest.
pub open spec fn spec_product5<T, U, V, W, X>(
    a: Seq<T>,
    b: Seq<U>,
    c: Seq<V>,
    d: Seq<W>,
    e: Seq<X>,
) -> Seq<(T, U, V, W, X)> {
    spec_product2(a, spec_product4(b, c, d, e)).map_values(
        |p: (T, (U, V, W, X))| (p.0, p.1.0, p.1.1, p.1.2, p.1.3),
    )
}

impl<T: Copy, U: Copy, V: Copy, W: Copy, X: Copy> Product<
    (TestCases<T>, TestCases<U>, TestCases<V>, TestCases<W>, TestCases<X>),
> {
    /// The quintuples this product yields, in order.
    pub open spec fn spec_cases(self) -> Seq<(T, U, V, W, X)> {
        spec_product5(self.0.0@, self.0.1@, self.0.2@, self.0.3@, self.0.4@)
    }

    /// All quintuples this product yields, in order.
    pub fn all_cases(self) -> (r: Vec<(T, U, V, W, X)>)
        ensures
            r@ == self.spec_cases(),
    {
        let ghost expected = self.spec_cases();
        let (a, b, c, d, e) = self.0;
        let tail = Product((b, c, d, e)).all_cases();
        let nested = Product((a, TestCases::new(tail))).all_cases();
        let mut out: Vec<(T, U, V, W, X)> = Vec::new();
        let mut i: usize = 0;
        while i < nested.len()
            invariant
                i <= nested@.len(),
                nested@.map_values(|p: (T, (U, V, W, X))| (p.0, p.1.0, p.1.1, p.1.2, p.1.3))
                    == expected,
                out@ == expected.take(i as int),
            decreases nested@.len() - i,
        {
            let p = nested[i];
            out.push((p.0, p.1.0, p.1.1, p.1.2, p.1.3));
            proof {
                assert(expected.take(i + 1) =~= expected.take(i as int).push(expected[i as int]));
            }
            i = i + 1;
        }
        proof {
            assert(expected.take(expected.len() as int) =~= expected);
        }
        out
    }
}

/// The sextuples of the Cartesian product of six sources, in row-major
/// order with the last component cycling fastest.
pub open spec fn spec_product6<T, U, V, W, X, Y>(
    a: Seq<T>,
    b: Seq<U>,
    c: Seq<V>,
    d: Seq<W>,
    e: Seq<X>,
    f: Seq<Y>,
) -> Seq<(T, U, V, W, X, Y)> {
    spec_product2(a, spec_product5(b, c, d, e, f)).map_values(
        |p: (T, (U, V, W, X, Y))| (p.0, p.1.0, p.1.1, p.1.2, p.1.3, p.1.4),
    )
}

impl<T: Copy, U: Copy, V: Copy, W: Copy, X: Copy, Y: Copy> Product<
    (TestCases<T>, TestCases<U>, TestCases<V>, TestCases<W>, TestCases<X>, TestCases<Y>),
> {
    /// The sextuples this product yields, in order.
    pub open spec fn spec_cases(self) -> Seq<(T, U, V, W, X, Y)> {
        spec_product6(self.0.0@, self.0.1@, self.0.2@, self.0.3@, self.0.4@, self.0.5@)
    }

    /// All sextuples this product yields, in order.
    pub fn all_cases(self) -> (r: Vec<(T, U, V, W, X, Y)>)
        ensures
            r@ == self.spec_cases(),
    {
        let ghost expected = self.spec_cases();
        let (a, b, c, d, e, f) = self.0;
        let tail = Product((b, c, d, e, f)).all_cases();
        let nested = Product((a, TestCases::new(tail))).all_cases();
        let mut out: Vec<(T, U, V, W, X, Y)> = Vec::new();
        let mut i: usize = 0;
        while i < nested.len()
            invariant
                i <= nested@.len(),
                nested@.map_values(
                    |p: (T, (U, V, W, X, Y))| (p.0, p.1.0, p.1.1, p.1.2, p.1.3, p.1.4),
                ) == expected,
                out@ == expected.take(i as int),
            decreases nested@.len() - i,
        {
            let p = nested[i];
            out.push((p.0, p.1.0, p.1.1, p.1.2, p.1.3, p.1.4));
            proof {
                assert(expected.take(i + 1) =~= expected.take(i as int).push(expected[i as int]));
            }
            i = i + 1;
        }
        proof {
            assert(expected.take(expected.len() as int) =~= expected);
        }
        out
    }
}

/// The septuples of the Cartesian product of seven sources, in row-major
/// order with the last component cycling fastest.
pub open spec fn spec_product7<T, U, V, W, X, Y, Z>(
    a: Seq<T>,
    b: Seq<U>,
    c: Seq<V>,
    d: Seq<W>,
    e: Seq<X>,
    f: Seq<Y>,
    g: Seq<Z>,
) -> Seq<(T, U, V, W, X, Y, Z)> {
    spec_product2(a, spec_product6(b, c, d, e, f, g)).map_values(
        |p: (T, (U, V, W, X, Y, Z))| (p.0, p.1.0, p.1.1, p.1.2, p.1.3, p.1.4, p.1.5),
    )
}

impl<T: Copy, U: Copy, V: Copy, W: Copy, X: Copy, Y: Copy, Z: Copy> Product<
    (
        TestCases<T>,
        TestCases<U>,
        TestCases<V>,
        TestCases<W>,
        TestCases<X>,
        TestCases<Y>,
        TestCases<Z>,
    ),
> {
    /// The septuples this product yields, in order.
    pub open spec fn spec_cases(self) -> Seq<(T, U, V, W, X, Y, Z)> {
        spec_product7(
            self.0.0@,
            self.0.1@,
            self.0.2@,
            self.0.3@,
            self.0.4@,
            self.0.5@,
            self.0.6@,
        )
    }

    /// All septuples this product yields, in order.
    pub fn all_cases(self) -> (r: Vec<(T, U, V, W, X, Y, Z)>)
        ensures
            r@ == self.spec_cases(),
    {
        let ghost expected = self.spec_cases();
        let (a, b, c, d, e, f, g) = self.0;
        let tail = Product((b, c, d, e, f, g)).all_cases();
        let nested = Product((a, TestCases::new(tail))).all_cases();
        let mut out: Vec<(T, U, V, W, X, Y, Z)> = Vec::new();
        let mut i: usize = 0;
        while i < nested.len()
            invariant
                i <= nested@.len(),
                nested@.map_values(
                    |p: (T, (U, V, W, X, Y, Z))| (p.0, p.1.0, p.1.1, p.1.2, p.1.3, p.1.4, p.1.5),
                ) == expected,
                out@ == expected.take(i as int),
            decreases nested@.len() - i,
        {
            let p = nested[i];
            out.push((p.0, p.1.0, p.1.1, p.1.2, p.1.3, p.1.4, p.1.5));
            proof {
                assert(expected.take(i + 1) =~= expected.take(i as int).push(expected[i as int]));
            }
            i = i + 1;
        }
        proof {
            assert(expected.take(expected.len() as int) =~= expected);
        }
        out
    }
}

/// Whether a case source yields pairwise distinct cases.
pub open spec fn distinct_cases<A>(s: Seq<A>) -> bool {
    forall|i: int, j: int| 0 <= i < j < s.len() ==> s[i] != s[j]
}

/// The Cartesian product of sources with pairwise distinct cases yields
/// pairwise distinct pairs: no duplicates arise from crossing two sources.
pub proof fn lemma_product2_distinct<T, U>(a: Seq<T>, b: Seq<U>)
    requires
        distinct_cases(a),
        distinct_cases(b),
    ensures
        distinct_cases(spec_product2(a, b)),
{
    let p = spec_product2(a, b);
    let m = a.len() as int;
    let n = b.len() as int;
    assert forall|i: int, j: int| 0 <= i < j < p.len() implies p[i] != p[j] by {
        lemma_mul_is_commutative(m, n);
        lemma_mod_division_less_than_divisor(i, n);
        lemma_mod_division_less_than_divisor(j, n);
        lemma_div_pos_is_pos(i, n);
        lemma_div_pos_is_pos(j, n);
        lemma_multiply_divide_lt(i, n, m);
        lemma_multiply_divide_lt(j, n, m);
        lemma_div_is_ordered(i, j, n);
        if p[i] == p[j] {
            assert(a[i / n] == a[j / n] && b[i % n] == b[j % n]);
            assert(i / n == j / n);
            assert(i % n == j % n);
            lemma_fundamental_div_mod(i, n);
            lemma_fundamental_div_mod(j, n);
            assert(false);
        }
    }
}

/// The Cartesian product of three sources with pairwise distinct cases
/// yields exactly `a.len() * b.len() * c.len()` pairwise distinct triples:
/// no duplicates and no omissions.
pub proof fn lemma_product3_distinct<T, U, V>(a: Seq<T>, b: Seq<U>, c: Seq<V>)
    requires
        distinct_cases(a),
        distinct_cases(b),
        distinct_cases(c),
    ensures
        spec_product3(a, b, c).len() == a.len() * b.len() * c.len(),
        distinct_cases(spec_product3(a, b, c)),
{
    lemma_product2_distinct(b, c);
    lemma_product2_distinct(a, spec_product2(b, c));
    let nested = spec_product2(a, spec_product2(b, c));
    let p = spec_product3(a, b, c);
    assert forall|i: int, j: int| 0 <= i < j < p.len() implies p[i] != p[j] by {
        if p[i] == p[j] {
            assert(nested[i].0 == nested[j].0 && nested[i].1.0 == nested[j].1.0 && nested[i].1.1
                == nested[j].1.1);
            assert(nested[i] == nested[j]);
            assert(false);
        }
    }
    lemma_mul_is_associative(a.len() as int, b.len() as int, c.len() as int);
}

} // verus!
