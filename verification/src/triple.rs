//! A triple of scalar measurements with strictly componentwise arithmetic.
//!
//! Every operation treats the three positions independently: the first field
//! of a result depends only on the first fields of the operands, and so on.
//! Contracts are stated over an unbounded-integer model of each triple, so
//! the componentwise laws (commutativity, exact round trips, order-independent
//! summation) are proved once at the model level and inherited by the
//! executable operations.

use vstd::prelude::*;

verus! {

/// Three independent scalar measurements, tracked positionally and never
/// cross-mixed by any operation.
#[derive(Clone, Copy, PartialEq, Eq, Structural, Debug)]
pub struct Triple(pub i64, pub i64, pub i64);

impl View for Triple {
    type V = (int, int, int);

    open spec fn view(&self) -> (int, int, int) {
        (self.0 as int, self.1 as int, self.2 as int)
    }
}

/// Componentwise sum over unbounded integers.
pub open spec fn add_model(a: (int, int, int), b: (int, int, int)) -> (int, int, int) {
    (a.0 + b.0, a.1 + b.1, a.2 + b.2)
}

/// Componentwise difference over unbounded integers.
pub open spec fn sub_model(a: (int, int, int), b: (int, int, int)) -> (int, int, int) {
    (a.0 - b.0, a.1 - b.1, a.2 - b.2)
}

/// Componentwise product over unbounded integers.
pub open spec fn mul_model(a: (int, int, int), b: (int, int, int)) -> (int, int, int) {
    (a.0 * b.0, a.1 * b.1, a.2 * b.2)
}

/// Each component multiplied by the same scalar, over unbounded integers.
pub open spec fn scale_model(a: (int, int, int), s: int) -> (int, int, int) {
    (a.0 * s, a.1 * s, a.2 * s)
}

/// Componentwise running sum of a sequence of triples, starting from zero.
pub open spec fn sum_model(s: Seq<Triple>) -> (int, int, int)
    decreases s.len(),
{
    if s.len() == 0 {
        (0int, 0int, 0int)
    } else {
        add_model(sum_model(s.drop_last()), s.last()@)
    }
}

/// True when each component lies within the range of an `i64`, so the tuple
/// is representable as a `Triple`.
pub open spec fn in_range(v: (int, int, int)) -> bool {
    &&& i64::MIN <= v.0 <= i64::MAX
    &&& i64::MIN <= v.1 <= i64::MAX
    &&& i64::MIN <= v.2 <= i64::MAX
}

impl Triple {
    /// Componentwise sum, as a new triple.
    pub fn add(self, rhs: Triple) -> (r: Triple)
        requires
            in_range(add_model(self@, rhs@)),
        ensures
            r@ == add_model(self@, rhs@),
    {
        Triple(self.0 + rhs.0, self.1 + rhs.1, self.2 + rhs.2)
    }

    /// Replaces `self` with the componentwise sum of `self` and `rhs`.
    pub fn add_in_place(&mut self, rhs: Triple)
        requires
            in_range(add_model(old(self)@, rhs@)),
        ensures
            final(self)@ == add_model(old(self)@, rhs@),
    {
        *self = Triple(self.0 + rhs.0, self.1 + rhs.1, self.2 + rhs.2);
    }

    /// Componentwise difference, as a new triple.
    pub fn sub(self, rhs: Triple) -> (r: Triple)
        requires
            in_range(sub_model(self@, rhs@)),
        ensures
            r@ == sub_model(self@, rhs@),
    {
        Triple(self.0 - rhs.0, self.1 - rhs.1, self.2 - rhs.2)
    }

    /// Replaces `self` with the componentwise difference of `self` and `rhs`.
    pub fn sub_in_place(&mut self, rhs: Triple)
        requires
            in_range(sub_model(old(self)@, rhs@)),
        ensures
            final(self)@ == sub_model(old(self)@, rhs@),
    {
        *self = Triple(self.0 - rhs.0, self.1 - rhs.1, self.2 - rhs.2);
    }

    /// Componentwise product, as a new triple.
    pub fn mul(self, rhs: Triple) -> (r: Triple)
        requires
            in_range(mul_model(self@, rhs@)),
        ensures
            r@ == mul_model(self@, rhs@),
    {
        Triple(self.0 * rhs.0, self.1 * rhs.1, self.2 * rhs.2)
    }

    /// Replaces `self` with the componentwise product of `self` and `rhs`.
    pub fn mul_in_place(&mut self, rhs: Triple)
        requires
            in_range(mul_model(old(self)@, rhs@)),
        ensures
            final(self)@ == mul_model(old(self)@, rhs@),
    {
        *self = Triple(self.0 * rhs.0, self.1 * rhs.1, self.2 * rhs.2);
    }

    /// Each component multiplied by the scalar `s`, as a new triple.
    pub fn mul_scalar(self, s: i64) -> (r: Triple)
        requires
            in_range(scale_model(self@, s as int)),
        ensures
            r@ == scale_model(self@, s as int),
    {
        Triple(self.0 * s, self.1 * s, self.2 * s)
    }

    /// Multiplies each component of `self` by the scalar `s` in place.
    pub fn mul_scalar_in_place(&mut self, s: i64)
        requires
            in_range(scale_model(old(self)@, s as int)),
        ensures
            final(self)@ == scale_model(old(self)@, s as int),
    {
        *self = Triple(self.0 * s, self.1 * s, self.2 * s);
    }

    /// A structurally identical copy of `self`: no magnitude is taken, and
    /// negative components are preserved as they are.
    pub fn abs_copy(&self) -> (r: Triple)
        ensures
            r == *self,
    {
        Triple(self.0, self.1, self.2)
    }

    /// True iff all three corresponding components are exactly equal.
    pub fn equals(self, rhs: Triple) -> (r: bool)
        ensures
            r <==> self@ == rhs@,
    {
        self.0 == rhs.0 && self.1 == rhs.1 && self.2 == rhs.2
    }

    /// Componentwise sum of every triple in `items`, starting from the zero
    /// triple; an empty vector yields the zero triple.
    pub fn sum(items: &Vec<Triple>) -> (r: Triple)
        requires
            forall|i: int|
                0 <= i <= items@.len() ==> in_range(sum_model(#[trigger] items@.take(i))),
        ensures
            r@ == sum_model(items@),
    {
        let mut acc = Triple(0, 0, 0);
        let mut i: usize = 0;
        while i < items.len()
            invariant
                0 <= i <= items@.len(),
                acc@ == sum_model(items@.take(i as int)),
                forall|j: int|
                    0 <= j <= items@.len() ==> in_range(sum_model(#[trigger] items@.take(j))),
            decreases items@.len() - i,
        {
            let x = items[i];
            proof {
                assert(items@.take(i + 1).drop_last() =~= items@.take(i as int));
                assert(items@.take(i + 1).last() == items@[i as int]);
            }
            acc = Triple(acc.0 + x.0, acc.1 + x.1, acc.2 + x.2);
            i = i + 1;
        }
        proof {
            assert(items@.take(items@.len() as int) =~= items@);
        }
        acc
    }
}

impl Default for Triple {
    /// The all-zero triple.
    fn default() -> (r: Triple)
        ensures
            r@ == (0int, 0int, 0int),
    {
        Triple(0, 0, 0)
    }
}

/// Componentwise addition is commutative: adding two triples in either
/// order gives the same result.
pub proof fn lemma_add_commutative(a: Triple, b: Triple)
    ensures
        add_model(a@, b@) == add_model(b@, a@),
{
}

/// Subtracting a triple and then adding it back restores the original
/// exactly.
pub proof fn lemma_sub_then_add(a: Triple, b: Triple)
    ensures
        add_model(sub_model(a@, b@), b@) == a@,
{
}

/// Componentwise multiplication is commutative: multiplying two triples in
/// either order gives the same result.
pub proof fn lemma_mul_commutative(a: Triple, b: Triple)
    ensures
        mul_model(a@, b@) == mul_model(b@, a@),
{
}

/// Scaling a triple by one leaves it unchanged.
pub proof fn lemma_scale_by_one(a: Triple)
    ensures
        scale_model(a@, 1) == a@,
{
}

/// Scaling a triple by zero yields the zero triple.
pub proof fn lemma_scale_by_zero(a: Triple)
    ensures
        scale_model(a@, 0) == (0int, 0int, 0int),
{
}

/// The sum of the empty sequence is the zero triple.
pub proof fn lemma_sum_empty()
    ensures
        sum_model(Seq::<Triple>::empty()) == (0int, 0int, 0int),
{
}

/// The sum of a one-element sequence is that element.
pub proof fn lemma_sum_singleton(x: Triple)
    ensures
        sum_model(seq![x]) == x@,
{
    assert(seq![x].last() == x);
    assert(sum_model(seq![x].drop_last()) == (0int, 0int, 0int));
}

/// Summation distributes over concatenation, so the total does not depend
/// on how a sequence is split into groups or on the order in which the
/// groups are combined.
pub proof fn lemma_sum_concat(s: Seq<Triple>, t: Seq<Triple>)
    ensures
        sum_model(s + t) == add_model(sum_model(s), sum_model(t)),
    decreases t.len(),
{
    if t.len() == 0 {
        assert(s + t =~= s);
    } else {
        lemma_sum_concat(s, t.drop_last());
        assert((s + t).drop_last() =~= s + t.drop_last());
    }
}

/// Summing two groups of triples in either order gives the same total.
pub proof fn lemma_sum_order_independent(s: Seq<Triple>, t: Seq<Triple>)
    ensures
        sum_model(s + t) == sum_model(t + s),
{
    lemma_sum_concat(s, t);
    lemma_sum_concat(t, s);
}

} // verus!
