//! The mathematical model of the reductions: plain scalar, left-to-right
//! folds over a sequence. Each vectorized implementation is proved to return
//! exactly the value of the corresponding fold, so these spec functions are
//! the reference the contracts speak of.

use vstd::prelude::*;
use vstd::calc;

use crate::elem::ReduceElement;

verus! {

/// Binary minimum under the element order; a tie keeps the left argument.
pub open spec fn spec_bmin<T: ReduceElement>(a: T, b: T) -> T {
    if T::spec_lt(b, a) {
        b
    } else {
        a
    }
}

/// Binary maximum under the element order; a tie keeps the left argument.
pub open spec fn spec_bmax<T: ReduceElement>(a: T, b: T) -> T {
    if T::spec_lt(a, b) {
        b
    } else {
        a
    }
}

/// The scalar, left-to-right sum of a sequence, seeded with the additive
/// identity; the sum of an empty sequence is the identity itself.
pub open spec fn spec_sum<T: ReduceElement>(s: Seq<T>) -> T
    decreases s.len(),
{
    if s.len() == 0 {
        T::spec_zero()
    } else {
        T::spec_add(spec_sum(s.drop_last()), s.last())
    }
}

/// The scalar, left-to-right minimum of a non-empty sequence, starting from
/// its first element.
pub open spec fn spec_min<T: ReduceElement>(s: Seq<T>) -> T
    recommends
        s.len() > 0,
    decreases s.len(),
{
    if s.len() <= 1 {
        s[0]
    } else {
        spec_bmin(spec_min(s.drop_last()), s.last())
    }
}

/// The scalar, left-to-right maximum of a non-empty sequence, starting from
/// its first element.
pub open spec fn spec_max<T: ReduceElement>(s: Seq<T>) -> T
    recommends
        s.len() > 0,
    decreases s.len(),
{
    if s.len() <= 1 {
        s[0]
    } else {
        spec_bmax(spec_max(s.drop_last()), s.last())
    }
}

/// Extending the summed prefix by one element adds that element.
pub(crate) proof fn lemma_sum_snoc<T: ReduceElement>(s: Seq<T>, k: int)
    requires
        0 <= k < s.len(),
    ensures
        spec_sum(s.take(k + 1)) == T::spec_add(spec_sum(s.take(k)), s[k]),
{
    assert(s.take(k + 1).drop_last() =~= s.take(k));
    assert(s.take(k + 1).last() == s[k]);
}

/// Extending the scanned prefix by one element folds it in by `spec_bmin`.
pub(crate) proof fn lemma_min_snoc<T: ReduceElement>(s: Seq<T>, k: int)
    requires
        1 <= k < s.len(),
    ensures
        spec_min(s.take(k + 1)) == spec_bmin(spec_min(s.take(k)), s[k]),
{
    assert(s.take(k + 1).drop_last() =~= s.take(k));
    assert(s.take(k + 1).last() == s[k]);
}

/// Extending the scanned prefix by one element folds it in by `spec_bmax`.
pub(crate) proof fn lemma_max_snoc<T: ReduceElement>(s: Seq<T>, k: int)
    requires
        1 <= k < s.len(),
    ensures
        spec_max(s.take(k + 1)) == spec_bmax(spec_max(s.take(k)), s[k]),
{
    assert(s.take(k + 1).drop_last() =~= s.take(k));
    assert(s.take(k + 1).last() == s[k]);
}

/// The interchange law of a commutative, associative operator.
proof fn lemma_op_interchange<T>(op: spec_fn(T, T) -> T, a: T, b: T, c: T, d: T)
    requires
        forall|x: T, y: T| #[trigger] op(x, y) == op(y, x),
        forall|x: T, y: T, z: T| #[trigger] op(op(x, y), z) == op(x, op(y, z)),
    ensures
        op(op(a, b), op(c, d)) == op(op(a, c), op(b, d)),
{
    calc! {
        (==)
        op(op(a, b), op(c, d)); {}
        op(a, op(b, op(c, d))); {}
        op(a, op(op(b, c), d)); {}
        op(a, op(op(c, b), d)); {}
        op(a, op(c, op(b, d))); {}
        op(op(a, c), op(b, d));
    }
}

/// Folding a block of four elements lane-wise into four accumulators and
/// then combining the lanes linearly equals combining the old lanes first
/// and folding the four elements in, one at a time, in order — for any
/// commutative, associative operator.
proof fn lemma_fold_lanes<T>(
    op: spec_fn(T, T) -> T,
    a0: T,
    a1: T,
    a2: T,
    a3: T,
    x0: T,
    x1: T,
    x2: T,
    x3: T,
)
    requires
        forall|x: T, y: T| #[trigger] op(x, y) == op(y, x),
        forall|x: T, y: T, z: T| #[trigger] op(op(x, y), z) == op(x, op(y, z)),
    ensures
        op(op(op(op(a0, x0), op(a1, x1)), op(a2, x2)), op(a3, x3)) == op(
            op(op(op(op(op(op(a0, a1), a2), a3), x0), x1), x2),
            x3,
        ),
{
    lemma_op_interchange(op, a0, x0, a1, x1);
    lemma_op_interchange(op, op(a0, a1), op(x0, x1), a2, x2);
    lemma_op_interchange(op, op(op(a0, a1), a2), op(op(x0, x1), x2), a3, x3);
    let l = op(op(op(a0, a1), a2), a3);
    assert(op(op(l, x0), x1) == op(l, op(x0, x1)));
    assert(op(op(l, op(x0, x1)), x2) == op(l, op(op(x0, x1), x2)));
    assert(op(op(l, op(op(x0, x1), x2)), x3) == op(l, op(op(op(x0, x1), x2), x3)));
}

/// `lemma_fold_lanes`, specialized to the element type's wrapping addition.
pub(crate) proof fn lemma_fold_lanes_add<T: ReduceElement>(
    a0: T,
    a1: T,
    a2: T,
    a3: T,
    x0: T,
    x1: T,
    x2: T,
    x3: T,
)
    ensures
        T::spec_add(
            T::spec_add(T::spec_add(T::spec_add(a0, x0), T::spec_add(a1, x1)), T::spec_add(a2, x2)),
            T::spec_add(a3, x3),
        ) == T::spec_add(
            T::spec_add(
                T::spec_add(T::spec_add(T::spec_add(T::spec_add(T::spec_add(a0, a1), a2), a3), x0), x1),
                x2,
            ),
            x3,
        ),
{
    let op = (|x: T, y: T| T::spec_add(x, y));
    assert forall|x: T, y: T| #[trigger] op(x, y) == op(y, x) by {
        T::lemma_add_comm(x, y);
    }
    assert forall|x: T, y: T, z: T| #[trigger] op(op(x, y), z) == op(x, op(y, z)) by {
        T::lemma_add_assoc(x, y, z);
    }
    lemma_fold_lanes(op, a0, a1, a2, a3, x0, x1, x2, x3);
}

/// `lemma_fold_lanes`, specialized to the binary minimum.
pub(crate) proof fn lemma_fold_lanes_bmin<T: ReduceElement>(
    a0: T,
    a1: T,
    a2: T,
    a3: T,
    x0: T,
    x1: T,
    x2: T,
    x3: T,
)
    ensures
        spec_bmin(
            spec_bmin(spec_bmin(spec_bmin(a0, x0), spec_bmin(a1, x1)), spec_bmin(a2, x2)),
            spec_bmin(a3, x3),
        ) == spec_bmin(
            spec_bmin(
                spec_bmin(spec_bmin(spec_bmin(spec_bmin(spec_bmin(a0, a1), a2), a3), x0), x1),
                x2,
            ),
            x3,
        ),
{
    let op = (|x: T, y: T| spec_bmin(x, y));
    assert forall|x: T, y: T| #[trigger] op(x, y) == op(y, x) by {
        T::lemma_lt_order(x, y, y);
    }
    assert forall|x: T, y: T, z: T| #[trigger] op(op(x, y), z) == op(x, op(y, z)) by {
        T::lemma_lt_order(x, y, z);
        T::lemma_lt_order(x, z, y);
        T::lemma_lt_order(y, x, z);
        T::lemma_lt_order(y, z, x);
        T::lemma_lt_order(z, x, y);
        T::lemma_lt_order(z, y, x);
    }
    lemma_fold_lanes(op, a0, a1, a2, a3, x0, x1, x2, x3);
}

/// `lemma_fold_lanes`, specialized to the binary maximum.
pub(crate) proof fn lemma_fold_lanes_bmax<T: ReduceElement>(
    a0: T,
    a1: T,
    a2: T,
    a3: T,
    x0: T,
    x1: T,
    x2: T,
    x3: T,
)
    ensures
        spec_bmax(
            spec_bmax(spec_bmax(spec_bmax(a0, x0), spec_bmax(a1, x1)), spec_bmax(a2, x2)),
            spec_bmax(a3, x3),
        ) == spec_bmax(
            spec_bmax(
                spec_bmax(spec_bmax(spec_bmax(spec_bmax(spec_bmax(a0, a1), a2), a3), x0), x1),
                x2,
            ),
            x3,
        ),
{
    let op = (|x: T, y: T| spec_bmax(x, y));
    assert forall|x: T, y: T| #[trigger] op(x, y) == op(y, x) by {
        T::lemma_lt_order(x, y, y);
    }
    assert forall|x: T, y: T, z: T| #[trigger] op(op(x, y), z) == op(x, op(y, z)) by {
        T::lemma_lt_order(x, y, z);
        T::lemma_lt_order(x, z, y);
        T::lemma_lt_order(y, x, z);
        T::lemma_lt_order(y, z, x);
        T::lemma_lt_order(z, x, y);
        T::lemma_lt_order(z, y, x);
    }
    lemma_fold_lanes(op, a0, a1, a2, a3, x0, x1, x2, x3);
}

} // verus!
