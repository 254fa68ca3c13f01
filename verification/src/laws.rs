//! Properties of the reference folds, stated and proved once for every
//! element type: the minimum and maximum folds return a true extremum of
//! the sequence, and every reduction is a pure function of the sequence
//! contents.

use vstd::prelude::*;

use crate::elem::ReduceElement;
use crate::model::{spec_bmax, spec_bmin, spec_max, spec_min, spec_sum};

verus! {

/// The minimum fold of a non-empty sequence returns an element of the
/// sequence that is less than or equal to every element: the true minimum
/// under the element type's order.
pub proof fn lemma_min_is_least<T: ReduceElement>(s: Seq<T>)
    requires
        s.len() > 0,
    ensures
        s.contains(spec_min(s)),
        forall|j: int| 0 <= j < s.len() ==> !T::spec_lt(#[trigger] s[j], spec_min(s)),
    decreases s.len(),
{
    let m = spec_min(s);
    if s.len() == 1 {
        assert(s[0] == m);
        assert(s.contains(m));
        assert forall|j: int| 0 <= j < s.len() implies !T::spec_lt(#[trigger] s[j], m) by {
            T::lemma_lt_order(s[j], m, m);
        }
    } else {
        let d = s.drop_last();
        lemma_min_is_least::<T>(d);
        let m0 = spec_min(d);
        assert(m == spec_bmin(m0, s.last()));
        if T::spec_lt(s.last(), m0) {
            assert(s[s.len() - 1] == m);
            assert(s.contains(m));
            assert forall|j: int| 0 <= j < s.len() implies !T::spec_lt(#[trigger] s[j], m) by {
                if j < s.len() - 1 {
                    assert(d[j] == s[j]);
                    assert(!T::spec_lt(s[j], m0));
                    T::lemma_lt_order(s[j], m, m0);
                } else {
                    T::lemma_lt_order(s[j], m, m);
                }
            }
        } else {
            let j0 = choose|j: int| 0 <= j < d.len() && d[j] == m0;
            assert(s[j0] == m);
            assert(s.contains(m));
            assert forall|j: int| 0 <= j < s.len() implies !T::spec_lt(#[trigger] s[j], m) by {
                if j < s.len() - 1 {
                    assert(d[j] == s[j]);
                } else {
                    assert(s[j] == s.last());
                    T::lemma_lt_order(s.last(), m0, m0);
                }
            }
        }
    }
}

/// The maximum fold of a non-empty sequence returns an element of the
/// sequence that is greater than or equal to every element: the true
/// maximum under the element type's order.
pub proof fn lemma_max_is_greatest<T: ReduceElement>(s: Seq<T>)
    requires
        s.len() > 0,
    ensures
        s.contains(spec_max(s)),
        forall|j: int| 0 <= j < s.len() ==> !T::spec_lt(spec_max(s), #[trigger] s[j]),
    decreases s.len(),
{
    let m = spec_max(s);
    if s.len() == 1 {
        assert(s[0] == m);
        assert(s.contains(m));
        assert forall|j: int| 0 <= j < s.len() implies !T::spec_lt(m, #[trigger] s[j]) by {
            T::lemma_lt_order(s[j], m, m);
        }
    } else {
        let d = s.drop_last();
        lemma_max_is_greatest::<T>(d);
        let m0 = spec_max(d);
        assert(m == spec_bmax(m0, s.last()));
        if T::spec_lt(m0, s.last()) {
            assert(s[s.len() - 1] == m);
            assert(s.contains(m));
            assert forall|j: int| 0 <= j < s.len() implies !T::spec_lt(m, #[trigger] s[j]) by {
                if j < s.len() - 1 {
                    assert(d[j] == s[j]);
                    assert(!T::spec_lt(m0, s[j]));
                    T::lemma_lt_order(m0, m, s[j]);
                    T::lemma_lt_order(m, s[j], m0);
                } else {
                    T::lemma_lt_order(s[j], m, m);
                }
            }
        } else {
            let j0 = choose|j: int| 0 <= j < d.len() && d[j] == m0;
            assert(s[j0] == m);
            assert(s.contains(m));
            assert forall|j: int| 0 <= j < s.len() implies !T::spec_lt(m, #[trigger] s[j]) by {
                if j < s.len() - 1 {
                    assert(d[j] == s[j]);
                } else {
                    assert(s[j] == s.last());
                    T::lemma_lt_order(m0, s.last(), s.last());
                }
            }
        }
    }
}

/// Each reduction is a pure function of the sequence contents: two
/// sequences with the same elements reduce to the same values, so repeated
/// calls over an unchanged slice return identical results.
pub proof fn lemma_reductions_deterministic<T: ReduceElement>(s1: Seq<T>, s2: Seq<T>)
    requires
        s1 == s2,
    ensures
        spec_sum(s1) == spec_sum(s2),
        s1.len() > 0 ==> spec_min(s1) == spec_min(s2),
        s1.len() > 0 ==> spec_max(s1) == spec_max(s2),
{
}

} // verus!
