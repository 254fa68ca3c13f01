//! The reductions themselves: a borrowed slice wrapper whose `sum`, `min`
//! and `max` run a lane-wise accumulation over the longest prefix that fills
//! whole vector blocks, combine the lanes horizontally (linearly, left to
//! right), and fold the remaining tail elements in index order.

use vstd::prelude::*;

use crate::elem::ReduceElement;
use crate::model::{
    lemma_fold_lanes_add, lemma_fold_lanes_bmax, lemma_fold_lanes_bmin, lemma_max_snoc,
    lemma_min_snoc, lemma_sum_snoc, spec_bmax, spec_bmin, spec_max, spec_min, spec_sum,
};
use crate::LANES;

verus! {

/// A borrowed, read-only, contiguous view of numeric values. It never owns
/// or mutates the underlying storage; each reduction is a pure function of
/// the viewed contents.
pub struct SimdSlice<'a, T>(&'a [T]);

impl<'a, T> View for SimdSlice<'a, T> {
    type V = Seq<T>;

    closed spec fn view(&self) -> Seq<T> {
        self.0@
    }
}

/// Borrowing conversion into a [`SimdSlice`] over the same elements.
pub trait AsSimdSlice<T>: View<V = Seq<T>> {
    fn as_simd_slice<'a>(&'a self) -> (r: SimdSlice<'a, T>)
        ensures
            r@ == self@,
    ;
}

impl<T> AsSimdSlice<T> for [T] {
    fn as_simd_slice<'a>(&'a self) -> (r: SimdSlice<'a, T>) {
        SimdSlice(self)
    }
}

impl<'a, T: ReduceElement> SimdSlice<'a, T> {
    /// The sum of all elements under the element type's wrapping addition,
    /// taken left to right; the sum of an empty slice is the additive
    /// identity.
    pub fn sum(&self) -> (r: T)
        ensures
            r == spec_sum(self@),
    {
        let len: usize = self.0.len();
        // The longest prefix that fills whole vector blocks.
        let n: usize = len - (len % LANES);
        let mut a0: T = T::exec_zero();
        let mut a1: T = T::exec_zero();
        let mut a2: T = T::exec_zero();
        let mut a3: T = T::exec_zero();
        let mut i: usize = 0;
        proof {
            T::lemma_add_zero(T::spec_zero());
            assert(self@.take(0) =~= Seq::<T>::empty());
        }
        while i < n
            invariant
                i % LANES == 0,
                n % LANES == 0,
                i <= n <= len,
                len == self@.len(),
                T::spec_add(T::spec_add(T::spec_add(a0, a1), a2), a3) == spec_sum(
                    self@.take(i as int),
                ),
            decreases n - i,
        {
            // In bounds: both i and n are multiples of LANES, so i < n
            // gives i + LANES <= n <= len.
            let x0: T = self.0[i];
            let x1: T = self.0[i + 1];
            let x2: T = self.0[i + 2];
            let x3: T = self.0[i + 3];
            proof {
                lemma_sum_snoc(self@, i as int);
                lemma_sum_snoc(self@, i as int + 1);
                lemma_sum_snoc(self@, i as int + 2);
                lemma_sum_snoc(self@, i as int + 3);
                lemma_fold_lanes_add(a0, a1, a2, a3, x0, x1, x2, x3);
            }
            a0 = T::exec_add(a0, x0);
            a1 = T::exec_add(a1, x1);
            a2 = T::exec_add(a2, x2);
            a3 = T::exec_add(a3, x3);
            i = i + LANES;
        }
        // Horizontal combine, linearly from the first lane to the last.
        let mut acc: T = T::exec_add(T::exec_add(T::exec_add(a0, a1), a2), a3);
        while i < len
            invariant
                i <= len,
                len == self@.len(),
                acc == spec_sum(self@.take(i as int)),
            decreases len - i,
        {
            let x: T = self.0[i];
            proof {
                lemma_sum_snoc(self@, i as int);
            }
            acc = T::exec_add(acc, x);
            i = i + 1;
        }
        proof {
            assert(self@.take(len as int) =~= self@);
        }
        acc
    }

    /// The least element under the element type's strict order, or `None`
    /// exactly when the slice is empty.
    pub fn min(&self) -> (r: Option<T>)
        ensures
            r is None <==> self@.len() == 0,
            self@.len() > 0 ==> r == Some(spec_min(self@)),
    {
        let len: usize = self.0.len();
        let n: usize = len - (len % LANES);
        if n > 0 {
            // There is no safe identity element to pad with, so the
            // accumulator is seeded from the first whole block.
            let mut a0: T = self.0[0];
            let mut a1: T = self.0[1];
            let mut a2: T = self.0[2];
            let mut a3: T = self.0[3];
            let mut i: usize = LANES;
            proof {
                lemma_min_snoc(self@, 1);
                lemma_min_snoc(self@, 2);
                lemma_min_snoc(self@, 3);
                assert(self@.take(1)[0] == self@[0]);
            }
            while i < n
                invariant
                    i % LANES == 0,
                    n % LANES == 0,
                    LANES <= i <= n <= len,
                    len == self@.len(),
                    spec_bmin(spec_bmin(spec_bmin(a0, a1), a2), a3) == spec_min(
                        self@.take(i as int),
                    ),
                decreases n - i,
            {
                let x0: T = self.0[i];
                let x1: T = self.0[i + 1];
                let x2: T = self.0[i + 2];
                let x3: T = self.0[i + 3];
                proof {
                    lemma_min_snoc(self@, i as int);
                    lemma_min_snoc(self@, i as int + 1);
                    lemma_min_snoc(self@, i as int + 2);
                    lemma_min_snoc(self@, i as int + 3);
                    lemma_fold_lanes_bmin(a0, a1, a2, a3, x0, x1, x2, x3);
                }
                a0 = if T::exec_lt(x0, a0) { x0 } else { a0 };
                a1 = if T::exec_lt(x1, a1) { x1 } else { a1 };
                a2 = if T::exec_lt(x2, a2) { x2 } else { a2 };
                a3 = if T::exec_lt(x3, a3) { x3 } else { a3 };
                i = i + LANES;
            }
            // Horizontal combine, linearly from the first lane to the last.
            let m01 = if T::exec_lt(a1, a0) { a1 } else { a0 };
            let m012 = if T::exec_lt(a2, m01) { a2 } else { m01 };
            let mut acc: T = if T::exec_lt(a3, m012) { a3 } else { m012 };
            while i < len
                invariant
                    1 <= i <= len,
                    len == self@.len(),
                    acc == spec_min(self@.take(i as int)),
                decreases len - i,
            {
                let x: T = self.0[i];
                proof {
                    lemma_min_snoc(self@, i as int);
                }
                if T::exec_lt(x, acc) {
                    acc = x;
                }
                i = i + 1;
            }
            proof {
                assert(self@.take(len as int) =~= self@);
            }
            Some(acc)
        } else if len > 0 {
            // Fewer elements than one vector block: an honest scalar scan.
            let mut acc: T = self.0[0];
            let mut i: usize = 1;
            proof {
                assert(self@.take(1)[0] == self@[0]);
            }
            while i < len
                invariant
                    1 <= i <= len,
                    len == self@.len(),
                    acc == spec_min(self@.take(i as int)),
                decreases len - i,
            {
                let x: T = self.0[i];
                proof {
                    lemma_min_snoc(self@, i as int);
                }
                if T::exec_lt(x, acc) {
                    acc = x;
                }
                i = i + 1;
            }
            proof {
                assert(self@.take(len as int) =~= self@);
            }
            Some(acc)
        } else {
            None
        }
    }

    /// The greatest element under the element type's strict order, or
    /// `None` exactly when the slice is empty.
    pub fn max(&self) -> (r: Option<T>)
        ensures
            r is None <==> self@.len() == 0,
            self@.len() > 0 ==> r == Some(spec_max(self@)),
    {
        let len: usize = self.0.len();
        let n: usize = len - (len % LANES);
        if n > 0 {
            // There is no safe identity element to pad with, so the
            // accumulator is seeded from the first whole block.
            let mut a0: T = self.0[0];
            let mut a1: T = self.0[1];
            let mut a2: T = self.0[2];
            let mut a3: T = self.0[3];
            let mut i: usize = LANES;
            proof {
                lemma_max_snoc(self@, 1);
                lemma_max_snoc(self@, 2);
                lemma_max_snoc(self@, 3);
                assert(self@.take(1)[0] == self@[0]);
            }
            while i < n
                invariant
                    i % LANES == 0,
                    n % LANES == 0,
                    LANES <= i <= n <= len,
                    len == self@.len(),
                    spec_bmax(spec_bmax(spec_bmax(a0, a1), a2), a3) == spec_max(
                        self@.take(i as int),
                    ),
                decreases n - i,
            {
                let x0: T = self.0[i];
                let x1: T = self.0[i + 1];
                let x2: T = self.0[i + 2];
                let x3: T = self.0[i + 3];
                proof {
                    lemma_max_snoc(self@, i as int);
                    lemma_max_snoc(self@, i as int + 1);
                    lemma_max_snoc(self@, i as int + 2);
                    lemma_max_snoc(self@, i as int + 3);
                    lemma_fold_lanes_bmax(a0, a1, a2, a3, x0, x1, x2, x3);
                }
                a0 = if T::exec_lt(a0, x0) { x0 } else { a0 };
                a1 = if T::exec_lt(a1, x1) { x1 } else { a1 };
                a2 = if T::exec_lt(a2, x2) { x2 } else { a2 };
                a3 = if T::exec_lt(a3, x3) { x3 } else { a3 };
                i = i + LANES;
            }
            // Horizontal combine, linearly from the first lane to the last.
            let m01 = if T::exec_lt(a0, a1) { a1 } else { a0 };
            let m012 = if T::exec_lt(m01, a2) { a2 } else { m01 };
            let mut acc: T = if T::exec_lt(m012, a3) { a3 } else { m012 };
            while i < len
                invariant
                    1 <= i <= len,
                    len == self@.len(),
                    acc == spec_max(self@.take(i as int)),
                decreases len - i,
            {
                let x: T = self.0[i];
                proof {
                    lemma_max_snoc(self@, i as int);
                }
                if T::exec_lt(acc, x) {
                    acc = x;
                }
                i = i + 1;
            }
            proof {
                assert(self@.take(len as int) =~= self@);
            }
            Some(acc)
        } else if len > 0 {
            // Fewer elements than one vector block: an honest scalar scan.
            let mut acc: T = self.0[0];
            let mut i: usize = 1;
            proof {
                assert(self@.take(1)[0] == self@[0]);
            }
            while i < len
                invariant
                    1 <= i <= len,
                    len == self@.len(),
                    acc == spec_max(self@.take(i as int)),
                decreases len - i,
            {
                let x: T = self.0[i];
                proof {
                    lemma_max_snoc(self@, i as int);
                }
                if T::exec_lt(acc, x) {
                    acc = x;
                }
                i = i + 1;
            }
            proof {
                assert(self@.take(len as int) =~= self@);
            }
            Some(acc)
        } else {
            None
        }
    }
}

} // verus!
