//! The capability set a scalar element type must offer so that the lane-wise
//! reductions can be stated and proved once, generically: an additive
//! identity, a wrapping addition, and a strict total order.

use vstd::prelude::*;

verus! {

/// A numeric element type over which the reductions operate.
///
/// The spec-level operations pin down the exact semantics of each reduction:
/// `spec_add` is the type's wrapping addition, `spec_lt` its natural strict
/// order. The proof obligations state the algebraic facts the vectorized
/// loops rely on (wrapping addition forms a commutative monoid; the order is
/// a strict total order), and the exec operations are tied to the spec ones
/// by their contracts.
pub trait ReduceElement: Sized + Copy {
    /// The additive identity of the type.
    spec fn spec_zero() -> Self;

    /// Wrapping addition: the semantics of one lane-wise addition step.
    spec fn spec_add(a: Self, b: Self) -> Self;

    /// The type's natural strict total order.
    spec fn spec_lt(a: Self, b: Self) -> bool;

    /// The identity leaves any value unchanged under addition.
    proof fn lemma_add_zero(a: Self)
        ensures
            Self::spec_add(Self::spec_zero(), a) == a,
    ;

    /// Wrapping addition is commutative.
    proof fn lemma_add_comm(a: Self, b: Self)
        ensures
            Self::spec_add(a, b) == Self::spec_add(b, a),
    ;

    /// Wrapping addition is associative.
    proof fn lemma_add_assoc(a: Self, b: Self, c: Self)
        ensures
            Self::spec_add(Self::spec_add(a, b), c) == Self::spec_add(a, Self::spec_add(b, c)),
    ;

    /// `spec_lt` is a strict total order: asymmetric, connected, transitive.
    proof fn lemma_lt_order(a: Self, b: Self, c: Self)
        ensures
            !(Self::spec_lt(a, b) && Self::spec_lt(b, a)),
            Self::spec_lt(a, b) || Self::spec_lt(b, a) || a == b,
            Self::spec_lt(a, b) && Self::spec_lt(b, c) ==> Self::spec_lt(a, c),
    ;

    /// The additive identity as a runtime value.
    fn exec_zero() -> (r: Self)
        ensures
            r == Self::spec_zero(),
    ;

    /// Wrapping addition as a runtime operation.
    fn exec_add(a: Self, b: Self) -> (r: Self)
        ensures
            r == Self::spec_add(a, b),
    ;

    /// The strict order as a runtime comparison.
    fn exec_lt(a: Self, b: Self) -> (r: bool)
        ensures
            r == Self::spec_lt(a, b),
    ;
}

/// Relies on num::zero, which returns the additive identity of u8: 0.
#[verifier::external_body]
fn zero_u8() -> (r: u8)
    ensures
        r == 0u8,
{
    num::zero()
}

impl ReduceElement for u8 {
    open spec fn spec_zero() -> u8 {
        0u8
    }

    open spec fn spec_add(a: u8, b: u8) -> u8 {
        vstd::wrapping::u8_specs::wrapping_add(a, b)
    }

    open spec fn spec_lt(a: u8, b: u8) -> bool {
        a < b
    }

    proof fn lemma_add_zero(a: u8) {
    }

    proof fn lemma_add_comm(a: u8, b: u8) {
    }

    proof fn lemma_add_assoc(a: u8, b: u8, c: u8) {
    }

    proof fn lemma_lt_order(a: u8, b: u8, c: u8) {
    }

    fn exec_zero() -> (r: u8) {
        zero_u8()
    }

    fn exec_add(a: u8, b: u8) -> (r: u8) {
        a.wrapping_add(b)
    }

    fn exec_lt(a: u8, b: u8) -> (r: bool) {
        a < b
    }
}

/// Relies on num::zero, which returns the additive identity of u16: 0.
#[verifier::external_body]
fn zero_u16() -> (r: u16)
    ensures
        r == 0u16,
{
    num::zero()
}

impl ReduceElement for u16 {
    open spec fn spec_zero() -> u16 {
        0u16
    }

    open spec fn spec_add(a: u16, b: u16) -> u16 {
        vstd::wrapping::u16_specs::wrapping_add(a, b)
    }

    open spec fn spec_lt(a: u16, b: u16) -> bool {
        a < b
    }

    proof fn lemma_add_zero(a: u16) {
    }

    proof fn lemma_add_comm(a: u16, b: u16) {
    }

    proof fn lemma_add_assoc(a: u16, b: u16, c: u16) {
    }

    proof fn lemma_lt_order(a: u16, b: u16, c: u16) {
    }

    fn exec_zero() -> (r: u16) {
        zero_u16()
    }

    fn exec_add(a: u16, b: u16) -> (r: u16) {
        a.wrapping_add(b)
    }

    fn exec_lt(a: u16, b: u16) -> (r: bool) {
        a < b
    }
}

/// Relies on num::zero, which returns the additive identity of u32: 0.
#[verifier::external_body]
fn zero_u32() -> (r: u32)
    ensures
        r == 0u32,
{
    num::zero()
}

impl ReduceElement for u32 {
    open spec fn spec_zero() -> u32 {
        0u32
    }

    open spec fn spec_add(a: u32, b: u32) -> u32 {
        vstd::wrapping::u32_specs::wrapping_add(a, b)
    }

    open spec fn spec_lt(a: u32, b: u32) -> bool {
        a < b
    }

    proof fn lemma_add_zero(a: u32) {
    }

    proof fn lemma_add_comm(a: u32, b: u32) {
    }

    proof fn lemma_add_assoc(a: u32, b: u32, c: u32) {
    }

    proof fn lemma_lt_order(a: u32, b: u32, c: u32) {
    }

    fn exec_zero() -> (r: u32) {
        zero_u32()
    }

    fn exec_add(a: u32, b: u32) -> (r: u32) {
        a.wrapping_add(b)
    }

    fn exec_lt(a: u32, b: u32) -> (r: bool) {
        a < b
    }
}

/// Relies on num::zero, which returns the additive identity of u64: 0.
#[verifier::external_body]
fn zero_u64() -> (r: u64)
    ensures
        r == 0u64,
{
    num::zero()
}

impl ReduceElement for u64 {
    open spec fn spec_zero() -> u64 {
        0u64
    }

    open spec fn spec_add(a: u64, b: u64) -> u64 {
        vstd::wrapping::u64_specs::wrapping_add(a, b)
    }

    open spec fn spec_lt(a: u64, b: u64) -> bool {
        a < b
    }

    proof fn lemma_add_zero(a: u64) {
    }

    proof fn lemma_add_comm(a: u64, b: u64) {
    }

    proof fn lemma_add_assoc(a: u64, b: u64, c: u64) {
    }

    proof fn lemma_lt_order(a: u64, b: u64, c: u64) {
    }

    fn exec_zero() -> (r: u64) {
        zero_u64()
    }

    fn exec_add(a: u64, b: u64) -> (r: u64) {
        a.wrapping_add(b)
    }

    fn exec_lt(a: u64, b: u64) -> (r: bool) {
        a < b
    }
}

/// Relies on num::zero, which returns the additive identity of usize: 0.
#[verifier::external_body]
fn zero_usize() -> (r: usize)
    ensures
        r == 0usize,
{
    num::zero()
}

impl ReduceElement for usize {
    open spec fn spec_zero() -> usize {
        0usize
    }

    open spec fn spec_add(a: usize, b: usize) -> usize {
        vstd::wrapping::usize_specs::wrapping_add(a, b)
    }

    open spec fn spec_lt(a: usize, b: usize) -> bool {
        a < b
    }

    proof fn lemma_add_zero(a: usize) {
    }

    proof fn lemma_add_comm(a: usize, b: usize) {
    }

    proof fn lemma_add_assoc(a: usize, b: usize, c: usize) {
    }

    proof fn lemma_lt_order(a: usize, b: usize, c: usize) {
    }

    fn exec_zero() -> (r: usize) {
        zero_usize()
    }

    fn exec_add(a: usize, b: usize) -> (r: usize) {
        a.wrapping_add(b)
    }

    fn exec_lt(a: usize, b: usize) -> (r: bool) {
        a < b
    }
}

/// Relies on num::zero, which returns the additive identity of i8: 0.
#[verifier::external_body]
fn zero_i8() -> (r: i8)
    ensures
        r == 0i8,
{
    num::zero()
}

impl ReduceElement for i8 {
    open spec fn spec_zero() -> i8 {
        0i8
    }

    open spec fn spec_add(a: i8, b: i8) -> i8 {
        vstd::wrapping::i8_specs::wrapping_add(a, b)
    }

    open spec fn spec_lt(a: i8, b: i8) -> bool {
        a < b
    }

    proof fn lemma_add_zero(a: i8) {
    }

    proof fn lemma_add_comm(a: i8, b: i8) {
    }

    proof fn lemma_add_assoc(a: i8, b: i8, c: i8) {
    }

    proof fn lemma_lt_order(a: i8, b: i8, c: i8) {
    }

    fn exec_zero() -> (r: i8) {
        zero_i8()
    }

    fn exec_add(a: i8, b: i8) -> (r: i8) {
        a.wrapping_add(b)
    }

    fn exec_lt(a: i8, b: i8) -> (r: bool) {
        a < b
    }
}

/// Relies on num::zero, which returns the additive identity of i16: 0.
#[verifier::external_body]
fn zero_i16() -> (r: i16)
    ensures
        r == 0i16,
{
    num::zero()
}

impl ReduceElement for i16 {
    open spec fn spec_zero() -> i16 {
        0i16
    }

    open spec fn spec_add(a: i16, b: i16) -> i16 {
        vstd::wrapping::i16_specs::wrapping_add(a, b)
    }

    open spec fn spec_lt(a: i16, b: i16) -> bool {
        a < b
    }

    proof fn lemma_add_zero(a: i16) {
    }

    proof fn lemma_add_comm(a: i16, b: i16) {
    }

    proof fn lemma_add_assoc(a: i16, b: i16, c: i16) {
    }

    proof fn lemma_lt_order(a: i16, b: i16, c: i16) {
    }

    fn exec_zero() -> (r: i16) {
        zero_i16()
    }

    fn exec_add(a: i16, b: i16) -> (r: i16) {
        a.wrapping_add(b)
    }

    fn exec_lt(a: i16, b: i16) -> (r: bool) {
        a < b
    }
}

/// Relies on num::zero, which returns the additive identity of i32: 0.
#[verifier::external_body]
fn zero_i32() -> (r: i32)
    ensures
        r == 0i32,
{
    num::zero()
}

impl ReduceElement for i32 {
    open spec fn spec_zero() -> i32 {
        0i32
    }

    open spec fn spec_add(a: i32, b: i32) -> i32 {
        vstd::wrapping::i32_specs::wrapping_add(a, b)
    }

    open spec fn spec_lt(a: i32, b: i32) -> bool {
        a < b
    }

    proof fn lemma_add_zero(a: i32) {
    }

    proof fn lemma_add_comm(a: i32, b: i32) {
    }

    proof fn lemma_add_assoc(a: i32, b: i32, c: i32) {
    }

    proof fn lemma_lt_order(a: i32, b: i32, c: i32) {
    }

    fn exec_zero() -> (r: i32) {
        zero_i32()
    }

    fn exec_add(a: i32, b: i32) -> (r: i32) {
        a.wrapping_add(b)
    }

    fn exec_lt(a: i32, b: i32) -> (r: bool) {
        a < b
    }
}

/// Relies on num::zero, which returns the additive identity of i64: 0.
#[verifier::external_body]
fn zero_i64() -> (r: i64)
    ensures
        r == 0i64,
{
    num::zero()
}

impl ReduceElement for i64 {
    open spec fn spec_zero() -> i64 {
        0i64
    }

    open spec fn spec_add(a: i64, b: i64) -> i64 {
        vstd::wrapping::i64_specs::wrapping_add(a, b)
    }

    open spec fn spec_lt(a: i64, b: i64) -> bool {
        a < b
    }

    proof fn lemma_add_zero(a: i64) {
    }

    proof fn lemma_add_comm(a: i64, b: i64) {
    }

    proof fn lemma_add_assoc(a: i64, b: i64, c: i64) {
    }

    proof fn lemma_lt_order(a: i64, b: i64, c: i64) {
    }

    fn exec_zero() -> (r: i64) {
        zero_i64()
    }

    fn exec_add(a: i64, b: i64) -> (r: i64) {
        a.wrapping_add(b)
    }

    fn exec_lt(a: i64, b: i64) -> (r: bool) {
        a < b
    }
}

/// Relies on num::zero, which returns the additive identity of isize: 0.
#[verifier::external_body]
fn zero_isize() -> (r: isize)
    ensures
        r == 0isize,
{
    num::zero()
}

impl ReduceElement for isize {
    open spec fn spec_zero() -> isize {
        0isize
    }

    open spec fn spec_add(a: isize, b: isize) -> isize {
        vstd::wrapping::isize_specs::wrapping_add(a, b)
    }

    open spec fn spec_lt(a: isize, b: isize) -> bool {
        a < b
    }

    proof fn lemma_add_zero(a: isize) {
    }

    proof fn lemma_add_comm(a: isize, b: isize) {
    }

    proof fn lemma_add_assoc(a: isize, b: isize, c: isize) {
    }

    proof fn lemma_lt_order(a: isize, b: isize, c: isize) {
    }

    fn exec_zero() -> (r: isize) {
        zero_isize()
    }

    fn exec_add(a: isize, b: isize) -> (r: isize) {
        a.wrapping_add(b)
    }

    fn exec_lt(a: isize, b: isize) -> (r: bool) {
        a < b
    }
}

} // verus!
