//! Vectorized reductions (sum, minimum, maximum) over borrowed numeric
//! slices: a fixed number of lanes is accumulated in parallel over the
//! longest prefix whose length is a multiple of the lane count, the lanes
//! are then combined horizontally, and the remaining tail elements are
//! folded in one at a time.

use vstd::prelude::*;

pub mod elem;
pub mod laws;
pub mod model;
pub mod reduce;

pub use reduce::{AsSimdSlice, SimdSlice};

verus! {

/// Number of scalar lanes processed together per vector step.
pub const LANES: usize = 4;

} // verus!
