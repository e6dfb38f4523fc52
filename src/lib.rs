//! Index logic of a small spectrum analyser: which filtered samples enter the
//! transform window, and how the symmetric window table is laid out.

pub mod snapshot;
pub mod state;
pub mod window;

use vstd::prelude::*;

verus! {

/// Length of the transform window, in samples.
pub const FFT_SIZE: usize = 64;

/// Number of frequency bins reported per frame: half the transform length.
pub const BIN_COUNT: usize = FFT_SIZE / 2;

} // verus!
