//! What a visualizer carries from one frame to the next, independent of the
//! sample type: the smoothed magnitude of each bin, the window table, and the
//! DC blocker's last input and output.

use crate::snapshot::{aligned_tail, align_tail, filled};
use crate::window::{mirrored, mirror_extend};
use crate::{BIN_COUNT, FFT_SIZE};
use vstd::prelude::*;

verus! {

pub struct VisualizerState<T> {
    previous_magnitudes: Vec<T>,
    window_table: Vec<T>,
    dc_filter_state: (T, T),
}

impl<T: Copy> VisualizerState<T> {
    /// The smoothed magnitude of each bin, lowest frequency first.
    pub closed spec fn magnitudes(&self) -> Seq<T> {
        self.previous_magnitudes@
    }

    /// The window coefficient of each position of the transform.
    pub closed spec fn window(&self) -> Seq<T> {
        self.window_table@
    }

    /// The DC blocker's last (input, output) pair.
    pub closed spec fn filter_state(&self) -> (T, T) {
        self.dc_filter_state
    }

    /// One magnitude per bin, one window coefficient per position, and a window
    /// that reads the same from either end.
    pub open spec fn wf(&self) -> bool {
        &&& self.magnitudes().len() == BIN_COUNT
        &&& self.window().len() == FFT_SIZE
        &&& self.window() == mirrored(self.window().subrange(0, BIN_COUNT as int))
    }

    /// A fresh state: the window is `window_half` followed by its mirror image,
    /// every magnitude is `zero`, and the filter state is `(zero, zero)`.
    pub fn new(window_half: &[T], zero: T) -> (s: Self)
        requires
            window_half@.len() == BIN_COUNT,
        ensures
            s.wf(),
            s.window() == mirrored(window_half@),
            s.magnitudes() == filled(BIN_COUNT as nat, zero),
            s.filter_state() == (zero, zero),
    {
        let window_table = mirror_extend(window_half);
        let mut previous_magnitudes: Vec<T> = Vec::with_capacity(BIN_COUNT);
        for k in 0..BIN_COUNT
            invariant
                previous_magnitudes@ == filled(k as nat, zero),
        {
            previous_magnitudes.push(zero);
            proof {
                assert(previous_magnitudes@ =~= filled((k + 1) as nat, zero));
            }
        }
        proof {
            assert(mirrored(window_half@).subrange(0, BIN_COUNT as int) =~= window_half@);
        }
        VisualizerState { previous_magnitudes, window_table, dc_filter_state: (zero, zero) }
    }

    pub fn previous_magnitudes(&self) -> (r: &Vec<T>)
        ensures
            r@ == self.magnitudes(),
    {
        &self.previous_magnitudes
    }

    pub fn window_table(&self) -> (r: &Vec<T>)
        ensures
            r@ == self.window(),
    {
        &self.window_table
    }

    pub fn dc_filter_state(&self) -> (r: (T, T))
        ensures
            r == self.filter_state(),
    {
        self.dc_filter_state
    }

    /// For each position of the transform, the filtered sample that lands there
    /// (the chunk's tail, right-aligned, `fill` before a short chunk) and the
    /// window coefficient of that same position.
    pub fn windowed_pairs(&self, filtered: &[T], fill: T) -> (r: Vec<(T, T)>)
        requires
            self.wf(),
        ensures
            r@.len() == FFT_SIZE,
            forall|i: int|
                0 <= i < FFT_SIZE ==> #[trigger] r@[i] == (
                    aligned_tail(filtered@, FFT_SIZE as nat, fill)[i],
                    self.window()[i],
                ),
    {
        let aligned = align_tail(filtered, FFT_SIZE, fill);
        let mut r: Vec<(T, T)> = Vec::with_capacity(FFT_SIZE);
        for i in 0..FFT_SIZE
            invariant
                aligned@ == aligned_tail(filtered@, FFT_SIZE as nat, fill),
                aligned@.len() == FFT_SIZE,
                self.window_table@.len() == FFT_SIZE,
                r@.len() == i,
                forall|j: int|
                    0 <= j < i ==> #[trigger] r@[j] == (aligned@[j], self.window_table@[j]),
        {
            r.push((aligned[i], self.window_table[i]));
        }
        r
    }

    /// Ends a frame: the new smoothed magnitudes and the filter's last pair
    /// replace the old ones; the window is left as it was.
    pub fn commit(&mut self, magnitudes: Vec<T>, filter_state: (T, T))
        requires
            old(self).wf(),
            magnitudes@.len() == BIN_COUNT,
        ensures
            final(self).wf(),
            final(self).magnitudes() == magnitudes@,
            final(self).filter_state() == filter_state,
            final(self).window() == old(self).window(),
    {
        self.previous_magnitudes = magnitudes;
        self.dc_filter_state = filter_state;
    }
}

} // verus!
