//! Spectral frames: the per-window output of frequency analysis.
//!
//! A frame holds one fixed-point magnitude per frequency bin. The scale is
//! [`crate::MAGNITUDE_ONE`] for a normalized loudness of 1.0; being unsigned,
//! every bin value is non-negative by construction.

use vstd::prelude::*;
use crate::{BIN_COUNT, WINDOW_SIZE};

verus! {

/// `s` cut or zero-padded to exactly `width` entries.
pub open spec fn fitted(s: Seq<u32>, width: nat) -> Seq<u32> {
    Seq::new(width, |i: int| if i < s.len() { s[i] } else { 0u32 })
}

/// One spectral frame: an ordered sequence of non-negative bin magnitudes.
/// Immutable once produced; ownership moves to the channel on emission.
#[derive(Clone, Debug, PartialEq)]
pub struct SpectralFrame {
    bins: Vec<u32>,
}

impl View for SpectralFrame {
    type V = Seq<u32>;

    closed spec fn view(&self) -> Seq<u32> {
        self.bins@
    }
}

impl SpectralFrame {
    /// A frame holding exactly the given bin values.
    pub fn new(bins: Vec<u32>) -> (f: SpectralFrame)
        ensures
            f@ == bins@,
    {
        SpectralFrame { bins }
    }

    /// The frame emitted for one full analysis window: the second half of the
    /// `WINDOW_SIZE`-point magnitude spectrum, indices `[WINDOW_SIZE / 2,
    /// WINDOW_SIZE)` in order. The first half mirrors it and is dropped.
    pub fn from_spectrum(spectrum: &Vec<u32>) -> (f: SpectralFrame)
        requires
            spectrum@.len() == WINDOW_SIZE,
        ensures
            f@ == spectrum@.skip(BIN_COUNT as int),
            f@.len() == BIN_COUNT,
    {
        let mut bins: Vec<u32> = Vec::new();
        let mut i: usize = BIN_COUNT;
        while i < WINDOW_SIZE
            invariant
                BIN_COUNT <= i <= WINDOW_SIZE,
                spectrum@.len() == WINDOW_SIZE,
                bins@ == spectrum@.subrange(BIN_COUNT as int, i as int),
            decreases WINDOW_SIZE - i,
        {
            bins.push(spectrum[i]);
            i = i + 1;
        }
        proof {
            assert(bins@ =~= spectrum@.skip(BIN_COUNT as int));
        }
        SpectralFrame { bins }
    }

    /// Number of bins in this frame.
    pub fn len(&self) -> (n: usize)
        ensures
            n == self@.len(),
    {
        self.bins.len()
    }

    /// The magnitude at bin `i`.
    pub fn bin(&self, i: usize) -> (v: u32)
        requires
            i < self@.len(),
        ensures
            v == self@[i as int],
    {
        self.bins[i]
    }

    /// All bin values in order.
    pub fn bins(&self) -> (b: &Vec<u32>)
        ensures
            b@ == self@,
    {
        &self.bins
    }
}

} // verus!
