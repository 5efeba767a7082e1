//! Verified core of a real-time audio spectrum visualizer.
//!
//! The library owns the logic on the path from raw PCM samples to a scrolling
//! spectrogram image: the windowed sample accumulator that decides when a
//! spectral frame is due, the bounded FIFO handoff of frames between the
//! decode thread and the render thread, the scrolling waterfall history, and
//! the playback/visualization state machine. The decode engine, the FFT and
//! its floating-point normalization, and the graphics backend are external
//! collaborators: they exchange plain values with this crate.

use vstd::prelude::*;

pub mod analyzer;
pub mod channel;
pub mod kaleidoscope;
pub mod controller;
pub mod frame;
pub mod input;
pub mod pipeline;
pub mod waterfall;

verus! {

/// Number of samples in one analysis window.
pub const WINDOW_SIZE: usize = 800;

/// Number of frequency bins in one spectral frame: half the window size,
/// since a real-valued window yields a conjugate-symmetric spectrum.
pub const BIN_COUNT: usize = WINDOW_SIZE / 2;

/// Fixed-point scale for bin magnitudes: this value stands for a normalized
/// loudness of 1.0. Values above it are legal (the spectrum is unclamped).
pub const MAGNITUDE_ONE: u32 = 65536;

} // verus!
