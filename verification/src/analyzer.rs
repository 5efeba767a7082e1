//! The windowed spectral analyzer's sample-ingest discipline.
//!
//! The analyzer owns a fixed-size window of signed 16-bit samples and a write
//! cursor. Every arriving sample overwrites the slot under the cursor; the
//! moment the window fills, the full window is emitted for frequency analysis
//! and the cursor resets, so windows never overlap and are never partial.
//! The frequency analysis itself (forward FFT and log-scaled normalization)
//! is floating-point work done by an external collaborator on each emitted
//! window; see [`crate::frame::SpectralFrame::from_spectrum`] for how its
//! result becomes a frame.

use vstd::arithmetic::div_mod::lemma_basic_div;
use vstd::arithmetic::div_mod::lemma_div_plus_one;
use vstd::arithmetic::div_mod::lemma_mod_add_multiples_vanish;
use vstd::arithmetic::div_mod::lemma_small_mod;
use vstd::prelude::*;
use crate::WINDOW_SIZE;

verus! {

/// The analyzer's mathematical state: the window contents, the write cursor,
/// and the windows emitted so far, oldest first.
pub struct AnalyzerModel {
    pub window: Seq<i16>,
    pub pos: int,
    pub emitted: Seq<Seq<i16>>,
}

/// A well-formed analyzer state: a full-size window and an in-range cursor.
pub open spec fn model_wf(m: AnalyzerModel) -> bool {
    m.window.len() == WINDOW_SIZE && 0 <= m.pos < WINDOW_SIZE
}

/// One sample arriving: it overwrites the slot under the cursor. When that
/// fills the window, the whole window is emitted and the cursor resets;
/// otherwise the cursor advances.
pub open spec fn model_step(m: AnalyzerModel, sample: i16) -> AnalyzerModel {
    let filled = m.window.update(m.pos, sample);
    if m.pos + 1 == WINDOW_SIZE {
        (AnalyzerModel { window: filled, pos: 0, emitted: m.emitted.push(filled) })
    } else {
        (AnalyzerModel { window: filled, pos: m.pos + 1, emitted: m.emitted })
    }
}

/// The analyzer state after ingesting `samples` in order.
pub open spec fn model_run(m: AnalyzerModel, samples: Seq<i16>) -> AnalyzerModel
    decreases samples.len(),
{
    if samples.len() == 0 {
        m
    } else {
        model_run(model_step(m, samples[0]), samples.drop_first())
    }
}

/// The state of a newly built analyzer: an all-zero window, the cursor at the
/// start, nothing emitted.
pub open spec fn initial_model() -> AnalyzerModel {
    (AnalyzerModel { window: Seq::new(WINDOW_SIZE as nat, |i: int| 0i16), pos: 0, emitted: Seq::empty() })
}

/// Consumes the decoded sample stream and emits one full window per
/// `WINDOW_SIZE` samples. Owned by the decode callback alone; its only
/// outbound communication is the windows it returns.
pub struct SpectralAnalyzer {
    window: Vec<i16>,
    pos: usize,
}

impl SpectralAnalyzer {
    /// The current window contents.
    pub closed spec fn window_spec(&self) -> Seq<i16> {
        self.window@
    }

    /// The current write cursor.
    pub closed spec fn pos_spec(&self) -> int {
        self.pos as int
    }

    /// The analyzer seen as a model state with no emission history.
    pub open spec fn model(&self) -> AnalyzerModel {
        (AnalyzerModel { window: self.window_spec(), pos: self.pos_spec(), emitted: Seq::empty() })
    }

    /// Validity: the window has its fixed size and the cursor is in range.
    pub open spec fn wf(&self) -> bool {
        model_wf(self.model())
    }

    /// A fresh analyzer: zeroed window, cursor at the start.
    pub fn new() -> (a: SpectralAnalyzer)
        ensures
            a.wf(),
            a.model() == initial_model(),
    {
        let mut window: Vec<i16> = Vec::new();
        let mut i: usize = 0;
        while i < WINDOW_SIZE
            invariant
                i <= WINDOW_SIZE,
                window@.len() == i,
                forall|j: int| 0 <= j < i ==> window@[j] == 0i16,
            decreases WINDOW_SIZE - i,
        {
            window.push(0i16);
            i = i + 1;
        }
        let a = SpectralAnalyzer { window, pos: 0 };
        proof {
            assert(a.model().window =~= initial_model().window);
            assert(a.model().emitted =~= initial_model().emitted);
        }
        a
    }

    /// Accepts one sample. Returns the full window exactly when this sample
    /// fills it — never earlier, never a partial window.
    pub fn ingest(&mut self, sample: i16) -> (emitted: Option<Vec<i16>>)
        requires
            old(self).wf(),
        ensures
            final(self).wf(),
            final(self).model().window == model_step(old(self).model(), sample).window,
            final(self).model().pos == model_step(old(self).model(), sample).pos,
            match emitted {
                Some(w) => old(self).pos_spec() + 1 == WINDOW_SIZE
                    && w@ == old(self).window_spec().update(old(self).pos_spec(), sample),
                None => old(self).pos_spec() + 1 < WINDOW_SIZE,
            },
    {
        self.window.set(self.pos, sample);
        self.pos = self.pos + 1;
        if self.pos == WINDOW_SIZE {
            self.pos = 0;
            let mut w: Vec<i16> = Vec::new();
            let mut i: usize = 0;
            while i < WINDOW_SIZE
                invariant
                    i <= WINDOW_SIZE,
                    self.window@.len() == WINDOW_SIZE,
                    w@ == self.window@.take(i as int),
                decreases WINDOW_SIZE - i,
            {
                let s = self.window[i];
                w.push(s);
                i = i + 1;
            }
            proof {
                assert(w@ =~= self.window@);
            }
            Some(w)
        } else {
            None
        }
    }

    /// Ingests every sample of `samples` in order and returns the windows
    /// emitted along the way, oldest first: the bulk form of the decode
    /// callback's per-sample sink.
    pub fn ingest_all(&mut self, samples: &Vec<i16>) -> (windows: Vec<Vec<i16>>)
        requires
            old(self).wf(),
        ensures
            final(self).wf(),
            ({
                let r = model_run(old(self).model(), samples@);
                &&& final(self).model().window == r.window
                &&& final(self).model().pos == r.pos
                &&& windows@.map_values(|w: Vec<i16>| w@) == r.emitted
            }),
    {
        let ghost goal = model_run(old(self).model(), samples@);
        let mut windows: Vec<Vec<i16>> = Vec::new();
        let mut i: usize = 0;
        proof {
            assert(samples@.skip(0) =~= samples@);
            assert(windows@.map_values(|w: Vec<i16>| w@) =~= Seq::<Seq<i16>>::empty());
        }
        while i < samples.len()
            invariant
                self.wf(),
                i <= samples@.len(),
                goal == model_run(
                    (AnalyzerModel {
                        window: self.window_spec(),
                        pos: self.pos_spec(),
                        emitted: windows@.map_values(|w: Vec<i16>| w@),
                    }),
                    samples@.skip(i as int),
                ),
            decreases samples@.len() - i,
        {
            let ghost pre = (AnalyzerModel {
                window: self.window_spec(),
                pos: self.pos_spec(),
                emitted: windows@.map_values(|w: Vec<i16>| w@),
            });
            let ghost rest = samples@.skip(i as int);
            let sample = samples[i];
            let emitted = self.ingest(sample);
            match emitted {
                Some(w) => {
                    windows.push(w);
                },
                None => {},
            }
            proof {
                assert(rest[0] == samples@[i as int]);
                assert(rest.drop_first() =~= samples@.skip(i as int + 1));
                let post = (AnalyzerModel {
                    window: self.window_spec(),
                    pos: self.pos_spec(),
                    emitted: windows@.map_values(|w: Vec<i16>| w@),
                });
                assert(post.emitted =~= model_step(pre, sample).emitted);
                assert(post == model_step(pre, sample));
            }
            i = i + 1;
        }
        proof {
            assert(samples@.skip(samples@.len() as int) =~= Seq::<i16>::empty());
        }
        windows
    }
}

/// How many windows a run emits, and where the cursor ends: ingesting `n`
/// samples from a well-formed state emits `(pos + n) / WINDOW_SIZE` windows
/// beyond those already emitted, leaves the cursor at `(pos + n) %
/// WINDOW_SIZE`, and every window ever emitted has exactly `WINDOW_SIZE`
/// samples.
pub proof fn lemma_run_emission_count(m: AnalyzerModel, samples: Seq<i16>)
    requires
        model_wf(m),
        forall|k: int| 0 <= k < m.emitted.len() ==> #[trigger] m.emitted[k].len() == WINDOW_SIZE,
    ensures
        model_wf(model_run(m, samples)),
        model_run(m, samples).emitted.len() == m.emitted.len() + (m.pos + samples.len()) / (
        WINDOW_SIZE as int),
        model_run(m, samples).pos == (m.pos + samples.len()) % (WINDOW_SIZE as int),
        forall|k: int|
            0 <= k < model_run(m, samples).emitted.len() ==> #[trigger] model_run(
                m,
                samples,
            ).emitted[k].len() == WINDOW_SIZE,
    decreases samples.len(),
{
    if samples.len() == 0 {
        lemma_basic_div(m.pos, WINDOW_SIZE as int);
        lemma_small_mod(m.pos as nat, WINDOW_SIZE as nat);
    } else {
        let m2 = model_step(m, samples[0]);
        lemma_run_emission_count(m2, samples.drop_first());
        if m.pos + 1 == WINDOW_SIZE {
            lemma_div_plus_one(samples.len() - 1, WINDOW_SIZE as int);
            lemma_mod_add_multiples_vanish(samples.len() - 1, WINDOW_SIZE as int);
        }
    }
}

/// For every sample sequence of length `n`, a fresh analyzer emits exactly
/// `n / WINDOW_SIZE` windows — emission happens exactly when the window
/// fills, never partially.
pub proof fn lemma_frames_per_samples(samples: Seq<i16>)
    ensures
        model_run(initial_model(), samples).emitted.len() == samples.len() / (
        WINDOW_SIZE as nat),
        forall|k: int|
            0 <= k < model_run(initial_model(), samples).emitted.len() ==> #[trigger] model_run(
                initial_model(),
                samples,
            ).emitted[k].len() == WINDOW_SIZE,
{
    lemma_run_emission_count(initial_model(), samples);
}

} // verus!
