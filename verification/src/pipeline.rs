//! The decode pipeline's build plan and the library's error kinds.
//!
//! Assembling the media pipeline is the decode engine's work, but which
//! stages it needs, in which order it must probe them, and what raw format
//! the sample sink demands are decisions of this library. The plan check
//! reproduces the engine-side probe: given which required stages the host
//! offers, it accepts, or names the first missing stage — the error a
//! construction attempt reports while no pipeline is retained.

use vstd::prelude::*;

verus! {

/// The decoding stages a pipeline needs, in the order they are probed and
/// linked: the file source, the MPEG audio parser and decoder, the tee that
/// splits the stream, then the playback branch (queue, convert, resample,
/// audio sink) and the analysis branch (queue, convert, resample, app sink).
#[derive(Clone, Copy, Debug, PartialEq, Eq, Structural)]
pub enum DecoderElement {
    FileSource,
    MpegAudioParse,
    MpegAudioDecode,
    Tee,
    AudioQueue,
    AudioConvert,
    AudioResample,
    AudioSink,
    AppQueue,
    AppConvert,
    AppResample,
    AppSink,
}

/// What can go wrong on the path this library owns.
#[derive(Clone, Copy, Debug, PartialEq, Eq, Structural)]
pub enum VisError {
    /// A required decode stage is absent on the host: fatal to pipeline
    /// construction, not to the process; no pipeline is retained.
    MissingDecoderElement(DecoderElement),
    /// A play, pause or stop failed at the engine level: the controller
    /// falls back to `Stopped` and drops the pipeline.
    PipelineStateError,
    /// The consumer of the frame channel is gone: the producer must stop
    /// delivering rather than retry forever.
    ChannelClosed,
}

/// The factory name of each required stage, as the decode engine knows it.
pub open spec fn factory_name_spec(e: DecoderElement) -> Seq<char> {
    match e {
        DecoderElement::FileSource => "filesrc"@,
        DecoderElement::MpegAudioParse => "mpegaudioparse"@,
        DecoderElement::MpegAudioDecode => "mpg123audiodec"@,
        DecoderElement::Tee => "tee"@,
        DecoderElement::AudioQueue => "queue"@,
        DecoderElement::AudioConvert => "audioconvert"@,
        DecoderElement::AudioResample => "audioresample"@,
        DecoderElement::AudioSink => "autoaudiosink"@,
        DecoderElement::AppQueue => "queue"@,
        DecoderElement::AppConvert => "audioconvert"@,
        DecoderElement::AppResample => "audioresample"@,
        DecoderElement::AppSink => "appsink"@,
    }
}

/// The required stages in probe order.
pub open spec fn required_elements_spec() -> Seq<DecoderElement> {
    seq![
        DecoderElement::FileSource,
        DecoderElement::MpegAudioParse,
        DecoderElement::MpegAudioDecode,
        DecoderElement::Tee,
        DecoderElement::AudioQueue,
        DecoderElement::AudioConvert,
        DecoderElement::AudioResample,
        DecoderElement::AudioSink,
        DecoderElement::AppQueue,
        DecoderElement::AppConvert,
        DecoderElement::AppResample,
        DecoderElement::AppSink,
    ]
}

impl DecoderElement {
    /// The factory name the host hands to the decode engine for this stage.
    pub fn factory_name(&self) -> (r: &'static str)
        ensures
            r@ == factory_name_spec(*self),
    {
        match self {
            DecoderElement::FileSource => "filesrc",
            DecoderElement::MpegAudioParse => "mpegaudioparse",
            DecoderElement::MpegAudioDecode => "mpg123audiodec",
            DecoderElement::Tee => "tee",
            DecoderElement::AudioQueue => "queue",
            DecoderElement::AudioConvert => "audioconvert",
            DecoderElement::AudioResample => "audioresample",
            DecoderElement::AudioSink => "autoaudiosink",
            DecoderElement::AppQueue => "queue",
            DecoderElement::AppConvert => "audioconvert",
            DecoderElement::AppResample => "audioresample",
            DecoderElement::AppSink => "appsink",
        }
    }
}

/// The required stages in the order the host must probe and link them.
pub fn required_elements() -> (v: Vec<DecoderElement>)
    ensures
        v@ == required_elements_spec(),
{
    let mut v: Vec<DecoderElement> = Vec::new();
    v.push(DecoderElement::FileSource);
    v.push(DecoderElement::MpegAudioParse);
    v.push(DecoderElement::MpegAudioDecode);
    v.push(DecoderElement::Tee);
    v.push(DecoderElement::AudioQueue);
    v.push(DecoderElement::AudioConvert);
    v.push(DecoderElement::AudioResample);
    v.push(DecoderElement::AudioSink);
    v.push(DecoderElement::AppQueue);
    v.push(DecoderElement::AppConvert);
    v.push(DecoderElement::AppResample);
    v.push(DecoderElement::AppSink);
    proof {
        assert(v@ =~= required_elements_spec());
    }
    v
}

/// Accepts the host exactly when every required stage is offered; otherwise
/// names the first missing stage, in probe order. `available[i]` says whether
/// the host offers the stage `required_elements()[i]`.
pub fn check_elements(available: &Vec<bool>) -> (r: Result<(), VisError>)
    requires
        available@.len() == required_elements_spec().len(),
    ensures
        match r {
            Ok(()) => forall|i: int| 0 <= i < available@.len() ==> available@[i],
            Err(e) => exists|i: int|
                {
                    &&& 0 <= i < available@.len()
                    &&& !available@[i]
                    &&& (forall|j: int| 0 <= j < i ==> available@[j])
                    &&& e == VisError::MissingDecoderElement(
                        #[trigger] required_elements_spec()[i],
                    )
                },
        },
{
    let required = required_elements();
    let mut i: usize = 0;
    while i < available.len()
        invariant
            available@.len() == required_elements_spec().len(),
            required@ == required_elements_spec(),
            i <= available@.len(),
            forall|j: int| 0 <= j < i ==> available@[j],
        decreases available@.len() - i,
    {
        if !available[i] {
            return Err(VisError::MissingDecoderElement(required[i]));
        }
        i = i + 1;
    }
    Ok(())
}

/// The raw audio format the analysis sink demands of the decode engine:
/// signed 16-bit mono at a fixed rate — the shape every sample entering the
/// analyzer has.
#[derive(Clone, Copy, Debug, PartialEq, Eq, Structural)]
pub struct SinkCaps {
    /// Sample rate in Hz.
    pub rate: u32,
    /// Channel count.
    pub channels: u32,
}

/// The caps the host must set on the analysis sink.
pub fn sink_caps() -> (c: SinkCaps)
    ensures
        c.rate == 11025,
        c.channels == 1,
{
    SinkCaps { rate: 11025, channels: 1 }
}

} // verus!
