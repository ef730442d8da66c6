//! The transcription coordinator: owns the model artifact binding, decides
//! each stage of a transcription run, selects engine parameters, and
//! aggregates the engine's segments into the caller-facing result. The
//! surrounding binary decodes audio, drives the native engine, and feeds each
//! stage's outcome back in.
use crate::errors::TranscribeError;
use crate::model_handler::{spec_artifact_path, ModelHandler};
use vstd::prelude::*;
use vstd::string::StringExecFns;

verus! {

/// How the engine samples tokens while decoding.
#[derive(Debug, Clone, Copy, PartialEq, Eq, Structural)]
pub enum SamplingStrategy {
    /// Pick the best of `best_of` greedy candidates.
    Greedy { best_of: i32 },
    /// Beam search over `beam_size` beams.
    BeamSearch { beam_size: i32 },
}

/// Engine tuning for one transcription run. When the caller supplies none,
/// [`default_params`] is used.
#[derive(Debug, Clone, Copy, PartialEq, Eq, Structural)]
pub struct TranscriptionParams {
    pub strategy: SamplingStrategy,
}

/// The documented default: greedy decoding with best-of 1.
pub open spec fn spec_default_params() -> TranscriptionParams {
    TranscriptionParams { strategy: SamplingStrategy::Greedy { best_of: 1 } }
}

/// The parameters used when the caller supplies none: greedy decoding,
/// best-of 1.
pub fn default_params() -> (p: TranscriptionParams)
    ensures
        p == spec_default_params(),
{
    TranscriptionParams { strategy: SamplingStrategy::Greedy { best_of: 1 } }
}

/// The caller-supplied parameters if present, else the documented default —
/// absence is never conflated with a zero-initialized value.
pub fn select_params(params: Option<TranscriptionParams>) -> (p: TranscriptionParams)
    ensures
        params matches Some(q) ==> p == q,
        params is None ==> p == spec_default_params(),
{
    match params {
        Some(q) => q,
        None => default_params(),
    }
}

/// One timestamped span of recognized text, as the engine emitted it.
/// Timestamps are engine-native centiseconds.
#[derive(Debug, Clone, PartialEq, Eq)]
pub struct TranscriptSegment {
    pub text: String,
    pub start_timestamp: i64,
    pub end_timestamp: i64,
}

impl TranscriptSegment {
    /// Package one emitted segment.
    pub fn new(text: String, start_timestamp: i64, end_timestamp: i64) -> (s: TranscriptSegment)
        ensures
            s == (TranscriptSegment { text, start_timestamp, end_timestamp }),
    {
        TranscriptSegment { text, start_timestamp, end_timestamp }
    }
}

/// The texts of a segment sequence, concatenated in emission order with no
/// separator.
pub open spec fn spec_concat_texts(segs: Seq<TranscriptSegment>) -> Seq<char>
    decreases segs.len(),
{
    if segs.len() == 0 {
        Seq::empty()
    } else {
        spec_concat_texts(segs.drop_last()) + segs.last().text@
    }
}

/// The caller-facing aggregate a segment sequence determines: concatenated
/// text, the first segment's start timestamp and the last segment's end
/// timestamp; all-zero when no segment was produced.
pub open spec fn spec_aggregate(segs: Seq<TranscriptSegment>) -> (Seq<char>, i64, i64) {
    (
        spec_concat_texts(segs),
        if segs.len() == 0 {
            0
        } else {
            segs[0].start_timestamp
        },
        if segs.len() == 0 {
            0
        } else {
            segs.last().end_timestamp
        },
    )
}

/// The caller-facing result of one transcription run: the concatenated text
/// of all segments and the run's first start and last end timestamps, both
/// zero when the run produced no segment. Immutable once returned.
#[derive(Debug)]
pub struct TranscriberOutput {
    start_timestamp: i64,
    end_timestamp: i64,
    text: String,
}

impl TranscriberOutput {
    /// The run's first segment's start timestamp, in centiseconds.
    pub closed spec fn start_timestamp_view(&self) -> i64 {
        self.start_timestamp
    }

    /// The run's last segment's end timestamp, in centiseconds.
    pub closed spec fn end_timestamp_view(&self) -> i64 {
        self.end_timestamp
    }

    /// The run's concatenated text.
    pub closed spec fn text_view(&self) -> Seq<char> {
        self.text@
    }

    /// The start timestamp of the run's first segment.
    pub fn get_start_timestamp(&self) -> (r: &i64)
        ensures
            *r == self.start_timestamp_view(),
    {
        &self.start_timestamp
    }

    /// The end timestamp of the run's last segment.
    pub fn get_end_timestamp(&self) -> (r: &i64)
        ensures
            *r == self.end_timestamp_view(),
    {
        &self.end_timestamp
    }

    /// The transcribed text, all segments concatenated in emission order.
    pub fn get_text(&self) -> (r: &str)
        ensures
            r@ == self.text_view(),
    {
        self.text.as_str()
    }
}

/// Concatenation over one more segment appends that segment's text.
proof fn lemma_concat_texts_push(segs: Seq<TranscriptSegment>, i: int)
    requires
        0 <= i < segs.len(),
    ensures
        spec_concat_texts(segs.subrange(0, i + 1)) == spec_concat_texts(segs.subrange(0, i))
            + segs[i].text@,
{
    let upto = segs.subrange(0, i + 1);
    assert(upto.drop_last() =~= segs.subrange(0, i));
}

/// Aggregate a run's segments into the caller-facing result: text is the
/// concatenation in emission order; the timestamps are the first segment's
/// start and the last segment's end; a run with no segments yields empty text
/// and zero timestamps — a defined edge case, not an error.
pub fn aggregate_segments(segments: &Vec<TranscriptSegment>) -> (r: TranscriberOutput)
    ensures
        (r.text_view(), r.start_timestamp_view(), r.end_timestamp_view()) == spec_aggregate(
            segments@,
        ),
{
    let mut text = String::new();
    let mut start_timestamp: i64 = 0;
    let mut end_timestamp: i64 = 0;
    let mut i: usize = 0;
    while i < segments.len()
        invariant
            i <= segments@.len(),
            text@ == spec_concat_texts(segments@.subrange(0, i as int)),
            i == 0 ==> start_timestamp == 0 && end_timestamp == 0,
            i > 0 ==> start_timestamp == segments@[0].start_timestamp,
            i > 0 ==> end_timestamp == segments@[i - 1].end_timestamp,
        decreases segments@.len() - i,
    {
        let seg = &segments[i];
        if i == 0 {
            start_timestamp = seg.start_timestamp;
        }
        end_timestamp = seg.end_timestamp;
        text.append(seg.text.as_str());
        proof {
            lemma_concat_texts_push(segments@, i as int);
        }
        i += 1;
    }
    proof {
        assert(segments@.subrange(0, segments@.len() as int) =~= segments@);
    }
    TranscriberOutput { start_timestamp, end_timestamp, text }
}

/// Aggregation adds no nondeterminism: the result is a pure function of the
/// segment sequence the engine emitted, so two runs of the coordinator that
/// received the same segments carry identical text and timestamps.
pub proof fn lemma_transcription_deterministic(a: Seq<TranscriptSegment>, b: Seq<TranscriptSegment>)
    requires
        a == b,
    ensures
        spec_aggregate(a) == spec_aggregate(b),
{
}

/// One stage of a transcription run, in the order the run visits them.
/// `Done` means inference finished and the segments can be read back.
#[derive(Debug, Clone, Copy, PartialEq, Eq, Structural)]
pub enum TranscribeStage {
    /// Decode the audio file into the engine's sample format.
    DecodeAudio,
    /// Create a fresh computation state from the owned context.
    CreateState,
    /// Run full inference over the sample buffer.
    RunInference,
    /// Inference finished; read the segments and aggregate.
    Done,
}

/// The stage that follows each stage of a run.
pub open spec fn spec_stage_after(stage: TranscribeStage) -> TranscribeStage {
    match stage {
        TranscribeStage::DecodeAudio => TranscribeStage::CreateState,
        TranscribeStage::CreateState => TranscribeStage::RunInference,
        TranscribeStage::RunInference => TranscribeStage::Done,
        TranscribeStage::Done => TranscribeStage::Done,
    }
}

/// The transcription coordinator: bound at construction to one model store
/// whose artifact the engine context was loaded from; `Ready` from then on,
/// with every run a self-contained operation.
#[derive(Debug)]
pub struct Transcriber {
    model: ModelHandler,
}

impl Transcriber {
    /// The artifact path the coordinator's context was loaded from.
    pub closed spec fn artifact_path_view(&self) -> Seq<char> {
        spec_artifact_path(self.model.models_dir_view(), self.model.model_name_view())
    }

    /// Bind a coordinator to the store's artifact. `context_loaded` is the
    /// engine's context-construction outcome for that artifact; a rejected or
    /// missing artifact fails construction with `ContextLoadFailed` — the
    /// coordinator never partially constructs, and the failure is fatal for
    /// this instance.
    pub fn new(model: ModelHandler, context_loaded: bool) -> (r: Result<
        Transcriber,
        TranscribeError,
    >)
        ensures
            context_loaded ==> (r matches Ok(t) && t.artifact_path_view() == spec_artifact_path(
                model.models_dir_view(),
                model.model_name_view(),
            )),
            !context_loaded ==> (r matches Err(e) && e matches TranscribeError::ContextLoadFailed {
                artifact_path,
            } && artifact_path@ == spec_artifact_path(
                model.models_dir_view(),
                model.model_name_view(),
            )),
    {
        if context_loaded {
            Ok(Transcriber { model })
        } else {
            Err(TranscribeError::ContextLoadFailed { artifact_path: model.get_model_dir() })
        }
    }

    /// The stage a transcription run starts at.
    pub fn transcribe_start(&self) -> (r: TranscribeStage)
        ensures
            r == TranscribeStage::DecodeAudio,
    {
        TranscribeStage::DecodeAudio
    }

    /// Decide the stage that follows `stage` once its work is reported done
    /// (`ok`) or failed. The run fails fast: a failed decode is
    /// `AudioDecodeFailed` naming the audio path, a failed state creation
    /// `SessionCreateFailed`, a failed inference `InferenceFailed`; nothing
    /// else fails and no partial result is returned.
    pub fn transcribe_next(&self, stage: TranscribeStage, ok: bool, audio_path: &str) -> (r: Result<
        TranscribeStage,
        TranscribeError,
    >)
        requires
            stage != TranscribeStage::Done,
        ensures
            ok ==> r == Ok::<TranscribeStage, TranscribeError>(spec_stage_after(stage)),
            !ok && stage == TranscribeStage::DecodeAudio ==> (r matches Err(e) && e matches
                TranscribeError::AudioDecodeFailed { audio_path: p } && p@ == audio_path@),
            !ok && stage == TranscribeStage::CreateState ==> r == Err::<
                TranscribeStage,
                TranscribeError,
            >(TranscribeError::SessionCreateFailed),
            !ok && stage == TranscribeStage::RunInference ==> r == Err::<
                TranscribeStage,
                TranscribeError,
            >(TranscribeError::InferenceFailed),
    {
        if ok {
            match stage {
                TranscribeStage::DecodeAudio => Ok(TranscribeStage::CreateState),
                TranscribeStage::CreateState => Ok(TranscribeStage::RunInference),
                TranscribeStage::RunInference => Ok(TranscribeStage::Done),
                TranscribeStage::Done => Ok(TranscribeStage::Done),
            }
        } else {
            match stage {
                TranscribeStage::DecodeAudio => Err(
                    TranscribeError::AudioDecodeFailed { audio_path: audio_path.to_owned() },
                ),
                TranscribeStage::CreateState => Err(TranscribeError::SessionCreateFailed),
                TranscribeStage::RunInference => Err(TranscribeError::InferenceFailed),
                TranscribeStage::Done => Err(TranscribeError::InferenceFailed),
            }
        }
    }
}

} // verus!
