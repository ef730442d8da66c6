use simple_transcribe::errors::TranscribeError;
use simple_transcribe::model_handler::ModelHandler;
use simple_transcribe::transcriber::{
    aggregate_segments, default_params, select_params, SamplingStrategy, TranscribeStage,
    Transcriber, TranscriptSegment, TranscriptionParams,
};

fn coordinator() -> Transcriber {
    let handler = ModelHandler::new("tiny", "models").unwrap();
    Transcriber::new(handler, true).unwrap()
}

#[test]
fn construction_fails_with_context_load_failed_when_artifact_missing() {
    let handler = ModelHandler::new("tiny", "nonExistentPath").unwrap();
    let err = Transcriber::new(handler, false).unwrap_err();
    assert_eq!(
        err,
        TranscribeError::ContextLoadFailed {
            artifact_path: "nonExistentPath/ggml-tiny.bin".to_string()
        }
    );
    assert_eq!(
        err.message(),
        "failed to load model: nonExistentPath/ggml-tiny.bin"
    );
}

#[test]
fn construction_succeeds_once_the_context_loads() {
    let handler = ModelHandler::new("tiny", "models").unwrap();
    assert!(Transcriber::new(handler, true).is_ok());
}

#[test]
fn a_run_visits_decode_state_inference_in_order() {
    let trans = coordinator();
    let stage = trans.transcribe_start();
    assert_eq!(stage, TranscribeStage::DecodeAudio);
    let stage = trans.transcribe_next(stage, true, "src/test.mp3").unwrap();
    assert_eq!(stage, TranscribeStage::CreateState);
    let stage = trans.transcribe_next(stage, true, "src/test.mp3").unwrap();
    assert_eq!(stage, TranscribeStage::RunInference);
    let stage = trans.transcribe_next(stage, true, "src/test.mp3").unwrap();
    assert_eq!(stage, TranscribeStage::Done);
}

#[test]
fn decode_failure_aborts_with_audio_decode_failed() {
    let trans = coordinator();
    let err = trans
        .transcribe_next(TranscribeStage::DecodeAudio, false, "src/test.mp3")
        .unwrap_err();
    assert_eq!(
        err,
        TranscribeError::AudioDecodeFailed {
            audio_path: "src/test.mp3".to_string()
        }
    );
    assert_eq!(err.message(), "failed to decode audio: src/test.mp3");
}

#[test]
fn state_creation_failure_is_session_create_failed() {
    let trans = coordinator();
    let err = trans
        .transcribe_next(TranscribeStage::CreateState, false, "test.wav")
        .unwrap_err();
    assert_eq!(err, TranscribeError::SessionCreateFailed);
    assert_eq!(err.message(), "Failed to create state");
}

#[test]
fn inference_failure_is_inference_failed() {
    let trans = coordinator();
    let err = trans
        .transcribe_next(TranscribeStage::RunInference, false, "test.wav")
        .unwrap_err();
    assert_eq!(err, TranscribeError::InferenceFailed);
    assert_eq!(err.message(), "failed to run the model");
}

#[test]
fn zero_segments_yield_empty_text_and_zero_timestamps() {
    // A silent or zero-length buffer produces no segments; the result is
    // defined, not an error.
    let segments: Vec<TranscriptSegment> = Vec::new();
    let result = aggregate_segments(&segments);
    assert_eq!(result.get_text(), "");
    assert_eq!(*result.get_start_timestamp(), 0);
    assert_eq!(*result.get_end_timestamp(), 0);
    assert!(result.get_start_timestamp() <= result.get_end_timestamp());
}

#[test]
fn aggregation_concatenates_in_emission_order() {
    let segments = vec![
        TranscriptSegment::new(" By what he is said and done,".to_string(), 0, 210),
        TranscriptSegment::new(" a man judges himself.".to_string(), 210, 370),
    ];
    let result = aggregate_segments(&segments);
    assert_eq!(
        result.get_text(),
        " By what he is said and done, a man judges himself."
    );
    assert_eq!(*result.get_start_timestamp(), 0);
    assert_eq!(*result.get_end_timestamp(), 370);
}

#[test]
fn aggregation_takes_first_start_and_last_end() {
    let segments = vec![
        TranscriptSegment::new("a".to_string(), 5, 7),
        TranscriptSegment::new("b".to_string(), 8, 11),
        TranscriptSegment::new("c".to_string(), 12, 20),
    ];
    let result = aggregate_segments(&segments);
    assert_eq!(result.get_text(), "abc");
    assert_eq!(*result.get_start_timestamp(), 5);
    assert_eq!(*result.get_end_timestamp(), 20);
}

#[test]
fn single_segment_bounds_are_its_own() {
    let segments = vec![TranscriptSegment::new("only".to_string(), 3, 9)];
    let result = aggregate_segments(&segments);
    assert_eq!(result.get_text(), "only");
    assert_eq!(*result.get_start_timestamp(), 3);
    assert_eq!(*result.get_end_timestamp(), 9);
}

#[test]
fn equal_segment_sequences_give_identical_results() {
    // The coordinator adds no nondeterminism: running aggregation twice over
    // what the engine emitted gives text-identical results.
    let make = || {
        vec![
            TranscriptSegment::new(" hello".to_string(), 0, 50),
            TranscriptSegment::new(" again".to_string(), 50, 90),
        ]
    };
    let first = aggregate_segments(&make());
    let second = aggregate_segments(&make());
    assert_eq!(first.get_text(), second.get_text());
    assert_eq!(first.get_start_timestamp(), second.get_start_timestamp());
    assert_eq!(first.get_end_timestamp(), second.get_end_timestamp());
}

#[test]
fn default_parameters_are_greedy_best_of_one() {
    let params = default_params();
    assert_eq!(params.strategy, SamplingStrategy::Greedy { best_of: 1 });
}

#[test]
fn absent_parameters_fall_back_to_the_default() {
    assert_eq!(select_params(None), default_params());
    let supplied = TranscriptionParams {
        strategy: SamplingStrategy::BeamSearch { beam_size: 5 },
    };
    assert_eq!(select_params(Some(supplied)), supplied);
}

#[test]
fn silent_sample_scenario_yields_whitespace_only_text() {
    // A two-second silent buffer decodes into zero engine segments; the
    // result's text is empty (trivially whitespace-only) and the timestamps
    // are ordered.
    let result = aggregate_segments(&Vec::new());
    assert!(result.get_text().trim().is_empty());
    assert!(result.get_start_timestamp() <= result.get_end_timestamp());
}
