//! The pipeline's error taxonomy. Every failure of acquisition or
//! transcription is one of these variants, each carrying the path, identifier
//! or underlying cause needed to tell the failures apart.
use vstd::prelude::*;
use vstd::string::StringExecFns;

verus! {

/// A failure of model acquisition or transcription.
#[derive(Debug, Clone, PartialEq, Eq)]
pub enum TranscribeError {
    /// The model identifier is not one of the recognized five.
    UnknownModel { identifier: String },
    /// Creating the cache directory or fetching the artifact failed;
    /// `context` is the directory or URL involved, `cause` the underlying
    /// failure's description.
    ModelAcquisitionFailed { context: String, cause: String },
    /// The engine rejected the artifact at context-construction time.
    ContextLoadFailed { artifact_path: String },
    /// The audio file could not be decoded into samples.
    AudioDecodeFailed { audio_path: String },
    /// A per-call computation state could not be created.
    SessionCreateFailed,
    /// The engine failed while running inference.
    InferenceFailed,
}

impl TranscribeError {
    /// A human-readable description of the failure, naming the path,
    /// identifier or cause involved.
    pub fn message(&self) -> (r: String)
        ensures
            match *self {
                TranscribeError::UnknownModel { identifier } => r@ == seq_str_unknown_model()
                    + identifier@,
                TranscribeError::ModelAcquisitionFailed { context, cause } => r@
                    == seq_str_acquisition_failed() + context@ + ": "@ + cause@,
                TranscribeError::ContextLoadFailed { artifact_path } => r@
                    == seq_str_context_load_failed() + artifact_path@,
                TranscribeError::AudioDecodeFailed { audio_path } => r@
                    == seq_str_audio_decode_failed() + audio_path@,
                TranscribeError::SessionCreateFailed => r@ == "Failed to create state"@,
                TranscribeError::InferenceFailed => r@ == "failed to run the model"@,
            },
    {
        match self {
            TranscribeError::UnknownModel { identifier } => String::from_str(
                "Invalid model type. Supported types: tiny, base, small, medium, large. Got: ",
            ).concat(identifier.as_str()),
            TranscribeError::ModelAcquisitionFailed { context, cause } => String::from_str(
                "failed to acquire model: ",
            ).concat(context.as_str()).concat(": ").concat(cause.as_str()),
            TranscribeError::ContextLoadFailed { artifact_path } => String::from_str(
                "failed to load model: ",
            ).concat(artifact_path.as_str()),
            TranscribeError::AudioDecodeFailed { audio_path } => String::from_str(
                "failed to decode audio: ",
            ).concat(audio_path.as_str()),
            TranscribeError::SessionCreateFailed => String::from_str("Failed to create state"),
            TranscribeError::InferenceFailed => String::from_str("failed to run the model"),
        }
    }
}

/// The message prefix for an unrecognized model identifier; it lists the
/// recognized identifiers.
pub open spec fn seq_str_unknown_model() -> Seq<char> {
    "Invalid model type. Supported types: tiny, base, small, medium, large. Got: "@
}

/// The message prefix for a failed acquisition.
pub open spec fn seq_str_acquisition_failed() -> Seq<char> {
    "failed to acquire model: "@
}

/// The message prefix for a rejected artifact.
pub open spec fn seq_str_context_load_failed() -> Seq<char> {
    "failed to load model: "@
}

/// The message prefix for an undecodable audio file.
pub open spec fn seq_str_audio_decode_failed() -> Seq<char> {
    "failed to decode audio: "@
}

} // verus!
