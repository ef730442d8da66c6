//! Speech-to-text transcription pipeline: a model catalog, a model store that
//! caches engine artifacts on disk, and a transcription coordinator that turns
//! an audio file into timestamped text segments via a native inference engine.
//!
//! The library holds the pipeline's logic: identifier resolution, artifact
//! path and download-URL construction, the acquisition and transcription step
//! machines, parameter defaulting, and segment aggregation. The surrounding
//! binary performs the filesystem, network and engine calls and feeds their
//! outcomes back into the step machines as plain events.
pub mod errors;
pub mod model;
pub mod model_handler;
pub mod text;
pub mod transcriber;
