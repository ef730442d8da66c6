//! The model store: resolves an identifier to its artifact, computes the
//! cache path and download URL, and decides each step of acquisition. The
//! surrounding binary performs the filesystem and network work and feeds the
//! outcome of each step back in as an [`AcquireEvent`].
use crate::errors::TranscribeError;
use crate::model::{spec_parse_model, Model};
use crate::text::{spec_lower, str_eq_lower};
use vstd::prelude::*;
use vstd::string::StringExecFns;

verus! {

use crate::model::spec_artifact_name;

/// The catalog's answer for a string: the model it names, up to ASCII case.
pub open spec fn spec_resolve(identifier: Seq<char>) -> Option<Model> {
    spec_parse_model(spec_lower(identifier))
}

/// The fixed remote repository that artifacts are fetched from.
pub open spec fn spec_base_url() -> Seq<char> {
    "https://huggingface.co/ggerganov/whisper.cpp/resolve/main"@
}

/// The artifact file's location inside the cache directory.
pub open spec fn spec_artifact_path(dir: Seq<char>, artifact_name: Seq<char>) -> Seq<char> {
    dir + "/"@ + artifact_name + ".bin"@
}

/// Folding each of the five recognized identifiers changes nothing: they are
/// already lower-case.
pub proof fn lemma_lower_identifiers()
    ensures
        spec_lower("tiny"@) == "tiny"@,
        spec_lower("base"@) == "base"@,
        spec_lower("small"@) == "small"@,
        spec_lower("medium"@) == "medium"@,
        spec_lower("large"@) == "large"@,
{
    reveal_strlit("tiny");
    reveal_strlit("base");
    reveal_strlit("small");
    reveal_strlit("medium");
    reveal_strlit("large");
    assert(spec_lower("tiny"@) =~= "tiny"@);
    assert(spec_lower("base"@) =~= "base"@);
    assert(spec_lower("small"@) =~= "small"@);
    assert(spec_lower("medium"@) =~= "medium"@);
    assert(spec_lower("large"@) =~= "large"@);
}

/// Catalog resolution is deterministic and case-insensitive: any two strings
/// with the same ASCII-folded form resolve alike, and a string resolves the
/// same as its folded form.
pub proof fn lemma_resolution_case_insensitive(a: Seq<char>, b: Seq<char>)
    requires
        spec_lower(a) == spec_lower(b),
    ensures
        spec_resolve(a) == spec_resolve(b),
        spec_resolve(a) == spec_resolve(spec_lower(a)),
{
    crate::text::lemma_lower_idempotent(a);
}

/// Resolve a model identifier, ASCII-case-insensitively, to the canonical
/// artifact name; any unrecognized identifier is an `UnknownModel` error
/// carrying the identifier.
pub fn resolve(identifier: &str) -> (r: Result<&'static str, TranscribeError>)
    ensures
        spec_resolve(identifier@) matches Some(m) ==> (r matches Ok(name) && name@
            == spec_artifact_name(m)),
        spec_resolve(identifier@) is None ==> (r matches Err(e) && e matches
            TranscribeError::UnknownModel { identifier: id } && id@ == identifier@),
{
    proof {
        lemma_lower_identifiers();
    }
    if str_eq_lower(identifier, "tiny") {
        Ok("ggml-tiny")
    } else if str_eq_lower(identifier, "base") {
        Ok("ggml-base")
    } else if str_eq_lower(identifier, "small") {
        Ok("ggml-small")
    } else if str_eq_lower(identifier, "medium") {
        Ok("ggml-medium")
    } else if str_eq_lower(identifier, "large") {
        Ok("ggml-large")
    } else {
        Err(TranscribeError::UnknownModel { identifier: identifier.to_owned() })
    }
}

/// The model store: a resolved artifact name bound to a cache directory.
/// After a successful acquisition run the artifact file is resident at
/// [`ModelHandler::get_model_dir`].
#[derive(Debug, Clone)]
pub struct ModelHandler {
    model_name: String,
    models_dir: String,
}

/// One step of an acquisition run, in the order the run visits them.
/// `Done` is terminal: it admits no further event.
#[derive(Debug, Clone, Copy, PartialEq, Eq, Structural)]
pub enum AcquireStep {
    /// Check whether the artifact file already exists.
    CheckArtifact,
    /// Create the cache directory if it is missing.
    EnsureDirectory,
    /// Fetch the artifact from the remote repository and write it.
    FetchArtifact,
    /// The artifact is resident; nothing is left to do.
    Done,
}

/// The outcome of one acquisition step, reported by the caller that performed
/// it. A `Some` cause is the underlying failure's description.
#[derive(Debug, Clone, PartialEq, Eq)]
pub enum AcquireEvent {
    /// Whether the artifact file already exists at the expected path.
    ArtifactFound(bool),
    /// `None` if the cache directory now exists (created or pre-existing),
    /// else the creation failure's cause.
    DirectoryReady(Option<String>),
    /// `None` if the artifact was fetched and written, else the failure's
    /// cause.
    FetchFinished(Option<String>),
}

/// Which events can answer which step.
pub open spec fn spec_event_fits(step: AcquireStep, event: AcquireEvent) -> bool {
    match (step, event) {
        (AcquireStep::CheckArtifact, AcquireEvent::ArtifactFound(_)) => true,
        (AcquireStep::EnsureDirectory, AcquireEvent::DirectoryReady(_)) => true,
        (AcquireStep::FetchArtifact, AcquireEvent::FetchFinished(_)) => true,
        _ => false,
    }
}

/// The acquisition machine's transition: the step that follows, or `None` on
/// a failed step. An artifact found in the cache ends the run at once; a
/// missing one routes through directory creation and the fetch.
pub open spec fn spec_acquire_next(step: AcquireStep, event: AcquireEvent) -> Option<AcquireStep> {
    match (step, event) {
        (AcquireStep::CheckArtifact, AcquireEvent::ArtifactFound(true)) => Some(AcquireStep::Done),
        (AcquireStep::CheckArtifact, AcquireEvent::ArtifactFound(false)) => Some(
            AcquireStep::EnsureDirectory,
        ),
        (AcquireStep::EnsureDirectory, AcquireEvent::DirectoryReady(None)) => Some(
            AcquireStep::FetchArtifact,
        ),
        (AcquireStep::FetchArtifact, AcquireEvent::FetchFinished(None)) => Some(AcquireStep::Done),
        _ => None,
    }
}

/// Acquisition is idempotent: a run that finds the artifact already cached —
/// as every run after a successful one does — is complete after the existence
/// check alone, and the terminal step admits no directory or fetch work.
pub proof fn lemma_acquisition_idempotent()
    ensures
        spec_acquire_next(AcquireStep::CheckArtifact, AcquireEvent::ArtifactFound(true)) == Some(
            AcquireStep::Done,
        ),
        forall|e: AcquireEvent| !spec_event_fits(AcquireStep::Done, e),
{
}

/// Every step a run visits when it starts at `step` and the performed work
/// reports the events of `events` in order; the run stops at the first failed
/// step and at the terminal step, which no event moves.
pub open spec fn spec_run_steps(step: AcquireStep, events: Seq<AcquireEvent>) -> Seq<AcquireStep>
    decreases events.len(),
{
    if events.len() == 0 {
        seq![step]
    } else {
        match spec_acquire_next(step, events[0]) {
            Some(next) => seq![step] + spec_run_steps(next, events.drop_first()),
            None => seq![step],
        }
    }
}

/// A run that begins with the artifact already on disk performs no fetch,
/// whatever events follow: it visits the existence check and the terminal
/// step and nothing else.
pub proof fn lemma_cached_run_never_fetches(events: Seq<AcquireEvent>)
    requires
        events.len() > 0,
        events[0] == AcquireEvent::ArtifactFound(true),
    ensures
        spec_run_steps(AcquireStep::CheckArtifact, events) =~= seq![
            AcquireStep::CheckArtifact,
            AcquireStep::Done,
        ],
        !spec_run_steps(AcquireStep::CheckArtifact, events).contains(AcquireStep::FetchArtifact),
{
    let rest = events.drop_first();
    if rest.len() == 0 {
        assert(spec_run_steps(AcquireStep::Done, rest) =~= seq![AcquireStep::Done]);
    } else {
        assert(spec_acquire_next(AcquireStep::Done, rest[0]) is None);
        assert(spec_run_steps(AcquireStep::Done, rest) =~= seq![AcquireStep::Done]);
    }
}

/// A pre-existing cache directory is never an acquisition error: the
/// directory step fails only on an explicit creation failure, and a directory
/// that is ready — created now or already present — always advances the run
/// to the fetch.
pub proof fn lemma_existing_directory_not_an_error(e: AcquireEvent)
    requires
        spec_event_fits(AcquireStep::EnsureDirectory, e),
    ensures
        spec_acquire_next(AcquireStep::EnsureDirectory, e) is None <==> e matches
            AcquireEvent::DirectoryReady(Some(_)),
        spec_acquire_next(AcquireStep::EnsureDirectory, AcquireEvent::DirectoryReady(None)) == Some(
            AcquireStep::FetchArtifact,
        ),
{
}

impl ModelHandler {
    /// The resolved artifact name this store is bound to.
    pub closed spec fn model_name_view(&self) -> Seq<char> {
        self.model_name@
    }

    /// The cache directory this store writes into.
    pub closed spec fn models_dir_view(&self) -> Seq<char> {
        self.models_dir@
    }

    /// Bind a model identifier (ASCII-case-insensitively) to a cache
    /// directory; an unrecognized identifier is rejected, never defaulted.
    pub fn new(model_name: &str, models_dir: &str) -> (r: Result<ModelHandler, TranscribeError>)
        ensures
            spec_resolve(model_name@) matches Some(m) ==> (r matches Ok(h) && h.model_name_view()
                == spec_artifact_name(m) && h.models_dir_view() == models_dir@),
            spec_resolve(model_name@) is None ==> (r matches Err(e) && e matches
                TranscribeError::UnknownModel { identifier: id } && id@ == model_name@),
    {
        match resolve(model_name) {
            Ok(artifact_name) => Ok(
                ModelHandler {
                    model_name: artifact_name.to_owned(),
                    models_dir: models_dir.to_owned(),
                },
            ),
            Err(e) => Err(e),
        }
    }

    /// The artifact file's path: `{models_dir}/{model_name}.bin`. Its
    /// existence is the store's sole cache-hit signal.
    pub fn get_model_dir(&self) -> (r: String)
        ensures
            r@ == spec_artifact_path(self.models_dir_view(), self.model_name_view()),
    {
        self.models_dir.clone().concat("/").concat(self.model_name.as_str()).concat(".bin")
    }

    /// The URL the artifact is fetched from when it is not cached:
    /// `{base}/{model_name}.bin` against the fixed repository.
    pub fn download_url(&self) -> (r: String)
        ensures
            r@ == spec_base_url() + "/"@ + self.model_name_view() + ".bin"@,
    {
        String::from_str("https://huggingface.co/ggerganov/whisper.cpp/resolve/main").concat(
            "/",
        ).concat(self.model_name.as_str()).concat(".bin")
    }

    /// The step an acquisition run starts at.
    pub fn acquire_start(&self) -> (r: AcquireStep)
        ensures
            r == AcquireStep::CheckArtifact,
    {
        AcquireStep::CheckArtifact
    }

    /// Decide the step that follows `step` once its outcome is known. A
    /// failed directory or fetch step is a `ModelAcquisitionFailed` error
    /// naming the directory or URL and wrapping the reported cause; nothing
    /// else fails.
    pub fn acquire_next(&self, step: AcquireStep, event: AcquireEvent) -> (r: Result<
        AcquireStep,
        TranscribeError,
    >)
        requires
            spec_event_fits(step, event),
        ensures
            r matches Ok(next) ==> spec_acquire_next(step, event) == Some(next),
            r is Err <==> spec_acquire_next(step, event) is None,
            (event matches AcquireEvent::DirectoryReady(Some(cause)) ==> (r matches Err(e)
                && e matches TranscribeError::ModelAcquisitionFailed { context, cause: c }
                && context@ == self.models_dir_view() && c@ == cause@)),
            (event matches AcquireEvent::FetchFinished(Some(cause)) ==> (r matches Err(e)
                && e matches TranscribeError::ModelAcquisitionFailed { context, cause: c }
                && context@ == spec_base_url() + "/"@ + self.model_name_view() + ".bin"@ && c@
                == cause@)),
    {
        match (step, event) {
            (AcquireStep::CheckArtifact, AcquireEvent::ArtifactFound(true)) => Ok(
                AcquireStep::Done,
            ),
            (AcquireStep::CheckArtifact, AcquireEvent::ArtifactFound(false)) => Ok(
                AcquireStep::EnsureDirectory,
            ),
            (AcquireStep::EnsureDirectory, AcquireEvent::DirectoryReady(None)) => Ok(
                AcquireStep::FetchArtifact,
            ),
            (AcquireStep::EnsureDirectory, AcquireEvent::DirectoryReady(Some(cause))) => Err(
                TranscribeError::ModelAcquisitionFailed {
                    context: self.models_dir.clone(),
                    cause,
                },
            ),
            (AcquireStep::FetchArtifact, AcquireEvent::FetchFinished(None)) => Ok(
                AcquireStep::Done,
            ),
            (AcquireStep::FetchArtifact, AcquireEvent::FetchFinished(Some(cause))) => Err(
                TranscribeError::ModelAcquisitionFailed { context: self.download_url(), cause },
            ),
            _ => {
                proof {
                    assert(false);
                }
                Err(TranscribeError::InferenceFailed)
            },
        }
    }
}

} // verus!
