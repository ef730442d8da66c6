use simple_transcribe::errors::TranscribeError;
use simple_transcribe::model::Model;
use simple_transcribe::model_handler::resolve;

#[test]
fn resolve_is_case_insensitive_for_all_identifiers() {
    let cases = [
        ("tiny", "ggml-tiny"),
        ("TINY", "ggml-tiny"),
        ("TiNy", "ggml-tiny"),
        ("base", "ggml-base"),
        ("BASE", "ggml-base"),
        ("small", "ggml-small"),
        ("Small", "ggml-small"),
        ("medium", "ggml-medium"),
        ("MEDIUM", "ggml-medium"),
        ("large", "ggml-large"),
        ("LaRgE", "ggml-large"),
    ];
    for (identifier, artifact) in cases {
        assert_eq!(resolve(identifier).unwrap(), artifact);
    }
}

#[test]
fn resolve_uppercase_tiny() {
    assert_eq!(resolve("TINY").unwrap(), "ggml-tiny");
}

#[test]
fn resolve_unknown_identifier_fails() {
    let err = resolve("huge").unwrap_err();
    assert_eq!(
        err,
        TranscribeError::UnknownModel {
            identifier: "huge".to_string()
        }
    );
    let message = err.message();
    assert_eq!(
        message,
        "Invalid model type. Supported types: tiny, base, small, medium, large. Got: huge"
    );
    assert!(message.contains("tiny, base, small, medium, large"));
}

#[test]
fn resolve_rejects_empty_and_near_misses() {
    assert!(resolve("").is_err());
    assert!(resolve("tiny ").is_err());
    assert!(resolve("gigantic").is_err());
    assert!(resolve("ggml-tiny").is_err());
}

#[test]
fn get_model_names_every_artifact() {
    assert_eq!(Model::Tiny.get_model(), "ggml-tiny");
    assert_eq!(Model::Base.get_model(), "ggml-base");
    assert_eq!(Model::Small.get_model(), "ggml-small");
    assert_eq!(Model::Medium.get_model(), "ggml-medium");
    assert_eq!(Model::Large.get_model(), "ggml-large");
}

#[test]
fn model_parses_exact_identifiers() {
    assert_eq!("tiny".parse::<Model>().unwrap(), Model::Tiny);
    assert_eq!("base".parse::<Model>().unwrap(), Model::Base);
    assert_eq!("small".parse::<Model>().unwrap(), Model::Small);
    assert_eq!("medium".parse::<Model>().unwrap(), Model::Medium);
    assert_eq!("large".parse::<Model>().unwrap(), Model::Large);
}

#[test]
fn model_parse_is_exact_and_reports_the_supported_set() {
    let err = "Huge".parse::<Model>().unwrap_err();
    assert_eq!(
        err,
        "Invalid model type. Supported types: tiny, base, small, medium, large"
    );
    assert!("Tiny".parse::<Model>().is_err());
}
