//! The closed set of recognized model sizes and their canonical artifact
//! names in the remote repository.
use crate::text::str_eq;
use vstd::prelude::*;
use vstd::string::StringExecFns;

verus! {

/// A recognized model size. Choosing one is the only way to name an artifact:
/// an unrecognized identifier is rejected at parse time, never defaulted.
#[derive(Debug, Clone, Copy, PartialEq, Eq, Structural)]
pub enum Model {
    Tiny,
    Base,
    Small,
    Medium,
    Large,
}

/// The canonical artifact name (without the `.bin` suffix) for each model.
pub open spec fn spec_artifact_name(m: Model) -> Seq<char> {
    match m {
        Model::Tiny => "ggml-tiny"@,
        Model::Base => "ggml-base"@,
        Model::Small => "ggml-small"@,
        Model::Medium => "ggml-medium"@,
        Model::Large => "ggml-large"@,
    }
}

impl Model {
    /// The canonical artifact name used in the remote model repository.
    pub fn get_model(&self) -> (r: &str)
        ensures
            r@ == spec_artifact_name(*self),
    {
        match self {
            Model::Tiny => "ggml-tiny",
            Model::Base => "ggml-base",
            Model::Small => "ggml-small",
            Model::Medium => "ggml-medium",
            Model::Large => "ggml-large",
        }
    }
}

/// Which model, if any, a string names. The match is exact: case
/// normalization is the catalog's concern, not the parser's.
pub open spec fn spec_parse_model(s: Seq<char>) -> Option<Model> {
    if s == "tiny"@ {
        Some(Model::Tiny)
    } else if s == "base"@ {
        Some(Model::Base)
    } else if s == "small"@ {
        Some(Model::Small)
    } else if s == "medium"@ {
        Some(Model::Medium)
    } else if s == "large"@ {
        Some(Model::Large)
    } else {
        None
    }
}

/// The rejection message for an unrecognized model string; it lists the
/// recognized identifiers.
pub open spec fn spec_invalid_model_message() -> Seq<char> {
    "Invalid model type. Supported types: tiny, base, small, medium, large"@
}

impl Model {
    /// Parse a model from its exact lower-case identifier; any other string
    /// is rejected with a message listing the recognized identifiers.
    pub fn parse(s: &str) -> (r: Result<Model, String>)
        ensures
            match r {
                Ok(m) => spec_parse_model(s@) == Some(m),
                Err(msg) => spec_parse_model(s@) is None && msg@ == spec_invalid_model_message(),
            },
    {
        if str_eq(s, "tiny") {
            Ok(Model::Tiny)
        } else if str_eq(s, "base") {
            Ok(Model::Base)
        } else if str_eq(s, "small") {
            Ok(Model::Small)
        } else if str_eq(s, "medium") {
            Ok(Model::Medium)
        } else if str_eq(s, "large") {
            Ok(Model::Large)
        } else {
            Err(
                String::from_str(
                    "Invalid model type. Supported types: tiny, base, small, medium, large",
                ),
            )
        }
    }
}

impl core::str::FromStr for Model {
    type Err = String;

    fn from_str(s: &str) -> Result<Self, String> {
        Model::parse(s)
    }
}

} // verus!
