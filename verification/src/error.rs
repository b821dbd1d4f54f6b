//! Why a configuration could not be produced.

use vstd::prelude::*;
use vstd::string::StringExecFns;

verus! {

#[verifier::external_type_specification]
#[verifier::external_body]
pub struct ExYamlError(serde_yaml::Error);

#[verifier::external_type_specification]
#[verifier::external_body]
pub struct ExIoError(std::io::Error);

/// Errors that can occur when loading a configuration. Each one carries the
/// diagnostic of the layer that failed, untouched.
#[derive(Debug)]
pub enum LoadConfigError {
    /// The file's content is not YAML, or does not fit the configuration type.
    Yaml(serde_yaml::Error),
    /// The override is not JSON, the configuration could not be turned into a
    /// JSON document, or the merged document does not fit the configuration
    /// type.
    Json(serde_json::Error),
    /// The file could not be read.
    Io(std::io::Error),
}

/// Renders a `serde_yaml::Error` with its `Display` impl. Nothing is claimed
/// of the text.
#[verifier::external_body]
fn yaml_detail(error: &serde_yaml::Error) -> String {
    error.to_string()
}

/// Renders a `serde_json::Error` with its `Display` impl. Nothing is claimed
/// of the text.
#[verifier::external_body]
fn json_detail(error: &serde_json::Error) -> String {
    error.to_string()
}

/// Renders a `std::io::Error` with its `Display` impl. Nothing is claimed of
/// the text, which for an operating-system error depends on the system.
#[verifier::external_body]
fn io_detail(error: &std::io::Error) -> String {
    error.to_string()
}

impl LoadConfigError {
    /// The words that open this error's message.
    pub open spec fn label(&self) -> Seq<char> {
        match self {
            LoadConfigError::Yaml(_) => "YAML parsing error: "@,
            LoadConfigError::Json(_) => "JSON parsing error: "@,
            LoadConfigError::Io(_) => "IO error: "@,
        }
    }

    /// The message of this error around a given diagnostic: the label, then
    /// the diagnostic.
    pub fn message_with(&self, detail: &str) -> (text: String)
        ensures
            text@ == self.label() + detail@,
    {
        let label = match self {
            LoadConfigError::Yaml(_) => "YAML parsing error: ",
            LoadConfigError::Json(_) => "JSON parsing error: ",
            LoadConfigError::Io(_) => "IO error: ",
        };
        String::from_str(label).concat(detail)
    }

    /// The message of this error: the label, then the diagnostic as the
    /// failing layer words it.
    pub fn message(&self) -> (text: String)
        ensures
            self.label().is_prefix_of(text@),
    {
        let detail = match self {
            LoadConfigError::Yaml(error) => yaml_detail(error),
            LoadConfigError::Json(error) => json_detail(error),
            LoadConfigError::Io(error) => io_detail(error),
        };
        self.message_with(detail.as_str())
    }
}

} // verus!
