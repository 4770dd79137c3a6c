//! The error type of the generator.

use vstd::prelude::*;
use vstd::string::StringExecFns;

verus! {

#[verifier::external_type_specification]
#[verifier::external_body]
pub struct ExIoError(std::io::Error);

#[verifier::external_type_specification]
#[verifier::external_body]
pub struct ExJsonError(serde_json::Error);

/// What can go wrong in the generator.
#[derive(Debug)]
pub enum GeneratorError {
    ApiError(String),
    TemplateError(String),
    IoError(std::io::Error),
    SerializationError(serde_json::Error),
    GenerationFailed(String),
}

/// The text that `std::io::Error` displays. It depends on the operating
/// system, so nothing is claimed of it.
#[verifier::external_body]
fn io_error_text(error: &std::io::Error) -> (text: String) {
    error.to_string()
}

/// The text that `serde_json::Error` displays. Nothing is claimed of it.
#[verifier::external_body]
fn json_error_text(error: &serde_json::Error) -> (text: String) {
    error.to_string()
}

impl GeneratorError {
    /// The words that open the message of the error.
    pub open spec fn prefix(self) -> Seq<char> {
        match self {
            GeneratorError::ApiError(_) => "API error: "@,
            GeneratorError::TemplateError(_) => "Template error: "@,
            GeneratorError::IoError(_) => "IO error: "@,
            GeneratorError::SerializationError(_) => "Serialization error: "@,
            GeneratorError::GenerationFailed(_) => "Generation failed: "@,
        }
    }

    /// The message of the error: its prefix, then the detail it carries. For an
    /// error that carries an outside error, the detail is what that one
    /// displays.
    pub fn message(&self) -> (text: String)
        ensures
            text@.len() >= self.prefix().len(),
            text@.subrange(0, self.prefix().len() as int) == self.prefix(),
            match self {
                GeneratorError::ApiError(detail) => text@ == self.prefix() + detail@,
                GeneratorError::TemplateError(detail) => text@ == self.prefix() + detail@,
                GeneratorError::GenerationFailed(detail) => text@ == self.prefix() + detail@,
                _ => true,
            },
    {
        let (mut text, detail) = match self {
            GeneratorError::ApiError(detail) => (String::from_str("API error: "), detail.clone()),
            GeneratorError::TemplateError(detail) => (
                String::from_str("Template error: "),
                detail.clone(),
            ),
            GeneratorError::IoError(error) => (String::from_str("IO error: "), io_error_text(error)),
            GeneratorError::SerializationError(error) => (
                String::from_str("Serialization error: "),
                json_error_text(error),
            ),
            GeneratorError::GenerationFailed(detail) => (
                String::from_str("Generation failed: "),
                detail.clone(),
            ),
        };
        text.append(detail.as_str());
        assert(text@.subrange(0, self.prefix().len() as int) =~= self.prefix());
        text
    }
}

impl From<std::io::Error> for GeneratorError {
    fn from(error: std::io::Error) -> (wrapped: GeneratorError) {
        GeneratorError::IoError(error)
    }
}

impl vstd::std_specs::convert::FromSpecImpl<std::io::Error> for GeneratorError {
    open spec fn obeys_from_spec() -> bool {
        true
    }

    open spec fn from_spec(error: std::io::Error) -> GeneratorError {
        GeneratorError::IoError(error)
    }
}

impl From<serde_json::Error> for GeneratorError {
    fn from(error: serde_json::Error) -> (wrapped: GeneratorError) {
        GeneratorError::SerializationError(error)
    }
}

impl vstd::std_specs::convert::FromSpecImpl<serde_json::Error> for GeneratorError {
    open spec fn obeys_from_spec() -> bool {
        true
    }

    open spec fn from_spec(error: serde_json::Error) -> GeneratorError {
        GeneratorError::SerializationError(error)
    }
}

} // verus!
