//! The errors of the library, and the errors of the parsers and printers it
//! calls, which it carries along without looking inside.

use vstd::prelude::*;
use vstd::std_specs::convert::FromSpecImpl;

verus! {

/// The error of the JSON parser and printer.
#[verifier::external_type_specification]
#[verifier::external_body]
pub struct ExJsonError(serde_json::Error);

/// The error of the YAML parser and printer.
#[verifier::external_type_specification]
#[verifier::external_body]
pub struct ExYamlError(serde_yaml::Error);

/// The error of the TOML parser.
#[verifier::external_type_specification]
#[verifier::external_body]
pub struct ExTomlReadError(toml::de::Error);

/// The error of the TOML printer.
#[verifier::external_type_specification]
#[verifier::external_body]
pub struct ExTomlWriteError(toml::ser::Error);

/// The error of an operation on the file system.
#[verifier::external_type_specification]
#[verifier::external_body]
pub struct ExIoError(std::io::Error);

/// What a parser or printer reported when it rejected a document.
#[derive(Debug)]
pub enum Cause {
    /// Reported by the JSON parser or printer.
    Json(serde_json::Error),
    /// Reported by the YAML parser or printer.
    Yaml(serde_yaml::Error),
    /// Reported by the TOML parser.
    TomlRead(toml::de::Error),
    /// Reported by the TOML printer.
    TomlWrite(toml::ser::Error),
}

/// Why a conversion could not be carried out.
#[derive(Debug)]
pub enum X2YError {
    /// The path, extension, format name or pair of formats is unusable; the
    /// text says what was wrong with it.
    InvalidInput(String),
    /// An operation on the file system failed.
    IO(std::io::Error),
    /// The parser of the source format or the printer of the target format
    /// rejected the document.
    Transcode(Cause),
}

impl From<std::io::Error> for X2YError {
    fn from(error: std::io::Error) -> (wrapped: Self) {
        X2YError::IO(error)
    }
}

impl FromSpecImpl<std::io::Error> for X2YError {
    open spec fn obeys_from_spec() -> bool {
        true
    }

    open spec fn from_spec(error: std::io::Error) -> Self {
        X2YError::IO(error)
    }
}

impl From<serde_json::Error> for X2YError {
    fn from(error: serde_json::Error) -> (wrapped: Self) {
        X2YError::Transcode(Cause::Json(error))
    }
}

impl FromSpecImpl<serde_json::Error> for X2YError {
    open spec fn obeys_from_spec() -> bool {
        true
    }

    open spec fn from_spec(error: serde_json::Error) -> Self {
        X2YError::Transcode(Cause::Json(error))
    }
}

impl From<serde_yaml::Error> for X2YError {
    fn from(error: serde_yaml::Error) -> (wrapped: Self) {
        X2YError::Transcode(Cause::Yaml(error))
    }
}

impl FromSpecImpl<serde_yaml::Error> for X2YError {
    open spec fn obeys_from_spec() -> bool {
        true
    }

    open spec fn from_spec(error: serde_yaml::Error) -> Self {
        X2YError::Transcode(Cause::Yaml(error))
    }
}

impl From<toml::de::Error> for X2YError {
    fn from(error: toml::de::Error) -> (wrapped: Self) {
        X2YError::Transcode(Cause::TomlRead(error))
    }
}

impl FromSpecImpl<toml::de::Error> for X2YError {
    open spec fn obeys_from_spec() -> bool {
        true
    }

    open spec fn from_spec(error: toml::de::Error) -> Self {
        X2YError::Transcode(Cause::TomlRead(error))
    }
}

impl From<toml::ser::Error> for X2YError {
    fn from(error: toml::ser::Error) -> (wrapped: Self) {
        X2YError::Transcode(Cause::TomlWrite(error))
    }
}

impl FromSpecImpl<toml::ser::Error> for X2YError {
    open spec fn obeys_from_spec() -> bool {
        true
    }

    open spec fn from_spec(error: toml::ser::Error) -> Self {
        X2YError::Transcode(Cause::TomlWrite(error))
    }
}

/// An error as contracts speak of it: the same three kinds, with the
/// description of an `InvalidInput` as a sequence of characters.
pub enum Failure {
    InvalidInput(Seq<char>),
    IO(std::io::Error),
    Transcode(Cause),
}

impl View for X2YError {
    type V = Failure;

    open spec fn view(&self) -> Failure {
        match *self {
            X2YError::InvalidInput(text) => Failure::InvalidInput(text@),
            X2YError::IO(error) => Failure::IO(error),
            X2YError::Transcode(cause) => Failure::Transcode(cause),
        }
    }
}

/// An outcome as contracts speak of it: the value as it is, the error by its
/// view.
pub open spec fn outcome_view<T>(outcome: Result<T, X2YError>) -> Result<T, Failure> {
    match outcome {
        Ok(value) => Ok(value),
        Err(error) => Err(error@),
    }
}

/// An outcome that is a text as contracts speak of it: the text by its
/// characters, the error by its view.
pub open spec fn text_outcome_view(outcome: Result<String, X2YError>) -> Result<
    Seq<char>,
    Failure,
> {
    match outcome {
        Ok(text) => Ok(text@),
        Err(error) => Err(error@),
    }
}

} // verus!
