//! Conversion of a document's text from one format into another.

use crate::codecs::{
    json_read_for_toml, json_read_for_yaml, json_written, json_written_from_yaml,
    read_json_for_toml, read_json_for_yaml, read_toml_for_yaml, read_yaml_for_json,
    read_yaml_for_toml, toml_read_for_yaml, toml_written, write_json, write_json_from_yaml,
    write_toml, write_yaml, yaml_read_for_json, yaml_read_for_toml, yaml_written,
};
use crate::error::{text_outcome_view, Cause, Failure, X2YError};
use crate::formats::Format;
use vstd::prelude::*;
use vstd::string::StringExecFns;

verus! {

/// What a printer's result becomes: the text, or a `Transcode` failure that
/// wraps what the printer reported.
pub open spec fn printed_or<E>(printed: Result<Seq<char>, E>, wrap: spec_fn(E) -> Cause) -> Result<
    Seq<char>,
    Failure,
> {
    match printed {
        Ok(text) => Ok(text),
        Err(error) => Err(Failure::Transcode(wrap(error))),
    }
}

/// The JSON text for a YAML text.
pub open spec fn yaml_as_json(text: Seq<char>) -> Result<Seq<char>, Failure> {
    match yaml_read_for_json(text) {
        Ok(value) => printed_or(json_written(value), |e| Cause::Json(e)),
        Err(error) => Err(Failure::Transcode(Cause::Yaml(error))),
    }
}

/// The TOML text for a YAML text.
pub open spec fn yaml_as_toml(text: Seq<char>) -> Result<Seq<char>, Failure> {
    match yaml_read_for_toml(text) {
        Ok(value) => printed_or(toml_written(value), |e| Cause::TomlWrite(e)),
        Err(error) => Err(Failure::Transcode(Cause::Yaml(error))),
    }
}

/// The TOML text for a JSON text.
pub open spec fn json_as_toml(text: Seq<char>) -> Result<Seq<char>, Failure> {
    match json_read_for_toml(text) {
        Ok(value) => printed_or(toml_written(value), |e| Cause::TomlWrite(e)),
        Err(error) => Err(Failure::Transcode(Cause::Json(error))),
    }
}

/// The YAML text for a JSON text.
pub open spec fn json_as_yaml(text: Seq<char>) -> Result<Seq<char>, Failure> {
    match json_read_for_yaml(text) {
        Ok(value) => printed_or(yaml_written(value), |e| Cause::Yaml(e)),
        Err(error) => Err(Failure::Transcode(Cause::Json(error))),
    }
}

/// The YAML text for a TOML text.
pub open spec fn toml_as_yaml(text: Seq<char>) -> Result<Seq<char>, Failure> {
    match toml_read_for_yaml(text) {
        Ok(value) => printed_or(yaml_written(value), |e| Cause::Yaml(e)),
        Err(error) => Err(Failure::Transcode(Cause::TomlRead(error))),
    }
}

/// The JSON text for a TOML text.
pub open spec fn toml_as_json(text: Seq<char>) -> Result<Seq<char>, Failure> {
    match toml_read_for_yaml(text) {
        Ok(value) => printed_or(json_written_from_yaml(value), |e| Cause::Json(e)),
        Err(error) => Err(Failure::Transcode(Cause::TomlRead(error))),
    }
}

/// The description with which a pair of formats is refused.
pub open spec fn incompatible(input: Format, output: Format) -> Seq<char> {
    "Incompatible input and output formats: "@ + input.name() + " -> "@ + output.name()
}

/// What converting `text` from `input` to `output` gives. Each of the six
/// pairs of different formats has its conversion; a format paired with itself
/// is refused, with a description that names both.
pub open spec fn transcoded(text: Seq<char>, input: Format, output: Format) -> Result<
    Seq<char>,
    Failure,
> {
    match (input, output) {
        (Format::Yaml, Format::Json) => yaml_as_json(text),
        (Format::Yaml, Format::Toml) => yaml_as_toml(text),
        (Format::Json, Format::Toml) => json_as_toml(text),
        (Format::Json, Format::Yaml) => json_as_yaml(text),
        (Format::Toml, Format::Json) => toml_as_json(text),
        (Format::Toml, Format::Yaml) => toml_as_yaml(text),
        _ => Err(Failure::InvalidInput(incompatible(input, output))),
    }
}

/// A request to convert a text into the format it already has is refused,
/// whatever the text is, with a description that names the format on both
/// sides.
pub proof fn lemma_same_format_refused(text: Seq<char>, format: Format)
    ensures
        transcoded(text, format, format) == Err::<Seq<char>, Failure>(
            Failure::InvalidInput(
                "Incompatible input and output formats: "@ + format.name() + " -> "@
                    + format.name(),
            ),
        ),
{
}

/// Between two different formats a conversion is always attempted: the
/// outcome is a text, or what a parser or printer reported, and never a
/// refusal of the pair.
pub proof fn lemma_different_formats_attempted(text: Seq<char>, input: Format, output: Format)
    requires
        input != output,
    ensures
        match transcoded(text, input, output) {
            Ok(_) => true,
            Err(failure) => failure is Transcode,
        },
{
}

/// Converts the text of a document from `input_format` to `output_format`:
/// the text is parsed as the one and the document is printed as the other.
/// A parser or printer that rejects the document gives a `Transcode` error;
/// asking for the format that the text already has gives `InvalidInput`.
pub fn transcode(contents: &str, input_format: Format, output_format: Format) -> (outcome: Result<
    String,
    X2YError,
>)
    ensures
        text_outcome_view(outcome) == transcoded(contents@, input_format, output_format),
{
    match (input_format, output_format) {
        (Format::Yaml, Format::Json) => yaml_to_json(contents),
        (Format::Yaml, Format::Toml) => yaml_to_toml(contents),
        (Format::Json, Format::Toml) => json_to_toml(contents),
        (Format::Json, Format::Yaml) => json_to_yaml(contents),
        (Format::Toml, Format::Json) => toml_to_json(contents),
        (Format::Toml, Format::Yaml) => toml_to_yaml(contents),
        _ => {
            let mut description = "Incompatible input and output formats: ".to_owned();
            description.append(input_format.to_string().as_str());
            description.append(" -> ");
            description.append(output_format.to_string().as_str());
            Err(X2YError::InvalidInput(description))
        },
    }
}

/// Reads `contents` as YAML and prints the document as JSON.
pub fn yaml_to_json(contents: &str) -> (outcome: Result<String, X2YError>)
    ensures
        text_outcome_view(outcome) == yaml_as_json(contents@),
{
    let json_value = match read_yaml_for_json(contents) {
        Ok(v) => v,
        Err(e) => return Err(X2YError::from(e)),
    };
    match write_json(&json_value) {
        Ok(s) => Ok(s),
        Err(e) => Err(X2YError::from(e)),
    }
}

/// Reads `contents` as YAML and prints the document as TOML.
pub fn yaml_to_toml(contents: &str) -> (outcome: Result<String, X2YError>)
    ensures
        text_outcome_view(outcome) == yaml_as_toml(contents@),
{
    let toml_value = match read_yaml_for_toml(contents) {
        Ok(v) => v,
        Err(e) => return Err(X2YError::from(e)),
    };
    match write_toml(&toml_value) {
        Ok(s) => Ok(s),
        Err(e) => Err(X2YError::from(e)),
    }
}

/// Reads `contents` as JSON and prints the document as TOML.
pub fn json_to_toml(contents: &str) -> (outcome: Result<String, X2YError>)
    ensures
        text_outcome_view(outcome) == json_as_toml(contents@),
{
    let toml_value = match read_json_for_toml(contents) {
        Ok(v) => v,
        Err(e) => return Err(X2YError::from(e)),
    };
    match write_toml(&toml_value) {
        Ok(s) => Ok(s),
        Err(e) => Err(X2YError::from(e)),
    }
}

/// Reads `contents` as JSON and prints the document as YAML.
pub fn json_to_yaml(contents: &str) -> (outcome: Result<String, X2YError>)
    ensures
        text_outcome_view(outcome) == json_as_yaml(contents@),
{
    let yaml_value = match read_json_for_yaml(contents) {
        Ok(v) => v,
        Err(e) => return Err(X2YError::from(e)),
    };
    match write_yaml(&yaml_value) {
        Ok(s) => Ok(s),
        Err(e) => Err(X2YError::from(e)),
    }
}

/// Reads `contents` as TOML and prints the document as YAML.
pub fn toml_to_yaml(contents: &str) -> (outcome: Result<String, X2YError>)
    ensures
        text_outcome_view(outcome) == toml_as_yaml(contents@),
{
    let yaml_value = match read_toml_for_yaml(contents) {
        Ok(v) => v,
        Err(e) => return Err(X2YError::from(e)),
    };
    match write_yaml(&yaml_value) {
        Ok(s) => Ok(s),
        Err(e) => Err(X2YError::from(e)),
    }
}

/// Reads `contents` as TOML and prints the document as JSON.
pub fn toml_to_json(contents: &str) -> (outcome: Result<String, X2YError>)
    ensures
        text_outcome_view(outcome) == toml_as_json(contents@),
{
    let json_value = match read_toml_for_yaml(contents) {
        Ok(v) => v,
        Err(e) => return Err(X2YError::from(e)),
    };
    match write_json_from_yaml(&json_value) {
        Ok(s) => Ok(s),
        Err(e) => Err(X2YError::from(e)),
    }
}

} // verus!
