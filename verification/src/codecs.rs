//! The parsers and printers of the three formats, which live in other crates.
//!
//! A document is read by one crate into the value type of the crate that will
//! print it, and carried from the one call to the other without being looked
//! into. Nothing here is proved: each function below makes one call, and its
//! contract only gives the call's result a name, which claims that the result
//! depends on the argument alone. What a parser accepts and what a printer
//! writes is the business of those crates.

use vstd::prelude::*;

verus! {

/// A document as the JSON crate holds it.
#[verifier::external_type_specification]
#[verifier::external_body]
pub struct ExJsonValue(serde_json::Value);

/// A document as the YAML crate holds it.
#[verifier::external_type_specification]
#[verifier::external_body]
pub struct ExYamlValue(serde_yaml::Value);

/// A document as the TOML crate holds it.
#[verifier::external_type_specification]
#[verifier::external_body]
pub struct ExTomlValue(toml::Value);

/// What `serde_yaml::from_str` returns for a text when asked for a
/// `serde_json::Value`.
pub uninterp spec fn yaml_read_for_json(text: Seq<char>) -> Result<
    serde_json::Value,
    serde_yaml::Error,
>;

/// What `serde_yaml::from_str` returns for a text when asked for a
/// `toml::Value`.
pub uninterp spec fn yaml_read_for_toml(text: Seq<char>) -> Result<toml::Value, serde_yaml::Error>;

/// What `serde_json::from_str` returns for a text when asked for a
/// `toml::Value`.
pub uninterp spec fn json_read_for_toml(text: Seq<char>) -> Result<toml::Value, serde_json::Error>;

/// What `serde_json::from_str` returns for a text when asked for a
/// `serde_yaml::Value`.
pub uninterp spec fn json_read_for_yaml(text: Seq<char>) -> Result<
    serde_yaml::Value,
    serde_json::Error,
>;

/// What `toml::from_str` returns for a text when asked for a
/// `serde_yaml::Value`.
pub uninterp spec fn toml_read_for_yaml(text: Seq<char>) -> Result<
    serde_yaml::Value,
    toml::de::Error,
>;

/// What `serde_json::to_string_pretty` returns for a `serde_json::Value`.
pub uninterp spec fn json_written(value: serde_json::Value) -> Result<Seq<char>, serde_json::Error>;

/// What `serde_json::to_string_pretty` returns for a `serde_yaml::Value`.
pub uninterp spec fn json_written_from_yaml(value: serde_yaml::Value) -> Result<
    Seq<char>,
    serde_json::Error,
>;

/// What `toml::to_string_pretty` returns for a `toml::Value`.
pub uninterp spec fn toml_written(value: toml::Value) -> Result<Seq<char>, toml::ser::Error>;

/// What `serde_yaml::to_string` returns for a `serde_yaml::Value`.
pub uninterp spec fn yaml_written(value: serde_yaml::Value) -> Result<Seq<char>, serde_yaml::Error>;

/// A printer's result as contracts speak of it: the text by its characters.
pub open spec fn written<E>(printed: Result<String, E>) -> Result<Seq<char>, E> {
    match printed {
        Ok(text) => Ok(text@),
        Err(error) => Err(error),
    }
}

/// Calls `serde_yaml::from_str` to read a YAML text into a
/// `serde_json::Value`. The contract names the result and claims nothing
/// more; malformed text, or a document that the JSON value cannot hold, comes
/// back as the crate's error.
#[verifier::external_body]
pub(crate) fn read_yaml_for_json(contents: &str) -> (parsed: Result<
    serde_json::Value,
    serde_yaml::Error,
>)
    ensures
        parsed == yaml_read_for_json(contents@),
{
    serde_yaml::from_str(contents)
}

/// Calls `serde_yaml::from_str` to read a YAML text into a `toml::Value`.
/// The contract names the result and claims nothing more; malformed text, or
/// a document that the TOML value cannot hold, comes back as the crate's
/// error.
#[verifier::external_body]
pub(crate) fn read_yaml_for_toml(contents: &str) -> (parsed: Result<
    toml::Value,
    serde_yaml::Error,
>)
    ensures
        parsed == yaml_read_for_toml(contents@),
{
    serde_yaml::from_str(contents)
}

/// Calls `serde_json::from_str` to read a JSON text into a `toml::Value`.
/// The contract names the result and claims nothing more; malformed text, or
/// a document that the TOML value cannot hold, comes back as the crate's
/// error.
#[verifier::external_body]
pub(crate) fn read_json_for_toml(contents: &str) -> (parsed: Result<
    toml::Value,
    serde_json::Error,
>)
    ensures
        parsed == json_read_for_toml(contents@),
{
    serde_json::from_str(contents)
}

/// Calls `serde_json::from_str` to read a JSON text into a
/// `serde_yaml::Value`. The contract names the result and claims nothing
/// more; malformed text comes back as the crate's error.
#[verifier::external_body]
pub(crate) fn read_json_for_yaml(contents: &str) -> (parsed: Result<
    serde_yaml::Value,
    serde_json::Error,
>)
    ensures
        parsed == json_read_for_yaml(contents@),
{
    serde_json::from_str(contents)
}

/// Calls `toml::from_str` to read a TOML text into a `serde_yaml::Value`.
/// The contract names the result and claims nothing more; malformed text
/// comes back as the crate's error.
#[verifier::external_body]
pub(crate) fn read_toml_for_yaml(contents: &str) -> (parsed: Result<
    serde_yaml::Value,
    toml::de::Error,
>)
    ensures
        parsed == toml_read_for_yaml(contents@),
{
    toml::from_str(contents)
}

/// Calls `serde_json::to_string_pretty` on a `serde_json::Value`, which
/// writes indented JSON over several lines. The contract names the result
/// and claims nothing more.
#[verifier::external_body]
pub(crate) fn write_json(value: &serde_json::Value) -> (printed: Result<
    String,
    serde_json::Error,
>)
    ensures
        written(printed) == json_written(*value),
{
    serde_json::to_string_pretty(value)
}

/// Calls `serde_json::to_string_pretty` on a `serde_yaml::Value`, which
/// writes indented JSON over several lines, or fails where the value has a
/// form that JSON lacks. The contract names the result and claims nothing
/// more.
#[verifier::external_body]
pub(crate) fn write_json_from_yaml(value: &serde_yaml::Value) -> (printed: Result<
    String,
    serde_json::Error,
>)
    ensures
        written(printed) == json_written_from_yaml(*value),
{
    serde_json::to_string_pretty(value)
}

/// Calls `toml::to_string_pretty` on a `toml::Value`, which fails where the
/// value is no table. The contract names the result and claims nothing more.
#[verifier::external_body]
pub(crate) fn write_toml(value: &toml::Value) -> (printed: Result<String, toml::ser::Error>)
    ensures
        written(printed) == toml_written(*value),
{
    toml::to_string_pretty(value)
}

/// Calls `serde_yaml::to_string` on a `serde_yaml::Value`; YAML has one
/// writing style, in blocks over several lines. The contract names the result
/// and claims nothing more.
#[verifier::external_body]
pub(crate) fn write_yaml(value: &serde_yaml::Value) -> (printed: Result<
    String,
    serde_yaml::Error,
>)
    ensures
        written(printed) == yaml_written(*value),
{
    serde_yaml::to_string(value)
}

} // verus!
