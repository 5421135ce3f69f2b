//! The supported formats, and how one is told from a path or a name.

use crate::error::{outcome_view, Failure, X2YError};
use crate::paths::{extension_of, path_extension, text_of};
use crate::text::{lemma_trimmed_unchanged, same_text, trim, trimmed};
use vstd::prelude::*;
use vstd::string::StringExecFns;

verus! {

/// The characters of an extension that may be absent, or present without
/// being text.
pub open spec fn extension_text(extension: Option<Option<&str>>) -> Option<Option<Seq<char>>> {
    match extension {
        Some(e) => Some(text_of(e)),
        None => None,
    }
}

/// One of the supported serialization syntaxes.
#[derive(Copy, Clone, Debug, PartialEq, Eq, Structural)]
pub enum Format {
    Yaml,
    Json,
    Toml,
}

impl Format {
    /// The name under which a format is written out. A converted file's path
    /// ends with it.
    pub open spec fn name(self) -> Seq<char> {
        match self {
            Format::Yaml => "yaml"@,
            Format::Json => "json"@,
            Format::Toml => "toml"@,
        }
    }

    /// Whether `word` is one of the spellings of this format: its name, and
    /// for YAML also `yml`.
    pub open spec fn spelled(self, word: Seq<char>) -> bool {
        word == self.name() || (self == Format::Yaml && word == "yml"@)
    }

    /// The format that a word stands for, if it stands for one. The match is
    /// exact: no other case, no surrounding white space.
    pub open spec fn named(word: Seq<char>) -> Option<Format> {
        if word == "yaml"@ || word == "yml"@ {
            Some(Format::Yaml)
        } else if word == "json"@ {
            Some(Format::Json)
        } else if word == "toml"@ {
            Some(Format::Toml)
        } else {
            None
        }
    }

    /// What reading a format out of `text` gives: the format that the trimmed
    /// text names, or else the description of the failure.
    pub open spec fn read(text: Seq<char>) -> Result<Format, Failure> {
        match Self::named(trimmed(text)) {
            Some(format) => Ok(format),
            None => Err(
                Failure::InvalidInput(trimmed(text) + " is not a supported file format."@),
            ),
        }
    }

    /// What detection gives for a path whose extension and whole text are
    /// known. Each of the two may fail to be text (the inner `None` of
    /// `extension`, the `None` of `whole`). An extension decides alone where
    /// there is one; the whole text is read only where there is none.
    pub open spec fn detection(
        extension: Option<Option<Seq<char>>>,
        whole: Option<Seq<char>>,
    ) -> Result<Format, Failure> {
        match extension {
            Some(Some(e)) => Self::read(e),
            Some(None) => Err(Failure::InvalidInput("the extension contains invalid unicode."@)),
            None => match whole {
                Some(w) => Self::read(w),
                None => Err(Failure::InvalidInput("the path has no retrievable extension."@)),
            },
        }
    }

    /// What detection gives for a path that is text.
    pub open spec fn of_path(path: Seq<char>) -> Result<Format, Failure> {
        Self::detection(
            match path_extension(path) {
                Some(e) => Some(Some(e)),
                None => None,
            },
            Some(path),
        )
    }

    /// The format's name as text.
    pub fn to_string(&self) -> (text: String)
        ensures
            text@ == self.name(),
    {
        match self {
            Format::Yaml => "yaml".to_owned(),
            Format::Json => "json".to_owned(),
            Format::Toml => "toml".to_owned(),
        }
    }

    /// Reads a format out of a text that is meant to name one: white space
    /// around the name is ignored, anything else must match exactly.
    pub fn from_name(text: &str) -> (outcome: Result<Format, X2YError>)
        ensures
            outcome_view(outcome) == Self::read(text@),
    {
        let word = trim(text);
        if same_text(word, "yaml") || same_text(word, "yml") {
            Ok(Format::Yaml)
        } else if same_text(word, "json") {
            Ok(Format::Json)
        } else if same_text(word, "toml") {
            Ok(Format::Toml)
        } else {
            let mut description = word.to_owned();
            description.append(" is not a supported file format.");
            Err(X2YError::InvalidInput(description))
        }
    }

    /// Detects the format of a path from its parts: the extension, where the
    /// path has one, and the path as a whole. Either may have turned out not
    /// to be text, which is the inner `None` of `extension` and the `None` of
    /// `whole`.
    pub fn detect(extension: Option<Option<&str>>, whole: Option<&str>) -> (outcome: Result<
        Format,
        X2YError,
    >)
        ensures
            outcome_view(outcome) == Self::detection(extension_text(extension), text_of(whole)),
    {
        match extension {
            Some(Some(e)) => Self::from_name(e),
            Some(None) => Err(
                X2YError::InvalidInput("the extension contains invalid unicode.".to_owned()),
            ),
            None => match whole {
                Some(w) => Self::from_name(w),
                None => Err(
                    X2YError::InvalidInput("the path has no retrievable extension.".to_owned()),
                ),
            },
        }
    }

    /// Detects the format of the file at `path`, or the format that `path`
    /// names where it is a bare name such as `json`.
    pub fn try_from(path: &str) -> (outcome: Result<Format, X2YError>)
        ensures
            outcome_view(outcome) == Self::of_path(path@),
    {
        match extension_of(path) {
            Some(e) => Self::detect(Some(Some(e)), Some(path)),
            None => Self::detect(None, Some(path)),
        }
    }
}

/// A word stands for a format exactly when it is one of the format's
/// spellings, and then it is unchanged by trimming.
pub proof fn lemma_named_iff_spelled(word: Seq<char>, format: Format)
    ensures
        Format::named(word) == Some(format) <==> format.spelled(word),
        format.spelled(word) ==> trimmed(word) == word,
{
    reveal_strlit("yaml");
    reveal_strlit("yml");
    reveal_strlit("json");
    reveal_strlit("toml");
    if format.spelled(word) {
        lemma_trimmed_unchanged(word);
    }
}

/// Where a path has an extension that is a spelling of a format, detection
/// succeeds with that format, whatever the rest of the path is.
pub proof fn lemma_supported_extension_detected(path: Seq<char>, format: Format)
    requires
        path_extension(path) matches Some(e) && format.spelled(e),
    ensures
        Format::of_path(path) == Ok::<Format, Failure>(format),
{
    lemma_named_iff_spelled(path_extension(path)->0, format);
}

/// Where a path has an extension, detection succeeds exactly when the
/// extension, white space at its ends set aside, is a spelling of some
/// format; the rest of the path is never consulted.
pub proof fn lemma_extension_decides(path: Seq<char>)
    requires
        path_extension(path) is Some,
    ensures
        Format::of_path(path) == Format::read(path_extension(path)->0),
        Format::of_path(path) is Ok <==> exists|format: Format| #[trigger]
            format.spelled(trimmed(path_extension(path)->0)),
{
    let word = trimmed(path_extension(path)->0);
    lemma_named_iff_spelled(word, Format::Yaml);
    lemma_named_iff_spelled(word, Format::Json);
    lemma_named_iff_spelled(word, Format::Toml);
    match Format::named(word) {
        Some(found) => assert(found.spelled(word)),
        None => {},
    }
}

/// A path without an extension that is itself a spelling of a format is
/// detected as that format.
pub proof fn lemma_bare_name_detected(path: Seq<char>, format: Format)
    requires
        path_extension(path) is None,
        format.spelled(path),
    ensures
        Format::of_path(path) == Ok::<Format, Failure>(format),
{
    lemma_named_iff_spelled(path, format);
}

} // verus!
