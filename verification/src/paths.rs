//! What the standard library says of a path, for paths given as text.
//!
//! Nothing here is proved. Each function makes one call into `std`, and its
//! contract gives the result a name: a claim that the result depends on the
//! text alone, and no claim about what it is.

use vstd::prelude::*;

verus! {

/// The extension of a path given as text: what `std::path::Path::extension`
/// returns for it.
pub uninterp spec fn path_extension(path: Seq<char>) -> Option<Seq<char>>;

/// A path given as text, as `{:?}` prints it: in quotes, with escapes.
pub uninterp spec fn path_debug(path: Seq<char>) -> Seq<char>;

/// A text as `{:?}` prints it: in quotes, with escapes.
pub uninterp spec fn text_debug(text: Seq<char>) -> Seq<char>;

/// The characters of a text that may be absent.
pub open spec fn text_of(text: Option<&str>) -> Option<Seq<char>> {
    match text {
        Some(t) => Some(t@),
        None => None,
    }
}

/// Calls `std::path::Path::extension` on the path that `path` spells. The
/// contract gives the result the name `path_extension` and says nothing else
/// about it. The extension of a path that is text is text, so the conversion
/// back loses nothing.
#[verifier::external_body]
pub(crate) fn extension_of<'a>(path: &'a str) -> (extension: Option<&'a str>)
    ensures
        text_of(extension) == path_extension(path@),
{
    std::path::Path::new(path).extension().and_then(|e| e.to_str())
}

/// Formats the path that `path` spells with `{:?}`, the `Debug` of
/// `std::path::Path`. The contract gives the result the name `path_debug` and
/// says nothing else about it.
#[verifier::external_body]
pub(crate) fn debug_path(path: &str) -> (quoted: String)
    ensures
        quoted@ == path_debug(path@),
{
    format!("{:?}", std::path::Path::new(path))
}

/// Formats a text with `{:?}`, the `Debug` of `str`. The contract gives the
/// result the name `text_debug` and says nothing else about it.
#[verifier::external_body]
pub(crate) fn debug_text(text: &str) -> (quoted: String)
    ensures
        quoted@ == text_debug(text@),
{
    format!("{:?}", text)
}

} // verus!
