//! Conversion of YAML, JSON and TOML documents into one another, for a single
//! file or for every matching file below a directory.
//!
//! The library decides and computes; it performs no input or output itself.
//! A caller drives a [`fs::Conversion`] by carrying out each request it makes
//! against the file system and handing back what happened.

pub mod app;
pub mod codecs;
pub mod error;
pub mod formats;
pub mod fs;
pub mod paths;
pub mod test_helpers;
pub mod text;
pub mod transcoder;
pub mod traversal;
