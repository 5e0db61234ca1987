//! Pluggable text transformations with three uniform entry points: a string
//! given directly, the text on the system clipboard, and the text of a file.
//!
//! A concrete transformation implements [`TextConverter::converter`] and
//! states what it computes in [`TextConverter::conversion`]; every entry
//! point is proved to return exactly that conversion of its input.
mod clipboard;
mod converter;
mod output_path;
mod reverse;

pub use converter::{ConvertError, FileConversion, TextConverter};
pub use output_path::converted_path;
pub use reverse::{lemma_reverse_twice, ReverseText};
