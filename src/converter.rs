use vstd::prelude::*;

use crate::output_path::{converted_path, path_stem};

verus! {

/// Why an entry point could not produce a conversion.
#[derive(Clone, Copy, Debug, PartialEq, Eq, Structural)]
pub enum ConvertError {
    /// The system clipboard could not be opened.
    ClipboardUnavailable,
    /// The input file is missing, unreadable, or not valid text.
    FileUnreadable,
    /// The output file could not be created or fully written.
    OutputWriteFailed,
}

/// The outcome of converting a file's text: what to write, and where.
pub struct FileConversion {
    /// The path derived from the input path, see [`converted_path`].
    pub output_path: String,
    /// The conversion of the file's text; it is both written out and returned.
    pub output: String,
}

/// The text that a clipboard read hands to the conversion: the text fetched,
/// or the empty text where the clipboard held none.
pub open spec fn clipboard_input(fetched: Option<String>) -> Seq<char> {
    match fetched {
        Some(text) => text@,
        None => Seq::empty(),
    }
}

/// A text transformation with three entry points built on it.
///
/// An implementation supplies [`converter`](Self::converter), a pure function
/// from text to text, and states in [`conversion`](Self::conversion) what it
/// computes. Nothing requires a conversion to be idempotent: reversing twice
/// gives the input back, while other conversions applied twice may not.
pub trait TextConverter {
    /// What the conversion makes of a text.
    spec fn conversion(input: Seq<char>) -> Seq<char>;

    /// Transforms the input into the desired form.
    ///
    /// Preferably never called directly, but through the entry points below.
    fn converter(input: &str) -> (output: String)
        ensures
            output@ == Self::conversion(input@),
    ;

    /// Converts the given text.
    fn new_from_text(input: &str) -> (output: String)
        ensures
            output@ == Self::conversion(input@),
    {
        Self::converter(input)
    }

    /// Converts what a clipboard read fetched: its text, or the empty text
    /// where the clipboard held no text.
    fn new_from_clipboard_text(fetched: Option<String>) -> (output: String)
        ensures
            output@ == Self::conversion(clipboard_input(fetched)),
    {
        match fetched {
            Some(text) => Self::converter(text.as_str()),
            None => {
                proof {
                    reveal_strlit("");
                    assert(""@ =~= Seq::<char>::empty());
                }
                Self::converter("")
            },
        }
    }

    /// Reads the system clipboard once and converts its text; a clipboard
    /// that holds no text (or something other than text) counts as empty.
    ///
    /// Fails with [`ConvertError::ClipboardUnavailable`] where the clipboard
    /// cannot be opened.
    fn new_from_clipboard() -> (r: Result<String, ConvertError>)
        ensures
            match r {
                Ok(output) => exists|fetched: Option<String>|
                    output@ == #[trigger] Self::conversion(clipboard_input(fetched)),
                Err(e) => e == ConvertError::ClipboardUnavailable,
            },
    {
        match arboard::Clipboard::new() {
            Ok(mut clipboard) => {
                let fetched = match clipboard.get_text() {
                    Ok(text) => Some(text),
                    Err(_) => None,
                };
                Ok(Self::new_from_clipboard_text(fetched))
            },
            Err(_) => Err(ConvertError::ClipboardUnavailable),
        }
    }

    /// Converts the text read from the file at `path`, and names the file
    /// that the conversion is to be written to.
    fn new_from_file_text(path: &str, contents: &str) -> (r: FileConversion)
        ensures
            r.output@ == Self::conversion(contents@),
            r.output_path@ == path_stem(path@) + "_converted.md"@,
    {
        let output = Self::converter(contents);
        let output_path = converted_path(path);
        FileConversion { output_path, output }
    }
}

} // verus!
