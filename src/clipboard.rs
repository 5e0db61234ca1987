use vstd::prelude::*;

verus! {

/// The system clipboard handle of arboard, carried through unopened.
#[verifier::external_type_specification]
#[verifier::external_body]
pub struct ExClipboard(arboard::Clipboard);

/// The error that arboard reports when the clipboard cannot be reached or
/// holds nothing in the requested format.
#[verifier::external_type_specification]
#[verifier::external_body]
pub struct ExClipboardError(arboard::Error);

/// Relies on arboard's `Clipboard::new`, which opens a session with the
/// platform clipboard; whether it succeeds depends on the environment alone.
pub assume_specification[ arboard::Clipboard::new ]() -> Result<arboard::Clipboard, arboard::Error>;

/// Relies on arboard's `Clipboard::get_text`, which reads the clipboard's
/// current text; what it returns depends on the clipboard alone.
pub assume_specification[ arboard::Clipboard::get_text ](
    clipboard: &mut arboard::Clipboard,
) -> Result<String, arboard::Error>;

} // verus!
