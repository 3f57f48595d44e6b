//! The system clipboard, as far as the keyboard reads it.
use vstd::prelude::*;

verus! {

/// `arboard::Clipboard::new` and then `arboard::Clipboard::get_text`: the text on the
/// system clipboard, or `None` where there is no clipboard to ask, no permission to
/// read it, or no text on it. Nothing is claimed of the answer.
#[verifier::external_body]
pub(crate) fn get_text() -> (text: Option<String>) {
    let mut clipboard = arboard::Clipboard::new().ok()?;
    clipboard.get_text().ok()
}

} // verus!
