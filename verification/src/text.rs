//! Labels for keys whose text comes from outside.
use vstd::prelude::*;
use vstd::string::StrSliceExecFns;

verus! {

/// `String::push` of the standard library: appends one character to the string.
pub assume_specification[ String::push ](s: &mut String, ch: char)
    ensures
        final(s)@ == old(s)@.push(ch),
;

/// The longest label, in characters, that the clipboard key shows before it is cut.
pub const CLIPBOARD_LABEL_LENGTH: usize = 20;

/// `text` where it has at most `max_length` characters; else its first `max_length`
/// characters and an ellipsis.
pub open spec fn trimmed(text: Seq<char>, max_length: nat) -> Seq<char> {
    if text.len() <= max_length {
        text
    } else {
        text.take(max_length as int).push('\u{2026}')
    }
}

/// Cuts `text` down to `max_length` characters, and marks the cut with an ellipsis.
pub fn trim_text(text: &str, max_length: usize) -> (result: String)
    ensures
        result@ == trimmed(text@, max_length as nat),
{
    let length = text.unicode_len();
    let mut result = String::new();
    let mut n: usize = 0;
    while n < length && n < max_length
        invariant
            n <= length,
            n <= max_length,
            length == text@.len(),
            result@ == text@.take(n as int),
        decreases length - n,
    {
        result.push(text.get_char(n));
        assert(text@.take(n as int).push(text@[n as int]) =~= text@.take(n as int + 1));
        n += 1;
    }
    if n < length {
        result.push('\u{2026}');
    } else {
        assert(text@.take(n as int) =~= text@);
    }
    result
}

/// The text that the clipboard key inserts: the clipboard's text, unless there is
/// none or it is empty.
pub open spec fn offered_text(clipboard: Option<Seq<char>>) -> Option<Seq<char>> {
    match clipboard {
        Some(text) if text.len() > 0 => Some(text),
        _ => None,
    }
}

/// What an optional string stands for in contracts.
pub open spec fn text_view(text: Option<String>) -> Option<Seq<char>> {
    match text {
        Some(text) => Some(text@),
        None => None,
    }
}

/// The label of the clipboard key, or `None` where no such key is to be shown: when
/// the clipboard has no text to give, or an empty one.
pub fn clipboard_label(clipboard: &Option<String>) -> (label: Option<String>)
    ensures
        text_view(label) == match offered_text(text_view(*clipboard)) {
            Some(text) => Some(trimmed(text, CLIPBOARD_LABEL_LENGTH as nat)),
            None => None,
        },
{
    match clipboard {
        Some(text) => {
            if text.as_str().is_empty() {
                None
            } else {
                Some(trim_text(text.as_str(), CLIPBOARD_LABEL_LENGTH))
            }
        },
        None => None,
    }
}

} // verus!
