//! What to make of the clipboard's content once it has been read.

use crate::chars::{char_is_whitespace, is_blank, is_whitespace};
use vstd::prelude::*;

verus! {

/// The text that a reading session can start from: the content read, unless
/// there is none or it is blank.
pub open spec fn usable(content: Option<String>) -> Option<String> {
    match content {
        Some(text) => if is_blank(text@) {
            None
        } else {
            content
        },
        None => None,
    }
}

/// Whether `text` is empty or holds whitespace only.
pub fn is_blank_text(text: &str) -> (b: bool)
    ensures
        b == is_blank(text@),
{
    for c in it: text.chars()
        invariant
            it.seq() == text@,
            is_blank(text@.take(it.index() as int)),
    {
        if !is_whitespace(c) {
            return false;
        }
        proof {
            let i = it.index() as int;
            assert forall|j: int| 0 <= j < i + 1 implies char_is_whitespace(
                #[trigger] text@.take(i + 1)[j],
            ) by {
                if j < i {
                    assert(text@.take(i)[j] == text@[j]);
                }
            }
        }
    }
    proof {
        assert(text@.take(text@.len() as int) =~= text@);
    }
    true
}

/// Keeps the content read from the clipboard if a session can start from it.
pub fn get_text(content: Option<String>) -> (text: Option<String>)
    ensures
        text == usable(content),
{
    match content {
        Some(text) => {
            if is_blank_text(text.as_str()) {
                None
            } else {
                Some(text)
            }
        },
        None => None,
    }
}

/// Whether a session can start from the content read from the clipboard.
pub fn has_text(content: &Option<String>) -> (b: bool)
    ensures
        b == usable(*content) is Some,
{
    match content {
        Some(text) => !is_blank_text(text.as_str()),
        None => false,
    }
}

} // verus!
