//! Which custom instructions a session follows.
use vstd::prelude::*;

use crate::image_input::opt_string;
use crate::text::{chars_of, string_from_chars, trim, trim_chars};

verus! {

/// The instructions of a file's text: the text trimmed, when something is left.
pub open spec fn instructions_of(text: Option<Seq<char>>) -> Option<Seq<char>> {
    match text {
        Some(t) => if trim(t).len() > 0 {
            Some(trim(t))
        } else {
            None
        },
        None => None,
    }
}

/// The custom instructions, given the texts of the project's `.grok/GROK.md`
/// and the user's `~/.grok/GROK.md` (nothing for a file that could not be
/// read): the project's when they are not blank, else the user's when they are
/// not blank; trimmed.
pub fn choose_custom_instructions(project: Option<&str>, global: Option<&str>) -> (r: Option<String>)
    ensures
        opt_string(r) == match instructions_of(crate::text::opt_text(project)) {
            Some(p) => Some(p),
            None => instructions_of(crate::text::opt_text(global)),
        },
{
    if let Some(p) = project {
        let t = trim_chars(chars_of(p).as_slice());
        if t.len() > 0 {
            return Some(string_from_chars(t.as_slice()));
        }
    }
    if let Some(g) = global {
        let t = trim_chars(chars_of(g).as_slice());
        if t.len() > 0 {
            return Some(string_from_chars(t.as_slice()));
        }
    }
    None
}

} // verus!
