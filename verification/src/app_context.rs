//! State shared by the interactive front end: the runtime flags and the name
//! sessions are saved under.
use vstd::prelude::*;

use crate::text::{chars_of, decimal, decimal_chars_u128, push_chars, string_from_chars};

verus! {

/// Flags the user can change while the program runs.
#[derive(Debug, Clone, Copy, PartialEq, Eq, Structural)]
pub struct RuntimeFlags {
    pub auto_edit: bool,
}

impl Default for RuntimeFlags {
    /// Auto-edit off.
    fn default() -> (r: RuntimeFlags)
        ensures
            !r.auto_edit,
    {
        RuntimeFlags { auto_edit: false }
    }
}

/// The name of an automatically saved session: `auto-` and the time in
/// milliseconds.
pub fn default_session_name(epoch_millis: u128) -> (r: String)
    ensures
        r@ == "auto-"@ + decimal(epoch_millis as nat),
{
    let mut out = chars_of("auto-");
    let digits = decimal_chars_u128(epoch_millis);
    push_chars(&mut out, digits.as_slice());
    string_from_chars(out.as_slice())
}

/// The session name an automatic save uses: the active one, or a new
/// `auto-` name that then becomes the active one.
pub fn autosave_session_name(active: &mut Option<String>, epoch_millis: u128) -> (r: String)
    ensures
        match *old(active) {
            Some(n) => r == n && *final(active) == Some(n),
            None => r@ == "auto-"@ + decimal(epoch_millis as nat) && *final(active) == Some(r),
        },
{
    match active {
        Some(n) => n.clone(),
        None => {
            let name = default_session_name(epoch_millis);
            *active = Some(name.clone());
            name
        },
    }
}

} // verus!
