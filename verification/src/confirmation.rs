//! The kinds of operation that need the user's confirmation.
use vstd::prelude::*;

verus! {

/// An operation class that the user approves once or for the session.
#[derive(Debug, Clone, Copy, PartialEq, Eq, Structural)]
pub enum ConfirmationOperation {
    File,
    Bash,
}

} // verus!
