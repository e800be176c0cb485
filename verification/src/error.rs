//! Errors of the library.

use vstd::prelude::*;

verus! {

/// What can go wrong.
#[derive(Debug, Clone, PartialEq, Eq)]
pub enum Error {
    /// The audio output cannot be opened or used.
    Output(String),
}

} // verus!
