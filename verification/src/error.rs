use vstd::prelude::*;

verus! {

/// What can go wrong when a value is built from text.
#[derive(Debug, Clone, Copy, PartialEq, Eq, Structural)]
pub enum Error {
    /// The text is not a number in any of the encodings tried.
    NotNumber,
}

} // verus!
