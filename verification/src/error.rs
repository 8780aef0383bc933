//! Error wrappers shared by the pages: both carry nothing but a
//! human-readable message.

use vstd::prelude::*;

verus! {

/// Error reported by the playback pipeline: a resolve, decode or seek failure,
/// folded into one displayable message.
#[derive(Debug, Clone, PartialEq, Eq)]
pub struct PomeloError {
    pub error: String,
}

impl PomeloError {
    /// Wraps a message.
    pub fn new(error: String) -> (e: Self)
        ensures
            e.error == error,
    {
        PomeloError { error }
    }

    /// The message, for display.
    pub fn message(&self) -> (r: &str)
        ensures
            r@ == self.error@,
    {
        self.error.as_str()
    }
}

/// Error reported while fetching video information from the network.
#[derive(Debug, Clone, PartialEq, Eq)]
pub struct FetchError {
    pub error: String,
}

impl FetchError {
    /// Wraps a message.
    pub fn new(error: String) -> (e: Self)
        ensures
            e.error == error,
    {
        FetchError { error }
    }

    /// The message, for display.
    pub fn message(&self) -> (r: &str)
        ensures
            r@ == self.error@,
    {
        self.error.as_str()
    }
}

} // verus!
