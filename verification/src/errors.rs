//! Decode failures surfaced by the response handlers.

use vstd::prelude::*;

verus! {

/// Why a response body could not be turned into records: either the text
/// is not JSON at all, or the document does not have the required shape.
#[derive(Debug, PartialEq, Eq, Structural, Clone, Copy)]
pub enum DecodeError {
    InvalidJson,
    UnexpectedShape,
}

impl DecodeError {
    /// A short description for terminal status lines.
    pub fn message(&self) -> (m: &'static str)
        ensures
            *self is InvalidJson ==> m@ == "response body is not valid JSON"@,
            *self is UnexpectedShape ==> m@
                == "response JSON does not match the expected shape"@,
    {
        match self {
            DecodeError::InvalidJson => "response body is not valid JSON",
            DecodeError::UnexpectedShape => "response JSON does not match the expected shape",
        }
    }
}

} // verus!
