//! What can go wrong while a native record is taken over.

use vstd::prelude::*;

verus! {

/// Why a native value was refused.
#[derive(Debug, Clone, Copy, PartialEq, Eq, Structural)]
pub enum ComputerError {
    /// The native layer handed out a null handle where a live object was
    /// expected.
    Null,
    /// A native text could not be decoded.
    Text,
    /// A category tag lies outside the set that the native layer defines.
    Category,
}

impl ComputerError {
    /// The sentence that describes the error to a reader.
    pub open spec fn spec_message(self) -> Seq<char> {
        match self {
            ComputerError::Null => "pointer is null"@,
            ComputerError::Text => "text cannot be decoded"@,
            ComputerError::Category => "category tag is unknown"@,
        }
    }

    /// Renders the error as text.
    pub fn message(&self) -> (text: String)
        ensures
            text@ == self.spec_message(),
    {
        match self {
            ComputerError::Null => "pointer is null".to_string(),
            ComputerError::Text => "text cannot be decoded".to_string(),
            ComputerError::Category => "category tag is unknown".to_string(),
        }
    }
}

} // verus!
