//! The errors of the codec.

use vstd::prelude::*;

verus! {

/// What can go wrong when an image is decoded or a field is encoded.
#[derive(Debug, Clone, Copy, PartialEq, Eq, Structural)]
pub enum CodecError {
    /// The buffer ends before a field that decoding reads.
    Truncated,
    /// A money byte holds a nibble that is no decimal digit.
    MalformedMoney,
    /// A value handed to an encoder lies outside the range of its field.
    FieldOutOfRange,
}

impl CodecError {
    /// The message of this error.
    pub open spec fn message_text(self) -> Seq<char> {
        match self {
            CodecError::Truncated => "Save is shorter than a first generation save image"@,
            CodecError::MalformedMoney => "Money is not stored as decimal digits"@,
            CodecError::FieldOutOfRange => "Value is outside the range of its field"@,
        }
    }

    /// The message of this error.
    pub fn message(&self) -> (text: String)
        ensures
            text@ == self.message_text(),
    {
        match self {
            CodecError::Truncated => String::from_str(
                "Save is shorter than a first generation save image",
            ),
            CodecError::MalformedMoney => String::from_str("Money is not stored as decimal digits"),
            CodecError::FieldOutOfRange => String::from_str(
                "Value is outside the range of its field",
            ),
        }
    }
}

} // verus!
