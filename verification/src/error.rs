use vstd::prelude::*;

verus! {

/// Why a byte buffer could not be converted to a BGP message.
#[derive(PartialEq, Eq, Structural, Debug, Clone, Copy)]
pub enum ConvertBytesToBgpMessageError {
    /// Fewer bytes were supplied than the 19-byte header, or than the
    /// smallest body of the message being decoded.
    TooShort,
    /// The header's type byte is not a recognized message type code.
    UnknownMessageType,
    /// The header's type is a recognized code, but not the type the
    /// message decoder at hand expects.
    UnexpectedMessageType,
    /// The version byte of an OPEN message is above 4.
    BadVersion,
    /// The optional-parameters length of an OPEN message is not zero;
    /// optional parameters are not supported in this subset.
    UnsupportedOptionalParameters,
}

impl ConvertBytesToBgpMessageError {
    /// A short description, in place of a `Display` rendering.
    pub fn message(self) -> String {
        match self {
            ConvertBytesToBgpMessageError::TooShort => "too short bytes".to_string(),
            ConvertBytesToBgpMessageError::UnknownMessageType => "failed to convert to BGP message type (expected 1 or 4)".to_string(),
            ConvertBytesToBgpMessageError::UnexpectedMessageType => "header type does not match the message being decoded".to_string(),
            ConvertBytesToBgpMessageError::BadVersion => "failed to convert to BGP version: expected <= 4".to_string(),
            ConvertBytesToBgpMessageError::UnsupportedOptionalParameters => "optional parameters are not supported".to_string(),
        }
    }
}

} // verus!
