use vstd::prelude::*;

verus! {

/// The error kinds of this crate.
///
/// `DecodeError` reports a malformed cell tree where a well-formed
/// single-root tree was expected; `InvalidData` a structurally valid value
/// with a required part missing (no code, no data, no body, no
/// destination); `AbiEncodingError` a rejection by the ABI collaborator;
/// `InternalError` a post-construction invariant violation.
#[derive(Debug, Clone)]
pub enum SdkError {
    DecodeError { msg: String },
    InvalidData { msg: String },
    AbiEncodingError { msg: String },
    InternalError { msg: String },
}

impl SdkError {
    /// Human-readable description of the error.
    pub fn message(&self) -> String {
        match self {
            SdkError::DecodeError { msg } => msg.clone(),
            SdkError::InvalidData { msg } => msg.clone(),
            SdkError::AbiEncodingError { msg } => msg.clone(),
            SdkError::InternalError { msg } => msg.clone(),
        }
    }

    pub fn is_decode_error(&self) -> (r: bool)
        ensures
            r == (self matches SdkError::DecodeError { .. }),
    {
        match self {
            SdkError::DecodeError { .. } => true,
            _ => false,
        }
    }

    pub fn is_invalid_data(&self) -> (r: bool)
        ensures
            r == (self matches SdkError::InvalidData { .. }),
    {
        match self {
            SdkError::InvalidData { .. } => true,
            _ => false,
        }
    }

    pub fn is_internal_error(&self) -> (r: bool)
        ensures
            r == (self matches SdkError::InternalError { .. }),
    {
        match self {
            SdkError::InternalError { .. } => true,
            _ => false,
        }
    }
}

} // verus!
