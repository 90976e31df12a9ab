//! The ways in which deriving or decoding a parameter set can fail.

use vstd::prelude::*;
use crate::constants::ERR_CIPHERSUITE;
use crate::constants::ERR_SEED_TOO_SHORT;

verus! {

/// A failure of derivation or of the codec. None is recovered from inside
/// the library: each is handed to the caller.
#[derive(Clone, Copy, Debug, PartialEq, Eq, Structural)]
pub enum ParamError {
    /// The seed has fewer bytes than the scheme asks for.
    SeedTooShort,
    /// The ciphersuite identifier is not among the accepted ones.
    InvalidCiphersuite,
    /// The expansion step of the key derivation function refused its input.
    InternalKdfError,
    /// The bytes of a point are not the encoding of a group element.
    MalformedPoint,
    /// Some points of a parameter set are compressed and others are not.
    InconsistentCompression,
    /// The depth written in the header is not the depth of this scheme.
    DepthMismatch,
    /// The input ended before the value was complete.
    UnexpectedEof,
}

impl ParamError {
    /// The text of the message, as characters.
    pub open spec fn spec_message(self) -> Seq<char> {
        match self {
            ParamError::SeedTooShort => ERR_SEED_TOO_SHORT@,
            ParamError::InvalidCiphersuite => ERR_CIPHERSUITE@,
            ParamError::InternalKdfError => "Error getting output from HKDF"@,
            ParamError::MalformedPoint => "Invalid point encoding"@,
            ParamError::InconsistentCompression => "Invalid compressness"@,
            ParamError::DepthMismatch => "Deserialization err: the depth doesn't match!"@,
            ParamError::UnexpectedEof => "failed to fill whole buffer"@,
        }
    }

    /// A message for people: what went wrong.
    pub fn message(&self) -> (text: String)
        ensures
            text@ == self.spec_message(),
    {
        match self {
            ParamError::SeedTooShort => ERR_SEED_TOO_SHORT.to_owned(),
            ParamError::InvalidCiphersuite => ERR_CIPHERSUITE.to_owned(),
            ParamError::InternalKdfError => "Error getting output from HKDF".to_owned(),
            ParamError::MalformedPoint => "Invalid point encoding".to_owned(),
            ParamError::InconsistentCompression => "Invalid compressness".to_owned(),
            ParamError::DepthMismatch => "Deserialization err: the depth doesn't match!".to_owned(),
            ParamError::UnexpectedEof => "failed to fill whole buffer".to_owned(),
        }
    }
}

} // verus!
