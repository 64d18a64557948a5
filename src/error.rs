//! The errors of decoding a profile and of changing its tags.
use vstd::prelude::*;

verus! {

/// Why bytes could not be decoded.
#[derive(Debug, Copy, Clone, PartialEq, Eq, Hash, Structural)]
pub enum DecodeError {
    /// A four-byte code outside the closed set that the field admits.
    UnrecognizedSignature { signature: u32 },
    /// The record of the given type needs more bytes than there are.
    TruncatedRecord { type_signature: u32, needed: u64, available: u64 },
    /// An offset inside a record points outside the region it may point into.
    InvalidOffset { offset: u32, limit: u64 },
    /// A declared size disagrees with the number of bytes there are.
    SizeMismatch { declared: u64, actual: u64 },
    /// The tag table declares the same tag signature twice.
    DuplicateTag { signature: u32 },
}

/// Why a tag could not be added to a profile.
#[derive(Debug, Copy, Clone, PartialEq, Eq, Hash, Structural)]
pub enum TagError {
    /// The profile already holds a tag with this signature.
    DuplicateTag { signature: u32 },
    /// The record's type is not one that this tag signature admits.
    TagTypeMismatch { signature: u32, type_signature: u32 },
    /// With the tag added, the profile's encoding would not fit its 32-bit size field.
    ProfileTooLarge { signature: u32 },
}

} // verus!
