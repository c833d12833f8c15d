//! The error taxonomy.
//!
//! A recognition miss is not an error: parsing answers `None` so that the
//! caller can try another layer shape. The variants here are the hard
//! failures: a shape that matched but violated a structural invariant, and
//! a node whose shape cannot be deconstructed at all.

use vstd::prelude::*;

verus! {

/// A hard parsing failure.
#[derive(Debug, Clone, Copy, PartialEq, Eq)]
pub enum ParseError {
    /// The puzzle matched the singleton top layer's shape but its embedded
    /// struct constants were wrong; malformed on-chain data, never retried.
    InvalidSingletonStruct,
    /// The puzzle matched a layer's shape but an embedded structural
    /// constant was wrong.
    StructuralMismatch,
    /// The node's shape does not deconstruct as the expected solution or
    /// argument list.
    DecodeError,
}

impl ParseError {
    /// A short description of the failure.
    pub fn message(&self) -> (r: &'static str)
    {
        match self {
            ParseError::InvalidSingletonStruct => "invalid singleton struct",
            ParseError::StructuralMismatch => "embedded structural constant mismatch",
            ParseError::DecodeError => "failed to decode node shape",
        }
    }
}

/// A failure while handing a built node tree to the outside arena for
/// serialization.
#[derive(Debug, Clone, Copy, PartialEq, Eq)]
pub enum SpendError {
    /// The arena refused an allocation.
    AllocationError,
    /// The serializer reported a write error.
    SerializationError,
}

impl SpendError {
    /// A short description of the failure.
    pub fn message(&self) -> (r: &'static str)
    {
        match self {
            SpendError::AllocationError => "node allocation failed",
            SpendError::SerializationError => "node serialization failed",
        }
    }
}

/// A required signing key was not available; surfaced by the signing
/// collaborator, never recovered here.
#[derive(Debug, Clone, Copy, PartialEq, Eq)]
pub struct KeyError;

impl KeyError {
    /// A short description of the failure.
    pub fn message(&self) -> (r: &'static str)
    {
        "missing key"
    }
}

} // verus!
