//! The ways a parse can fail.
use core::str::Utf8Error;
use vstd::prelude::*;

verus! {

#[verifier::external_type_specification]
#[verifier::external_body]
pub struct ExUtf8Error(Utf8Error);

/// What went wrong inside the parser itself.
#[derive(Clone, Copy, Debug, PartialEq, Eq, Structural)]
pub enum InternalErrorKind {
    /// A fixed-size byte-to-scalar conversion got a slice of the wrong length.
    TryFromSlice,
}

/// A failure that a correctly accounted cursor never produces.
#[derive(Clone, Copy, Debug, PartialEq, Eq, Structural)]
pub struct InternalError {
    pub kind: InternalErrorKind,
}

impl InternalError {
    pub fn new(kind: InternalErrorKind) -> (r: Self)
        ensures
            r.kind == kind,
    {
        Self { kind }
    }
}

/// Why a buffer could not be decoded.
#[derive(Debug)]
pub enum HxaError {
    /// The first four bytes are not the format's signature; carries them as read.
    InvalidMagicNumber(u32),
    /// A field reaches past the end of the buffer.
    UnexpectedEndOfData,
    UnexpectedNodeType(u8),
    UnexpectedLayerDataType(u8),
    UnexpectedImageType(u8),
    UnexpectedMetadataType(u8),
    /// A name or text value is not UTF-8.
    InvalidUtf8(Utf8Error),
    InternalError(InternalError),
    /// Bytes are left after the declared nodes; carries how many.
    TrailingData(usize),
}

pub type HxaResult<T> = Result<T, HxaError>;

/// The abstract form of an error: `HxaError` without the UTF-8 decoder's details.
#[derive(PartialEq, Eq, Structural)]
pub enum Failure {
    InvalidMagicNumber(u32),
    UnexpectedEndOfData,
    UnexpectedNodeType(u8),
    UnexpectedLayerDataType(u8),
    UnexpectedImageType(u8),
    UnexpectedMetadataType(u8),
    InvalidUtf8,
    Internal,
    TrailingData(usize),
}

impl HxaError {
    /// The abstract form of this error.
    pub open spec fn failure(&self) -> Failure {
        match self {
            HxaError::InvalidMagicNumber(m) => Failure::InvalidMagicNumber(*m),
            HxaError::UnexpectedEndOfData => Failure::UnexpectedEndOfData,
            HxaError::UnexpectedNodeType(c) => Failure::UnexpectedNodeType(*c),
            HxaError::UnexpectedLayerDataType(c) => Failure::UnexpectedLayerDataType(*c),
            HxaError::UnexpectedImageType(c) => Failure::UnexpectedImageType(*c),
            HxaError::UnexpectedMetadataType(c) => Failure::UnexpectedMetadataType(*c),
            HxaError::InvalidUtf8(_) => Failure::InvalidUtf8,
            HxaError::InternalError(_) => Failure::Internal,
            HxaError::TrailingData(n) => Failure::TrailingData(*n),
        }
    }
}

} // verus!
