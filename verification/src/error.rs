//! The closed set of fatal decode failures. Each aborts decoding of one
//! datagram; none is ever corrected into a best-guess value.

use vstd::prelude::*;

verus! {

/// Component of the flags byte that an `InvalidField` error points at.
#[derive(Copy, Clone, Debug, PartialEq, Eq, Structural)]
pub enum FieldName {
    LeapIndicatorField,
    VersionNumberField,
    ModeField,
}

/// Why a 48-byte frame was rejected.
#[derive(Copy, Clone, Debug, PartialEq, Eq, Structural)]
pub enum ParseError {
    /// Fewer than 48 bytes were available.
    LengthError,
    /// An enumeration bit pattern lies outside its valid set.
    InvalidField(FieldName),
    /// A stratum-0 reference identifier is not in the Kiss-of-Death
    /// vocabulary.
    InvalidKissCode,
    /// The mandatory transmit timestamp is the zero sentinel or its instant
    /// cannot be represented.
    InvalidTimestamp,
}

} // verus!
