use vstd::prelude::*;

verus! {

/// The field whose raw value fell outside both its valid range and its sentinel.
#[derive(Debug, Clone, Copy, PartialEq, Eq, Structural)]
pub enum Field {
    SpeedOverGround,
    Longitude,
    Latitude,
    Heading,
    Accuracy,
    Month,
    Hour,
    Minute,
    Second,
}

/// Every way a message decode can fail; each one aborts the decode.
#[derive(Debug, Clone, Copy, PartialEq, Eq, Structural)]
pub enum DecodeError {
    /// A payload character lies outside the armor alphabet.
    InvalidArmorCharacter,
    /// The cursor ran out of bits in the middle of a field.
    InsufficientBits,
    /// A raw value is neither in its valid range nor its sentinel.
    FieldOutOfRange { field: Field, raw: i64 },
    /// A delegated enumeration did not know the raw code.
    UnknownEnumValue,
    /// The sub-message discriminant names no known part.
    UnknownMessagePart,
}

} // verus!
