//! Errors surfaced by decoding wire values and by finalizing request builders.

use vstd::prelude::*;

verus! {

/// Why a wire value could not be decoded.
#[derive(Debug, Clone, Copy, PartialEq, Eq, Structural)]
pub enum DecodeError {
    /// A number was expected, but the text is not a decimal that fits in 64 bits.
    InvalidNumber,
    /// The token is not one of the enumeration's wire names.
    UnknownToken,
    /// The text is not a timestamp in the fixed wire format.
    InvalidTimestamp,
}

/// Why a request builder could not be finalized.
#[derive(Debug, Clone, Copy, PartialEq, Eq)]
pub enum BuildError {
    /// A required field was never set; the wire name of the field is given.
    UninitializedField(&'static str),
}

} // verus!
