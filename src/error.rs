//! Decode errors.
use vstd::prelude::*;

verus! {

/// Why a response could not be decoded.
#[derive(Clone, Copy, Debug, PartialEq, Eq, Structural)]
pub enum Error {
    /// The response has fewer bytes than required, or not the exact count required.
    InvalidPayloadLength,
    /// A byte outside the known set of chip-family or probe-variant codes.
    UnknownDiscriminant(u8),
}

} // verus!
