//! The command/response abstraction: a command knows its group byte and its
//! payload, and names the response that the probe answers it with.
use vstd::prelude::*;

use crate::error::Error;

pub mod control;

verus! {

/// A decoded answer of the probe.
///
/// Decoding is a pure function of the bytes: `spec_from_payload` states it,
/// and `from_payload` computes exactly that.
pub trait Response: Sized {
    /// What decoding `bytes` gives.
    spec fn spec_from_payload(bytes: Seq<u8>) -> Result<Self, Error>;

    /// Decodes the probe's answer, or says why it cannot be decoded.
    fn from_payload(bytes: &[u8]) -> (r: Result<Self, Error>)
        ensures
            r == Self::spec_from_payload(bytes@),
    ;
}

/// A request to the probe.
///
/// The payload is the sub-command byte followed by its parameters; the
/// group byte `COMMAND_ID` is added by the transport's framing.
pub trait Command {
    /// What the probe answers this command with.
    type Response: Response;

    /// The command group.
    const COMMAND_ID: u8;

    /// The payload bytes of this command.
    spec fn spec_payload(&self) -> Seq<u8>;

    /// Encodes this command, without its group byte.
    fn payload(&self) -> (r: Vec<u8>)
        ensures
            r@ == self.spec_payload(),
    ;
}

/// Commands that expect no answer: whatever comes back is accepted.
impl Response for () {
    open spec fn spec_from_payload(bytes: Seq<u8>) -> Result<(), Error> {
        Ok(())
    }

    fn from_payload(bytes: &[u8]) -> (r: Result<(), Error>) {
        Ok(())
    }
}

/// A single-byte answer, taken as it is.
impl Response for u8 {
    open spec fn spec_from_payload(bytes: Seq<u8>) -> Result<u8, Error> {
        if bytes.len() == 1 {
            Ok(bytes[0])
        } else {
            Err(Error::InvalidPayloadLength)
        }
    }

    fn from_payload(bytes: &[u8]) -> (r: Result<u8, Error>) {
        if bytes.len() != 1 {
            return Err(Error::InvalidPayloadLength);
        }
        Ok(bytes[0])
    }
}

} // verus!
