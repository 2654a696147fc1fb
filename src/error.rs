use vstd::prelude::*;

verus! {

/// Why a byte sequence is not an envelope.
#[derive(Clone, Copy, Debug, PartialEq, Eq, Structural)]
pub enum DecodeError {
    /// The bytes do not hold the envelope's fields.
    Malformed,
    /// The fields are there, but the message kind is neither GET nor PUB.
    UnknownKind,
}

/// The errors that a one-shot exchange or a transition of a client handle
/// hands back to its caller.
#[derive(Clone, Copy, Debug, PartialEq, Eq, Structural)]
pub enum Error {
    /// The session with the host could not be established.
    Connection,
    /// A reply could not be decoded as an envelope.
    Decode(DecodeError),
    /// A reply declares a payload type other than the one the handle expects.
    TypeMismatch,
}

} // verus!
