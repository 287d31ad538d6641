//! The closed error taxonomy of the protocol layer.

use vstd::prelude::*;

verus! {

/// Every failure the library reports falls under one of these four kinds.
///
/// - `Connection`: a transport-level failure, reported by the surrounding
///   I/O code; the protocol logic itself never produces it.
/// - `Protocol`: a malformed or unexpected frame (too short, unrecognized
///   opcode, an invalid length-prefixed field).
/// - `Broker`: an explicit ERROR message from the broker, carrying the
///   broker's reason string.
/// - `Validation`: an identity or channel string longer than the 255-byte
///   limit of a one-byte length prefix, rejected before any bytes are built.
#[derive(Debug)]
pub enum HpfeedsError {
    Connection(String),
    Protocol(String),
    Broker(String),
    Validation(String),
}

impl HpfeedsError {
    /// The human-readable reason carried by the error.
    pub fn reason(&self) -> (r: &String)
        ensures
            r@ == match self {
                HpfeedsError::Connection(s) => s@,
                HpfeedsError::Protocol(s) => s@,
                HpfeedsError::Broker(s) => s@,
                HpfeedsError::Validation(s) => s@,
            },
    {
        match self {
            HpfeedsError::Connection(s) => s,
            HpfeedsError::Protocol(s) => s,
            HpfeedsError::Broker(s) => s,
            HpfeedsError::Validation(s) => s,
        }
    }
}

} // verus!
