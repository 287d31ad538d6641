//! Client-side protocol logic for a length-prefixed binary feed protocol:
//! frame encoding and decoding, opcode dispatch, and the
//! connect-then-authenticate handshake.

pub mod auth;
pub mod codec;
pub mod errors;
pub mod handshake;
pub mod messages;
pub mod publish;
