//! An interactive diagnostic for an X25519 key exchange: each run draws two
//! fresh key pairs, computes the shared secret, and classifies it against
//! the two public keys to surface the bug where the shared secret equals
//! one of them. The session keeps a bounded, append-only transcript,
//! dispatches the commands `run` and `clear`, and lays the transcript out
//! bottom-anchored in the current viewport.

pub mod curve;
pub mod engine;
pub mod layout;
pub mod message_log;
pub mod opcode;
pub mod text;
pub mod ui;
