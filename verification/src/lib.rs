//! Decoder for a compact binary game-state protocol.
//!
//! The crate reconstructs structured records from a byte buffer: a base-128
//! varint codec, a variable-length-header string codec, a schema-driven
//! decoder engine that resolves shapes (scalars, sequences, positional
//! structs, tagged unions) against the bytes under a forward-moving cursor,
//! and the framing layer that carves discrete records out of a continuous
//! byte stream.

pub mod convert;
pub mod de;
pub mod engine;
pub mod error;
pub mod frame;
pub mod records;
pub mod schema;
pub mod shape;
pub mod varint;
