//! Decode-time failures.
//!
//! Every failure aborts the record being decoded in full: a partially
//! decoded record is never returned. Each variant carries the context that
//! identifies the fault: the byte offset where it was observed, and the
//! offending value where there is one.

use vstd::prelude::*;

verus! {

/// A decoding or framing failure.
#[derive(Clone, Copy, Debug, PartialEq, Eq, Structural)]
pub enum Error {
    /// None of the first five bytes of a varint run had its high bit clear.
    TruncatedVarint { offset: usize },
    /// The cursor reached the end of the buffer where another byte was owed.
    UnexpectedEnd { offset: usize },
    /// A string header asked for a window that starts before the buffer.
    StringWindow { offset: usize },
    /// The sliced string window was not valid UTF-8.
    InvalidString { offset: usize },
    /// A frame's tag bytes were not valid UTF-8.
    InvalidTag,
    /// A tagged-union discriminant byte at or above the variant count.
    UnknownVariant { offset: usize, tag: u8, count: usize },
    /// A scalar decoded for a closed enumeration matched none of its values.
    InvalidEnumValue { value: u8 },
    /// A decoded value did not have the structure a record conversion asked for.
    ShapeMismatch,
    /// A non-empty frame payload too short to hold its sequence number.
    ShortPayload { len: usize },
}

impl Error {
    /// A short description of the failure, for callers that report it.
    pub fn describe(&self) -> (r: &'static str)
        ensures
            r@.len() > 0,
    {
        proof {
            reveal_strlit("truncated varint");
            reveal_strlit("unexpected end of buffer");
            reveal_strlit("string window out of range");
            reveal_strlit("string window is not valid UTF-8");
            reveal_strlit("frame tag is not valid UTF-8");
            reveal_strlit("unknown tagged-union variant");
            reveal_strlit("value outside the enumeration");
            reveal_strlit("value does not match the record's structure");
            reveal_strlit("payload too short for a sequence number");
        }
        match self {
            Error::TruncatedVarint { .. } => "truncated varint",
            Error::UnexpectedEnd { .. } => "unexpected end of buffer",
            Error::StringWindow { .. } => "string window out of range",
            Error::InvalidString { .. } => "string window is not valid UTF-8",
            Error::InvalidTag => "frame tag is not valid UTF-8",
            Error::UnknownVariant { .. } => "unknown tagged-union variant",
            Error::InvalidEnumValue { .. } => "value outside the enumeration",
            Error::ShapeMismatch => "value does not match the record's structure",
            Error::ShortPayload { .. } => "payload too short for a sequence number",
        }
    }
}

} // verus!
