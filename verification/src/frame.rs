//! The stream framing layer.
//!
//! A frame on the wire is a big-endian 16-bit tag length, that many tag
//! bytes read as UTF-8, a varint payload length, and the payload. A
//! non-empty payload opens with a big-endian 32-bit sequence number; the
//! remainder is the record bytes handed to the decoder engine. An empty
//! payload is skipped silently, with no frame emitted.

use vstd::prelude::*;

use crate::de::utf8_to_string;
use crate::error::Error;
use crate::varint::{lemma_varint_len, read_varint};

verus! {

/// One unit extracted from the transport stream.
#[derive(Clone, Debug, PartialEq, Eq)]
pub struct Frame {
    /// The frame's tag string.
    pub tag: String,
    /// The big-endian 32-bit number at the head of the payload.
    pub seq_number: i32,
    /// The record bytes that follow the sequence number.
    pub record: Vec<u8>,
}

/// The mathematical form of a `Frame`.
#[verifier::ext_equal]
pub struct SpecFrame {
    pub tag: Seq<char>,
    pub seq_number: i32,
    pub record: Seq<u8>,
}

impl View for Frame {
    type V = SpecFrame;

    open spec fn view(&self) -> SpecFrame {
        SpecFrame { tag: self.tag@, seq_number: self.seq_number, record: self.record@ }
    }
}

/// The signed 16-bit value of two big-endian bytes.
pub open spec fn spec_i16_be(b0: u8, b1: u8) -> i16 {
    (((b0 as u16) << 8u16) | (b1 as u16)) as i16
}

/// Reads two big-endian bytes as a signed 16-bit value.
pub fn i16_from_be(b0: u8, b1: u8) -> (r: i16)
    ensures
        r == spec_i16_be(b0, b1),
{
    #[verifier::truncate]
    ((((b0 as u16) << 8u16) | (b1 as u16)) as i16)
}

/// The signed 32-bit value of four big-endian bytes.
pub open spec fn spec_i32_be(b0: u8, b1: u8, b2: u8, b3: u8) -> i32 {
    (((b0 as u32) << 24u32) | ((b1 as u32) << 16u32) | ((b2 as u32) << 8u32) | (b3 as u32)) as i32
}

/// Reads four big-endian bytes as a signed 32-bit value.
pub fn i32_from_be(b0: u8, b1: u8, b2: u8, b3: u8) -> (r: i32)
    ensures
        r == spec_i32_be(b0, b1, b2, b3),
{
    #[verifier::truncate]
    ((((b0 as u32) << 24u32) | ((b1 as u32) << 16u32) | ((b2 as u32) << 8u32) | (b3 as u32))
        as i32)
}

/// The tag string a frame's tag bytes spell, when they are valid UTF-8.
pub open spec fn spec_tag_of(bytes: Seq<u8>) -> Result<Seq<char>, Error> {
    if vstd::utf8::valid_utf8(bytes) {
        Ok(vstd::utf8::decode_utf8(bytes))
    } else {
        Err(Error::InvalidTag)
    }
}

/// Reads a frame's tag bytes as UTF-8.
pub fn tag_of(bytes: &[u8]) -> (r: Result<String, Error>)
    ensures
        match spec_tag_of(bytes@) {
            Ok(cs) => r is Ok && r.unwrap()@ == cs,
            Err(e) => r is Err && r.unwrap_err() == e,
        },
{
    let copied: Vec<u8> = vstd::slice::slice_to_vec(bytes);
    match utf8_to_string(copied) {
        Some(s) => Ok(s),
        None => Err(Error::InvalidTag),
    }
}

/// What a frame's payload carries: nothing when it is empty, an error when
/// it is shorter than its four-byte sequence number, and otherwise the
/// sequence number with the record bytes after it.
pub open spec fn spec_split_payload(data: Seq<u8>) -> Result<Option<(i32, Seq<u8>)>, Error> {
    if data.len() == 0 {
        Ok(None)
    } else if data.len() < 4 {
        Err(Error::ShortPayload { len: data.len() as usize })
    } else {
        Ok(Some((spec_i32_be(data[0], data[1], data[2], data[3]), data.skip(4))))
    }
}

/// Splits a frame's payload into its sequence number and record bytes; an
/// empty payload yields nothing.
pub fn split_payload(data: &[u8]) -> (r: Result<Option<(i32, Vec<u8>)>, Error>)
    ensures
        match spec_split_payload(data@) {
            Ok(None) => r == Ok::<Option<(i32, Vec<u8>)>, Error>(None),
            Ok(Some((sn, rec))) => r is Ok && r.unwrap() is Some && r.unwrap().unwrap().0 == sn
                && r.unwrap().unwrap().1@ == rec,
            Err(e) => r == Err::<Option<(i32, Vec<u8>)>, Error>(e),
        },
{
    let n: usize = data.len();
    if n == 0 {
        return Ok(None);
    }
    if n < 4 {
        return Err(Error::ShortPayload { len: n });
    }
    let sn: i32 = i32_from_be(data[0], data[1], data[2], data[3]);
    let rec: &[u8] = vstd::slice::slice_subrange(data, 4, n);
    let rec_vec: Vec<u8> = vstd::slice::slice_to_vec(rec);
    proof {
        assert(rec_vec@ =~= data@.skip(4));
    }
    Ok(Some((sn, rec_vec)))
}

/// The frame beginning at `pos` in `buf`: the tag length, the tag, the
/// varint payload length and the payload, with the position after them.
/// An empty payload yields no frame. A buffer too short for any of the
/// four parts is an error, as is a tag that is not UTF-8, a varint run
/// without a terminator, or a non-empty payload shorter than its
/// sequence number.
pub open spec fn spec_extract_frame(buf: Seq<u8>, pos: int) -> Result<
    (Option<SpecFrame>, int),
    Error,
> {
    if pos + 2 > buf.len() {
        Err(Error::UnexpectedEnd { offset: pos as usize })
    } else {
        let tag_len: usize = spec_i16_be(buf[pos], buf[pos + 1]) as usize;
        let p1 = pos + 2;
        if p1 + tag_len > buf.len() {
            Err(Error::UnexpectedEnd { offset: p1 as usize })
        } else {
            match spec_tag_of(buf.subrange(p1, p1 + tag_len)) {
                Err(e) => Err(e),
                Ok(tag) => {
                    let p2 = p1 + tag_len;
                    match crate::de::spec_parse_varint(buf, p2) {
                        Err(e) => Err(e),
                        Ok((plen, p3)) => {
                            let payload_len: usize = plen as usize;
                            if p3 + payload_len > buf.len() {
                                Err(Error::UnexpectedEnd { offset: p3 as usize })
                            } else {
                                let end = p3 + payload_len;
                                match spec_split_payload(buf.subrange(p3, end)) {
                                    Err(e) => Err(e),
                                    Ok(None) => Ok((None, end)),
                                    Ok(Some((sn, rec))) => Ok(
                                        (
                                            Some(SpecFrame { tag, seq_number: sn, record: rec }),
                                            end,
                                        ),
                                    ),
                                }
                            }
                        },
                    }
                },
            }
        }
    }
}

/// A frame always advances the stream: extraction that succeeds leaves
/// the position strictly past where it began, and never past the end of
/// the buffer.
pub proof fn lemma_extract_frame_advances(buf: Seq<u8>, pos: int)
    requires
        0 <= pos <= buf.len(),
    ensures
        spec_extract_frame(buf, pos) matches Ok((of, p)) ==> pos < p <= buf.len(),
{
    if pos + 2 <= buf.len() {
        let tag_len: usize = spec_i16_be(buf[pos], buf[pos + 1]) as usize;
        let p2 = pos + 2 + tag_len;
        if p2 <= buf.len() {
            crate::de::lemma_parse_varint_bounds(buf, p2);
        }
    }
}

/// Extracts the frame beginning at `pos` in `buf`, returning it (or
/// nothing, for an empty payload) together with the position after it.
pub fn extract_frame(buf: &[u8], pos: usize) -> (r: Result<(Option<Frame>, usize), Error>)
    requires
        pos <= buf@.len(),
    ensures
        match spec_extract_frame(buf@, pos as int) {
            Ok((of, p)) => r is Ok && p == r.unwrap().1 && match of {
                Some(f) => r.unwrap().0 is Some && r.unwrap().0.unwrap()@ == f,
                None => r.unwrap().0 is None,
            },
            Err(e) => r is Err && r.unwrap_err() == e,
        },
{
    let len: usize = buf.len();
    if len - pos < 2 {
        return Err(Error::UnexpectedEnd { offset: pos });
    }
    let tag_len_i: i16 = i16_from_be(buf[pos], buf[pos + 1]);
    let tag_len: usize = #[verifier::truncate] (tag_len_i as usize);
    let p1: usize = pos + 2;
    if tag_len > len - p1 {
        return Err(Error::UnexpectedEnd { offset: p1 });
    }
    let tag_bytes: &[u8] = vstd::slice::slice_subrange(buf, p1, p1 + tag_len);
    let tag: String = match tag_of(tag_bytes) {
        Ok(t) => t,
        Err(e) => { return Err(e) },
    };
    let p2: usize = p1 + tag_len;
    let tail: &[u8] = vstd::slice::slice_subrange(buf, p2, len);
    proof {
        assert(tail@ =~= buf@.skip(p2 as int));
    }
    let (vlen, plen): (usize, i32) = match read_varint(tail) {
        Some(pair) => pair,
        None => { return Err(Error::TruncatedVarint { offset: p2 }) },
    };
    proof {
        lemma_varint_len(tail@, 0, 0);
    }
    let p3: usize = p2 + vlen;
    let payload_len: usize = #[verifier::truncate] (plen as usize);
    if payload_len > len - p3 {
        return Err(Error::UnexpectedEnd { offset: p3 });
    }
    let end: usize = p3 + payload_len;
    let payload: &[u8] = vstd::slice::slice_subrange(buf, p3, end);
    match split_payload(payload) {
        Err(e) => Err(e),
        Ok(None) => Ok((None, end)),
        Ok(Some((sn, rec))) => Ok((Some(Frame { tag, seq_number: sn, record: rec }), end)),
    }
}

} // verus!
