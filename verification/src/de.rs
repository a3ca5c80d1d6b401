//! The decode cursor and the scalar codecs that read through it.
//!
//! A `Deserializer` owns a single forward-moving offset into a
//! caller-supplied byte slice. The invariant `cursor <= buffer length`
//! holds at every observation point. On top of the cursor sit the scalar
//! codecs: varint, bool, and the proprietary variable-length-header string
//! encoding.

use vstd::prelude::*;

use crate::error::Error;
use crate::varint::{lemma_varint_len, read_varint, spec_varint};

verus! {

/// A byte buffer with a forward-moving read position.
pub struct Deserializer<'de> {
    input: &'de [u8],
    pos: usize,
}

/// The varint at `pos` in `buf`, as the decoded value and the cursor
/// position after the run.
pub open spec fn spec_parse_varint(buf: Seq<u8>, pos: int) -> Result<(i32, int), Error> {
    match spec_varint(buf.skip(pos)) {
        Some((len, val)) => Ok((val, pos + len)),
        None => Err(Error::TruncatedVarint { offset: pos as usize }),
    }
}

/// The bool at `pos` in `buf`: one byte, true exactly when that byte is 1.
pub open spec fn spec_parse_bool(buf: Seq<u8>, pos: int) -> Result<(bool, int), Error> {
    if pos < buf.len() {
        Ok((buf[pos] == 1, pos + 1))
    } else {
        Err(Error::UnexpectedEnd { offset: pos as usize })
    }
}

/// One continuation byte of a string header: its low seven bits, shifted
/// into place and OR'd onto the length accumulated so far.
pub open spec fn spec_str_cont(len: u32, b: u8, sh: u32) -> u32 {
    len | (((b & 0x7f) as u32) << sh)
}

/// The extended string header read from `pos`, with the sigil's low six
/// bits already in `len0`: up to four continuation bytes contribute their
/// low seven bits shifted by 6, 13, 20 and 27, continuing only while the
/// previous byte's high bit was set. Yields the length value and the
/// cursor position after the header.
pub open spec fn spec_str_header(buf: Seq<u8>, pos: int, len0: u32) -> Result<(u32, int), Error> {
    if pos >= buf.len() {
        Err(Error::UnexpectedEnd { offset: pos as usize })
    } else {
        let l1: u32 = spec_str_cont(len0, buf[pos], 6);
        if buf[pos] & 0x80 == 0 {
            Ok((l1, pos + 1))
        } else if pos + 1 >= buf.len() {
            Err(Error::UnexpectedEnd { offset: (pos + 1) as usize })
        } else {
            let l2: u32 = spec_str_cont(l1, buf[pos + 1], 13);
            if buf[pos + 1] & 0x80 == 0 {
                Ok((l2, pos + 2))
            } else if pos + 2 >= buf.len() {
                Err(Error::UnexpectedEnd { offset: (pos + 2) as usize })
            } else {
                let l3: u32 = spec_str_cont(l2, buf[pos + 2], 20);
                if buf[pos + 2] & 0x80 == 0 {
                    Ok((l3, pos + 3))
                } else if pos + 3 >= buf.len() {
                    Err(Error::UnexpectedEnd { offset: (pos + 3) as usize })
                } else {
                    Ok((spec_str_cont(l3, buf[pos + 3], 27), pos + 4))
                }
            }
        }
    }
}

/// The length value of the string header at `pos`: the sigil's low six
/// bits, extended by continuation bytes when the sigil's bit 6 is set, and
/// the cursor position after the header.
pub open spec fn spec_str_len(buf: Seq<u8>, pos: int) -> Result<(u32, int), Error> {
    let len0: u32 = (buf[pos] & 0x3f) as u32;
    if buf[pos] & 0x40 != 0 {
        spec_str_header(buf, pos + 1, len0)
    } else {
        Ok((len0, pos + 1))
    }
}

/// The string at `pos` in `buf`. A sigil byte with its high bit clear is
/// the empty string. Otherwise the header yields a length `len`; a length
/// of at most 1 is the empty string, and a longer one names the window of
/// `len - 1` bytes ending at the post-header cursor `p`, that is
/// `buf[p - len + 1 .. p]`, which must decode as UTF-8. A window reaching
/// before the start of the buffer is an error.
pub open spec fn spec_parse_str(buf: Seq<u8>, pos: int) -> Result<(Seq<char>, int), Error> {
    if pos >= buf.len() {
        Err(Error::UnexpectedEnd { offset: pos as usize })
    } else if buf[pos] & 0x80 == 0 {
        Ok((Seq::empty(), pos + 1))
    } else {
        match spec_str_len(buf, pos) {
            Err(e) => Err(e),
            Ok((len, p)) => {
                if len <= 1 {
                    Ok((Seq::empty(), p))
                } else if len > p {
                    Err(Error::StringWindow { offset: p as usize })
                } else {
                    let w = buf.subrange(p - len + 1, p);
                    if vstd::utf8::valid_utf8(w) {
                        Ok((vstd::utf8::decode_utf8(w), p))
                    } else {
                        Err(Error::InvalidString { offset: p as usize })
                    }
                }
            },
        }
    }
}

/// Relies on std's `String::from_utf8`: it returns `Ok` exactly when the
/// bytes are valid UTF-8, and the string then is their decoding.
#[verifier::external_body]
pub(crate) fn utf8_to_string(bytes: Vec<u8>) -> (r: Option<String>)
    ensures
        r is Some <==> vstd::utf8::valid_utf8(bytes@),
        r is Some ==> r.unwrap()@ == vstd::utf8::decode_utf8(bytes@),
{
    match String::from_utf8(bytes) {
        Ok(s) => Some(s),
        Err(_) => None,
    }
}

impl<'de> Deserializer<'de> {
    /// The bytes the cursor reads from.
    pub closed spec fn buf(&self) -> Seq<u8> {
        self.input@
    }

    /// The current read position.
    pub closed spec fn cursor(&self) -> int {
        self.pos as int
    }

    /// The cursor never passes the end of the buffer.
    pub closed spec fn wf(&self) -> bool {
        self.pos <= self.input@.len()
    }

    /// A fresh cursor over `input`, positioned at its start.
    pub fn from_bytes(input: &'de [u8]) -> (r: Self)
        ensures
            r.buf() == input@,
            r.cursor() == 0,
            r.wf(),
    {
        Deserializer { input, pos: 0 }
    }

    /// The current read position, as a count of consumed bytes.
    pub fn position(&self) -> (p: usize)
        ensures
            p == self.cursor(),
    {
        self.pos
    }

    /// How many bytes remain under the cursor.
    pub fn remaining(&self) -> (n: usize)
        requires
            self.wf(),
        ensures
            n == self.buf().len() - self.cursor(),
    {
        self.input.len() - self.pos
    }

    /// Reads the byte under the cursor and moves past it.
    pub fn read_byte(&mut self) -> (r: u8)
        requires
            old(self).wf(),
            old(self).cursor() < old(self).buf().len(),
        ensures
            final(self).buf() == old(self).buf(),
            final(self).cursor() == old(self).cursor() + 1,
            r == old(self).buf()[old(self).cursor()],
            final(self).wf(),
    {
        let res: u8 = self.input[self.pos];
        self.pos = self.pos + 1;
        res
    }

    /// Decodes the varint under the cursor and moves past its run.
    pub fn parse_varint(&mut self) -> (r: Result<i32, Error>)
        requires
            old(self).wf(),
        ensures
            final(self).buf() == old(self).buf(),
            final(self).wf(),
            match spec_parse_varint(old(self).buf(), old(self).cursor()) {
                Ok((v, p)) => r == Ok::<i32, Error>(v) && final(self).cursor() == p,
                Err(e) => r == Err::<i32, Error>(e) && final(self).cursor() == old(self).cursor(),
            },
    {
        let tail: &[u8] = vstd::slice::slice_subrange(self.input, self.pos, self.input.len());
        proof {
            assert(tail@ =~= self.buf().skip(self.cursor()));
        }
        match read_varint(tail) {
            Some((len, val)) => {
                proof {
                    lemma_varint_len(tail@, 0, 0);
                }
                self.pos = self.pos + len;
                Ok(val)
            },
            None => Err(Error::TruncatedVarint { offset: self.pos }),
        }
    }

    /// Decodes the bool under the cursor: one byte, true exactly when it is 1.
    pub fn parse_bool(&mut self) -> (r: Result<bool, Error>)
        requires
            old(self).wf(),
        ensures
            final(self).buf() == old(self).buf(),
            final(self).wf(),
            match spec_parse_bool(old(self).buf(), old(self).cursor()) {
                Ok((v, p)) => r == Ok::<bool, Error>(v) && final(self).cursor() == p,
                Err(e) => r == Err::<bool, Error>(e) && final(self).cursor() == old(self).cursor(),
            },
    {
        if self.pos < self.input.len() {
            let b: u8 = self.read_byte();
            Ok(b == 1)
        } else {
            Err(Error::UnexpectedEnd { offset: self.pos })
        }
    }

    /// Decodes the string under the cursor, consuming its sigil byte, up to
    /// four continuation bytes, and no further: the character window the
    /// header names ends at the post-header cursor and reaches backward.
    #[verifier::loop_isolation(false)]
    pub fn parse_str(&mut self) -> (r: Result<String, Error>)
        requires
            old(self).wf(),
        ensures
            final(self).buf() == old(self).buf(),
            final(self).wf(),
            match spec_parse_str(old(self).buf(), old(self).cursor()) {
                Ok((cs, p)) => r is Ok && r.unwrap()@ == cs && final(self).cursor() == p,
                Err(e) => r is Err && r.unwrap_err() == e,
            },
    {
        let ghost buf = self.buf();
        let ghost pos0: int = self.cursor();
        if self.pos >= self.input.len() {
            return Err(Error::UnexpectedEnd { offset: self.pos });
        }
        let b: u8 = self.read_byte();
        if b & 0x80 == 0 {
            return Ok(String::new());
        }
        let mut len: u32 = (b & 0x3f) as u32;
        if b & 0x40 != 0 {
            proof {
                lemma_str_header_from(buf, pos0 + 1, (buf[pos0] & 0x3f) as u32);
            }
            let mut sh: u32 = 6;
            let mut more: bool = true;
            while more && sh <= 27
                invariant
                    self.wf(),
                    self.buf() == buf,
                    sh == 6 || sh == 13 || sh == 20 || sh == 27 || sh == 34,
                    more && sh <= 27 ==> spec_str_header(buf, pos0 + 1, (buf[pos0] & 0x3f) as u32)
                        == spec_str_header_from(buf, self.cursor(), len, sh),
                    !(more && sh <= 27) ==> spec_str_header(buf, pos0 + 1, (buf[pos0] & 0x3f) as u32)
                        == Ok::<(u32, int), Error>((len, self.cursor())),
                decreases 34 - sh,
            {
                if self.pos >= self.input.len() {
                    return Err(Error::UnexpectedEnd { offset: self.pos });
                }
                let c: u8 = self.read_byte();
                len = len | (((c & 0x7f) as u32) << sh);
                more = c & 0x80 != 0;
                sh = sh + 7;
            }
        }
        if len <= 1 {
            return Ok(String::new());
        }
        if len as usize > self.pos {
            return Err(Error::StringWindow { offset: self.pos });
        }
        let start: usize = self.pos - len as usize + 1;
        let mut w: Vec<u8> = Vec::new();
        let mut k: usize = start;
        while k < self.pos
            invariant
                self.wf(),
                self.buf() == buf,
                start <= k <= self.cursor(),
                w@ =~= buf.subrange(start as int, k as int),
            decreases self.cursor() - k,
        {
            let byte: u8 = self.input[k];
            w.push(byte);
            k = k + 1;
        }
        proof {
            assert(w@ =~= buf.subrange(start as int, self.cursor()));
        }
        match utf8_to_string(w) {
            Some(s) => Ok(s),
            None => Err(Error::InvalidString { offset: self.pos }),
        }
    }
}

/// The rest of an extended string header once the continuation byte at
/// `pos` is owed a shift of `sh`, with `len` accumulated so far: the same
/// reading that `spec_str_header` begins.
pub open spec fn spec_str_header_from(buf: Seq<u8>, pos: int, len: u32, sh: u32) -> Result<
    (u32, int),
    Error,
>
    decreases 34 - sh,
{
    if sh > 27 {
        Ok((len, pos))
    } else if pos >= buf.len() {
        Err(Error::UnexpectedEnd { offset: pos as usize })
    } else {
        let l: u32 = spec_str_cont(len, buf[pos], sh);
        if buf[pos] & 0x80 != 0 && sh < 27 {
            spec_str_header_from(buf, pos + 1, l, (sh + 7) as u32)
        } else {
            Ok((l, pos + 1))
        }
    }
}

/// A decoded varint leaves the cursor strictly ahead of where it began,
/// and never past the end of the buffer.
pub proof fn lemma_parse_varint_bounds(buf: Seq<u8>, pos: int)
    requires
        0 <= pos <= buf.len(),
    ensures
        spec_parse_varint(buf, pos) matches Ok((v, p)) ==> pos < p <= buf.len(),
{
    if spec_parse_varint(buf, pos) is Ok {
        lemma_varint_len(buf.skip(pos), 0, 0);
    }
}

/// A decoded string leaves the cursor strictly ahead of where it began,
/// and never past the end of the buffer.
pub proof fn lemma_parse_str_bounds(buf: Seq<u8>, pos: int)
    requires
        0 <= pos <= buf.len(),
    ensures
        spec_parse_str(buf, pos) matches Ok((cs, p)) ==> pos < p <= buf.len(),
{
}

/// A sigil byte with its high bit clear decodes as the empty string,
/// whatever bytes follow it.
pub proof fn lemma_ascii_sigil_empty(buf: Seq<u8>, pos: int)
    requires
        0 <= pos < buf.len(),
        buf[pos] & 0x80 == 0,
    ensures
        spec_parse_str(buf, pos) == Ok::<(Seq<char>, int), Error>((Seq::empty(), pos + 1)),
{
}

/// A header whose computed length value is at most 1 decodes as the empty
/// string, whatever bytes stand in the buffer around it.
pub proof fn lemma_short_length_empty(buf: Seq<u8>, pos: int)
    requires
        0 <= pos < buf.len(),
        buf[pos] & 0x80 != 0,
        spec_str_len(buf, pos) is Ok,
        spec_str_len(buf, pos)->Ok_0.0 <= 1,
    ensures
        spec_parse_str(buf, pos) == Ok::<(Seq<char>, int), Error>(
            (Seq::empty(), spec_str_len(buf, pos)->Ok_0.1),
        ),
{
}

/// Both readings of the extended header agree: the unrolled form and the
/// step form started at shift 6.
proof fn lemma_str_header_from(buf: Seq<u8>, pos: int, len0: u32)
    ensures
        spec_str_header(buf, pos, len0) == spec_str_header_from(buf, pos, len0, 6),
{
    reveal_with_fuel(spec_str_header_from, 5);
}

} // verus!
