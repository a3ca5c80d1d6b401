//! The shape-driven decoder engine.
//!
//! One recursive function resolves a shape against the next bytes under the
//! cursor. The decoded value is a pure function of the buffer contents, the
//! starting cursor and the shape: the engine performs no retries, no
//! backtracking, and no lookahead beyond the string codec's bounded header
//! scan. Every failure aborts the whole record.

use vstd::prelude::*;

use crate::de::{spec_parse_bool, spec_parse_str, spec_parse_varint, Deserializer};
use crate::error::Error;
use crate::shape::{
    lemma_shape_list_view, lemma_value_list_view_push, lemma_variant_list_view, shape_list_view,
    value_list_view, value_view, Shape, SpecShape, SpecValue, Value,
};

verus! {

/// The value of `s` decoded at `pos` in `buf`, with the position after it,
/// or the error that aborts the record.
pub open spec fn spec_decode(s: SpecShape, buf: Seq<u8>, pos: int) -> Result<
    (SpecValue, int),
    Error,
>
    decreases s, 0nat, 0nat,
{
    match s {
        SpecShape::Bool => match spec_parse_bool(buf, pos) {
            Ok((b, p)) => Ok((SpecValue::Bool(b), p)),
            Err(e) => Err(e),
        },
        SpecShape::Int32 => match spec_parse_varint(buf, pos) {
            Ok((v, p)) => Ok((SpecValue::Int32(v), p)),
            Err(e) => Err(e),
        },
        SpecShape::UInt8 => match spec_parse_varint(buf, pos) {
            Ok((v, p)) => Ok((SpecValue::UInt8(v as u8), p)),
            Err(e) => Err(e),
        },
        SpecShape::Str => match spec_parse_str(buf, pos) {
            Ok((cs, p)) => Ok((SpecValue::Str(cs), p)),
            Err(e) => Err(e),
        },
        SpecShape::Sequence(e) => match spec_parse_varint(buf, pos) {
            Ok((n, p)) => match spec_decode_rep(*e, n as usize as nat, buf, p) {
                Ok((vs, p2)) => Ok((SpecValue::Sequence(vs), p2)),
                Err(err) => Err(err),
            },
            Err(err) => Err(err),
        },
        SpecShape::Struct(fs) => match spec_decode_list(fs, buf, pos) {
            Ok((vs, p)) => Ok((SpecValue::Struct(vs), p)),
            Err(e) => Err(e),
        },
        SpecShape::TaggedUnion(vs) => {
            if pos >= buf.len() {
                Err(Error::UnexpectedEnd { offset: pos as usize })
            } else if buf[pos] as int >= vs.len() {
                Err(
                    Error::UnknownVariant {
                        offset: pos as usize,
                        tag: buf[pos],
                        count: vs.len() as usize,
                    },
                )
            } else {
                match spec_decode_list(vs[buf[pos] as int], buf, pos + 1) {
                    Ok((fvs, p)) => Ok((SpecValue::Variant(buf[pos], fvs), p)),
                    Err(e) => Err(e),
                }
            }
        },
    }
}

/// The values of the shapes `ss` decoded in order from `pos`.
pub open spec fn spec_decode_list(ss: Seq<SpecShape>, buf: Seq<u8>, pos: int) -> Result<
    (Seq<SpecValue>, int),
    Error,
>
    decreases ss, 1nat, 0nat,
{
    if ss.len() == 0 {
        Ok((Seq::empty(), pos))
    } else {
        match spec_decode(ss[0], buf, pos) {
            Ok((v, p)) => match spec_decode_list(ss.subrange(1, ss.len() as int), buf, p) {
                Ok((vs, p2)) => Ok((seq![v] + vs, p2)),
                Err(e) => Err(e),
            },
            Err(e) => Err(e),
        }
    }
}

/// `n` values of the element shape `e` decoded in order from `pos`.
pub open spec fn spec_decode_rep(e: SpecShape, n: nat, buf: Seq<u8>, pos: int) -> Result<
    (Seq<SpecValue>, int),
    Error,
>
    decreases e, 2nat, n,
{
    if n == 0 {
        Ok((Seq::empty(), pos))
    } else {
        match spec_decode(e, buf, pos) {
            Ok((v, p)) => match spec_decode_rep(e, (n - 1) as nat, buf, p) {
                Ok((vs, p2)) => Ok((seq![v] + vs, p2)),
                Err(err) => Err(err),
            },
            Err(err) => Err(err),
        }
    }
}

/// Decodes one value of `shape` at the cursor. The result is exactly what
/// `spec_decode` says of the buffer, the starting cursor and the shape: a
/// second decode of the same bytes from the same position yields the same
/// value, and on any failure the partial value is discarded in full.
pub fn decode(shape: &Shape, de: &mut Deserializer) -> (r: Result<Value, Error>)
    requires
        old(de).wf(),
    ensures
        final(de).buf() == old(de).buf(),
        final(de).wf(),
        match spec_decode(shape@, old(de).buf(), old(de).cursor()) {
            Ok((v, p)) => r is Ok && r.unwrap()@ == v && final(de).cursor() == p,
            Err(e) => r is Err && r.unwrap_err() == e,
        },
    decreases shape, 0nat, 0nat,
{
    match shape {
        Shape::Bool => match de.parse_bool() {
            Ok(b) => Ok(Value::Bool(b)),
            Err(e) => Err(e),
        },
        Shape::Int32 => match de.parse_varint() {
            Ok(v) => Ok(Value::Int32(v)),
            Err(e) => Err(e),
        },
        Shape::UInt8 => match de.parse_varint() {
            Ok(v) => Ok(Value::UInt8(#[verifier::truncate] (v as u8))),
            Err(e) => Err(e),
        },
        Shape::Str => match de.parse_str() {
            Ok(s) => Ok(Value::Str(s)),
            Err(e) => Err(e),
        },
        Shape::Sequence(elem) => match de.parse_varint() {
            Ok(n) => {
                let count: usize = #[verifier::truncate] (n as usize);
                match decode_rep(&**elem, count, de) {
                    Ok(vs) => Ok(Value::Sequence(vs)),
                    Err(e) => Err(e),
                }
            },
            Err(e) => Err(e),
        },
        Shape::Struct(fields) => match decode_list(fields, de) {
            Ok(vs) => Ok(Value::Struct(vs)),
            Err(e) => Err(e),
        },
        Shape::TaggedUnion(variants) => {
            proof {
                lemma_variant_list_view(variants@);
            }
            let off: usize = de.position();
            if de.remaining() == 0 {
                return Err(Error::UnexpectedEnd { offset: off });
            }
            let tag: u8 = de.read_byte();
            if (tag as usize) < variants.len() {
                match decode_list(&variants[tag as usize], de) {
                    Ok(vs) => Ok(Value::Variant(tag, vs)),
                    Err(e) => Err(e),
                }
            } else {
                Err(Error::UnknownVariant { offset: off, tag, count: variants.len() })
            }
        },
    }
}

/// Decodes each shape of `shapes` in declared order.
#[verifier::loop_isolation(false)]
fn decode_list(shapes: &Vec<Shape>, de: &mut Deserializer) -> (r: Result<Vec<Value>, Error>)
    requires
        old(de).wf(),
    ensures
        final(de).buf() == old(de).buf(),
        final(de).wf(),
        match spec_decode_list(shape_list_view(shapes@), old(de).buf(), old(de).cursor()) {
            Ok((vs, p)) => r is Ok && value_list_view(r.unwrap()@) == vs && final(de).cursor()
                == p,
            Err(e) => r is Err && r.unwrap_err() == e,
        },
    decreases shapes, 1nat, 0nat,
{
    let ghost full = spec_decode_list(shape_list_view(shapes@), old(de).buf(), old(de).cursor());
    let mut vals: Vec<Value> = Vec::new();
    let mut i: usize = 0;
    let n: usize = shapes.len();
    proof {
        assert(shapes@.subrange(0, n as int) =~= shapes@);
        match full {
            Ok((vs, p)) => {
                assert(value_list_view(vals@) + vs =~= vs);
            },
            Err(_) => {},
        }
    }
    while i < n
        invariant
            de.wf(),
            de.buf() == old(de).buf(),
            i <= n,
            n == shapes@.len(),
            match spec_decode_list(
                shape_list_view(shapes@.subrange(i as int, n as int)),
                de.buf(),
                de.cursor(),
            ) {
                Ok((vs, p)) => full == Ok::<(Seq<SpecValue>, int), Error>(
                    (value_list_view(vals@) + vs, p),
                ),
                Err(e) => full == Err::<(Seq<SpecValue>, int), Error>(e),
            },
        decreases n - i,
    {
        proof {
            lemma_shape_list_view(shapes@.subrange(i as int, n as int));
            assert(shapes@.subrange(i as int, n as int)[0] == shapes@[i as int]);
            assert(shape_list_view(shapes@.subrange(i as int, n as int)).subrange(
                1,
                (n - i) as int,
            ) =~= shape_list_view(shapes@.subrange(i as int + 1, n as int))) by {
                lemma_shape_list_view(shapes@.subrange(i as int + 1, n as int));
                assert forall|k: int| 0 <= k < n - i - 1 implies shape_list_view(
                    shapes@.subrange(i as int, n as int),
                ).subrange(1, (n - i) as int)[k] == #[trigger] shape_list_view(
                    shapes@.subrange(i as int + 1, n as int),
                )[k] by {
                    assert(shapes@.subrange(i as int, n as int)[k + 1] == shapes@[i + k + 1]);
                    assert(shapes@.subrange(i as int + 1, n as int)[k] == shapes@[i + k + 1]);
                }
            }
        }
        match decode(&shapes[i], de) {
            Err(e) => {
                return Err(e);
            },
            Ok(v) => {
                proof {
                    lemma_value_list_view_push(vals@, v);
                    match spec_decode_list(
                        shape_list_view(shapes@.subrange(i as int + 1, n as int)),
                        de.buf(),
                        de.cursor(),
                    ) {
                        Ok((vs2, p2)) => {
                            assert(value_list_view(vals@) + (seq![value_view(v)] + vs2)
                                =~= value_list_view(vals@).push(value_view(v)) + vs2);
                        },
                        Err(_) => {},
                    }
                }
                vals.push(v);
                i = i + 1;
            },
        }
    }
    proof {
        assert(shapes@.subrange(n as int, n as int) =~= Seq::<Shape>::empty());
        assert(shape_list_view(Seq::<Shape>::empty()) == Seq::<SpecShape>::empty());
        assert(value_list_view(vals@) + Seq::<SpecValue>::empty() =~= value_list_view(vals@));
    }
    Ok(vals)
}

/// Decodes `n` values of the element shape in order.
#[verifier::loop_isolation(false)]
fn decode_rep(elem: &Shape, n: usize, de: &mut Deserializer) -> (r: Result<Vec<Value>, Error>)
    requires
        old(de).wf(),
    ensures
        final(de).buf() == old(de).buf(),
        final(de).wf(),
        match spec_decode_rep(elem@, n as nat, old(de).buf(), old(de).cursor()) {
            Ok((vs, p)) => r is Ok && value_list_view(r.unwrap()@) == vs && final(de).cursor()
                == p,
            Err(e) => r is Err && r.unwrap_err() == e,
        },
    decreases elem, 2nat, n as nat,
{
    let ghost full = spec_decode_rep(elem@, n as nat, old(de).buf(), old(de).cursor());
    let mut vals: Vec<Value> = Vec::new();
    let mut i: usize = 0;
    proof {
        match full {
            Ok((vs, p)) => {
                assert(value_list_view(vals@) + vs =~= vs);
            },
            Err(_) => {},
        }
    }
    while i < n
        invariant
            de.wf(),
            de.buf() == old(de).buf(),
            i <= n,
            match spec_decode_rep(elem@, (n - i) as nat, de.buf(), de.cursor()) {
                Ok((vs, p)) => full == Ok::<(Seq<SpecValue>, int), Error>(
                    (value_list_view(vals@) + vs, p),
                ),
                Err(e) => full == Err::<(Seq<SpecValue>, int), Error>(e),
            },
        decreases n - i,
    {
        match decode(elem, de) {
            Err(e) => {
                return Err(e);
            },
            Ok(v) => {
                proof {
                    lemma_value_list_view_push(vals@, v);
                    match spec_decode_rep(elem@, (n - i - 1) as nat, de.buf(), de.cursor()) {
                        Ok((vs2, p2)) => {
                            assert(value_list_view(vals@) + (seq![value_view(v)] + vs2)
                                =~= value_list_view(vals@).push(value_view(v)) + vs2);
                        },
                        Err(_) => {},
                    }
                }
                vals.push(v);
                i = i + 1;
            },
        }
    }
    proof {
        assert(value_list_view(vals@) + Seq::<SpecValue>::empty() =~= value_list_view(vals@));
    }
    Ok(vals)
}

/// The cursor only moves forward: a successful decode leaves it at or
/// past where it began, and never past the end of the buffer.
pub proof fn lemma_decode_in_bounds(s: SpecShape, buf: Seq<u8>, pos: int)
    requires
        0 <= pos <= buf.len(),
    ensures
        spec_decode(s, buf, pos) matches Ok((v, p)) ==> pos <= p <= buf.len(),
    decreases s, 0nat, 0nat,
{
    match s {
        SpecShape::Bool => {},
        SpecShape::Int32 => {
            crate::de::lemma_parse_varint_bounds(buf, pos);
        },
        SpecShape::UInt8 => {
            crate::de::lemma_parse_varint_bounds(buf, pos);
        },
        SpecShape::Str => {
            crate::de::lemma_parse_str_bounds(buf, pos);
        },
        SpecShape::Sequence(e) => {
            crate::de::lemma_parse_varint_bounds(buf, pos);
            match spec_parse_varint(buf, pos) {
                Ok((n, p)) => {
                    lemma_decode_rep_in_bounds(*e, n as usize as nat, buf, p);
                },
                Err(_) => {},
            }
        },
        SpecShape::Struct(fs) => {
            lemma_decode_list_in_bounds(fs, buf, pos);
        },
        SpecShape::TaggedUnion(vs) => {
            if pos < buf.len() && (buf[pos] as int) < vs.len() {
                lemma_decode_list_in_bounds(vs[buf[pos] as int], buf, pos + 1);
            }
        },
    }
}

/// The cursor only moves forward through a list of field decodes.
pub proof fn lemma_decode_list_in_bounds(ss: Seq<SpecShape>, buf: Seq<u8>, pos: int)
    requires
        0 <= pos <= buf.len(),
    ensures
        spec_decode_list(ss, buf, pos) matches Ok((vs, p)) ==> pos <= p <= buf.len(),
    decreases ss, 1nat, 0nat,
{
    if ss.len() > 0 {
        lemma_decode_in_bounds(ss[0], buf, pos);
        match spec_decode(ss[0], buf, pos) {
            Ok((v, p)) => {
                lemma_decode_list_in_bounds(ss.subrange(1, ss.len() as int), buf, p);
            },
            Err(_) => {},
        }
    }
}

/// The cursor only moves forward through a run of element decodes.
pub proof fn lemma_decode_rep_in_bounds(e: SpecShape, n: nat, buf: Seq<u8>, pos: int)
    requires
        0 <= pos <= buf.len(),
    ensures
        spec_decode_rep(e, n, buf, pos) matches Ok((vs, p)) ==> pos <= p <= buf.len(),
    decreases e, 2nat, n,
{
    if n > 0 {
        lemma_decode_in_bounds(e, buf, pos);
        match spec_decode(e, buf, pos) {
            Ok((v, p)) => {
                lemma_decode_rep_in_bounds(e, (n - 1) as nat, buf, p);
            },
            Err(_) => {},
        }
    }
}

/// Fault isolation at a tagged union: a discriminant byte at or above the
/// variant count fails as `UnknownVariant`, and no variant payload is
/// decoded — the outcome is the error alone, whatever bytes follow.
pub proof fn lemma_unknown_variant(variants: Seq<Seq<SpecShape>>, buf: Seq<u8>, pos: int)
    requires
        0 <= pos < buf.len(),
        buf[pos] as int >= variants.len(),
    ensures
        spec_decode(SpecShape::TaggedUnion(variants), buf, pos) == Err::<(SpecValue, int), Error>(
            Error::UnknownVariant {
                offset: pos as usize,
                tag: buf[pos],
                count: variants.len() as usize,
            },
        ),
{
}

} // verus!
