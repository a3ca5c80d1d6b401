//! Shapes and the value trees they describe.
//!
//! A `Shape` is a data value supplied by the schema at decode time: it says
//! how the next bytes are to be read. The engine never infers a shape from
//! the data. A `Value` is the decoded tree rooted at one shape application.
//! `SpecShape` and `SpecValue` are their mathematical forms, with sequences
//! in place of vectors and characters in place of strings.

use vstd::prelude::*;

verus! {

/// A schema description of how to decode one value.
#[derive(Debug, PartialEq, Eq)]
pub enum Shape {
    /// One byte; the value is true exactly when the byte is 1.
    Bool,
    /// One varint, used as-is.
    Int32,
    /// One varint, narrowed to its low eight bits.
    UInt8,
    /// The proprietary variable-length-header string encoding.
    Str,
    /// A varint element count, then that many values of the element shape.
    Sequence(Box<Shape>),
    /// Each field's shape, strictly in declared order; field names have no
    /// wire representation.
    Struct(Vec<Shape>),
    /// One discriminant byte selecting a variant by zero-based index, then
    /// the variant's field shapes positionally, exactly like a struct.
    TaggedUnion(Vec<Vec<Shape>>),
}

/// The mathematical form of a `Shape`.
pub enum SpecShape {
    Bool,
    Int32,
    UInt8,
    Str,
    Sequence(Box<SpecShape>),
    Struct(Seq<SpecShape>),
    TaggedUnion(Seq<Seq<SpecShape>>),
}

/// A decoded value tree.
#[derive(Debug, PartialEq, Eq)]
pub enum Value {
    Bool(bool),
    Int32(i32),
    UInt8(u8),
    Str(String),
    Sequence(Vec<Value>),
    Struct(Vec<Value>),
    /// The selected variant's zero-based index and its field values.
    Variant(u8, Vec<Value>),
}

/// The mathematical form of a `Value`.
pub enum SpecValue {
    Bool(bool),
    Int32(i32),
    UInt8(u8),
    Str(Seq<char>),
    Sequence(Seq<SpecValue>),
    Struct(Seq<SpecValue>),
    Variant(u8, Seq<SpecValue>),
}

/// The mathematical form of one shape.
pub open spec fn shape_view(s: Shape) -> SpecShape
    decreases s, 0int, 0int,
{
    match s {
        Shape::Bool => SpecShape::Bool,
        Shape::Int32 => SpecShape::Int32,
        Shape::UInt8 => SpecShape::UInt8,
        Shape::Str => SpecShape::Str,
        Shape::Sequence(e) => SpecShape::Sequence(Box::new(shape_view(*e))),
        Shape::Struct(fs) => SpecShape::Struct(shape_list_view(fs@)),
        Shape::TaggedUnion(vs) => SpecShape::TaggedUnion(variant_list_view(vs@)),
    }
}

/// The mathematical form of a list of shapes, elementwise.
pub open spec fn shape_list_view(ss: Seq<Shape>) -> Seq<SpecShape>
    decreases ss, 1int, 0int,
{
    if ss.len() == 0 {
        Seq::empty()
    } else {
        seq![shape_view(ss[0])] + shape_list_view(ss.subrange(1, ss.len() as int))
    }
}

/// The mathematical form of a list of variant field lists, elementwise.
pub open spec fn variant_list_view(vss: Seq<Vec<Shape>>) -> Seq<Seq<SpecShape>>
    decreases vss, 2int, 0int,
{
    if vss.len() == 0 {
        Seq::empty()
    } else {
        seq![shape_list_view(vss[0]@)] + variant_list_view(vss.subrange(1, vss.len() as int))
    }
}

impl View for Shape {
    type V = SpecShape;

    open spec fn view(&self) -> SpecShape {
        shape_view(*self)
    }
}

/// The mathematical form of one value.
pub open spec fn value_view(v: Value) -> SpecValue
    decreases v, 1int,
{
    match v {
        Value::Bool(b) => SpecValue::Bool(b),
        Value::Int32(n) => SpecValue::Int32(n),
        Value::UInt8(n) => SpecValue::UInt8(n),
        Value::Str(s) => SpecValue::Str(s@),
        Value::Sequence(vs) => SpecValue::Sequence(value_list_view(vs@)),
        Value::Struct(vs) => SpecValue::Struct(value_list_view(vs@)),
        Value::Variant(tag, vs) => SpecValue::Variant(tag, value_list_view(vs@)),
    }
}

/// The mathematical form of a list of values, elementwise.
pub open spec fn value_list_view(vs: Seq<Value>) -> Seq<SpecValue>
    decreases vs, 2int,
{
    if vs.len() == 0 {
        Seq::empty()
    } else {
        seq![value_view(vs[0])] + value_list_view(vs.subrange(1, vs.len() as int))
    }
}

impl View for Value {
    type V = SpecValue;

    open spec fn view(&self) -> SpecValue {
        value_view(*self)
    }
}

/// The mathematical forms of the four scalar shapes.
pub proof fn lemma_scalar_shape_views()
    ensures
        shape_view(Shape::Bool) == SpecShape::Bool,
        shape_view(Shape::Int32) == SpecShape::Int32,
        shape_view(Shape::UInt8) == SpecShape::UInt8,
        shape_view(Shape::Str) == SpecShape::Str,
{
}

/// A shape list views elementwise: same length, matching elements.
pub proof fn lemma_shape_list_view(ss: Seq<Shape>)
    ensures
        shape_list_view(ss).len() == ss.len(),
        forall|i: int| 0 <= i < ss.len() ==> shape_list_view(ss)[i] == shape_view(#[trigger] ss[i]),
    decreases ss.len(),
{
    if ss.len() > 0 {
        lemma_shape_list_view(ss.subrange(1, ss.len() as int));
        assert forall|i: int| 0 <= i < ss.len() implies shape_list_view(ss)[i] == shape_view(
            #[trigger] ss[i],
        ) by {
            if i > 0 {
                assert(ss.subrange(1, ss.len() as int)[i - 1] == ss[i]);
            }
        }
    }
}

/// A variant list views elementwise: same length, matching field lists.
pub proof fn lemma_variant_list_view(vss: Seq<Vec<Shape>>)
    ensures
        variant_list_view(vss).len() == vss.len(),
        forall|i: int|
            0 <= i < vss.len() ==> variant_list_view(vss)[i] == shape_list_view(
                (#[trigger] vss[i])@,
            ),
    decreases vss.len(),
{
    if vss.len() > 0 {
        lemma_variant_list_view(vss.subrange(1, vss.len() as int));
        assert forall|i: int| 0 <= i < vss.len() implies variant_list_view(vss)[i]
            == shape_list_view((#[trigger] vss[i])@) by {
            if i > 0 {
                assert(vss.subrange(1, vss.len() as int)[i - 1] == vss[i]);
            }
        }
    }
}

/// A value list views elementwise: same length, matching elements.
pub proof fn lemma_value_list_view(vs: Seq<Value>)
    ensures
        value_list_view(vs).len() == vs.len(),
        forall|i: int| 0 <= i < vs.len() ==> value_list_view(vs)[i] == value_view(#[trigger] vs[i]),
    decreases vs.len(),
{
    if vs.len() > 0 {
        lemma_value_list_view(vs.subrange(1, vs.len() as int));
        assert forall|i: int| 0 <= i < vs.len() implies value_list_view(vs)[i] == value_view(
            #[trigger] vs[i],
        ) by {
            if i > 0 {
                assert(vs.subrange(1, vs.len() as int)[i - 1] == vs[i]);
            }
        }
    }
}

/// Appending one value appends its mathematical form.
pub proof fn lemma_value_list_view_push(vs: Seq<Value>, v: Value)
    ensures
        value_list_view(vs.push(v)) == value_list_view(vs).push(value_view(v)),
    decreases vs.len(),
{
    if vs.len() == 0 {
        assert(vs.push(v)[0] == v);
        assert(vs.push(v).subrange(1, vs.push(v).len() as int) =~= Seq::<Value>::empty());
        assert(value_list_view(Seq::<Value>::empty()) == Seq::<SpecValue>::empty());
        assert(value_list_view(vs.push(v)) =~= value_list_view(vs).push(value_view(v)));
    } else {
        lemma_value_list_view_push(vs.subrange(1, vs.len() as int), v);
        assert(vs.push(v)[0] == vs[0]);
        assert(vs.push(v).subrange(1, vs.push(v).len() as int) =~= vs.subrange(
            1,
            vs.len() as int,
        ).push(v));
        assert(value_list_view(vs.push(v)) =~= value_list_view(vs).push(value_view(v)));
    }
}

} // verus!
