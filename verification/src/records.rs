//! The shapes of the domain records, and whole-record decoding.
//!
//! Each record type's shape lists its field shapes in declared order; the
//! order is the only correlation between the schema and the bytes. A
//! record's `from_bytes` resolves the shape against the buffer from
//! position zero and reads the decoded tree into the record; bytes past
//! the decoded value are ignored.

use vstd::prelude::*;

use crate::convert::{
    actor_of, monster_of, player_of, spec_actor_of, spec_monster_of, spec_player_of,
    spec_state_of, state_of,
};
use crate::de::Deserializer;
use crate::engine::{decode, spec_decode};
use crate::error::Error;
use crate::schema::{Actor, Monster, Player, SpecActor, SpecMonster, SpecPlayer, SpecState, State};
use crate::shape::{
    lemma_scalar_shape_views, lemma_shape_list_view, lemma_variant_list_view, shape_list_view,
    shape_view, Shape, SpecShape,
};

verus! {

/// The shape of a condition list: a sequence of one-byte scalars.
pub open spec fn spec_condition_seq_shape() -> SpecShape {
    SpecShape::Sequence(Box::new(SpecShape::UInt8))
}

/// The field shapes of a monster instance, in declared order.
pub open spec fn spec_monster_instance_field_shapes() -> Seq<SpecShape> {
    seq![
        SpecShape::Int32,
        SpecShape::UInt8,
        SpecShape::Bool,
        SpecShape::Int32,
        SpecShape::Int32,
        spec_condition_seq_shape(),
        spec_condition_seq_shape(),
        spec_condition_seq_shape(),
    ]
}

/// The shape of a monster instance record.
pub open spec fn spec_monster_instance_shape() -> SpecShape {
    SpecShape::Struct(spec_monster_instance_field_shapes())
}

/// The field shapes of a player, in declared order.
pub open spec fn spec_player_field_shapes() -> Seq<SpecShape> {
    seq![
        SpecShape::Str,
        SpecShape::UInt8,
        SpecShape::Int32,
        SpecShape::Int32,
        SpecShape::Int32,
        SpecShape::Int32,
        SpecShape::Int32,
        SpecShape::Int32,
        spec_condition_seq_shape(),
        spec_condition_seq_shape(),
        spec_condition_seq_shape(),
        SpecShape::Bool,
        SpecShape::Bool,
        SpecShape::Sequence(Box::new(spec_monster_instance_shape())),
    ]
}

/// The shape of a player record.
pub open spec fn spec_player_shape() -> SpecShape {
    SpecShape::Struct(spec_player_field_shapes())
}

/// The field shapes of a monster group, in declared order.
pub open spec fn spec_monster_field_shapes() -> Seq<SpecShape> {
    seq![
        SpecShape::Int32,
        SpecShape::Int32,
        SpecShape::Bool,
        SpecShape::Bool,
        SpecShape::Int32,
        SpecShape::Bool,
        SpecShape::Sequence(Box::new(spec_monster_instance_shape())),
    ]
}

/// The shape of a monster record.
pub open spec fn spec_monster_shape() -> SpecShape {
    SpecShape::Struct(spec_monster_field_shapes())
}

/// The shape of an actor: a tagged union whose variant 0 is a monster and
/// whose variant 1 is a player.
pub open spec fn spec_actor_shape() -> SpecShape {
    SpecShape::TaggedUnion(seq![spec_monster_field_shapes(), spec_player_field_shapes()])
}

/// The field shapes of an ability deck, in declared order.
pub open spec fn spec_ability_deck_field_shapes() -> Seq<SpecShape> {
    seq![
        SpecShape::Int32,
        SpecShape::Bool,
        SpecShape::Int32,
        SpecShape::Sequence(Box::new(SpecShape::Int32)),
        SpecShape::Sequence(Box::new(SpecShape::Int32)),
    ]
}

/// The shape of an ability deck record.
pub open spec fn spec_ability_deck_shape() -> SpecShape {
    SpecShape::Struct(spec_ability_deck_field_shapes())
}

/// The field shapes of the whole game state, in declared order.
pub open spec fn spec_state_field_shapes() -> Seq<SpecShape> {
    seq![
        SpecShape::Int32,
        SpecShape::Int32,
        SpecShape::Int32,
        SpecShape::Bool,
        SpecShape::Bool,
        SpecShape::Bool,
        SpecShape::Bool,
        SpecShape::Bool,
        SpecShape::Bool,
        SpecShape::Bool,
        SpecShape::Bool,
        SpecShape::Bool,
        SpecShape::Bool,
        SpecShape::Int32,
        spec_condition_seq_shape(),
        spec_condition_seq_shape(),
        SpecShape::UInt8,
        SpecShape::UInt8,
        SpecShape::UInt8,
        SpecShape::UInt8,
        SpecShape::UInt8,
        SpecShape::UInt8,
        SpecShape::Sequence(Box::new(SpecShape::Int32)),
        SpecShape::Int32,
        SpecShape::Sequence(Box::new(spec_ability_deck_shape())),
        SpecShape::Sequence(Box::new(spec_actor_shape())),
    ]
}

/// The shape of the whole game state record.
pub open spec fn spec_state_shape() -> SpecShape {
    SpecShape::Struct(spec_state_field_shapes())
}

/// Builds the condition list shape.
pub fn condition_seq_shape() -> (s: Shape)
    ensures
        s@ == spec_condition_seq_shape(),
{
    proof {
        lemma_scalar_shape_views();
    }
    Shape::Sequence(Box::new(Shape::UInt8))
}

/// Builds the monster instance field shapes.
pub fn monster_instance_field_shapes() -> (v: Vec<Shape>)
    ensures
        shape_list_view(v@) == spec_monster_instance_field_shapes(),
{
    let v: Vec<Shape> = vec![
        Shape::Int32,
        Shape::UInt8,
        Shape::Bool,
        Shape::Int32,
        Shape::Int32,
        condition_seq_shape(),
        condition_seq_shape(),
        condition_seq_shape(),
    ];
    proof {
        lemma_scalar_shape_views();
        lemma_shape_list_view(v@);
        assert(shape_list_view(v@) =~= spec_monster_instance_field_shapes());
    }
    v
}

/// Builds the monster instance shape.
pub fn monster_instance_shape() -> (s: Shape)
    ensures
        s@ == spec_monster_instance_shape(),
{
    Shape::Struct(monster_instance_field_shapes())
}

/// Builds the player field shapes.
pub fn player_field_shapes() -> (v: Vec<Shape>)
    ensures
        shape_list_view(v@) == spec_player_field_shapes(),
{
    let v: Vec<Shape> = vec![
        Shape::Str,
        Shape::UInt8,
        Shape::Int32,
        Shape::Int32,
        Shape::Int32,
        Shape::Int32,
        Shape::Int32,
        Shape::Int32,
        condition_seq_shape(),
        condition_seq_shape(),
        condition_seq_shape(),
        Shape::Bool,
        Shape::Bool,
        Shape::Sequence(Box::new(monster_instance_shape())),
    ];
    proof {
        lemma_scalar_shape_views();
        lemma_shape_list_view(v@);
        assert(shape_list_view(v@) =~= spec_player_field_shapes());
    }
    v
}

/// Builds the player shape.
pub fn player_shape() -> (s: Shape)
    ensures
        s@ == spec_player_shape(),
{
    Shape::Struct(player_field_shapes())
}

/// Builds the monster field shapes.
pub fn monster_field_shapes() -> (v: Vec<Shape>)
    ensures
        shape_list_view(v@) == spec_monster_field_shapes(),
{
    let v: Vec<Shape> = vec![
        Shape::Int32,
        Shape::Int32,
        Shape::Bool,
        Shape::Bool,
        Shape::Int32,
        Shape::Bool,
        Shape::Sequence(Box::new(monster_instance_shape())),
    ];
    proof {
        lemma_scalar_shape_views();
        lemma_shape_list_view(v@);
        assert(shape_list_view(v@) =~= spec_monster_field_shapes());
    }
    v
}

/// Builds the monster shape.
pub fn monster_shape() -> (s: Shape)
    ensures
        s@ == spec_monster_shape(),
{
    Shape::Struct(monster_field_shapes())
}

/// Builds the actor shape.
pub fn actor_shape() -> (s: Shape)
    ensures
        s@ == spec_actor_shape(),
{
    let variants: Vec<Vec<Shape>> = vec![monster_field_shapes(), player_field_shapes()];
    proof {
        lemma_variant_list_view(variants@);
        assert(crate::shape::variant_list_view(variants@) =~= seq![
            spec_monster_field_shapes(),
            spec_player_field_shapes(),
        ]);
    }
    Shape::TaggedUnion(variants)
}

/// Builds the ability deck field shapes.
pub fn ability_deck_field_shapes() -> (v: Vec<Shape>)
    ensures
        shape_list_view(v@) == spec_ability_deck_field_shapes(),
{
    let v: Vec<Shape> = vec![
        Shape::Int32,
        Shape::Bool,
        Shape::Int32,
        Shape::Sequence(Box::new(Shape::Int32)),
        Shape::Sequence(Box::new(Shape::Int32)),
    ];
    proof {
        lemma_scalar_shape_views();
        assert(shape_view(Shape::Sequence(Box::new(Shape::Int32))) == SpecShape::Sequence(
            Box::new(SpecShape::Int32),
        ));
        lemma_shape_list_view(v@);
        assert(shape_list_view(v@) =~= spec_ability_deck_field_shapes());
    }
    v
}

/// Builds the ability deck shape.
pub fn ability_deck_shape() -> (s: Shape)
    ensures
        s@ == spec_ability_deck_shape(),
{
    Shape::Struct(ability_deck_field_shapes())
}

/// Builds the state field shapes.
pub fn state_field_shapes() -> (v: Vec<Shape>)
    ensures
        shape_list_view(v@) == spec_state_field_shapes(),
{
    let v: Vec<Shape> = vec![
        Shape::Int32,
        Shape::Int32,
        Shape::Int32,
        Shape::Bool,
        Shape::Bool,
        Shape::Bool,
        Shape::Bool,
        Shape::Bool,
        Shape::Bool,
        Shape::Bool,
        Shape::Bool,
        Shape::Bool,
        Shape::Bool,
        Shape::Int32,
        condition_seq_shape(),
        condition_seq_shape(),
        Shape::UInt8,
        Shape::UInt8,
        Shape::UInt8,
        Shape::UInt8,
        Shape::UInt8,
        Shape::UInt8,
        Shape::Sequence(Box::new(Shape::Int32)),
        Shape::Int32,
        Shape::Sequence(Box::new(ability_deck_shape())),
        Shape::Sequence(Box::new(actor_shape())),
    ];
    proof {
        lemma_scalar_shape_views();
        assert(shape_view(Shape::Sequence(Box::new(Shape::Int32))) == SpecShape::Sequence(
            Box::new(SpecShape::Int32),
        ));
        lemma_shape_list_view(v@);
        assert(shape_list_view(v@) =~= spec_state_field_shapes());
    }
    v
}

/// Builds the state shape.
pub fn state_shape() -> (s: Shape)
    ensures
        s@ == spec_state_shape(),
{
    Shape::Struct(state_field_shapes())
}

/// The player record decoded from the start of `bytes`.
pub open spec fn spec_player_from_bytes(bytes: Seq<u8>) -> Result<SpecPlayer, Error> {
    match spec_decode(spec_player_shape(), bytes, 0) {
        Ok((v, p)) => spec_player_of(v),
        Err(e) => Err(e),
    }
}

/// The monster record decoded from the start of `bytes`.
pub open spec fn spec_monster_from_bytes(bytes: Seq<u8>) -> Result<SpecMonster, Error> {
    match spec_decode(spec_monster_shape(), bytes, 0) {
        Ok((v, p)) => spec_monster_of(v),
        Err(e) => Err(e),
    }
}

/// The actor record decoded from the start of `bytes`.
pub open spec fn spec_actor_from_bytes(bytes: Seq<u8>) -> Result<SpecActor, Error> {
    match spec_decode(spec_actor_shape(), bytes, 0) {
        Ok((v, p)) => spec_actor_of(v),
        Err(e) => Err(e),
    }
}

/// The state record decoded from the start of `bytes`.
pub open spec fn spec_state_from_bytes(bytes: Seq<u8>) -> Result<SpecState, Error> {
    match spec_decode(spec_state_shape(), bytes, 0) {
        Ok((v, p)) => spec_state_of(v),
        Err(e) => Err(e),
    }
}

impl Player {
    /// Decodes a player record from the start of `bytes`; trailing bytes
    /// are ignored.
    pub fn from_bytes(bytes: &[u8]) -> (r: Result<Player, Error>)
        ensures
            match spec_player_from_bytes(bytes@) {
                Ok(p) => r is Ok && r.unwrap()@ == p,
                Err(e) => r is Err && r.unwrap_err() == e,
            },
    {
        let shape: Shape = player_shape();
        let mut de: Deserializer = Deserializer::from_bytes(bytes);
        match decode(&shape, &mut de) {
            Ok(v) => player_of(&v),
            Err(e) => Err(e),
        }
    }
}

impl Monster {
    /// Decodes a monster record from the start of `bytes`; trailing bytes
    /// are ignored.
    pub fn from_bytes(bytes: &[u8]) -> (r: Result<Monster, Error>)
        ensures
            match spec_monster_from_bytes(bytes@) {
                Ok(m) => r is Ok && r.unwrap()@ == m,
                Err(e) => r is Err && r.unwrap_err() == e,
            },
    {
        let shape: Shape = monster_shape();
        let mut de: Deserializer = Deserializer::from_bytes(bytes);
        match decode(&shape, &mut de) {
            Ok(v) => monster_of(&v),
            Err(e) => Err(e),
        }
    }
}

impl Actor {
    /// Decodes an actor record from the start of `bytes`; trailing bytes
    /// are ignored.
    pub fn from_bytes(bytes: &[u8]) -> (r: Result<Actor, Error>)
        ensures
            match spec_actor_from_bytes(bytes@) {
                Ok(a) => r is Ok && r.unwrap()@ == a,
                Err(e) => r is Err && r.unwrap_err() == e,
            },
    {
        let shape: Shape = actor_shape();
        let mut de: Deserializer = Deserializer::from_bytes(bytes);
        match decode(&shape, &mut de) {
            Ok(v) => actor_of(&v),
            Err(e) => Err(e),
        }
    }
}

impl State {
    /// Decodes a whole game state from the start of `bytes`; trailing
    /// bytes are ignored.
    pub fn from_bytes(bytes: &[u8]) -> (r: Result<State, Error>)
        ensures
            match spec_state_from_bytes(bytes@) {
                Ok(s) => r is Ok && r.unwrap()@ == s,
                Err(e) => r is Err && r.unwrap_err() == e,
            },
    {
        let shape: Shape = state_shape();
        let mut de: Deserializer = Deserializer::from_bytes(bytes);
        match decode(&shape, &mut de) {
            Ok(v) => state_of(&v),
            Err(e) => Err(e),
        }
    }
}

} // verus!
