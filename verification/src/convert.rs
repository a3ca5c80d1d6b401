//! From decoded value trees to the domain records.
//!
//! The engine yields a `Value` for a shape; these functions read the tree
//! into the schema's record types, checking each closed enumeration's wire
//! value against its table. A tree whose structure does not match the
//! record asked for is a `ShapeMismatch`; a scalar outside an enumeration
//! is an `InvalidEnumValue`. The first failure, in field order, is the
//! result.

use vstd::prelude::*;

use crate::error::Error;
use crate::schema::{
    spec_ability_value, spec_attack_modifier, spec_character_class, spec_condition,
    spec_element_state, spec_monster_type, spec_optional_ability, Ability, AbilityDeck, Actor,
    AttackModifier, CharacterClass, Condition, ElementState, Monster, MonsterInstance,
    MonsterType, Player, SpecAbilityDeck, SpecActor, SpecMonster, SpecMonsterInstance, SpecPlayer,
    SpecState, State,
};
use crate::shape::{lemma_value_list_view, value_list_view, SpecValue, Value};

verus! {

/// The bool a value holds.
pub open spec fn spec_bool_of(v: SpecValue) -> Result<bool, Error> {
    match v {
        SpecValue::Bool(b) => Ok(b),
        _ => Err(Error::ShapeMismatch),
    }
}

/// The 32-bit integer a value holds.
pub open spec fn spec_int_of(v: SpecValue) -> Result<i32, Error> {
    match v {
        SpecValue::Int32(n) => Ok(n),
        _ => Err(Error::ShapeMismatch),
    }
}

/// The characters a value holds.
pub open spec fn spec_str_of(v: SpecValue) -> Result<Seq<char>, Error> {
    match v {
        SpecValue::Str(cs) => Ok(cs),
        _ => Err(Error::ShapeMismatch),
    }
}

/// The attack modifier a value names.
pub open spec fn spec_attack_modifier_of(v: SpecValue) -> Result<AttackModifier, Error> {
    match v {
        SpecValue::UInt8(b) => match spec_attack_modifier(b) {
            Some(m) => Ok(m),
            None => Err(Error::InvalidEnumValue { value: b }),
        },
        _ => Err(Error::ShapeMismatch),
    }
}

/// The element state a value names.
pub open spec fn spec_element_state_of(v: SpecValue) -> Result<ElementState, Error> {
    match v {
        SpecValue::UInt8(b) => match spec_element_state(b) {
            Some(s) => Ok(s),
            None => Err(Error::InvalidEnumValue { value: b }),
        },
        _ => Err(Error::ShapeMismatch),
    }
}

/// The monster type a value names.
pub open spec fn spec_monster_type_of(v: SpecValue) -> Result<MonsterType, Error> {
    match v {
        SpecValue::UInt8(b) => match spec_monster_type(b) {
            Some(t) => Ok(t),
            None => Err(Error::InvalidEnumValue { value: b }),
        },
        _ => Err(Error::ShapeMismatch),
    }
}

/// The condition a value names.
pub open spec fn spec_condition_of(v: SpecValue) -> Result<Condition, Error> {
    match v {
        SpecValue::UInt8(b) => match spec_condition(b) {
            Some(c) => Ok(c),
            None => Err(Error::InvalidEnumValue { value: b }),
        },
        _ => Err(Error::ShapeMismatch),
    }
}

/// The character class a value names.
pub open spec fn spec_character_class_of(v: SpecValue) -> Result<CharacterClass, Error> {
    match v {
        SpecValue::UInt8(b) => match spec_character_class(b) {
            Some(c) => Ok(c),
            None => Err(Error::InvalidEnumValue { value: b }),
        },
        _ => Err(Error::ShapeMismatch),
    }
}

/// The ability a value carries, transformed.
pub open spec fn spec_ability_of(v: SpecValue) -> Result<Ability, Error> {
    match v {
        SpecValue::Int32(n) => Ok(Ability { value: spec_ability_value(n) }),
        _ => Err(Error::ShapeMismatch),
    }
}

/// The optional ability a value carries: present exactly when the
/// transformed value is non-zero.
pub open spec fn spec_optional_ability_of(v: SpecValue) -> Result<Option<Ability>, Error> {
    match v {
        SpecValue::Int32(n) => Ok(spec_optional_ability(n)),
        _ => Err(Error::ShapeMismatch),
    }
}

/// The conditions a list of values names, in order, up to the first fault.
pub open spec fn spec_conditions_of(vs: Seq<SpecValue>) -> Result<Seq<Condition>, Error>
    decreases vs.len(),
{
    if vs.len() == 0 {
        Ok(Seq::empty())
    } else {
        match spec_condition_of(vs[0]) {
            Ok(c) => match spec_conditions_of(vs.subrange(1, vs.len() as int)) {
                Ok(cs) => Ok(seq![c] + cs),
                Err(e) => Err(e),
            },
            Err(e) => Err(e),
        }
    }
}

/// The integers a list of values holds, in order, up to the first fault.
pub open spec fn spec_ints_of(vs: Seq<SpecValue>) -> Result<Seq<i32>, Error>
    decreases vs.len(),
{
    if vs.len() == 0 {
        Ok(Seq::empty())
    } else {
        match spec_int_of(vs[0]) {
            Ok(n) => match spec_ints_of(vs.subrange(1, vs.len() as int)) {
                Ok(ns) => Ok(seq![n] + ns),
                Err(e) => Err(e),
            },
            Err(e) => Err(e),
        }
    }
}

/// The attack modifiers a list of values names, in order.
pub open spec fn spec_attack_modifiers_of(vs: Seq<SpecValue>) -> Result<Seq<AttackModifier>, Error>
    decreases vs.len(),
{
    if vs.len() == 0 {
        Ok(Seq::empty())
    } else {
        match spec_attack_modifier_of(vs[0]) {
            Ok(m) => match spec_attack_modifiers_of(vs.subrange(1, vs.len() as int)) {
                Ok(ms) => Ok(seq![m] + ms),
                Err(e) => Err(e),
            },
            Err(e) => Err(e),
        }
    }
}

/// The monster instances a list of values holds, in order.
pub open spec fn spec_monster_instances_of(vs: Seq<SpecValue>) -> Result<
    Seq<SpecMonsterInstance>,
    Error,
>
    decreases vs.len(),
{
    if vs.len() == 0 {
        Ok(Seq::empty())
    } else {
        match spec_monster_instance_of(vs[0]) {
            Ok(m) => match spec_monster_instances_of(vs.subrange(1, vs.len() as int)) {
                Ok(ms) => Ok(seq![m] + ms),
                Err(e) => Err(e),
            },
            Err(e) => Err(e),
        }
    }
}

/// The ability decks a list of values holds, in order.
pub open spec fn spec_ability_decks_of(vs: Seq<SpecValue>) -> Result<Seq<SpecAbilityDeck>, Error>
    decreases vs.len(),
{
    if vs.len() == 0 {
        Ok(Seq::empty())
    } else {
        match spec_ability_deck_of(vs[0]) {
            Ok(d) => match spec_ability_decks_of(vs.subrange(1, vs.len() as int)) {
                Ok(ds) => Ok(seq![d] + ds),
                Err(e) => Err(e),
            },
            Err(e) => Err(e),
        }
    }
}

/// The actors a list of values holds, in order.
pub open spec fn spec_actors_of(vs: Seq<SpecValue>) -> Result<Seq<SpecActor>, Error>
    decreases vs.len(),
{
    if vs.len() == 0 {
        Ok(Seq::empty())
    } else {
        match spec_actor_of(vs[0]) {
            Ok(a) => match spec_actors_of(vs.subrange(1, vs.len() as int)) {
                Ok(others) => Ok(seq![a] + others),
                Err(e) => Err(e),
            },
            Err(e) => Err(e),
        }
    }
}

/// The monster instance a struct value's fields hold, in field order.
pub open spec fn spec_monster_instance_fields(fs: Seq<SpecValue>) -> Result<
    SpecMonsterInstance,
    Error,
> {
    if fs.len() != 8 {
        Err(Error::ShapeMismatch)
    } else {
        match spec_int_of(fs[0]) {
            Err(e) => Err(e),
            Ok(number) => match spec_monster_type_of(fs[1]) {
                Err(e) => Err(e),
                Ok(tpe) => match spec_bool_of(fs[2]) {
                    Err(e) => Err(e),
                    Ok(is_new) => match spec_int_of(fs[3]) {
                        Err(e) => Err(e),
                        Ok(hp) => match spec_int_of(fs[4]) {
                            Err(e) => Err(e),
                            Ok(hp_max) => match spec_condition_list_of(fs[5]) {
                                Err(e) => Err(e),
                                Ok(conditions) => match spec_condition_list_of(fs[6]) {
                                    Err(e) => Err(e),
                                    Ok(conditions_expired) => match spec_condition_list_of(fs[7]) {
                                        Err(e) => Err(e),
                                        Ok(conditions_current_turn) => Ok(
                                            SpecMonsterInstance {
                                                number,
                                                tpe,
                                                is_new,
                                                hp,
                                                hp_max,
                                                conditions,
                                                conditions_expired,
                                                conditions_current_turn,
                                            },
                                        ),
                                    },
                                },
                            },
                        },
                    },
                },
            },
        }
    }
}

/// The monster instance a value holds.
pub open spec fn spec_monster_instance_of(v: SpecValue) -> Result<SpecMonsterInstance, Error> {
    match v {
        SpecValue::Struct(fs) => spec_monster_instance_fields(fs),
        _ => Err(Error::ShapeMismatch),
    }
}

/// The condition list a sequence value holds.
pub open spec fn spec_condition_list_of(v: SpecValue) -> Result<Seq<Condition>, Error> {
    match v {
        SpecValue::Sequence(vs) => spec_conditions_of(vs),
        _ => Err(Error::ShapeMismatch),
    }
}

/// The integer list a sequence value holds.
pub open spec fn spec_int_list_of(v: SpecValue) -> Result<Seq<i32>, Error> {
    match v {
        SpecValue::Sequence(vs) => spec_ints_of(vs),
        _ => Err(Error::ShapeMismatch),
    }
}

/// The attack modifier list a sequence value holds.
pub open spec fn spec_attack_modifier_list_of(v: SpecValue) -> Result<Seq<AttackModifier>, Error> {
    match v {
        SpecValue::Sequence(vs) => spec_attack_modifiers_of(vs),
        _ => Err(Error::ShapeMismatch),
    }
}

/// The monster instance list a sequence value holds.
pub open spec fn spec_monster_instance_list_of(v: SpecValue) -> Result<
    Seq<SpecMonsterInstance>,
    Error,
> {
    match v {
        SpecValue::Sequence(vs) => spec_monster_instances_of(vs),
        _ => Err(Error::ShapeMismatch),
    }
}

/// The ability deck a struct value's fields hold, in field order.
pub open spec fn spec_ability_deck_fields(fs: Seq<SpecValue>) -> Result<SpecAbilityDeck, Error> {
    if fs.len() != 5 {
        Err(Error::ShapeMismatch)
    } else {
        match spec_int_of(fs[0]) {
            Err(e) => Err(e),
            Ok(id) => match spec_bool_of(fs[1]) {
                Err(e) => Err(e),
                Ok(shuffle) => match spec_optional_ability_of(fs[2]) {
                    Err(e) => Err(e),
                    Ok(shown_ability) => match spec_int_list_of(fs[3]) {
                        Err(e) => Err(e),
                        Ok(abilities) => match spec_int_list_of(fs[4]) {
                            Err(e) => Err(e),
                            Ok(abilities_discard) => Ok(
                                SpecAbilityDeck {
                                    id,
                                    shuffle,
                                    shown_ability,
                                    abilities,
                                    abilities_discard,
                                },
                            ),
                        },
                    },
                },
            },
        }
    }
}

/// The ability deck a value holds.
pub open spec fn spec_ability_deck_of(v: SpecValue) -> Result<SpecAbilityDeck, Error> {
    match v {
        SpecValue::Struct(fs) => spec_ability_deck_fields(fs),
        _ => Err(Error::ShapeMismatch),
    }
}

/// The player a struct value's fields hold, in field order.
pub open spec fn spec_player_fields(fs: Seq<SpecValue>) -> Result<SpecPlayer, Error> {
    if fs.len() != 14 {
        Err(Error::ShapeMismatch)
    } else {
        match spec_str_of(fs[0]) {
            Err(e) => Err(e),
            Ok(name) => match spec_character_class_of(fs[1]) {
                Err(e) => Err(e),
                Ok(character_class) => match spec_int_of(fs[2]) {
                    Err(e) => Err(e),
                    Ok(xp) => match spec_int_of(fs[3]) {
                        Err(e) => Err(e),
                        Ok(hp) => match spec_int_of(fs[4]) {
                            Err(e) => Err(e),
                            Ok(hp_max) => match spec_int_of(fs[5]) {
                                Err(e) => Err(e),
                                Ok(level) => match spec_int_of(fs[6]) {
                                    Err(e) => Err(e),
                                    Ok(loot) => match spec_int_of(fs[7]) {
                                        Err(e) => Err(e),
                                        Ok(initiative) => match spec_condition_list_of(fs[8]) {
                                            Err(e) => Err(e),
                                            Ok(conditions) => match spec_condition_list_of(fs[9]) {
                                                Err(e) => Err(e),
                                                Ok(conditions_expired) => match spec_condition_list_of(
                                                    fs[10],
                                                ) {
                                                    Err(e) => Err(e),
                                                    Ok(conditions_current_turn) => match spec_bool_of(
                                                        fs[11],
                                                    ) {
                                                        Err(e) => Err(e),
                                                        Ok(exhausted) => match spec_bool_of(
                                                            fs[12],
                                                        ) {
                                                            Err(e) => Err(e),
                                                            Ok(turn_completed) => match spec_monster_instance_list_of(
                                                                fs[13],
                                                            ) {
                                                                Err(e) => Err(e),
                                                                Ok(instances) => Ok(
                                                                    SpecPlayer {
                                                                        name,
                                                                        character_class,
                                                                        xp,
                                                                        hp,
                                                                        hp_max,
                                                                        level,
                                                                        loot,
                                                                        initiative,
                                                                        conditions,
                                                                        conditions_expired,
                                                                        conditions_current_turn,
                                                                        exhausted,
                                                                        turn_completed,
                                                                        instances,
                                                                    },
                                                                ),
                                                            },
                                                        },
                                                    },
                                                },
                                            },
                                        },
                                    },
                                },
                            },
                        },
                    },
                },
            },
        }
    }
}

/// The monster a struct value's fields hold, in field order.
pub open spec fn spec_monster_fields(fs: Seq<SpecValue>) -> Result<SpecMonster, Error> {
    if fs.len() != 7 {
        Err(Error::ShapeMismatch)
    } else {
        match spec_int_of(fs[0]) {
            Err(e) => Err(e),
            Ok(id) => match spec_int_of(fs[1]) {
                Err(e) => Err(e),
                Ok(level) => match spec_bool_of(fs[2]) {
                    Err(e) => Err(e),
                    Ok(is_normal) => match spec_bool_of(fs[3]) {
                        Err(e) => Err(e),
                        Ok(is_elite) => match spec_ability_of(fs[4]) {
                            Err(e) => Err(e),
                            Ok(ability) => match spec_bool_of(fs[5]) {
                                Err(e) => Err(e),
                                Ok(turn_completed) => match spec_monster_instance_list_of(fs[6]) {
                                    Err(e) => Err(e),
                                    Ok(instances) => Ok(
                                        SpecMonster {
                                            id,
                                            level,
                                            is_normal,
                                            is_elite,
                                            ability,
                                            turn_completed,
                                            instances,
                                        },
                                    ),
                                },
                            },
                        },
                    },
                },
            },
        }
    }
}

/// The player a value holds.
pub open spec fn spec_player_of(v: SpecValue) -> Result<SpecPlayer, Error> {
    match v {
        SpecValue::Struct(fs) => spec_player_fields(fs),
        _ => Err(Error::ShapeMismatch),
    }
}

/// The monster a value holds.
pub open spec fn spec_monster_of(v: SpecValue) -> Result<SpecMonster, Error> {
    match v {
        SpecValue::Struct(fs) => spec_monster_fields(fs),
        _ => Err(Error::ShapeMismatch),
    }
}

/// The actor a value holds: variant 0 is a monster, variant 1 a player.
pub open spec fn spec_actor_of(v: SpecValue) -> Result<SpecActor, Error> {
    match v {
        SpecValue::Variant(tag, fs) => {
            if tag == 0 {
                match spec_monster_fields(fs) {
                    Ok(m) => Ok(SpecActor::Monster(m)),
                    Err(e) => Err(e),
                }
            } else if tag == 1 {
                match spec_player_fields(fs) {
                    Ok(p) => Ok(SpecActor::Player(p)),
                    Err(e) => Err(e),
                }
            } else {
                Err(Error::ShapeMismatch)
            }
        },
        _ => Err(Error::ShapeMismatch),
    }
}

/// The state a struct value's fields hold, in field order.
pub open spec fn spec_state_fields(fs: Seq<SpecValue>) -> Result<SpecState, Error> {
    if fs.len() != 26 {
        Err(Error::ShapeMismatch)
    } else {
        match spec_int_of(fs[0]) {
            Err(e) => Err(e),
            Ok(round) => match spec_int_of(fs[1]) {
                Err(e) => Err(e),
                Ok(scenario_number) => match spec_int_of(fs[2]) {
                    Err(e) => Err(e),
                    Ok(scenario_level) => match spec_bool_of(fs[3]) {
                        Err(e) => Err(e),
                        Ok(track_standees) => match spec_bool_of(fs[4]) {
                            Err(e) => Err(e),
                            Ok(ability_cards) => match spec_bool_of(fs[5]) {
                                Err(e) => Err(e),
                                Ok(random_standees) => match spec_bool_of(fs[6]) {
                                    Err(e) => Err(e),
                                    Ok(elites_first) => match spec_bool_of(fs[7]) {
                                        Err(e) => Err(e),
                                        Ok(expire_conditions) => match spec_bool_of(fs[8]) {
                                            Err(e) => Err(e),
                                            Ok(solo) => match spec_bool_of(fs[9]) {
                                                Err(e) => Err(e),
                                                Ok(hide_stats) => match spec_bool_of(fs[10]) {
                                                    Err(e) => Err(e),
                                                    Ok(calculate_stats) => match spec_bool_of(
                                                        fs[11],
                                                    ) {
                                                        Err(e) => Err(e),
                                                        Ok(can_draw) => match spec_bool_of(
                                                            fs[12],
                                                        ) {
                                                            Err(e) => Err(e),
                                                            Ok(needs_shuffle) => match spec_int_of(
                                                                fs[13],
                                                            ) {
                                                                Err(e) => Err(e),
                                                                Ok(player_init) => spec_state_rest(
                                                                    fs,
                                                                    round,
                                                                    scenario_number,
                                                                    scenario_level,
                                                                    track_standees,
                                                                    ability_cards,
                                                                    random_standees,
                                                                    elites_first,
                                                                    expire_conditions,
                                                                    solo,
                                                                    hide_stats,
                                                                    calculate_stats,
                                                                    can_draw,
                                                                    needs_shuffle,
                                                                    player_init,
                                                                ),
                                                            },
                                                        },
                                                    },
                                                },
                                            },
                                        },
                                    },
                                },
                            },
                        },
                    },
                },
            },
        }
    }
}

/// The later fields of a state value, once the leading scalars are read.
pub open spec fn spec_state_rest(
    fs: Seq<SpecValue>,
    round: i32,
    scenario_number: i32,
    scenario_level: i32,
    track_standees: bool,
    ability_cards: bool,
    random_standees: bool,
    elites_first: bool,
    expire_conditions: bool,
    solo: bool,
    hide_stats: bool,
    calculate_stats: bool,
    can_draw: bool,
    needs_shuffle: bool,
    player_init: i32,
) -> Result<SpecState, Error> {
    match spec_attack_modifier_list_of(fs[14]) {
        Err(e) => Err(e),
        Ok(attack_modifiers) => match spec_attack_modifier_list_of(fs[15]) {
            Err(e) => Err(e),
            Ok(attack_modifiers_discard) => match spec_element_state_of(fs[16]) {
                Err(e) => Err(e),
                Ok(fire) => match spec_element_state_of(fs[17]) {
                    Err(e) => Err(e),
                    Ok(ice) => match spec_element_state_of(fs[18]) {
                        Err(e) => Err(e),
                        Ok(air) => match spec_element_state_of(fs[19]) {
                            Err(e) => Err(e),
                            Ok(earth) => match spec_element_state_of(fs[20]) {
                                Err(e) => Err(e),
                                Ok(light) => match spec_element_state_of(fs[21]) {
                                    Err(e) => Err(e),
                                    Ok(dark) => match spec_int_list_of(fs[22]) {
                                        Err(e) => Err(e),
                                        Ok(removed_abilities) => match spec_int_of(fs[23]) {
                                            Err(e) => Err(e),
                                            Ok(bad_omen) => match spec_ability_deck_list_of(
                                                fs[24],
                                            ) {
                                                Err(e) => Err(e),
                                                Ok(ability_decks) => match spec_actor_list_of(
                                                    fs[25],
                                                ) {
                                                    Err(e) => Err(e),
                                                    Ok(actors) => Ok(
                                                        SpecState {
                                                            round,
                                                            scenario_number,
                                                            scenario_level,
                                                            track_standees,
                                                            ability_cards,
                                                            random_standees,
                                                            elites_first,
                                                            expire_conditions,
                                                            solo,
                                                            hide_stats,
                                                            calculate_stats,
                                                            can_draw,
                                                            needs_shuffle,
                                                            player_init,
                                                            attack_modifiers,
                                                            attack_modifiers_discard,
                                                            fire,
                                                            ice,
                                                            air,
                                                            earth,
                                                            light,
                                                            dark,
                                                            removed_abilities,
                                                            bad_omen,
                                                            ability_decks,
                                                            actors,
                                                        },
                                                    ),
                                                },
                                            },
                                        },
                                    },
                                },
                            },
                        },
                    },
                },
            },
        },
    }
}

/// The ability deck list a sequence value holds.
pub open spec fn spec_ability_deck_list_of(v: SpecValue) -> Result<Seq<SpecAbilityDeck>, Error> {
    match v {
        SpecValue::Sequence(vs) => spec_ability_decks_of(vs),
        _ => Err(Error::ShapeMismatch),
    }
}

/// The actor list a sequence value holds.
pub open spec fn spec_actor_list_of(v: SpecValue) -> Result<Seq<SpecActor>, Error> {
    match v {
        SpecValue::Sequence(vs) => spec_actors_of(vs),
        _ => Err(Error::ShapeMismatch),
    }
}

/// The state a value holds.
pub open spec fn spec_state_of(v: SpecValue) -> Result<SpecState, Error> {
    match v {
        SpecValue::Struct(fs) => spec_state_fields(fs),
        _ => Err(Error::ShapeMismatch),
    }
}

/// Reads the bool a value holds.
pub fn bool_of(v: &Value) -> (r: Result<bool, Error>)
    ensures
        r == spec_bool_of(v@),
{
    match v {
        Value::Bool(b) => Ok(*b),
        _ => Err(Error::ShapeMismatch),
    }
}

/// Reads the 32-bit integer a value holds.
pub fn int_of(v: &Value) -> (r: Result<i32, Error>)
    ensures
        r == spec_int_of(v@),
{
    match v {
        Value::Int32(n) => Ok(*n),
        _ => Err(Error::ShapeMismatch),
    }
}

/// Reads the string a value holds.
pub fn str_of(v: &Value) -> (r: Result<String, Error>)
    ensures
        match spec_str_of(v@) {
            Ok(cs) => r is Ok && r.unwrap()@ == cs,
            Err(e) => r is Err && r.unwrap_err() == e,
        },
{
    match v {
        Value::Str(s) => Ok(s.as_str().to_owned()),
        _ => Err(Error::ShapeMismatch),
    }
}

/// Looks an attack modifier up by its wire value.
pub fn attack_modifier_from(b: u8) -> (r: Option<AttackModifier>)
    ensures
        r == spec_attack_modifier(b),
{
    if b == 0 {
        Some(AttackModifier::Zero)
    } else if b == 1 {
        Some(AttackModifier::Plus1)
    } else if b == 2 {
        Some(AttackModifier::Plus2)
    } else if b == 3 {
        Some(AttackModifier::Minus1)
    } else if b == 4 {
        Some(AttackModifier::Minus2)
    } else if b == 5 {
        Some(AttackModifier::Miss)
    } else if b == 6 {
        Some(AttackModifier::Crit)
    } else if b == 7 {
        Some(AttackModifier::Bless)
    } else if b == 8 {
        Some(AttackModifier::Curse)
    } else {
        None
    }
}

/// Looks an element state up by its wire value.
pub fn element_state_from(b: u8) -> (r: Option<ElementState>)
    ensures
        r == spec_element_state(b),
{
    if b == 0 {
        Some(ElementState::Inert)
    } else if b == 1 {
        Some(ElementState::Strong)
    } else if b == 2 {
        Some(ElementState::Waning)
    } else {
        None
    }
}

/// Looks a monster type up by its wire value.
pub fn monster_type_from(b: u8) -> (r: Option<MonsterType>)
    ensures
        r == spec_monster_type(b),
{
    if b == 0 {
        Some(MonsterType::Normal)
    } else if b == 1 {
        Some(MonsterType::Elite)
    } else if b == 3 {
        Some(MonsterType::Summon)
    } else {
        None
    }
}

/// Looks a condition up by its wire value.
pub fn condition_from(b: u8) -> (r: Option<Condition>)
    ensures
        r == spec_condition(b),
{
    if b == 2 {
        Some(Condition::Summoned)
    } else if b == 3 {
        Some(Condition::Stunned)
    } else if b == 4 {
        Some(Condition::Immobilized)
    } else if b == 5 {
        Some(Condition::Disarmed)
    } else if b == 6 {
        Some(Condition::Wounded)
    } else if b == 7 {
        Some(Condition::Muddled)
    } else if b == 8 {
        Some(Condition::Poisoned)
    } else if b == 9 {
        Some(Condition::Strengthened)
    } else if b == 10 {
        Some(Condition::Invisible)
    } else {
        None
    }
}

/// Looks a character class up by its wire value.
pub fn character_class_from(b: u8) -> (r: Option<CharacterClass>)
    ensures
        r == spec_character_class(b),
{
    if b == 0 {
        Some(CharacterClass::Escort)
    } else if b == 1 {
        Some(CharacterClass::Objective)
    } else if b == 2 {
        Some(CharacterClass::Brute)
    } else if b == 3 {
        Some(CharacterClass::Cragheart)
    } else if b == 4 {
        Some(CharacterClass::Mindthief)
    } else if b == 5 {
        Some(CharacterClass::Scoundrel)
    } else if b == 6 {
        Some(CharacterClass::Spellweaver)
    } else if b == 7 {
        Some(CharacterClass::Tinkerer)
    } else if b == 8 {
        Some(CharacterClass::Diviner)
    } else if b == 9 {
        Some(CharacterClass::TwoMinis)
    } else if b == 10 {
        Some(CharacterClass::Lightning)
    } else if b == 11 {
        Some(CharacterClass::AngryFace)
    } else if b == 12 {
        Some(CharacterClass::Triangles)
    } else if b == 13 {
        Some(CharacterClass::Moon)
    } else if b == 14 {
        Some(CharacterClass::CthuluFace)
    } else if b == 15 {
        Some(CharacterClass::TripleArrow)
    } else if b == 16 {
        Some(CharacterClass::Saw)
    } else if b == 17 {
        Some(CharacterClass::MusicNote)
    } else if b == 18 {
        Some(CharacterClass::Circles)
    } else if b == 19 {
        Some(CharacterClass::Sun)
    } else {
        None
    }
}

/// Reads the attack modifier a value names.
pub fn attack_modifier_of(v: &Value) -> (r: Result<AttackModifier, Error>)
    ensures
        r == spec_attack_modifier_of(v@),
{
    match v {
        Value::UInt8(b) => match attack_modifier_from(*b) {
            Some(m) => Ok(m),
            None => Err(Error::InvalidEnumValue { value: *b }),
        },
        _ => Err(Error::ShapeMismatch),
    }
}

/// Reads the element state a value names.
pub fn element_state_of(v: &Value) -> (r: Result<ElementState, Error>)
    ensures
        r == spec_element_state_of(v@),
{
    match v {
        Value::UInt8(b) => match element_state_from(*b) {
            Some(s) => Ok(s),
            None => Err(Error::InvalidEnumValue { value: *b }),
        },
        _ => Err(Error::ShapeMismatch),
    }
}

/// Reads the monster type a value names.
pub fn monster_type_of(v: &Value) -> (r: Result<MonsterType, Error>)
    ensures
        r == spec_monster_type_of(v@),
{
    match v {
        Value::UInt8(b) => match monster_type_from(*b) {
            Some(t) => Ok(t),
            None => Err(Error::InvalidEnumValue { value: *b }),
        },
        _ => Err(Error::ShapeMismatch),
    }
}

/// Reads the condition a value names.
pub fn condition_of(v: &Value) -> (r: Result<Condition, Error>)
    ensures
        r == spec_condition_of(v@),
{
    match v {
        Value::UInt8(b) => match condition_from(*b) {
            Some(c) => Ok(c),
            None => Err(Error::InvalidEnumValue { value: *b }),
        },
        _ => Err(Error::ShapeMismatch),
    }
}

/// Reads the character class a value names.
pub fn character_class_of(v: &Value) -> (r: Result<CharacterClass, Error>)
    ensures
        r == spec_character_class_of(v@),
{
    match v {
        Value::UInt8(b) => match character_class_from(*b) {
            Some(c) => Ok(c),
            None => Err(Error::InvalidEnumValue { value: *b }),
        },
        _ => Err(Error::ShapeMismatch),
    }
}

/// Reads the ability a value carries, applying the transform.
pub fn ability_of(v: &Value) -> (r: Result<Ability, Error>)
    ensures
        r == spec_ability_of(v@),
{
    match v {
        Value::Int32(n) => Ok(crate::schema::ability_from_raw(*n)),
        _ => Err(Error::ShapeMismatch),
    }
}

/// Reads the optional ability a value carries.
pub fn optional_ability_of(v: &Value) -> (r: Result<Option<Ability>, Error>)
    ensures
        r == spec_optional_ability_of(v@),
{
    match v {
        Value::Int32(n) => Ok(crate::schema::optional_ability_from_raw(*n)),
        _ => Err(Error::ShapeMismatch),
    }
}

/// Reads the condition list a sequence value holds.
#[verifier::loop_isolation(false)]
pub fn condition_list_of(v: &Value) -> (r: Result<Vec<Condition>, Error>)
    ensures
        match spec_condition_list_of(v@) {
            Ok(cs) => r is Ok && r.unwrap()@ == cs,
            Err(e) => r is Err && r.unwrap_err() == e,
        },
{
    let vs: &Vec<Value> = match v {
        Value::Sequence(vs) => vs,
        _ => { return Err(Error::ShapeMismatch) },
    };
    let ghost l = value_list_view(vs@);
    let ghost full = spec_conditions_of(l);
    let n: usize = vs.len();
    let mut out: Vec<Condition> = Vec::new();
    let mut i: usize = 0;
    proof {
        lemma_value_list_view(vs@);
        assert(l.subrange(0, n as int) =~= l);
        match full {
            Ok(cs) => {
                assert(out@ + cs =~= cs);
            },
            Err(_) => {},
        }
    }
    while i < n
        invariant
            i <= n,
            n == vs@.len(),
            match spec_conditions_of(l.subrange(i as int, n as int)) {
                Ok(cs) => full == Ok::<Seq<Condition>, Error>(out@ + cs),
                Err(e) => full == Err::<Seq<Condition>, Error>(e),
            },
        decreases n - i,
    {
        proof {
            assert(l.subrange(i as int, n as int)[0] == l[i as int]);
            assert(l.subrange(i as int, n as int).subrange(1, (n - i) as int) =~= l.subrange(
                i as int + 1,
                n as int,
            ));
        }
        match condition_of(&vs[i]) {
            Err(e) => { return Err(e) },
            Ok(c) => {
                proof {
                    match spec_conditions_of(l.subrange(i as int + 1, n as int)) {
                        Ok(cs2) => {
                            assert(out@ + (seq![c] + cs2) =~= out@.push(c) + cs2);
                        },
                        Err(_) => {},
                    }
                }
                out.push(c);
                i = i + 1;
            },
        }
    }
    proof {
        assert(l.subrange(n as int, n as int) =~= Seq::<SpecValue>::empty());
        assert(out@ + Seq::<Condition>::empty() =~= out@);
    }
    Ok(out)
}

/// Reads the integer list a sequence value holds.
#[verifier::loop_isolation(false)]
pub fn int_list_of(v: &Value) -> (r: Result<Vec<i32>, Error>)
    ensures
        match spec_int_list_of(v@) {
            Ok(ns) => r is Ok && r.unwrap()@ == ns,
            Err(e) => r is Err && r.unwrap_err() == e,
        },
{
    let vs: &Vec<Value> = match v {
        Value::Sequence(vs) => vs,
        _ => { return Err(Error::ShapeMismatch) },
    };
    let ghost l = value_list_view(vs@);
    let ghost full = spec_ints_of(l);
    let n: usize = vs.len();
    let mut out: Vec<i32> = Vec::new();
    let mut i: usize = 0;
    proof {
        lemma_value_list_view(vs@);
        assert(l.subrange(0, n as int) =~= l);
        match full {
            Ok(ns) => {
                assert(out@ + ns =~= ns);
            },
            Err(_) => {},
        }
    }
    while i < n
        invariant
            i <= n,
            n == vs@.len(),
            match spec_ints_of(l.subrange(i as int, n as int)) {
                Ok(ns) => full == Ok::<Seq<i32>, Error>(out@ + ns),
                Err(e) => full == Err::<Seq<i32>, Error>(e),
            },
        decreases n - i,
    {
        proof {
            assert(l.subrange(i as int, n as int)[0] == l[i as int]);
            assert(l.subrange(i as int, n as int).subrange(1, (n - i) as int) =~= l.subrange(
                i as int + 1,
                n as int,
            ));
        }
        match int_of(&vs[i]) {
            Err(e) => { return Err(e) },
            Ok(x) => {
                proof {
                    match spec_ints_of(l.subrange(i as int + 1, n as int)) {
                        Ok(ns2) => {
                            assert(out@ + (seq![x] + ns2) =~= out@.push(x) + ns2);
                        },
                        Err(_) => {},
                    }
                }
                out.push(x);
                i = i + 1;
            },
        }
    }
    proof {
        assert(l.subrange(n as int, n as int) =~= Seq::<SpecValue>::empty());
        assert(out@ + Seq::<i32>::empty() =~= out@);
    }
    Ok(out)
}

/// Reads the attack modifier list a sequence value holds.
#[verifier::loop_isolation(false)]
pub fn attack_modifier_list_of(v: &Value) -> (r: Result<Vec<AttackModifier>, Error>)
    ensures
        match spec_attack_modifier_list_of(v@) {
            Ok(ms) => r is Ok && r.unwrap()@ == ms,
            Err(e) => r is Err && r.unwrap_err() == e,
        },
{
    let vs: &Vec<Value> = match v {
        Value::Sequence(vs) => vs,
        _ => { return Err(Error::ShapeMismatch) },
    };
    let ghost l = value_list_view(vs@);
    let ghost full = spec_attack_modifiers_of(l);
    let n: usize = vs.len();
    let mut out: Vec<AttackModifier> = Vec::new();
    let mut i: usize = 0;
    proof {
        lemma_value_list_view(vs@);
        assert(l.subrange(0, n as int) =~= l);
        match full {
            Ok(ms) => {
                assert(out@ + ms =~= ms);
            },
            Err(_) => {},
        }
    }
    while i < n
        invariant
            i <= n,
            n == vs@.len(),
            match spec_attack_modifiers_of(l.subrange(i as int, n as int)) {
                Ok(ms) => full == Ok::<Seq<AttackModifier>, Error>(out@ + ms),
                Err(e) => full == Err::<Seq<AttackModifier>, Error>(e),
            },
        decreases n - i,
    {
        proof {
            assert(l.subrange(i as int, n as int)[0] == l[i as int]);
            assert(l.subrange(i as int, n as int).subrange(1, (n - i) as int) =~= l.subrange(
                i as int + 1,
                n as int,
            ));
        }
        match attack_modifier_of(&vs[i]) {
            Err(e) => { return Err(e) },
            Ok(m) => {
                proof {
                    match spec_attack_modifiers_of(l.subrange(i as int + 1, n as int)) {
                        Ok(ms2) => {
                            assert(out@ + (seq![m] + ms2) =~= out@.push(m) + ms2);
                        },
                        Err(_) => {},
                    }
                }
                out.push(m);
                i = i + 1;
            },
        }
    }
    proof {
        assert(l.subrange(n as int, n as int) =~= Seq::<SpecValue>::empty());
        assert(out@ + Seq::<AttackModifier>::empty() =~= out@);
    }
    Ok(out)
}


/// Reads the monster instance a struct value's fields hold.
pub fn monster_instance_from_fields(fs: &Vec<Value>) -> (r: Result<MonsterInstance, Error>)
    ensures
        match spec_monster_instance_fields(value_list_view(fs@)) {
            Ok(m) => r is Ok && r.unwrap()@ == m,
            Err(e) => r is Err && r.unwrap_err() == e,
        },
{
    proof {
        lemma_value_list_view(fs@);
    }
    if fs.len() != 8 {
        return Err(Error::ShapeMismatch);
    }
    let number: i32 = match int_of(&fs[0]) {
        Ok(x) => x,
        Err(e) => { return Err(e) },
    };
    let tpe: MonsterType = match monster_type_of(&fs[1]) {
        Ok(x) => x,
        Err(e) => { return Err(e) },
    };
    let is_new: bool = match bool_of(&fs[2]) {
        Ok(x) => x,
        Err(e) => { return Err(e) },
    };
    let hp: i32 = match int_of(&fs[3]) {
        Ok(x) => x,
        Err(e) => { return Err(e) },
    };
    let hp_max: i32 = match int_of(&fs[4]) {
        Ok(x) => x,
        Err(e) => { return Err(e) },
    };
    let conditions: Vec<Condition> = match condition_list_of(&fs[5]) {
        Ok(x) => x,
        Err(e) => { return Err(e) },
    };
    let conditions_expired: Vec<Condition> = match condition_list_of(&fs[6]) {
        Ok(x) => x,
        Err(e) => { return Err(e) },
    };
    let conditions_current_turn: Vec<Condition> = match condition_list_of(&fs[7]) {
        Ok(x) => x,
        Err(e) => { return Err(e) },
    };
    let m = MonsterInstance {
        number,
        tpe,
        is_new,
        hp,
        hp_max,
        conditions,
        conditions_expired,
        conditions_current_turn,
    };
    proof {
        assert(m@ =~~= spec_monster_instance_fields(value_list_view(fs@))->Ok_0);
    }
    Ok(m)
}

/// Reads the monster instance a value holds.
pub fn monster_instance_of(v: &Value) -> (r: Result<MonsterInstance, Error>)
    ensures
        match spec_monster_instance_of(v@) {
            Ok(m) => r is Ok && r.unwrap()@ == m,
            Err(e) => r is Err && r.unwrap_err() == e,
        },
{
    match v {
        Value::Struct(fs) => monster_instance_from_fields(fs),
        _ => Err(Error::ShapeMismatch),
    }
}

/// Reads the monster instance list a sequence value holds.
#[verifier::loop_isolation(false)]
pub fn monster_instance_list_of(v: &Value) -> (r: Result<Vec<MonsterInstance>, Error>)
    ensures
        match spec_monster_instance_list_of(v@) {
            Ok(ms) => r is Ok && r.unwrap()@.map_values(|m: MonsterInstance| m@) == ms,
            Err(e) => r is Err && r.unwrap_err() == e,
        },
{
    let vs: &Vec<Value> = match v {
        Value::Sequence(vs) => vs,
        _ => { return Err(Error::ShapeMismatch) },
    };
    let ghost l = value_list_view(vs@);
    let ghost full = spec_monster_instances_of(l);
    let n: usize = vs.len();
    let mut out: Vec<MonsterInstance> = Vec::new();
    let mut i: usize = 0;
    proof {
        lemma_value_list_view(vs@);
        assert(l.subrange(0, n as int) =~= l);
        match full {
            Ok(ms) => {
                assert(out@.map_values(|m: MonsterInstance| m@) + ms =~= ms);
            },
            Err(_) => {},
        }
    }
    while i < n
        invariant
            i <= n,
            n == vs@.len(),
            match spec_monster_instances_of(l.subrange(i as int, n as int)) {
                Ok(ms) => full == Ok::<Seq<SpecMonsterInstance>, Error>(
                    (out@.map_values(|m: MonsterInstance| m@) + ms),
                ),
                Err(e) => full == Err::<Seq<SpecMonsterInstance>, Error>(e),
            },
        decreases n - i,
    {
        proof {
            assert(l.subrange(i as int, n as int)[0] == l[i as int]);
            assert(l.subrange(i as int, n as int).subrange(1, (n - i) as int) =~= l.subrange(
                i as int + 1,
                n as int,
            ));
        }
        match monster_instance_of(&vs[i]) {
            Err(e) => { return Err(e) },
            Ok(m) => {
                proof {
                    assert(out@.push(m).map_values(|x: MonsterInstance| x@)
                        =~= out@.map_values(|x: MonsterInstance| x@).push(m@));
                    match spec_monster_instances_of(l.subrange(i as int + 1, n as int)) {
                        Ok(ms2) => {
                            assert(out@.map_values(|x: MonsterInstance| x@) + (seq![m@] + ms2)
                                =~= out@.map_values(|x: MonsterInstance| x@).push(m@) + ms2);
                        },
                        Err(_) => {},
                    }
                }
                out.push(m);
                i = i + 1;
            },
        }
    }
    proof {
        assert(l.subrange(n as int, n as int) =~= Seq::<SpecValue>::empty());
        assert(out@.map_values(|m: MonsterInstance| m@) + Seq::<SpecMonsterInstance>::empty()
            =~= out@.map_values(|m: MonsterInstance| m@));
    }
    Ok(out)
}

/// Reads the ability deck a struct value's fields hold.
pub fn ability_deck_from_fields(fs: &Vec<Value>) -> (r: Result<AbilityDeck, Error>)
    ensures
        match spec_ability_deck_fields(value_list_view(fs@)) {
            Ok(d) => r is Ok && r.unwrap()@ == d,
            Err(e) => r is Err && r.unwrap_err() == e,
        },
{
    proof {
        lemma_value_list_view(fs@);
    }
    if fs.len() != 5 {
        return Err(Error::ShapeMismatch);
    }
    let id: i32 = match int_of(&fs[0]) {
        Ok(x) => x,
        Err(e) => { return Err(e) },
    };
    let shuffle: bool = match bool_of(&fs[1]) {
        Ok(x) => x,
        Err(e) => { return Err(e) },
    };
    let shown_ability: Option<Ability> = match optional_ability_of(&fs[2]) {
        Ok(x) => x,
        Err(e) => { return Err(e) },
    };
    let abilities: Vec<i32> = match int_list_of(&fs[3]) {
        Ok(x) => x,
        Err(e) => { return Err(e) },
    };
    let abilities_discard: Vec<i32> = match int_list_of(&fs[4]) {
        Ok(x) => x,
        Err(e) => { return Err(e) },
    };
    let d = AbilityDeck { id, shuffle, shown_ability, abilities, abilities_discard };
    proof {
        assert(d@ =~~= spec_ability_deck_fields(value_list_view(fs@))->Ok_0);
    }
    Ok(d)
}

/// Reads the ability deck a value holds.
pub fn ability_deck_of(v: &Value) -> (r: Result<AbilityDeck, Error>)
    ensures
        match spec_ability_deck_of(v@) {
            Ok(d) => r is Ok && r.unwrap()@ == d,
            Err(e) => r is Err && r.unwrap_err() == e,
        },
{
    match v {
        Value::Struct(fs) => ability_deck_from_fields(fs),
        _ => Err(Error::ShapeMismatch),
    }
}

/// Reads the ability deck list a sequence value holds.
#[verifier::loop_isolation(false)]
pub fn ability_deck_list_of(v: &Value) -> (r: Result<Vec<AbilityDeck>, Error>)
    ensures
        match spec_ability_deck_list_of(v@) {
            Ok(ds) => r is Ok && r.unwrap()@.map_values(|d: AbilityDeck| d@) == ds,
            Err(e) => r is Err && r.unwrap_err() == e,
        },
{
    let vs: &Vec<Value> = match v {
        Value::Sequence(vs) => vs,
        _ => { return Err(Error::ShapeMismatch) },
    };
    let ghost l = value_list_view(vs@);
    let ghost full = spec_ability_decks_of(l);
    let n: usize = vs.len();
    let mut out: Vec<AbilityDeck> = Vec::new();
    let mut i: usize = 0;
    proof {
        lemma_value_list_view(vs@);
        assert(l.subrange(0, n as int) =~= l);
        match full {
            Ok(ds) => {
                assert(out@.map_values(|d: AbilityDeck| d@) + ds =~= ds);
            },
            Err(_) => {},
        }
    }
    while i < n
        invariant
            i <= n,
            n == vs@.len(),
            match spec_ability_decks_of(l.subrange(i as int, n as int)) {
                Ok(ds) => full == Ok::<Seq<SpecAbilityDeck>, Error>(
                    (out@.map_values(|d: AbilityDeck| d@) + ds),
                ),
                Err(e) => full == Err::<Seq<SpecAbilityDeck>, Error>(e),
            },
        decreases n - i,
    {
        proof {
            assert(l.subrange(i as int, n as int)[0] == l[i as int]);
            assert(l.subrange(i as int, n as int).subrange(1, (n - i) as int) =~= l.subrange(
                i as int + 1,
                n as int,
            ));
        }
        match ability_deck_of(&vs[i]) {
            Err(e) => { return Err(e) },
            Ok(d) => {
                proof {
                    assert(out@.push(d).map_values(|x: AbilityDeck| x@)
                        =~= out@.map_values(|x: AbilityDeck| x@).push(d@));
                    match spec_ability_decks_of(l.subrange(i as int + 1, n as int)) {
                        Ok(ds2) => {
                            assert(out@.map_values(|x: AbilityDeck| x@) + (seq![d@] + ds2)
                                =~= out@.map_values(|x: AbilityDeck| x@).push(d@) + ds2);
                        },
                        Err(_) => {},
                    }
                }
                out.push(d);
                i = i + 1;
            },
        }
    }
    proof {
        assert(l.subrange(n as int, n as int) =~= Seq::<SpecValue>::empty());
        assert(out@.map_values(|d: AbilityDeck| d@) + Seq::<SpecAbilityDeck>::empty()
            =~= out@.map_values(|d: AbilityDeck| d@));
    }
    Ok(out)
}

/// Reads the player a struct value's fields hold.
pub fn player_from_fields(fs: &Vec<Value>) -> (r: Result<Player, Error>)
    ensures
        match spec_player_fields(value_list_view(fs@)) {
            Ok(p) => r is Ok && r.unwrap()@ == p,
            Err(e) => r is Err && r.unwrap_err() == e,
        },
{
    proof {
        lemma_value_list_view(fs@);
    }
    if fs.len() != 14 {
        return Err(Error::ShapeMismatch);
    }
    let name: String = match str_of(&fs[0]) {
        Ok(x) => x,
        Err(e) => { return Err(e) },
    };
    let character_class: CharacterClass = match character_class_of(&fs[1]) {
        Ok(x) => x,
        Err(e) => { return Err(e) },
    };
    let xp: i32 = match int_of(&fs[2]) {
        Ok(x) => x,
        Err(e) => { return Err(e) },
    };
    let hp: i32 = match int_of(&fs[3]) {
        Ok(x) => x,
        Err(e) => { return Err(e) },
    };
    let hp_max: i32 = match int_of(&fs[4]) {
        Ok(x) => x,
        Err(e) => { return Err(e) },
    };
    let level: i32 = match int_of(&fs[5]) {
        Ok(x) => x,
        Err(e) => { return Err(e) },
    };
    let loot: i32 = match int_of(&fs[6]) {
        Ok(x) => x,
        Err(e) => { return Err(e) },
    };
    let initiative: i32 = match int_of(&fs[7]) {
        Ok(x) => x,
        Err(e) => { return Err(e) },
    };
    let conditions: Vec<Condition> = match condition_list_of(&fs[8]) {
        Ok(x) => x,
        Err(e) => { return Err(e) },
    };
    let conditions_expired: Vec<Condition> = match condition_list_of(&fs[9]) {
        Ok(x) => x,
        Err(e) => { return Err(e) },
    };
    let conditions_current_turn: Vec<Condition> = match condition_list_of(&fs[10]) {
        Ok(x) => x,
        Err(e) => { return Err(e) },
    };
    let exhausted: bool = match bool_of(&fs[11]) {
        Ok(x) => x,
        Err(e) => { return Err(e) },
    };
    let turn_completed: bool = match bool_of(&fs[12]) {
        Ok(x) => x,
        Err(e) => { return Err(e) },
    };
    let instances: Vec<MonsterInstance> = match monster_instance_list_of(&fs[13]) {
        Ok(x) => x,
        Err(e) => { return Err(e) },
    };
    let p = Player {
        name,
        character_class,
        xp,
        hp,
        hp_max,
        level,
        loot,
        initiative,
        conditions,
        conditions_expired,
        conditions_current_turn,
        exhausted,
        turn_completed,
        instances,
    };
    proof {
        assert(p@ =~~= spec_player_fields(value_list_view(fs@))->Ok_0);
    }
    Ok(p)
}

/// Reads the player a value holds.
pub fn player_of(v: &Value) -> (r: Result<Player, Error>)
    ensures
        match spec_player_of(v@) {
            Ok(p) => r is Ok && r.unwrap()@ == p,
            Err(e) => r is Err && r.unwrap_err() == e,
        },
{
    match v {
        Value::Struct(fs) => player_from_fields(fs),
        _ => Err(Error::ShapeMismatch),
    }
}

/// Reads the monster a struct value's fields hold.
pub fn monster_from_fields(fs: &Vec<Value>) -> (r: Result<Monster, Error>)
    ensures
        match spec_monster_fields(value_list_view(fs@)) {
            Ok(m) => r is Ok && r.unwrap()@ == m,
            Err(e) => r is Err && r.unwrap_err() == e,
        },
{
    proof {
        lemma_value_list_view(fs@);
    }
    if fs.len() != 7 {
        return Err(Error::ShapeMismatch);
    }
    let id: i32 = match int_of(&fs[0]) {
        Ok(x) => x,
        Err(e) => { return Err(e) },
    };
    let level: i32 = match int_of(&fs[1]) {
        Ok(x) => x,
        Err(e) => { return Err(e) },
    };
    let is_normal: bool = match bool_of(&fs[2]) {
        Ok(x) => x,
        Err(e) => { return Err(e) },
    };
    let is_elite: bool = match bool_of(&fs[3]) {
        Ok(x) => x,
        Err(e) => { return Err(e) },
    };
    let ability: Ability = match ability_of(&fs[4]) {
        Ok(x) => x,
        Err(e) => { return Err(e) },
    };
    let turn_completed: bool = match bool_of(&fs[5]) {
        Ok(x) => x,
        Err(e) => { return Err(e) },
    };
    let instances: Vec<MonsterInstance> = match monster_instance_list_of(&fs[6]) {
        Ok(x) => x,
        Err(e) => { return Err(e) },
    };
    let m = Monster { id, level, is_normal, is_elite, ability, turn_completed, instances };
    proof {
        assert(m@ =~~= spec_monster_fields(value_list_view(fs@))->Ok_0);
    }
    Ok(m)
}

/// Reads the monster a value holds.
pub fn monster_of(v: &Value) -> (r: Result<Monster, Error>)
    ensures
        match spec_monster_of(v@) {
            Ok(m) => r is Ok && r.unwrap()@ == m,
            Err(e) => r is Err && r.unwrap_err() == e,
        },
{
    match v {
        Value::Struct(fs) => monster_from_fields(fs),
        _ => Err(Error::ShapeMismatch),
    }
}

/// Reads the actor a tagged-union value holds: variant 0 is a monster,
/// variant 1 a player.
pub fn actor_of(v: &Value) -> (r: Result<Actor, Error>)
    ensures
        match spec_actor_of(v@) {
            Ok(a) => r is Ok && r.unwrap()@ == a,
            Err(e) => r is Err && r.unwrap_err() == e,
        },
{
    match v {
        Value::Variant(tag, fs) => {
            if *tag == 0 {
                match monster_from_fields(fs) {
                    Ok(m) => Ok(Actor::Monster(m)),
                    Err(e) => Err(e),
                }
            } else if *tag == 1 {
                match player_from_fields(fs) {
                    Ok(p) => Ok(Actor::Player(p)),
                    Err(e) => Err(e),
                }
            } else {
                Err(Error::ShapeMismatch)
            }
        },
        _ => Err(Error::ShapeMismatch),
    }
}

/// Reads the actor list a sequence value holds.
#[verifier::loop_isolation(false)]
pub fn actor_list_of(v: &Value) -> (r: Result<Vec<Actor>, Error>)
    ensures
        match spec_actor_list_of(v@) {
            Ok(others) => r is Ok && r.unwrap()@.map_values(|a: Actor| a@) == others,
            Err(e) => r is Err && r.unwrap_err() == e,
        },
{
    let vs: &Vec<Value> = match v {
        Value::Sequence(vs) => vs,
        _ => { return Err(Error::ShapeMismatch) },
    };
    let ghost l = value_list_view(vs@);
    let ghost full = spec_actors_of(l);
    let n: usize = vs.len();
    let mut out: Vec<Actor> = Vec::new();
    let mut i: usize = 0;
    proof {
        lemma_value_list_view(vs@);
        assert(l.subrange(0, n as int) =~= l);
        match full {
            Ok(others) => {
                assert(out@.map_values(|a: Actor| a@) + others =~= others);
            },
            Err(_) => {},
        }
    }
    while i < n
        invariant
            i <= n,
            n == vs@.len(),
            match spec_actors_of(l.subrange(i as int, n as int)) {
                Ok(others) => full == Ok::<Seq<SpecActor>, Error>(
                    (out@.map_values(|a: Actor| a@) + others),
                ),
                Err(e) => full == Err::<Seq<SpecActor>, Error>(e),
            },
        decreases n - i,
    {
        proof {
            assert(l.subrange(i as int, n as int)[0] == l[i as int]);
            assert(l.subrange(i as int, n as int).subrange(1, (n - i) as int) =~= l.subrange(
                i as int + 1,
                n as int,
            ));
        }
        match actor_of(&vs[i]) {
            Err(e) => { return Err(e) },
            Ok(a) => {
                proof {
                    assert(out@.push(a).map_values(|x: Actor| x@)
                        =~= out@.map_values(|x: Actor| x@).push(a@));
                    match spec_actors_of(l.subrange(i as int + 1, n as int)) {
                        Ok(others2) => {
                            assert(out@.map_values(|x: Actor| x@) + (seq![a@] + others2)
                                =~= out@.map_values(|x: Actor| x@).push(a@) + others2);
                        },
                        Err(_) => {},
                    }
                }
                out.push(a);
                i = i + 1;
            },
        }
    }
    proof {
        assert(l.subrange(n as int, n as int) =~= Seq::<SpecValue>::empty());
        assert(out@.map_values(|a: Actor| a@) + Seq::<SpecActor>::empty() =~= out@.map_values(
            |a: Actor| a@,
        ));
    }
    Ok(out)
}

/// Reads the state a struct value's fields hold.
pub fn state_from_fields(fs: &Vec<Value>) -> (r: Result<State, Error>)
    ensures
        match spec_state_fields(value_list_view(fs@)) {
            Ok(s) => r is Ok && r.unwrap()@ == s,
            Err(e) => r is Err && r.unwrap_err() == e,
        },
{
    proof {
        lemma_value_list_view(fs@);
    }
    if fs.len() != 26 {
        return Err(Error::ShapeMismatch);
    }
    let round: i32 = match int_of(&fs[0]) {
        Ok(x) => x,
        Err(e) => { return Err(e) },
    };
    let scenario_number: i32 = match int_of(&fs[1]) {
        Ok(x) => x,
        Err(e) => { return Err(e) },
    };
    let scenario_level: i32 = match int_of(&fs[2]) {
        Ok(x) => x,
        Err(e) => { return Err(e) },
    };
    let track_standees: bool = match bool_of(&fs[3]) {
        Ok(x) => x,
        Err(e) => { return Err(e) },
    };
    let ability_cards: bool = match bool_of(&fs[4]) {
        Ok(x) => x,
        Err(e) => { return Err(e) },
    };
    let random_standees: bool = match bool_of(&fs[5]) {
        Ok(x) => x,
        Err(e) => { return Err(e) },
    };
    let elites_first: bool = match bool_of(&fs[6]) {
        Ok(x) => x,
        Err(e) => { return Err(e) },
    };
    let expire_conditions: bool = match bool_of(&fs[7]) {
        Ok(x) => x,
        Err(e) => { return Err(e) },
    };
    let solo: bool = match bool_of(&fs[8]) {
        Ok(x) => x,
        Err(e) => { return Err(e) },
    };
    let hide_stats: bool = match bool_of(&fs[9]) {
        Ok(x) => x,
        Err(e) => { return Err(e) },
    };
    let calculate_stats: bool = match bool_of(&fs[10]) {
        Ok(x) => x,
        Err(e) => { return Err(e) },
    };
    let can_draw: bool = match bool_of(&fs[11]) {
        Ok(x) => x,
        Err(e) => { return Err(e) },
    };
    let needs_shuffle: bool = match bool_of(&fs[12]) {
        Ok(x) => x,
        Err(e) => { return Err(e) },
    };
    let player_init: i32 = match int_of(&fs[13]) {
        Ok(x) => x,
        Err(e) => { return Err(e) },
    };
    let attack_modifiers: Vec<AttackModifier> = match attack_modifier_list_of(&fs[14]) {
        Ok(x) => x,
        Err(e) => { return Err(e) },
    };
    let attack_modifiers_discard: Vec<AttackModifier> = match attack_modifier_list_of(&fs[15]) {
        Ok(x) => x,
        Err(e) => { return Err(e) },
    };
    let fire: ElementState = match element_state_of(&fs[16]) {
        Ok(x) => x,
        Err(e) => { return Err(e) },
    };
    let ice: ElementState = match element_state_of(&fs[17]) {
        Ok(x) => x,
        Err(e) => { return Err(e) },
    };
    let air: ElementState = match element_state_of(&fs[18]) {
        Ok(x) => x,
        Err(e) => { return Err(e) },
    };
    let earth: ElementState = match element_state_of(&fs[19]) {
        Ok(x) => x,
        Err(e) => { return Err(e) },
    };
    let light: ElementState = match element_state_of(&fs[20]) {
        Ok(x) => x,
        Err(e) => { return Err(e) },
    };
    let dark: ElementState = match element_state_of(&fs[21]) {
        Ok(x) => x,
        Err(e) => { return Err(e) },
    };
    let removed_abilities: Vec<i32> = match int_list_of(&fs[22]) {
        Ok(x) => x,
        Err(e) => { return Err(e) },
    };
    let bad_omen: i32 = match int_of(&fs[23]) {
        Ok(x) => x,
        Err(e) => { return Err(e) },
    };
    let ability_decks: Vec<AbilityDeck> = match ability_deck_list_of(&fs[24]) {
        Ok(x) => x,
        Err(e) => { return Err(e) },
    };
    let actors: Vec<Actor> = match actor_list_of(&fs[25]) {
        Ok(x) => x,
        Err(e) => { return Err(e) },
    };
    let s = State {
        round,
        scenario_number,
        scenario_level,
        track_standees,
        ability_cards,
        random_standees,
        elites_first,
        expire_conditions,
        solo,
        hide_stats,
        calculate_stats,
        can_draw,
        needs_shuffle,
        player_init,
        attack_modifiers,
        attack_modifiers_discard,
        fire,
        ice,
        air,
        earth,
        light,
        dark,
        removed_abilities,
        bad_omen,
        ability_decks,
        actors,
    };
    proof {
        assert(s@ =~~= spec_state_fields(value_list_view(fs@))->Ok_0);
    }
    Ok(s)
}

/// Reads the state a value holds.
pub fn state_of(v: &Value) -> (r: Result<State, Error>)
    ensures
        match spec_state_of(v@) {
            Ok(s) => r is Ok && r.unwrap()@ == s,
            Err(e) => r is Err && r.unwrap_err() == e,
        },
{
    match v {
        Value::Struct(fs) => state_from_fields(fs),
        _ => Err(Error::ShapeMismatch),
    }
}

} // verus!
