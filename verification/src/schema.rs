//! The domain schema: the concrete record types the decoder is asked for.
//!
//! These types define field order and variant arity; they hold no decoding
//! logic. Each closed enumeration is carried on the wire as a small scalar,
//! and the table mapping wire values to variants is written out here. The
//! `Spec...` mirrors are the mathematical forms of the record types, with
//! sequences in place of vectors and characters in place of strings.

use vstd::prelude::*;

verus! {

/// One attack modifier card.
#[derive(Copy, Clone, Debug, Eq, PartialOrd, PartialEq)]
pub enum AttackModifier {
    Zero,
    Plus1,
    Plus2,
    Minus1,
    Minus2,
    Miss,
    Crit,
    Bless,
    Curse,
}

/// The strength of one element on the board.
#[derive(Copy, Clone, Debug, Eq, PartialOrd, PartialEq)]
pub enum ElementState {
    Inert,
    Strong,
    Waning,
}

/// The rank of one monster standee.
#[derive(Copy, Clone, Debug, Eq, PartialOrd, PartialEq)]
pub enum MonsterType {
    Normal,
    Elite,
    Summon,
}

/// A condition token on an actor.
#[derive(Copy, Clone, Debug, Eq, PartialOrd, PartialEq)]
pub enum Condition {
    Summoned,
    Stunned,
    Immobilized,
    Disarmed,
    Wounded,
    Muddled,
    Poisoned,
    Strengthened,
    Invisible,
}

/// A playable character class, or one of the scenario stand-ins.
#[derive(Copy, Clone, Debug, Eq, PartialOrd, PartialEq)]
pub enum CharacterClass {
    Escort,
    Objective,
    Brute,
    Cragheart,
    Mindthief,
    Scoundrel,
    Spellweaver,
    Tinkerer,
    Diviner,
    TwoMinis,
    Lightning,
    AngryFace,
    Triangles,
    Moon,
    CthuluFace,
    TripleArrow,
    Saw,
    MusicNote,
    Circles,
    Sun,
}

/// The attack modifier the wire value names, in the order the protocol
/// numbers them from zero.
pub open spec fn spec_attack_modifier(v: u8) -> Option<AttackModifier> {
    if v == 0 {
        Some(AttackModifier::Zero)
    } else if v == 1 {
        Some(AttackModifier::Plus1)
    } else if v == 2 {
        Some(AttackModifier::Plus2)
    } else if v == 3 {
        Some(AttackModifier::Minus1)
    } else if v == 4 {
        Some(AttackModifier::Minus2)
    } else if v == 5 {
        Some(AttackModifier::Miss)
    } else if v == 6 {
        Some(AttackModifier::Crit)
    } else if v == 7 {
        Some(AttackModifier::Bless)
    } else if v == 8 {
        Some(AttackModifier::Curse)
    } else {
        None
    }
}

/// The element state the wire value names, numbered from zero.
pub open spec fn spec_element_state(v: u8) -> Option<ElementState> {
    if v == 0 {
        Some(ElementState::Inert)
    } else if v == 1 {
        Some(ElementState::Strong)
    } else if v == 2 {
        Some(ElementState::Waning)
    } else {
        None
    }
}

/// The monster type the wire value names: 0 normal, 1 elite, 3 summon.
pub open spec fn spec_monster_type(v: u8) -> Option<MonsterType> {
    if v == 0 {
        Some(MonsterType::Normal)
    } else if v == 1 {
        Some(MonsterType::Elite)
    } else if v == 3 {
        Some(MonsterType::Summon)
    } else {
        None
    }
}

/// The condition the wire value names, numbered from two.
pub open spec fn spec_condition(v: u8) -> Option<Condition> {
    if v == 2 {
        Some(Condition::Summoned)
    } else if v == 3 {
        Some(Condition::Stunned)
    } else if v == 4 {
        Some(Condition::Immobilized)
    } else if v == 5 {
        Some(Condition::Disarmed)
    } else if v == 6 {
        Some(Condition::Wounded)
    } else if v == 7 {
        Some(Condition::Muddled)
    } else if v == 8 {
        Some(Condition::Poisoned)
    } else if v == 9 {
        Some(Condition::Strengthened)
    } else if v == 10 {
        Some(Condition::Invisible)
    } else {
        None
    }
}

/// The character class the wire value names, numbered from zero.
pub open spec fn spec_character_class(v: u8) -> Option<CharacterClass> {
    if v == 0 {
        Some(CharacterClass::Escort)
    } else if v == 1 {
        Some(CharacterClass::Objective)
    } else if v == 2 {
        Some(CharacterClass::Brute)
    } else if v == 3 {
        Some(CharacterClass::Cragheart)
    } else if v == 4 {
        Some(CharacterClass::Mindthief)
    } else if v == 5 {
        Some(CharacterClass::Scoundrel)
    } else if v == 6 {
        Some(CharacterClass::Spellweaver)
    } else if v == 7 {
        Some(CharacterClass::Tinkerer)
    } else if v == 8 {
        Some(CharacterClass::Diviner)
    } else if v == 9 {
        Some(CharacterClass::TwoMinis)
    } else if v == 10 {
        Some(CharacterClass::Lightning)
    } else if v == 11 {
        Some(CharacterClass::AngryFace)
    } else if v == 12 {
        Some(CharacterClass::Triangles)
    } else if v == 13 {
        Some(CharacterClass::Moon)
    } else if v == 14 {
        Some(CharacterClass::CthuluFace)
    } else if v == 15 {
        Some(CharacterClass::TripleArrow)
    } else if v == 16 {
        Some(CharacterClass::Saw)
    } else if v == 17 {
        Some(CharacterClass::MusicNote)
    } else if v == 18 {
        Some(CharacterClass::Circles)
    } else if v == 19 {
        Some(CharacterClass::Sun)
    } else {
        None
    }
}

/// The face of an ability card.
#[derive(Copy, Clone, Debug, Eq, PartialOrd, PartialEq)]
pub struct Ability {
    pub value: i32,
}

/// The ability transform applied to a raw decoded scalar: zero stays zero,
/// any other value drops by one, the minimum wrapping to the maximum.
pub open spec fn spec_ability_value(v: i32) -> i32 {
    if v == 0 {
        0
    } else if v == i32::MIN {
        i32::MAX
    } else {
        (v - 1) as i32
    }
}

/// The optional ability a raw scalar carries: present exactly when the
/// transformed value is non-zero.
pub open spec fn spec_optional_ability(v: i32) -> Option<Ability> {
    if spec_ability_value(v) == 0 {
        None
    } else {
        Some(Ability { value: spec_ability_value(v) })
    }
}

/// Applies the ability transform to a raw decoded scalar.
pub fn ability_from_raw(v: i32) -> (a: Ability)
    ensures
        a.value == spec_ability_value(v),
{
    if v == 0 {
        Ability { value: 0 }
    } else if v == i32::MIN {
        Ability { value: i32::MAX }
    } else {
        Ability { value: v - 1 }
    }
}

/// The optional ability a raw scalar carries: absent when the transformed
/// value is zero.
pub fn optional_ability_from_raw(v: i32) -> (r: Option<Ability>)
    ensures
        r == spec_optional_ability(v),
{
    let a: Ability = ability_from_raw(v);
    if a.value == 0 {
        None
    } else {
        Some(a)
    }
}

/// One deck of ability cards.
#[derive(Clone, Debug, Eq, PartialOrd, PartialEq)]
pub struct AbilityDeck {
    pub id: i32,
    pub shuffle: bool,
    pub shown_ability: Option<Ability>,
    pub abilities: Vec<i32>,
    pub abilities_discard: Vec<i32>,
}

/// The mathematical form of an `AbilityDeck`.
#[verifier::ext_equal]
pub struct SpecAbilityDeck {
    pub id: i32,
    pub shuffle: bool,
    pub shown_ability: Option<Ability>,
    pub abilities: Seq<i32>,
    pub abilities_discard: Seq<i32>,
}

impl View for AbilityDeck {
    type V = SpecAbilityDeck;

    open spec fn view(&self) -> SpecAbilityDeck {
        SpecAbilityDeck {
            id: self.id,
            shuffle: self.shuffle,
            shown_ability: self.shown_ability,
            abilities: self.abilities@,
            abilities_discard: self.abilities_discard@,
        }
    }
}

/// One monster standee on the board.
#[derive(Clone, Debug, Eq, PartialOrd, PartialEq)]
pub struct MonsterInstance {
    pub number: i32,
    pub tpe: MonsterType,
    pub is_new: bool,
    pub hp: i32,
    pub hp_max: i32,
    pub conditions: Vec<Condition>,
    pub conditions_expired: Vec<Condition>,
    pub conditions_current_turn: Vec<Condition>,
}

/// The mathematical form of a `MonsterInstance`.
#[verifier::ext_equal]
pub struct SpecMonsterInstance {
    pub number: i32,
    pub tpe: MonsterType,
    pub is_new: bool,
    pub hp: i32,
    pub hp_max: i32,
    pub conditions: Seq<Condition>,
    pub conditions_expired: Seq<Condition>,
    pub conditions_current_turn: Seq<Condition>,
}

impl View for MonsterInstance {
    type V = SpecMonsterInstance;

    open spec fn view(&self) -> SpecMonsterInstance {
        SpecMonsterInstance {
            number: self.number,
            tpe: self.tpe,
            is_new: self.is_new,
            hp: self.hp,
            hp_max: self.hp_max,
            conditions: self.conditions@,
            conditions_expired: self.conditions_expired@,
            conditions_current_turn: self.conditions_current_turn@,
        }
    }
}

/// One player at the table.
#[derive(Clone, Debug, Eq, PartialOrd, PartialEq)]
pub struct Player {
    pub name: String,
    pub character_class: CharacterClass,
    pub xp: i32,
    pub hp: i32,
    pub hp_max: i32,
    pub level: i32,
    pub loot: i32,
    pub initiative: i32,
    pub conditions: Vec<Condition>,
    pub conditions_expired: Vec<Condition>,
    pub conditions_current_turn: Vec<Condition>,
    pub exhausted: bool,
    pub turn_completed: bool,
    pub instances: Vec<MonsterInstance>,
}

/// The mathematical form of a `Player`.
#[verifier::ext_equal]
pub struct SpecPlayer {
    pub name: Seq<char>,
    pub character_class: CharacterClass,
    pub xp: i32,
    pub hp: i32,
    pub hp_max: i32,
    pub level: i32,
    pub loot: i32,
    pub initiative: i32,
    pub conditions: Seq<Condition>,
    pub conditions_expired: Seq<Condition>,
    pub conditions_current_turn: Seq<Condition>,
    pub exhausted: bool,
    pub turn_completed: bool,
    pub instances: Seq<SpecMonsterInstance>,
}

impl View for Player {
    type V = SpecPlayer;

    open spec fn view(&self) -> SpecPlayer {
        SpecPlayer {
            name: self.name@,
            character_class: self.character_class,
            xp: self.xp,
            hp: self.hp,
            hp_max: self.hp_max,
            level: self.level,
            loot: self.loot,
            initiative: self.initiative,
            conditions: self.conditions@,
            conditions_expired: self.conditions_expired@,
            conditions_current_turn: self.conditions_current_turn@,
            exhausted: self.exhausted,
            turn_completed: self.turn_completed,
            instances: self.instances@.map_values(|m: MonsterInstance| m@),
        }
    }
}

/// One monster group in the scenario.
#[derive(Clone, Debug, Eq, PartialOrd, PartialEq)]
pub struct Monster {
    pub id: i32,
    pub level: i32,
    pub is_normal: bool,
    pub is_elite: bool,
    pub ability: Ability,
    pub turn_completed: bool,
    pub instances: Vec<MonsterInstance>,
}

/// The mathematical form of a `Monster`.
#[verifier::ext_equal]
pub struct SpecMonster {
    pub id: i32,
    pub level: i32,
    pub is_normal: bool,
    pub is_elite: bool,
    pub ability: Ability,
    pub turn_completed: bool,
    pub instances: Seq<SpecMonsterInstance>,
}

impl View for Monster {
    type V = SpecMonster;

    open spec fn view(&self) -> SpecMonster {
        SpecMonster {
            id: self.id,
            level: self.level,
            is_normal: self.is_normal,
            is_elite: self.is_elite,
            ability: self.ability,
            turn_completed: self.turn_completed,
            instances: self.instances@.map_values(|m: MonsterInstance| m@),
        }
    }
}

/// An actor taking turns: a monster group or a player.
#[derive(Clone, Debug, Eq, PartialOrd, PartialEq)]
pub enum Actor {
    Monster(Monster),
    Player(Player),
}

/// The mathematical form of an `Actor`.
#[verifier::ext_equal]
pub enum SpecActor {
    Monster(SpecMonster),
    Player(SpecPlayer),
}

impl View for Actor {
    type V = SpecActor;

    open spec fn view(&self) -> SpecActor {
        match self {
            Actor::Monster(m) => SpecActor::Monster(m@),
            Actor::Player(p) => SpecActor::Player(p@),
        }
    }
}

/// The whole broadcast game state.
#[derive(Clone, Debug, Eq, PartialOrd, PartialEq)]
pub struct State {
    pub round: i32,
    pub scenario_number: i32,
    pub scenario_level: i32,
    pub track_standees: bool,
    pub ability_cards: bool,
    pub random_standees: bool,
    pub elites_first: bool,
    pub expire_conditions: bool,
    pub solo: bool,
    pub hide_stats: bool,
    pub calculate_stats: bool,
    pub can_draw: bool,
    pub needs_shuffle: bool,
    pub player_init: i32,
    pub attack_modifiers: Vec<AttackModifier>,
    pub attack_modifiers_discard: Vec<AttackModifier>,
    pub fire: ElementState,
    pub ice: ElementState,
    pub air: ElementState,
    pub earth: ElementState,
    pub light: ElementState,
    pub dark: ElementState,
    pub removed_abilities: Vec<i32>,
    pub bad_omen: i32,
    pub ability_decks: Vec<AbilityDeck>,
    pub actors: Vec<Actor>,
}

/// The mathematical form of a `State`.
#[verifier::ext_equal]
pub struct SpecState {
    pub round: i32,
    pub scenario_number: i32,
    pub scenario_level: i32,
    pub track_standees: bool,
    pub ability_cards: bool,
    pub random_standees: bool,
    pub elites_first: bool,
    pub expire_conditions: bool,
    pub solo: bool,
    pub hide_stats: bool,
    pub calculate_stats: bool,
    pub can_draw: bool,
    pub needs_shuffle: bool,
    pub player_init: i32,
    pub attack_modifiers: Seq<AttackModifier>,
    pub attack_modifiers_discard: Seq<AttackModifier>,
    pub fire: ElementState,
    pub ice: ElementState,
    pub air: ElementState,
    pub earth: ElementState,
    pub light: ElementState,
    pub dark: ElementState,
    pub removed_abilities: Seq<i32>,
    pub bad_omen: i32,
    pub ability_decks: Seq<SpecAbilityDeck>,
    pub actors: Seq<SpecActor>,
}

impl View for State {
    type V = SpecState;

    open spec fn view(&self) -> SpecState {
        SpecState {
            round: self.round,
            scenario_number: self.scenario_number,
            scenario_level: self.scenario_level,
            track_standees: self.track_standees,
            ability_cards: self.ability_cards,
            random_standees: self.random_standees,
            elites_first: self.elites_first,
            expire_conditions: self.expire_conditions,
            solo: self.solo,
            hide_stats: self.hide_stats,
            calculate_stats: self.calculate_stats,
            can_draw: self.can_draw,
            needs_shuffle: self.needs_shuffle,
            player_init: self.player_init,
            attack_modifiers: self.attack_modifiers@,
            attack_modifiers_discard: self.attack_modifiers_discard@,
            fire: self.fire,
            ice: self.ice,
            air: self.air,
            earth: self.earth,
            light: self.light,
            dark: self.dark,
            removed_abilities: self.removed_abilities@,
            bad_omen: self.bad_omen,
            ability_decks: self.ability_decks@.map_values(|d: AbilityDeck| d@),
            actors: self.actors@.map_values(|a: Actor| a@),
        }
    }
}

} // verus!
