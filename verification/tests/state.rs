use haven_codec::schema::{
    Ability, AbilityDeck, Actor, AttackModifier, CharacterClass, Condition, ElementState,
    Monster, MonsterInstance, MonsterType, Player, State,
};

fn put_varint(out: &mut Vec<u8>, v: i32) {
    let mut u: u32 = v as u32;
    loop {
        let b: u8 = (u & 0x7F) as u8;
        u >>= 7;
        if u == 0 {
            out.push(b);
            break;
        }
        out.push(b | 0x80);
    }
}

fn put_bool(out: &mut Vec<u8>, v: bool) {
    out.push(if v { 1 } else { 0 });
}

fn put_ints(out: &mut Vec<u8>, vs: &[i32]) {
    put_varint(out, vs.len() as i32);
    for v in vs {
        put_varint(out, *v);
    }
}

fn put_player(out: &mut Vec<u8>, class: u8, xp: i32, hp: i32, level: i32, initiative: i32) {
    out.push(0x00); // empty name
    put_varint(out, class as i32);
    put_varint(out, xp);
    put_varint(out, hp);
    put_varint(out, hp); // hp_max
    put_varint(out, level);
    put_varint(out, 0); // loot
    put_varint(out, initiative);
    put_ints(out, &[]); // conditions
    put_ints(out, &[]); // conditions_expired
    put_ints(out, &[]); // conditions_current_turn
    put_bool(out, false); // exhausted
    put_bool(out, false); // turn_completed
    put_varint(out, 0); // instances
}

fn put_instance(out: &mut Vec<u8>, number: i32, tpe: u8, hp: i32) {
    put_varint(out, number);
    put_varint(out, tpe as i32);
    put_bool(out, false); // is_new
    put_varint(out, hp);
    put_varint(out, hp); // hp_max
    put_ints(out, &[]);
    put_ints(out, &[]);
    put_ints(out, &[]);
}

fn put_deck(out: &mut Vec<u8>, id: i32, shown_raw: i32, abilities: &[i32], discard: &[i32]) {
    put_varint(out, id);
    put_bool(out, false); // shuffle
    put_varint(out, shown_raw);
    put_ints(out, abilities);
    put_ints(out, discard);
}

fn plain_player(class: CharacterClass, xp: i32, hp: i32, initiative: i32) -> Player {
    Player {
        name: String::new(),
        character_class: class,
        xp,
        hp,
        hp_max: hp,
        level: 1,
        loot: 0,
        initiative,
        conditions: vec![],
        conditions_expired: vec![],
        conditions_current_turn: vec![],
        exhausted: false,
        turn_completed: false,
        instances: vec![],
    }
}

fn plain_instance(number: i32, tpe: MonsterType, hp: i32) -> MonsterInstance {
    MonsterInstance {
        number,
        tpe,
        is_new: false,
        hp,
        hp_max: hp,
        conditions: vec![],
        conditions_expired: vec![],
        conditions_current_turn: vec![],
    }
}

fn plain_monster(id: i32, ability: i32, instances: Vec<MonsterInstance>) -> Monster {
    Monster {
        id,
        level: 1,
        is_normal: false,
        is_elite: false,
        ability: Ability { value: ability },
        turn_completed: false,
        instances,
    }
}

fn deck(id: i32, shown: Option<i32>, abilities: &[i32], discard: &[i32]) -> AbilityDeck {
    AbilityDeck {
        id,
        shuffle: false,
        shown_ability: shown.map(|value| Ability { value }),
        abilities: abilities.to_vec(),
        abilities_discard: discard.to_vec(),
    }
}

#[test]
fn state() {
    let mut bytes: Vec<u8> = Vec::new();
    put_varint(&mut bytes, 5); // round
    put_varint(&mut bytes, 5); // scenario_number
    put_varint(&mut bytes, 1); // scenario_level
    for flag in [true, true, true, true, true, false, false, true, false, false] {
        put_bool(&mut bytes, flag);
    }
    put_varint(&mut bytes, 3); // player_init
    // attack modifiers: Minus1 Crit Plus1 Zero Minus2 Zero Miss Plus1
    // Minus1 Plus2 Minus1 Zero Plus1 Zero Zero Plus1 Minus1 Zero Minus1
    put_ints(&mut bytes, &[3, 6, 1, 0, 4, 0, 5, 1, 3, 2, 3, 0, 1, 0, 0, 1, 3, 0, 3]);
    put_ints(&mut bytes, &[1]); // discard: Plus1
    for element in [0, 0, 0, 0, 1, 0] {
        put_varint(&mut bytes, element);
    }
    put_ints(&mut bytes, &[]); // removed_abilities
    put_varint(&mut bytes, 0); // bad_omen
    put_varint(&mut bytes, 5); // ability decks
    put_deck(&mut bytes, 4, 40, &[32, 38, 33, 36, 34, 37], &[35, 39]);
    put_deck(&mut bytes, 7, 0, &[58, 60, 59, 56, 63, 57, 61, 62], &[]);
    put_deck(&mut bytes, 8, 0, &[66, 70, 68, 69, 71, 64, 65, 67], &[]);
    put_deck(&mut bytes, 14, 118, &[116, 112, 115, 113, 119], &[118, 114, 117]);
    put_deck(&mut bytes, 18, 0, &[144, 145, 150, 148, 149, 146, 151, 147], &[]);
    put_varint(&mut bytes, 9); // actors
    bytes.push(1);
    put_player(&mut bytes, 6, 1, 6, 1, 12); // Spellweaver
    bytes.push(1);
    put_player(&mut bytes, 5, 0, 8, 1, 12); // Scoundrel
    bytes.push(1);
    put_player(&mut bytes, 2, 0, 10, 1, 12); // Brute
    bytes.push(0);
    {
        // Monster 7 with six normal standees.
        put_varint(&mut bytes, 7);
        put_varint(&mut bytes, 1);
        put_bool(&mut bytes, false);
        put_bool(&mut bytes, false);
        put_varint(&mut bytes, 40);
        put_bool(&mut bytes, false);
        put_varint(&mut bytes, 6);
        for number in 1..=6 {
            put_instance(&mut bytes, number, 0, 5);
        }
    }
    bytes.push(1);
    put_player(&mut bytes, 4, 0, 6, 1, 55); // Mindthief
    bytes.push(0);
    {
        // Monster 19 with two elites and one normal standee.
        put_varint(&mut bytes, 19);
        put_varint(&mut bytes, 1);
        put_bool(&mut bytes, false);
        put_bool(&mut bytes, false);
        put_varint(&mut bytes, 118);
        put_bool(&mut bytes, false);
        put_varint(&mut bytes, 3);
        put_instance(&mut bytes, 1, 1, 6);
        put_instance(&mut bytes, 7, 1, 6);
        put_instance(&mut bytes, 10, 0, 5);
    }
    for id in [24, 10, 11] {
        bytes.push(0);
        put_varint(&mut bytes, id);
        put_varint(&mut bytes, 1);
        put_bool(&mut bytes, false);
        put_bool(&mut bytes, false);
        put_varint(&mut bytes, 0);
        put_bool(&mut bytes, false);
        put_varint(&mut bytes, 0);
    }

    let state: State = State::from_bytes(&bytes).unwrap();
    println!("{:#?}", state);
    assert_eq!(
        state,
        State {
            round: 5,
            scenario_number: 5,
            scenario_level: 1,
            track_standees: true,
            ability_cards: true,
            random_standees: true,
            elites_first: true,
            expire_conditions: true,
            solo: false,
            hide_stats: false,
            calculate_stats: true,
            can_draw: false,
            needs_shuffle: false,
            player_init: 3,
            attack_modifiers: vec![
                AttackModifier::Minus1,
                AttackModifier::Crit,
                AttackModifier::Plus1,
                AttackModifier::Zero,
                AttackModifier::Minus2,
                AttackModifier::Zero,
                AttackModifier::Miss,
                AttackModifier::Plus1,
                AttackModifier::Minus1,
                AttackModifier::Plus2,
                AttackModifier::Minus1,
                AttackModifier::Zero,
                AttackModifier::Plus1,
                AttackModifier::Zero,
                AttackModifier::Zero,
                AttackModifier::Plus1,
                AttackModifier::Minus1,
                AttackModifier::Zero,
                AttackModifier::Minus1,
            ],
            attack_modifiers_discard: vec![AttackModifier::Plus1],
            fire: ElementState::Inert,
            ice: ElementState::Inert,
            air: ElementState::Inert,
            earth: ElementState::Inert,
            light: ElementState::Strong,
            dark: ElementState::Inert,
            removed_abilities: vec![],
            bad_omen: 0,
            ability_decks: vec![
                deck(4, Some(39), &[32, 38, 33, 36, 34, 37], &[35, 39]),
                deck(7, None, &[58, 60, 59, 56, 63, 57, 61, 62], &[]),
                deck(8, None, &[66, 70, 68, 69, 71, 64, 65, 67], &[]),
                deck(14, Some(117), &[116, 112, 115, 113, 119], &[118, 114, 117]),
                deck(18, None, &[144, 145, 150, 148, 149, 146, 151, 147], &[]),
            ],
            actors: vec![
                Actor::Player(plain_player(CharacterClass::Spellweaver, 1, 6, 12)),
                Actor::Player(plain_player(CharacterClass::Scoundrel, 0, 8, 12)),
                Actor::Player(plain_player(CharacterClass::Brute, 0, 10, 12)),
                Actor::Monster(plain_monster(
                    7,
                    39,
                    (1..=6).map(|n| plain_instance(n, MonsterType::Normal, 5)).collect(),
                )),
                Actor::Player(plain_player(CharacterClass::Mindthief, 0, 6, 55)),
                Actor::Monster(plain_monster(
                    19,
                    117,
                    vec![
                        plain_instance(1, MonsterType::Elite, 6),
                        plain_instance(7, MonsterType::Elite, 6),
                        plain_instance(10, MonsterType::Normal, 5),
                    ],
                )),
                Actor::Monster(plain_monster(24, 0, vec![])),
                Actor::Monster(plain_monster(10, 0, vec![])),
                Actor::Monster(plain_monster(11, 0, vec![])),
            ],
        }
    );
}

#[test]
fn conditions_on_the_wire() {
    // One monster standee carrying conditions, inside a monster record.
    let mut bytes: Vec<u8> = Vec::new();
    put_varint(&mut bytes, 12); // id
    put_varint(&mut bytes, 2); // level
    put_bool(&mut bytes, true);
    put_bool(&mut bytes, false);
    put_varint(&mut bytes, 0); // ability
    put_bool(&mut bytes, false);
    put_varint(&mut bytes, 1); // one instance
    put_varint(&mut bytes, 4); // number
    put_varint(&mut bytes, 1); // elite
    put_bool(&mut bytes, true); // is_new
    put_varint(&mut bytes, 9);
    put_varint(&mut bytes, 11);
    put_ints(&mut bytes, &[3, 8]); // stunned, poisoned
    put_ints(&mut bytes, &[6]); // wounded
    put_ints(&mut bytes, &[]);
    let m = Monster::from_bytes(&bytes).unwrap();
    assert_eq!(m.id, 12);
    assert_eq!(m.instances.len(), 1);
    let inst = &m.instances[0];
    assert_eq!(inst.number, 4);
    assert_eq!(inst.tpe, MonsterType::Elite);
    assert!(inst.is_new);
    assert_eq!(inst.hp, 9);
    assert_eq!(inst.hp_max, 11);
    assert_eq!(inst.conditions, vec![Condition::Stunned, Condition::Poisoned]);
    assert_eq!(inst.conditions_expired, vec![Condition::Wounded]);
    assert_eq!(inst.conditions_current_turn, vec![]);
}

#[test]
fn multi_byte_varints_in_records() {
    // Ability card numbers past 127 take two varint bytes on the wire.
    let mut bytes: Vec<u8> = Vec::new();
    put_deck(&mut bytes, 300, 0, &[200, 999], &[]);
    // An ability deck is not decodable on its own here; check the raw
    // varint encoding instead.
    assert_eq!(haven_codec::varint::read_varint(&bytes), Some((2, 300)));
    let mut expected: Vec<u8> = vec![0xAC, 0x02];
    expected.push(0x00); // shuffle
    expected.push(0x00); // shown ability
    expected.extend_from_slice(&[0x02, 0xC8, 0x01, 0xE7, 0x07]); // [200, 999]
    expected.push(0x00); // empty discard
    assert_eq!(bytes, expected);
}
