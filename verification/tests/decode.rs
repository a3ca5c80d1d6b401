use haven_codec::convert::{optional_ability_of, player_of};
use haven_codec::de::Deserializer;
use haven_codec::error::Error;
use haven_codec::records::{actor_shape, monster_shape, player_shape};
use haven_codec::engine::decode;
use haven_codec::schema::{
    ability_from_raw, optional_ability_from_raw, Ability, Actor, CharacterClass, Monster, Player,
};
use haven_codec::shape::Value;
use haven_codec::varint::read_varint;

const PLAYER_BYTES: [u8; 14] = [
    0x0, /* name */
    0x2, /* class */
    0xE, 0xE, 0x8, 0x2, 0x1, 0x0, 0x0, 0x0, 0x0, 0x1, 0x0, 0x0,
];

const MONSTER_BYTES: [u8; 7] = [
    0x3, /* id */
    0xA, /* level */
    0x1, /* is_normal */
    0x0, /* is_elite */
    0x20, 0x1, 0x0,
];

fn expected_player() -> Player {
    Player {
        name: String::new(),
        character_class: CharacterClass::Brute,
        xp: 14,
        hp: 14,
        hp_max: 8,
        level: 2,
        loot: 1,
        initiative: 0,
        conditions: Vec::new(),
        conditions_expired: Vec::new(),
        conditions_current_turn: Vec::new(),
        exhausted: true,
        turn_completed: false,
        instances: Vec::new(),
    }
}

fn expected_monster() -> Monster {
    Monster {
        id: 3,
        level: 10,
        is_normal: true,
        is_elite: false,
        ability: Ability { value: 31 },
        turn_completed: true,
        instances: Vec::new(),
    }
}

#[test]
fn player() {
    let x: Player = Player::from_bytes(&PLAYER_BYTES).unwrap();
    println!("player {:#?}", x);
    assert_eq!(x, expected_player());
}

#[test]
fn monster() {
    let x: Monster = Monster::from_bytes(&MONSTER_BYTES).unwrap();
    println!("monster {:#?}", x);
    assert_eq!(x, expected_monster());
}

#[test]
fn actor() {
    let mut bytes: Vec<u8> = vec![0x1 /* enum indicator */];
    bytes.extend_from_slice(&PLAYER_BYTES);
    let x: Actor = Actor::from_bytes(&bytes).unwrap();
    println!("actor {:#?}", x);
    assert_eq!(x, Actor::Player(expected_player()));

    let mut bytes: Vec<u8> = vec![0x0 /* enum indicator */];
    bytes.extend_from_slice(&MONSTER_BYTES);
    let x: Actor = Actor::from_bytes(&bytes).unwrap();
    println!("actor {:#?}", x);
    assert_eq!(x, Actor::Monster(expected_monster()));
}

#[test]
fn varint_zero() {
    assert_eq!(read_varint(&[0x00]), Some((1, 0)));
}

#[test]
fn varint_truncated() {
    assert_eq!(read_varint(&[0x80, 0x80, 0x80, 0x80, 0x80]), None);
    let mut de = Deserializer::from_bytes(&[0x80, 0x80, 0x80, 0x80, 0x80, 0x80]);
    assert_eq!(de.parse_varint(), Err(Error::TruncatedVarint { offset: 0 }));
}

#[test]
fn varint_values() {
    // 300 = 0b100101100: low seven bits 0x2C with the high bit set, then 0x02.
    assert_eq!(read_varint(&[0xAC, 0x02]), Some((2, 300)));
    // A full five-byte run: bits beyond bit 31 are dropped silently.
    assert_eq!(read_varint(&[0xFF, 0xFF, 0xFF, 0xFF, 0x7F]), Some((5, -1)));
    // The run ends at the first byte with its high bit clear.
    assert_eq!(read_varint(&[0x05, 0xFF]), Some((1, 5)));
}

#[test]
fn string_ascii_sigil_empty() {
    // A sigil with its high bit clear is the empty string whatever follows.
    let mut de = Deserializer::from_bytes(&[0x41, 0xFF, 0xFF]);
    assert_eq!(de.parse_str().unwrap(), String::new());
    assert_eq!(de.position(), 1);
}

#[test]
fn string_short_length_empty() {
    // A header length of 1 yields the empty string.
    let mut de = Deserializer::from_bytes(&[0x81, 0xFF]);
    assert_eq!(de.parse_str().unwrap(), String::new());
    assert_eq!(de.position(), 1);
    // So does a header length of 0.
    let mut de = Deserializer::from_bytes(&[0x80]);
    assert_eq!(de.parse_str().unwrap(), String::new());
    assert_eq!(de.position(), 1);
}

#[test]
fn string_backward_window() {
    // Sigil 0xC2: length 2 extended by a continuation byte of 0; the
    // one-byte window ends at the post-header cursor, so it is the last
    // header byte itself.
    let mut de = Deserializer::from_bytes(&[0xC2, 0x00]);
    assert_eq!(de.parse_str().unwrap(), "\u{0}".to_string());
    assert_eq!(de.position(), 2);
}

#[test]
fn string_window_out_of_range() {
    // Length 3 at position 0: the window would begin before the buffer.
    let mut de = Deserializer::from_bytes(&[0x83]);
    assert_eq!(de.parse_str(), Err(Error::StringWindow { offset: 1 }));
}

#[test]
fn string_invalid_utf8() {
    // At position 1, a length of 2 slices the sigil byte itself, which is
    // not valid UTF-8 on its own.
    let mut de = Deserializer::from_bytes(&[0x41, 0x82]);
    let _skipped: u8 = de.read_byte();
    assert_eq!(de.parse_str(), Err(Error::InvalidString { offset: 2 }));
}

#[test]
fn unknown_variant_is_isolated() {
    // A discriminant byte outside the two known variants fails without
    // touching the variant payload.
    let mut bytes: Vec<u8> = vec![0x2];
    bytes.extend_from_slice(&MONSTER_BYTES);
    assert_eq!(
        Actor::from_bytes(&bytes),
        Err(Error::UnknownVariant { offset: 0, tag: 2, count: 2 })
    );
    // Even a payload that could never decode is not reached.
    assert_eq!(
        Actor::from_bytes(&[0x7F]),
        Err(Error::UnknownVariant { offset: 0, tag: 0x7F, count: 2 })
    );
}

#[test]
fn ability_transform() {
    // Raw 0 is absent; raw 40 is present with value 39.
    assert_eq!(optional_ability_from_raw(0), None);
    assert_eq!(optional_ability_from_raw(40), Some(Ability { value: 39 }));
    // Raw 1 transforms to 0, so it is absent as well.
    assert_eq!(optional_ability_from_raw(1), None);
    assert_eq!(ability_from_raw(40), Ability { value: 39 });
    assert_eq!(ability_from_raw(0), Ability { value: 0 });
    // Through a decoded value.
    assert_eq!(optional_ability_of(&Value::Int32(40)), Ok(Some(Ability { value: 39 })));
    assert_eq!(optional_ability_of(&Value::Int32(0)), Ok(None));
}

#[test]
fn decode_is_pure() {
    // Decoding the same buffer twice from a cursor reset to 0 yields
    // identical results.
    let shape = player_shape();
    let mut first = Deserializer::from_bytes(&PLAYER_BYTES);
    let mut second = Deserializer::from_bytes(&PLAYER_BYTES);
    let a = decode(&shape, &mut first).unwrap();
    let b = decode(&shape, &mut second).unwrap();
    assert_eq!(a, b);
    assert_eq!(first.position(), second.position());
    assert_eq!(Player::from_bytes(&PLAYER_BYTES), Player::from_bytes(&PLAYER_BYTES));
}

#[test]
fn truncated_record() {
    // The monster vector cut off before its first bool.
    let mut de = Deserializer::from_bytes(&[0x3, 0xA]);
    let shape = monster_shape();
    assert_eq!(decode(&shape, &mut de), Err(Error::UnexpectedEnd { offset: 2 }));
    assert_eq!(Monster::from_bytes(&[0x3, 0xA]), Err(Error::UnexpectedEnd { offset: 2 }));
}

#[test]
fn empty_buffer_fails() {
    assert_eq!(Monster::from_bytes(&[]), Err(Error::TruncatedVarint { offset: 0 }));
    let mut de = Deserializer::from_bytes(&[]);
    let shape = actor_shape();
    assert_eq!(decode(&shape, &mut de), Err(Error::UnexpectedEnd { offset: 0 }));
}

#[test]
fn enum_value_out_of_range() {
    // The player vector with its class byte raised past the last class.
    let bytes: [u8; 14] = [
        0x0, 0x14, 0xE, 0xE, 0x8, 0x2, 0x1, 0x0, 0x0, 0x0, 0x0, 0x1, 0x0, 0x0,
    ];
    assert_eq!(Player::from_bytes(&bytes), Err(Error::InvalidEnumValue { value: 0x14 }));
}

#[test]
fn conversion_shape_mismatch() {
    assert_eq!(player_of(&Value::Bool(true)), Err(Error::ShapeMismatch));
    assert_eq!(player_of(&Value::Struct(Vec::new())), Err(Error::ShapeMismatch));
}

#[test]
fn trailing_bytes_are_ignored() {
    let mut bytes: Vec<u8> = MONSTER_BYTES.to_vec();
    bytes.extend_from_slice(&[0xAA, 0xBB]);
    assert_eq!(Monster::from_bytes(&bytes).unwrap(), expected_monster());
}
