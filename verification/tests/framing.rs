use haven_codec::error::Error;
use haven_codec::frame::{extract_frame, i16_from_be, i32_from_be, split_payload, tag_of, Frame};
use haven_codec::schema::Monster;

const MONSTER_BYTES: [u8; 7] = [0x3, 0xA, 0x1, 0x0, 0x20, 0x1, 0x0];

#[test]
fn big_endian_scalars() {
    assert_eq!(i16_from_be(0x00, 0x02), 2);
    assert_eq!(i16_from_be(0x01, 0x00), 256);
    assert_eq!(i16_from_be(0xFF, 0xFF), -1);
    assert_eq!(i32_from_be(0x00, 0x00, 0x00, 0x07), 7);
    assert_eq!(i32_from_be(0x12, 0x34, 0x56, 0x78), 0x12345678);
    assert_eq!(i32_from_be(0xFF, 0xFF, 0xFF, 0xFE), -2);
}

#[test]
fn tag_bytes_as_utf8() {
    assert_eq!(tag_of(b"state").unwrap(), "state".to_string());
    assert_eq!(tag_of(&[]).unwrap(), String::new());
    assert_eq!(tag_of(&[0xFF, 0x20]), Err(Error::InvalidTag));
}

#[test]
fn payload_split() {
    // An empty payload is skipped silently.
    assert_eq!(split_payload(&[]), Ok(None));
    // A short one cannot hold its sequence number.
    assert_eq!(split_payload(&[1, 2]), Err(Error::ShortPayload { len: 2 }));
    // Otherwise the head is the sequence number and the rest the record.
    let r = split_payload(&[0, 0, 0, 9, 0xAB, 0xCD]).unwrap().unwrap();
    assert_eq!(r.0, 9);
    assert_eq!(r.1, vec![0xAB, 0xCD]);
}

#[test]
fn frame_roundtrip() {
    // tag length, tag, varint payload length, sequence number, record.
    let mut buf: Vec<u8> = vec![0x00, 0x02];
    buf.extend_from_slice(b"st");
    buf.push((4 + MONSTER_BYTES.len()) as u8);
    buf.extend_from_slice(&[0x00, 0x00, 0x00, 0x07]);
    buf.extend_from_slice(&MONSTER_BYTES);
    let (frame, end) = extract_frame(&buf, 0).unwrap();
    assert_eq!(end, buf.len());
    let frame: Frame = frame.unwrap();
    assert_eq!(frame.tag, "st".to_string());
    assert_eq!(frame.seq_number, 7);
    assert_eq!(frame.record, MONSTER_BYTES.to_vec());
    let m = Monster::from_bytes(&frame.record).unwrap();
    assert_eq!(m.id, 3);
    assert_eq!(m.level, 10);
}

#[test]
fn empty_payload_yields_no_frame() {
    let buf: Vec<u8> = vec![0x00, 0x01, b'x', 0x00];
    let (frame, end) = extract_frame(&buf, 0).unwrap();
    assert!(frame.is_none());
    assert_eq!(end, buf.len());
}

#[test]
fn two_frames_in_sequence() {
    let mut buf: Vec<u8> = vec![0x00, 0x01, b'a', 0x00];
    buf.extend_from_slice(&[0x00, 0x01, b'b', 0x05, 0x00, 0x00, 0x00, 0x01, 0xEE]);
    let (first, p) = extract_frame(&buf, 0).unwrap();
    assert!(first.is_none());
    let (second, end) = extract_frame(&buf, p).unwrap();
    assert_eq!(end, buf.len());
    let second = second.unwrap();
    assert_eq!(second.tag, "b".to_string());
    assert_eq!(second.seq_number, 1);
    assert_eq!(second.record, vec![0xEE]);
}

#[test]
fn truncated_frames() {
    // Not enough bytes for the tag length.
    assert_eq!(extract_frame(&[0x00], 0), Err(Error::UnexpectedEnd { offset: 0 }));
    // Not enough bytes for the tag.
    assert_eq!(extract_frame(&[0x00, 0x05, b'x'], 0), Err(Error::UnexpectedEnd { offset: 2 }));
    // A varint payload length that never terminates.
    assert_eq!(
        extract_frame(&[0x00, 0x00, 0x80, 0x80, 0x80, 0x80, 0x80], 0),
        Err(Error::TruncatedVarint { offset: 2 })
    );
    // A payload length past the end of the buffer.
    assert_eq!(extract_frame(&[0x00, 0x00, 0x09, 0x01], 0), Err(Error::UnexpectedEnd { offset: 3 }));
    // A tag that is not UTF-8.
    assert_eq!(extract_frame(&[0x00, 0x01, 0xFF, 0x00], 0), Err(Error::InvalidTag));
}
