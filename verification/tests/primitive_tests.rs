use semi_e37::primitive::frame_length;
use semi_e37::primitive::FrameError;
use semi_e37::primitive::FrameLength;
use semi_e37::primitive::Message;
use semi_e37::primitive::MessageHeader;
use semi_e37::primitive::DEFAULT_MAX_LENGTH;
use semi_e37::primitive::HEADER_LENGTH;
use semi_e37::primitive::PREFIX_LENGTH;

fn header(system: u32) -> MessageHeader {
    MessageHeader {
        session_id: 0xFFFF,
        byte_2: 0x81,
        byte_3: 0x01,
        presentation_type: 0,
        session_type: 0,
        system,
    }
}

#[test]
fn constants_are_those_of_the_wire_format() {
    assert_eq!(HEADER_LENGTH, 10);
    assert_eq!(PREFIX_LENGTH, 4);
    assert_eq!(DEFAULT_MAX_LENGTH, 1 << 24);
}

#[test]
fn header_encodes_big_endian() {
    let encoded = header(0x0000_0010).encode();
    assert_eq!(encoded, vec![0xFF, 0xFF, 0x81, 0x01, 0, 0, 0, 0, 0, 0x10]);
    let encoded = MessageHeader {
        session_id: 0x1234,
        byte_2: 5,
        byte_3: 6,
        presentation_type: 7,
        session_type: 9,
        system: 0xA1B2C3D4,
    }
    .encode();
    assert_eq!(encoded, vec![0x12, 0x34, 5, 6, 7, 9, 0xA1, 0xB2, 0xC3, 0xD4]);
}

#[test]
fn header_round_trip() {
    for system in [0u32, 1, 0xFF, 0x100, 0xFFFF, 0x0001_0000, 0x7FFF_FFFF, 0xFFFF_FFFF] {
        for session_id in [0u16, 1, 0xFF, 0x100, 0xFFFF] {
            let h = MessageHeader {
                session_id,
                byte_2: 0x80,
                byte_3: 0xFF,
                presentation_type: 0,
                session_type: 7,
                system,
            };
            assert_eq!(MessageHeader::decode(&h.encode()), Some(h));
        }
    }
}

#[test]
fn header_decode_needs_exactly_ten_bytes() {
    assert_eq!(MessageHeader::decode(&[]), None);
    assert_eq!(MessageHeader::decode(&[0; 9]), None);
    assert_eq!(MessageHeader::decode(&[0; 11]), None);
    assert_eq!(
        MessageHeader::decode(&[0; 10]),
        Some(MessageHeader {
            session_id: 0,
            byte_2: 0,
            byte_3: 0,
            presentation_type: 0,
            session_type: 0,
            system: 0
        })
    );
}

#[test]
fn frame_has_length_prefix_header_and_text() {
    let message = Message { header: header(0x01020304), text: vec![9, 8, 7] };
    let frame = message.encode(DEFAULT_MAX_LENGTH).unwrap();
    assert_eq!(
        frame,
        vec![0, 0, 0, 13, 0xFF, 0xFF, 0x81, 0x01, 0, 0, 1, 2, 3, 4, 9, 8, 7]
    );
}

#[test]
fn frame_round_trip() {
    for length in [0usize, 1, 2, 255, 256, 1000] {
        let text: Vec<u8> = (0..length).map(|i| (i % 251) as u8).collect();
        let message = Message { header: header(length as u32), text: text.clone() };
        let frame = message.encode(DEFAULT_MAX_LENGTH).unwrap();
        assert_eq!(frame.len(), 14 + length);
        let read = Message::decode(&frame, DEFAULT_MAX_LENGTH).unwrap();
        assert_eq!(read.header, message.header);
        assert_eq!(read.text, text);
        let read = Message::decode_body(&frame[4..]).unwrap();
        assert_eq!(read.header, message.header);
        assert_eq!(read.text, text);
    }
}

#[test]
fn frame_at_the_maximum_length_is_accepted_and_one_over_is_not() {
    let message = Message { header: header(1), text: vec![0; 6] };
    assert!(message.encode(16).is_ok());
    assert_eq!(message.encode(15), Err(FrameError::TooLong));
    assert_eq!(message.encode(9), Err(FrameError::TooLong));
    assert_eq!(message.encode(0), Err(FrameError::TooLong));
    let frame = message.encode(16).unwrap();
    assert!(Message::decode(&frame, 16).is_ok());
    assert_eq!(Message::decode(&frame, 15).err(), Some(FrameError::TooLong));
}

#[test]
fn frame_length_classifies_the_prefix() {
    assert_eq!(frame_length(&[0, 0, 0, 0], 100), Ok(FrameLength::Empty));
    assert_eq!(frame_length(&[0, 0, 0, 1], 100), Err(FrameError::TooShort));
    assert_eq!(frame_length(&[0, 0, 0, 9], 100), Err(FrameError::TooShort));
    assert_eq!(frame_length(&[0, 0, 0, 10], 100), Ok(FrameLength::Message(10)));
    assert_eq!(frame_length(&[0, 0, 0, 100], 100), Ok(FrameLength::Message(100)));
    assert_eq!(frame_length(&[0, 0, 0, 101], 100), Err(FrameError::TooLong));
    assert_eq!(frame_length(&[1, 0, 0, 0], DEFAULT_MAX_LENGTH), Ok(FrameLength::Message(1 << 24)));
    assert_eq!(frame_length(&[1, 0, 0, 1], DEFAULT_MAX_LENGTH), Err(FrameError::TooLong));
    assert_eq!(frame_length(&[0xFF, 0xFF, 0xFF, 0xFF], u32::MAX), Ok(FrameLength::Message(u32::MAX)));
    assert_eq!(frame_length(&[0, 0, 0], 100), Err(FrameError::Truncated));
    assert_eq!(frame_length(&[0, 0, 0, 0, 0], 100), Err(FrameError::Truncated));
}

#[test]
fn decode_names_each_fault() {
    assert_eq!(Message::decode(&[0, 0, 0], 100).err(), Some(FrameError::Truncated));
    assert_eq!(Message::decode(&[0, 0, 0, 0], 100).err(), Some(FrameError::TooShort));
    assert_eq!(Message::decode(&[0, 0, 0, 0, 1], 100).err(), Some(FrameError::TrailingBytes));
    assert_eq!(Message::decode(&[0, 0, 0, 5, 1, 2, 3, 4, 5], 100).err(), Some(FrameError::TooShort));
    assert_eq!(Message::decode(&[0, 0, 1, 0], 100).err(), Some(FrameError::TooLong));
    let mut frame = vec![0, 0, 0, 10];
    frame.extend_from_slice(&[0; 9]);
    assert_eq!(Message::decode(&frame, 100).err(), Some(FrameError::Truncated));
    frame.push(0);
    assert!(Message::decode(&frame, 100).is_ok());
    frame.push(0);
    assert_eq!(Message::decode(&frame, 100).err(), Some(FrameError::TrailingBytes));
}

#[test]
fn decode_body_needs_a_header() {
    assert_eq!(Message::decode_body(&[]).err(), Some(FrameError::Truncated));
    assert_eq!(Message::decode_body(&[0; 9]).err(), Some(FrameError::Truncated));
    let read = Message::decode_body(&[0xFF, 0xFF, 0, 0, 0, 5, 0, 0, 0, 0x0A]).unwrap();
    assert_eq!(read.header.session_id, 0xFFFF);
    assert_eq!(read.header.session_type, 5);
    assert_eq!(read.header.system, 10);
    assert!(read.text.is_empty());
}
