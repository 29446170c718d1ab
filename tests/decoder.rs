use attitude_link::commands::Command;
use attitude_link::data_format::Triplet;
use attitude_link::message::{DecodeError, Frame, Message, MessageType, Outcome};

fn feed(decoder: &mut Message, bytes: &[u8]) -> Vec<Outcome> {
    let mut out = Vec::new();
    for &b in bytes {
        out.push(decoder.push(b));
    }
    out
}

fn sample_triplet() -> Triplet {
    Triplet { x: 4660, y: 22136, z: -25924 }
}

#[test]
fn reserved_completes_at_once() {
    let mut d = Message::new();
    assert_eq!(
        feed(&mut d, &[0x00]),
        vec![Outcome::Complete(Frame { kind: MessageType::Reserved, triplet: None })]
    );
}

#[test]
fn telemetry_frame_decodes() {
    let mut d = Message::new();
    let out = feed(&mut d, &[0x01, 0x12, 0x34, 0x56, 0x78, 0x9a, 0xbc]);
    let mut expected = vec![Outcome::Continue; 6];
    expected.push(Outcome::Complete(Frame {
        kind: MessageType::Telemetry,
        triplet: Some(sample_triplet()),
    }));
    assert_eq!(out, expected);
}

#[test]
fn set_attitude_frame_decodes() {
    let mut d = Message::new();
    let out = feed(&mut d, &[0x02, 0x12, 0x34, 0x56, 0x78, 0x9a, 0xbc]);
    let mut expected = vec![Outcome::Continue; 6];
    expected.push(Outcome::Complete(Frame {
        kind: MessageType::SetAttitude,
        triplet: Some(sample_triplet()),
    }));
    assert_eq!(out, expected);
}

#[test]
fn attitude_achieved_completes_at_once() {
    let mut d = Message::new();
    assert_eq!(
        feed(&mut d, &[0x03]),
        vec![Outcome::Complete(Frame { kind: MessageType::AttitudeAchieved, triplet: None })]
    );
}

#[test]
fn unknown_header_is_an_error() {
    let mut d = Message::new();
    assert_eq!(feed(&mut d, &[0x04]), vec![Outcome::Error(DecodeError::InvalidHeader)]);
}

#[test]
fn short_payload_only_continues() {
    let mut d = Message::new();
    assert_eq!(feed(&mut d, &[0x01, 0x12]), vec![Outcome::Continue, Outcome::Continue]);
}

#[test]
fn every_invalid_header_errors_and_resets() {
    for b in 0x04..=0xffu8 {
        let mut d = Message::new();
        assert_eq!(d.push(b), Outcome::Error(DecodeError::InvalidHeader));
        assert_eq!(
            d.push(0x03),
            Outcome::Complete(Frame { kind: MessageType::AttitudeAchieved, triplet: None })
        );
    }
}

#[test]
fn partial_payload_of_every_length_continues() {
    let payload = [0x12, 0x34, 0x56, 0x78, 0x9a];
    for header in [0x01u8, 0x02] {
        for n in 0..payload.len() {
            let mut d = Message::new();
            assert_eq!(d.push(header), Outcome::Continue);
            for &b in &payload[..n] {
                assert_eq!(d.push(b), Outcome::Continue);
            }
        }
    }
}

#[test]
fn same_frame_twice_decodes_twice() {
    let frame = [0x02, 0x80, 0x00, 0x7f, 0xff, 0x00, 0x00];
    let mut d = Message::new();
    let first = feed(&mut d, &frame);
    let second = feed(&mut d, &frame);
    assert_eq!(first, second);
    assert_eq!(
        first[6],
        Outcome::Complete(Frame {
            kind: MessageType::SetAttitude,
            triplet: Some(Triplet { x: -32768, y: 32767, z: 0 }),
        })
    );
}

#[test]
fn frames_do_not_leak_into_each_other() {
    let mut d = Message::new();
    let mut out = feed(&mut d, &[0x01, 1, 2, 3, 4, 5, 6, 0xaa, 0x00, 0x03]);
    out.extend(feed(&mut d, &[0x01, 0x12, 0x34, 0x56, 0x78, 0x9a, 0xbc]));
    let mut fresh = Message::new();
    let alone = feed(&mut fresh, &[0x01, 0x12, 0x34, 0x56, 0x78, 0x9a, 0xbc]);
    assert_eq!(&out[10..], &alone[..]);
    assert_eq!(out[7], Outcome::Error(DecodeError::InvalidHeader));
    assert_eq!(
        out[6],
        Outcome::Complete(Frame {
            kind: MessageType::Telemetry,
            triplet: Some(Triplet { x: 0x0102, y: 0x0304, z: 0x0506 }),
        })
    );
}

#[test]
fn header_byte_read_after_error_is_fresh() {
    let mut d = Message::new();
    assert_eq!(d.push(0x10), Outcome::Error(DecodeError::InvalidHeader));
    assert_eq!(d.push(0x01), Outcome::Continue);
    for _ in 0..5 {
        assert_eq!(d.push(0x00), Outcome::Continue);
    }
    assert_eq!(
        d.push(0x00),
        Outcome::Complete(Frame {
            kind: MessageType::Telemetry,
            triplet: Some(Triplet { x: 0, y: 0, z: 0 }),
        })
    );
}

#[test]
fn payload_bytes_are_not_headers() {
    let mut d = Message::new();
    let out = feed(&mut d, &[0x01, 0x04, 0x05, 0x06, 0x07, 0x08, 0x09]);
    assert!(out[..6].iter().all(|o| *o == Outcome::Continue));
    assert!(matches!(out[6], Outcome::Complete(_)));
}

#[test]
fn from_header_names_each_type() {
    assert_eq!(MessageType::from_header(0x00), Some(MessageType::Reserved));
    assert_eq!(MessageType::from_header(0x01), Some(MessageType::Telemetry));
    assert_eq!(MessageType::from_header(0x02), Some(MessageType::SetAttitude));
    assert_eq!(MessageType::from_header(0x03), Some(MessageType::AttitudeAchieved));
    assert_eq!(MessageType::from_header(0x04), None);
    assert_eq!(MessageType::from_header(0xff), None);
}

#[test]
fn command_from_byte() {
    assert_eq!(Command::from(0x01), Ok(Command::SetAttitude));
    assert_eq!(Command::from(0x00), Err(()));
    assert_eq!(Command::from(0x02), Err(()));
    assert_eq!(Command::from(0xff), Err(()));
}
