//! Tests of the header and body codec.

use j1407b::error::DecodeError;
use j1407b::protocol::Command;
use j1407b::protocol::Header;
use j1407b::protocol::Protocol;
use j1407b::protocol::Type;
use j1407b::protocol::HEADER_BYTES;
use j1407b::requests::PullRequest;

fn all_types() -> Vec<Type> {
    vec![Type::Request, Type::Response]
}

fn all_commands() -> Vec<Command> {
    vec![
        Command::Pull,
        Command::Run,
        Command::Stop,
        Command::Rm,
        Command::Ps,
        Command::Images,
        Command::Logs,
        Command::Exec,
        Command::Tag,
    ]
}

#[test]
fn header_round_trip_every_combination() {
    for t in all_types() {
        for c in all_commands() {
            for len in [0u64, 1, 13, u64::MAX] {
                let bytes = Protocol::write_header(t, c, len);
                let decoded = Protocol::decode_header(&bytes).unwrap();
                assert_eq!(decoded, Header { _type: t, command: c, length: len });
            }
        }
    }
}

#[test]
fn header_size_is_constant() {
    for t in all_types() {
        for c in all_commands() {
            for len in [0u64, 7, u64::MAX] {
                assert_eq!(Protocol::write_header(t, c, len).len(), HEADER_BYTES);
            }
        }
    }
}

#[test]
fn header_exact_bytes() {
    // Request = 1, Pull = 1, then the length little-endian in 8 bytes.
    let bytes = Protocol::write_header(Type::Request, Command::Pull, 3);
    assert_eq!(bytes, vec![1, 1, 3, 0, 0, 0, 0, 0, 0, 0]);
    // Response = 2, Tag = 9.
    let bytes = Protocol::write_header(Type::Response, Command::Tag, 0x0102);
    assert_eq!(bytes, vec![2, 9, 2, 1, 0, 0, 0, 0, 0, 0]);
}

#[test]
fn unknown_message_type_is_rejected() {
    for bad in [0u8, 3, 4, 255] {
        let mut bytes = vec![bad, 1];
        bytes.extend_from_slice(&[0; 8]);
        match Protocol::decode_header(&bytes) {
            Err(DecodeError::UnknownType { code }) => assert_eq!(code, bad),
            other => panic!("expected UnknownType, got {:?}", other),
        }
    }
}

#[test]
fn unknown_command_is_rejected() {
    for bad in [0u8, 10, 77, 255] {
        let mut bytes = vec![1, bad];
        bytes.extend_from_slice(&[0; 8]);
        match Protocol::decode_header(&bytes) {
            Err(DecodeError::UnknownCommand { code }) => assert_eq!(code, bad),
            other => panic!("expected UnknownCommand, got {:?}", other),
        }
    }
}

#[test]
fn short_and_long_header_buffers_are_rejected() {
    for n in [0usize, 1, 9, 11, 41] {
        let bytes = vec![1u8; n];
        match Protocol::decode_header(&bytes) {
            Err(DecodeError::HeaderLength { got }) => assert_eq!(got, n),
            other => panic!("expected HeaderLength, got {:?}", other),
        }
    }
}

#[test]
fn body_round_trip() {
    let request = PullRequest { image: String::from("alpine:latest") };
    let bytes = Protocol::write_body(&request);
    let decoded = Protocol::decode_body(&bytes).unwrap();
    assert_eq!(decoded.image, "alpine:latest");
}

#[test]
fn body_encoding_appends_delimiter() {
    // The encoded body is not the raw string: the serializer appends its
    // string delimiter byte after the UTF-8 bytes.
    let request = PullRequest { image: String::from("abc") };
    let bytes = Protocol::write_body(&request);
    assert_eq!(bytes, vec![b'a', b'b', b'c', 134]);
}

#[test]
fn body_of_empty_string_does_not_round_trip() {
    // The body format genuinely loses the empty string: its encoding is
    // the lone delimiter byte, which the deserializer eats as data.
    let request = PullRequest { image: String::new() };
    let bytes = Protocol::write_body(&request);
    assert_eq!(bytes, vec![134]);
    assert!(matches!(
        Protocol::decode_body(&bytes),
        Err(DecodeError::MalformedBody { .. })
    ));
}

#[test]
fn body_with_delimiter_byte_inside_utf8_does_not_round_trip() {
    // U+0086 encodes to the bytes C2 86, and 86 hex is the delimiter
    // byte: the deserializer stops there and is left with invalid UTF-8.
    // Such image references are genuinely lost by the body format.
    let request = PullRequest { image: String::from("\u{0086}") };
    let bytes = Protocol::write_body(&request);
    assert_eq!(bytes, vec![0xC2, 0x86, 134]);
    assert!(matches!(
        Protocol::decode_body(&bytes),
        Err(DecodeError::MalformedBody { .. })
    ));
}

#[test]
fn body_trailing_bytes_after_delimiter_are_ignored() {
    let bytes = vec![b'h', b'i', 134, 99, 100];
    assert_eq!(Protocol::decode_body(&bytes).unwrap().image, "hi");
}

#[test]
fn body_without_delimiter_is_rejected() {
    let bytes = vec![b'x', b'y', b'z'];
    assert!(matches!(
        Protocol::decode_body(&bytes),
        Err(DecodeError::MalformedBody { .. })
    ));
}

#[test]
fn body_with_invalid_utf8_payload_is_rejected() {
    let bytes = vec![0xff, 0xfe, 134];
    assert!(matches!(
        Protocol::decode_body(&bytes),
        Err(DecodeError::MalformedBody { .. })
    ));
}

#[test]
fn message_is_header_then_body() {
    let header = Protocol::write_header(Type::Request, Command::Pull, 4);
    let body = vec![9u8, 8, 7, 6];
    let message = Protocol::write_message(header.clone(), body.clone());
    assert_eq!(message.len(), header.len() + body.len());
    assert_eq!(&message[..HEADER_BYTES], header.as_slice());
    assert_eq!(&message[HEADER_BYTES..], body.as_slice());
}

#[test]
fn header_new_keeps_fields() {
    let h = Header::new(Type::Request, Command::Logs, 42);
    assert_eq!(h._type, Type::Request);
    assert_eq!(h.command, Command::Logs);
    assert_eq!(h.length, 42);
}
