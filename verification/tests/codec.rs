use mrbgpdv2::AutonomousSystemNumber;
use mrbgpdv2::ConvertBytesToBgpMessageError;
use mrbgpdv2::Header;
use mrbgpdv2::HoldTime;
use mrbgpdv2::Ipv4Address;
use mrbgpdv2::KeepAliveMessage;
use mrbgpdv2::Message;
use mrbgpdv2::MessageType;
use mrbgpdv2::OpenMessage;
use mrbgpdv2::Version;

#[test]
fn convert_bytes_to_header_and_header_to_bytes() {
    let header = Header::new(29, MessageType::Open);
    let header_bytes = header.encode();
    let header2 = Header::decode(&header_bytes).unwrap();

    assert_eq!(header, header2);
}

#[test]
fn header_round_trip_across_lengths_and_types() {
    for length in [0u16, 1, 18, 19, 29, 255, 256, 65535] {
        for type_ in [MessageType::Open, MessageType::KeepAlive] {
            let header = Header::new(length, type_);
            let decoded = Header::decode(&header.encode()).unwrap();
            assert_eq!(header, decoded);
        }
    }
}

#[test]
fn header_encodes_to_expected_bytes() {
    let header = Header::new(19, MessageType::KeepAlive);
    let mut expected = vec![255u8; 16];
    expected.extend_from_slice(&[0, 19, 4]);
    assert_eq!(header.encode(), expected);

    let header = Header::new(29, MessageType::Open);
    let mut expected = vec![255u8; 16];
    expected.extend_from_slice(&[0, 29, 1]);
    assert_eq!(header.encode(), expected);
}

#[test]
fn open_message_encodes_to_expected_bytes() {
    let open = OpenMessage::new(
        AutonomousSystemNumber::from_u16(64512),
        Ipv4Address::new(127, 0, 0, 1),
    );
    let mut expected = vec![255u8; 16];
    expected.extend_from_slice(&[0, 29, 1]);
    expected.extend_from_slice(&[4]);
    expected.extend_from_slice(&[252, 0]);
    expected.extend_from_slice(&[0, 0]);
    expected.extend_from_slice(&[127, 0, 0, 1]);
    expected.extend_from_slice(&[0]);
    assert_eq!(open.encode(), expected);
}

#[test]
fn open_round_trip_across_versions_and_field_ranges() {
    for version in [1u8, 2, 3, 4] {
        for as_number in [0u16, 1, 64512, 64513, 65535] {
            for hold_time in [0u16, 1, 180, 65535] {
                let open = OpenMessage {
                    version: Version::try_from_u8(version).unwrap(),
                    my_as_number: AutonomousSystemNumber::from_u16(as_number),
                    hold_time: HoldTime::from_u16(hold_time),
                    bgp_identifier: Ipv4Address::new(10, 200, 100, 255),
                };
                let decoded = OpenMessage::decode(&open.encode()).unwrap();
                assert_eq!(open, decoded);
            }
        }
    }
}

#[test]
fn keepalive_round_trip() {
    let keepalive = KeepAliveMessage::new();
    let decoded = KeepAliveMessage::decode(&keepalive.encode()).unwrap();
    assert_eq!(keepalive, decoded);
}

#[test]
fn message_round_trip_both_variants() {
    let open = Message::new_open(
        AutonomousSystemNumber::from_u16(64512),
        Ipv4Address::new(127, 0, 0, 1),
    );
    assert_eq!(Message::decode(&open.encode()).unwrap(), open);

    let keepalive = Message::new_keepalive();
    assert_eq!(Message::decode(&keepalive.encode()).unwrap(), keepalive);
}

#[test]
fn version_decode_accepts_up_to_4_and_rejects_above() {
    for v in 0u8..=4 {
        assert_eq!(Version::try_from_u8(v).unwrap().to_u8(), v);
    }
    for v in [5u8, 6, 100, 255] {
        assert_eq!(
            Version::try_from_u8(v).unwrap_err(),
            ConvertBytesToBgpMessageError::BadVersion
        );
    }
}

#[test]
fn header_decode_fails_on_fewer_than_19_bytes() {
    for n in 0..19 {
        let bytes = vec![255u8; n];
        assert_eq!(
            Header::decode(&bytes).unwrap_err(),
            ConvertBytesToBgpMessageError::TooShort
        );
    }
}

#[test]
fn header_decode_fails_on_unrecognized_type_byte() {
    for type_byte in [0u8, 2, 3, 5, 100, 255] {
        let mut bytes = vec![255u8; 16];
        bytes.extend_from_slice(&[0, 19, type_byte]);
        assert_eq!(
            Header::decode(&bytes).unwrap_err(),
            ConvertBytesToBgpMessageError::UnknownMessageType
        );
    }
}

#[test]
fn open_decode_fails_on_keepalive_header() {
    let bytes = KeepAliveMessage::new().encode();
    assert_eq!(
        OpenMessage::decode(&bytes).unwrap_err(),
        ConvertBytesToBgpMessageError::UnexpectedMessageType
    );
}

#[test]
fn open_decode_fails_on_truncated_body() {
    let full = OpenMessage::new(
        AutonomousSystemNumber::from_u16(64512),
        Ipv4Address::new(127, 0, 0, 1),
    )
    .encode();
    for n in 19..29 {
        let bytes = full[..n].to_vec();
        assert_eq!(
            OpenMessage::decode(&bytes).unwrap_err(),
            ConvertBytesToBgpMessageError::TooShort
        );
    }
}

#[test]
fn open_decode_fails_on_version_above_4() {
    let mut bytes = OpenMessage::new(
        AutonomousSystemNumber::from_u16(64512),
        Ipv4Address::new(127, 0, 0, 1),
    )
    .encode();
    bytes[19] = 5;
    assert_eq!(
        OpenMessage::decode(&bytes).unwrap_err(),
        ConvertBytesToBgpMessageError::BadVersion
    );
}

#[test]
fn open_decode_fails_on_nonzero_optional_parameters_length() {
    let mut bytes = OpenMessage::new(
        AutonomousSystemNumber::from_u16(64512),
        Ipv4Address::new(127, 0, 0, 1),
    )
    .encode();
    bytes[28] = 1;
    assert_eq!(
        OpenMessage::decode(&bytes).unwrap_err(),
        ConvertBytesToBgpMessageError::UnsupportedOptionalParameters
    );
}

#[test]
fn keepalive_decode_fails_on_open_header() {
    let bytes = OpenMessage::new(
        AutonomousSystemNumber::from_u16(64512),
        Ipv4Address::new(127, 0, 0, 1),
    )
    .encode();
    assert_eq!(
        KeepAliveMessage::decode(&bytes).unwrap_err(),
        ConvertBytesToBgpMessageError::UnexpectedMessageType
    );
}

#[test]
fn error_messages_name_their_cause() {
    assert!(ConvertBytesToBgpMessageError::TooShort
        .message()
        .contains("short"));
    assert!(ConvertBytesToBgpMessageError::BadVersion
        .message()
        .contains("version"));
}
