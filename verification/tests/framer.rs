use mrbgpdv2::AutonomousSystemNumber;
use mrbgpdv2::Connection;
use mrbgpdv2::Ipv4Address;
use mrbgpdv2::Message;
use mrbgpdv2::OpenMessage;

fn keepalive_bytes() -> Vec<u8> {
    Message::new_keepalive().encode()
}

fn open_bytes() -> Vec<u8> {
    OpenMessage::new(
        AutonomousSystemNumber::from_u16(64512),
        Ipv4Address::new(127, 0, 0, 1),
    )
    .encode()
}

#[test]
fn two_keepalives_in_one_read_yield_two_messages() {
    let mut conn = Connection::new();
    let mut data = keepalive_bytes();
    data.extend_from_slice(&keepalive_bytes());
    assert_eq!(data.len(), 38);

    conn.feed(&data);
    assert_eq!(conn.get_message(), Some(Message::new_keepalive()));
    assert_eq!(conn.get_message(), Some(Message::new_keepalive()));
    assert_eq!(conn.get_message(), None);
}

#[test]
fn fewer_than_19_bytes_never_yield_a_message() {
    let keepalive = keepalive_bytes();
    for n in 1..19 {
        let mut conn = Connection::new();
        conn.feed(&keepalive[..n].to_vec());
        for _ in 0..5 {
            assert_eq!(conn.get_message(), None);
        }
    }
}

#[test]
fn partial_message_never_yields_until_complete() {
    let open = open_bytes();
    for n in 19..29 {
        let mut conn = Connection::new();
        conn.feed(&open[..n].to_vec());
        for _ in 0..5 {
            assert_eq!(conn.get_message(), None);
        }
        conn.feed(&open[n..].to_vec());
        assert_eq!(
            conn.get_message(),
            Some(Message::decode(&open).unwrap())
        );
        assert_eq!(conn.get_message(), None);
    }
}

#[test]
fn byte_at_a_time_delivery_yields_one_message_at_the_end() {
    let open = open_bytes();
    let mut conn = Connection::new();
    for (i, byte) in open.iter().enumerate() {
        conn.feed(&vec![*byte]);
        if i + 1 < open.len() {
            assert_eq!(conn.get_message(), None);
        }
    }
    assert_eq!(
        conn.get_message(),
        Some(Message::decode(&open).unwrap())
    );
}

#[test]
fn malformed_frame_is_discarded_and_later_bytes_still_frame() {
    // A 19-byte frame whose type byte is not a recognized code: carved off
    // and dropped silently, losing nothing that follows it.
    let mut bad = vec![255u8; 16];
    bad.extend_from_slice(&[0, 19, 2]);
    let mut data = bad;
    data.extend_from_slice(&keepalive_bytes());

    let mut conn = Connection::new();
    conn.feed(&data);
    assert_eq!(conn.get_message(), None);
    assert_eq!(conn.get_message(), Some(Message::new_keepalive()));
    assert_eq!(conn.get_message(), None);
}

#[test]
fn back_to_back_open_and_keepalive_in_one_read() {
    let mut data = open_bytes();
    data.extend_from_slice(&keepalive_bytes());

    let mut conn = Connection::new();
    conn.feed(&data);
    assert_eq!(
        conn.get_message(),
        Some(Message::decode(&open_bytes()).unwrap())
    );
    assert_eq!(conn.get_message(), Some(Message::new_keepalive()));
    assert_eq!(conn.get_message(), None);
}
