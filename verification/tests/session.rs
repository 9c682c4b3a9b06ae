use mrbgpdv2::Action;
use mrbgpdv2::AutonomousSystemNumber;
use mrbgpdv2::Config;
use mrbgpdv2::Event;
use mrbgpdv2::EventQueue;
use mrbgpdv2::Ipv4Address;
use mrbgpdv2::Message;
use mrbgpdv2::Mode;
use mrbgpdv2::Peer;
use mrbgpdv2::State;

fn local_config() -> Config {
    Config::new(
        AutonomousSystemNumber::from_u16(64512),
        Ipv4Address::new(127, 0, 0, 1),
        AutonomousSystemNumber::from_u16(64513),
        Ipv4Address::new(127, 0, 0, 2),
        Mode::Active,
    )
}

fn remote_config() -> Config {
    Config::new(
        AutonomousSystemNumber::from_u16(64513),
        Ipv4Address::new(127, 0, 0, 2),
        AutonomousSystemNumber::from_u16(64512),
        Ipv4Address::new(127, 0, 0, 1),
        Mode::Passive,
    )
}

/// Drives one peer one step, standing in for the task that owns the socket:
/// it handles at most one queued event, performs the returned transport
/// action on the in-memory byte pipes, then feeds received bytes in and
/// polls the framer once.
fn step(peer: &mut Peer, inbox: &mut Vec<u8>, outbox: &mut Vec<u8>) {
    if let Some(event) = peer.dequeue_event() {
        match peer.handle_event(event) {
            Action::EstablishTransport => peer.transport_established(),
            Action::SendOpen => {
                let message = Message::new_open(peer.config.local_as, peer.config.local_ip);
                outbox.extend_from_slice(&message.encode());
            }
            Action::SendKeepAlive => {
                outbox.extend_from_slice(&Message::new_keepalive().encode());
            }
            Action::NoAction => {}
        }
    }
    if !inbox.is_empty() {
        let data = std::mem::take(inbox);
        peer.feed_received(&data);
    }
    peer.poll_message();
}

#[test]
fn event_queue_preserves_fifo_order() {
    let mut queue = EventQueue::new();
    assert_eq!(queue.len(), 0);
    queue.enqueue(Event::ManualStart);
    queue.enqueue(Event::TcpConnectionConfirmed);
    assert_eq!(queue.len(), 2);
    assert_eq!(queue.dequeue(), Some(Event::ManualStart));
    assert_eq!(queue.dequeue(), Some(Event::TcpConnectionConfirmed));
    assert_eq!(queue.dequeue(), None);
}

#[test]
fn peer_starts_idle_and_discards_unmatched_events() {
    let mut peer = Peer::new(local_config());
    assert_eq!(peer.state, State::Idle);

    // An event no Idle row of the table matches is discarded without
    // moving the state or asking any transport work.
    let action = peer.handle_event(Event::Established);
    assert_eq!(action, Action::NoAction);
    assert_eq!(peer.state, State::Idle);
}

#[test]
fn peer_can_transition_to_connect_state() {
    let mut peer = Peer::new(local_config());
    peer.start();

    let mut remote_peer = Peer::new(remote_config());
    remote_peer.start();

    let mut to_local: Vec<u8> = vec![];
    let mut to_remote: Vec<u8> = vec![];
    step(&mut remote_peer, &mut to_remote, &mut to_local);
    step(&mut peer, &mut to_local, &mut to_remote);
    assert_eq!(peer.state, State::Connect);
}

#[test]
fn peer_can_transition_to_opensent_state() {
    let mut peer = Peer::new(local_config());
    peer.start();

    let mut remote_peer = Peer::new(remote_config());
    remote_peer.start();

    let mut to_local: Vec<u8> = vec![];
    let mut to_remote: Vec<u8> = vec![];
    for _ in 0..2 {
        step(&mut remote_peer, &mut to_remote, &mut to_local);
        step(&mut peer, &mut to_local, &mut to_remote);
    }
    assert_eq!(peer.state, State::OpenSent);
}

#[test]
fn peer_can_transition_to_open_confirm_state() {
    let mut peer = Peer::new(local_config());
    peer.start();

    let mut remote_peer = Peer::new(remote_config());
    remote_peer.start();

    let mut to_local: Vec<u8> = vec![];
    let mut to_remote: Vec<u8> = vec![];
    let max_step = 50;
    for _ in 0..max_step {
        step(&mut remote_peer, &mut to_remote, &mut to_local);
        step(&mut peer, &mut to_local, &mut to_remote);
        if peer.state == State::OpenConfirm {
            break;
        }
    }
    assert_eq!(peer.state, State::OpenConfirm);
}

#[test]
fn both_peers_reach_established_through_each_state() {
    let mut peer_a = Peer::new(local_config());
    let mut peer_b = Peer::new(remote_config());
    peer_a.start();
    peer_b.start();

    let mut to_a: Vec<u8> = vec![];
    let mut to_b: Vec<u8> = vec![];

    step(&mut peer_b, &mut to_b, &mut to_a);
    step(&mut peer_a, &mut to_a, &mut to_b);
    assert_eq!(peer_b.state, State::Connect);
    assert_eq!(peer_a.state, State::Connect);

    step(&mut peer_b, &mut to_b, &mut to_a);
    step(&mut peer_a, &mut to_a, &mut to_b);
    assert_eq!(peer_b.state, State::OpenSent);
    assert_eq!(peer_a.state, State::OpenSent);

    let mut a_seen_open_confirm = false;
    let mut b_seen_open_confirm = false;
    let max_step = 50;
    for _ in 0..max_step {
        step(&mut peer_b, &mut to_b, &mut to_a);
        step(&mut peer_a, &mut to_a, &mut to_b);
        a_seen_open_confirm |= peer_a.state == State::OpenConfirm;
        b_seen_open_confirm |= peer_b.state == State::OpenConfirm;
        if peer_a.state == State::Established && peer_b.state == State::Established {
            break;
        }
    }
    assert!(a_seen_open_confirm);
    assert!(b_seen_open_confirm);
    assert_eq!(peer_a.state, State::Established);
    assert_eq!(peer_b.state, State::Established);
}

#[test]
fn incoming_messages_become_queued_events_in_arrival_order() {
    let mut peer = Peer::new(local_config());
    peer.transport_established();
    assert_eq!(peer.dequeue_event(), Some(Event::TcpConnectionConfirmed));

    let open = Message::new_open(
        AutonomousSystemNumber::from_u16(64513),
        Ipv4Address::new(127, 0, 0, 2),
    );
    let mut data = open.encode();
    data.extend_from_slice(&Message::new_keepalive().encode());
    peer.feed_received(&data);

    peer.poll_message();
    peer.poll_message();
    let first = peer.dequeue_event();
    let second = peer.dequeue_event();
    match (first, second) {
        (Some(Event::BgpOpen(o)), Some(Event::KeepAliveMsg(_))) => {
            assert_eq!(o.my_as_number, AutonomousSystemNumber::from_u16(64513));
        }
        other => panic!("events arrived out of order: {:?}", other),
    }
    assert_eq!(peer.dequeue_event(), None);
}
