use vstd::prelude::*;

use crate::config::Config;
use crate::connection::Connection;
use crate::connection::spec_frame_len;
use crate::connection::spec_has_frame;
use crate::event::Event;
use crate::event_queue::EventQueue;
use crate::keepalive::KeepAliveMessage;
use crate::message::Message;
use crate::open::OpenMessage;
use crate::message::spec_parse_message;
use crate::state::State;

verus! {

/// The transport work a handled event asks of the session's driver, which
/// owns the socket: establish the transport, send an OPEN, send a
/// KEEPALIVE, or nothing.
#[derive(PartialEq, Eq, Structural, Debug, Clone, Copy)]
pub enum Action {
    EstablishTransport,
    SendOpen,
    SendKeepAlive,
    NoAction,
}

/// The transition table: the state a session moves to on handling an event.
/// Every pair the table does not list leaves the state unchanged.
pub open spec fn spec_next_state(s: State, e: Event) -> State {
    match (s, e) {
        (State::Idle, Event::ManualStart) => State::Connect,
        (State::Connect, Event::TcpConnectionConfirmed) => State::OpenSent,
        (State::OpenSent, Event::BgpOpen(_)) => State::OpenConfirm,
        (State::OpenConfirm, Event::KeepAliveMsg(_)) => State::Established,
        _ => s,
    }
}

/// The action column of the transition table: what transport work each
/// handled pair asks for. Every pair the table does not list asks nothing.
pub open spec fn spec_action(s: State, e: Event) -> Action {
    match (s, e) {
        (State::Idle, Event::ManualStart) => Action::EstablishTransport,
        (State::Connect, Event::TcpConnectionConfirmed) => Action::SendOpen,
        (State::OpenSent, Event::BgpOpen(_)) => Action::SendKeepAlive,
        _ => Action::NoAction,
    }
}

/// The event an incoming decoded message is translated to before it is
/// queued.
pub open spec fn spec_event_of_message(m: Message) -> Event {
    match m {
        Message::Open(open) => Event::BgpOpen(open),
        Message::KeepAlive(keepalive) => Event::KeepAliveMsg(keepalive),
    }
}

/// One session's event-driven state machine: its current state, its FIFO
/// event queue, its framer once the transport is up, and its configuration.
/// It is driven from outside, one event per step; the socket itself stays
/// with the driver, which performs the returned actions, feeds received
/// bytes in, and polls for framed messages.
pub struct Peer {
    pub state: State,
    pub event_queue: EventQueue,
    pub tcp_connection: Option<Connection>,
    pub config: Config,
}

impl Peer {
    /// A fresh session: Idle, nothing queued, no transport.
    pub fn new(config: Config) -> (r: Self)
        ensures
            r.state == State::Idle,
            r.event_queue@ == Seq::<Event>::empty(),
            r.tcp_connection is None,
            r.config == config,
    {
        Peer { state: State::Idle, event_queue: EventQueue::new(), tcp_connection: None, config }
    }

    /// Only queues `ManualStart`; no transport work happens here.
    pub fn start(&mut self)
        ensures
            final(self).event_queue@ == old(self).event_queue@.push(Event::ManualStart),
            final(self).state == old(self).state,
            final(self).tcp_connection == old(self).tcp_connection,
            final(self).config == old(self).config,
    {
        self.event_queue.enqueue(Event::ManualStart)
    }

    /// Removes and returns the oldest queued event, if any; nothing else
    /// moves.
    pub fn dequeue_event(&mut self) -> (r: Option<Event>)
        ensures
            old(self).event_queue@.len() == 0 ==> r is None && final(self).event_queue@ == old(self).event_queue@,
            old(self).event_queue@.len() > 0 ==> r == Some(old(self).event_queue@[0]) && final(self).event_queue@ == old(self).event_queue@.drop_first(),
            final(self).state == old(self).state,
            final(self).tcp_connection == old(self).tcp_connection,
            final(self).config == old(self).config,
    {
        self.event_queue.dequeue()
    }

    /// Handles one event against the transition table: the state moves to
    /// `spec_next_state`, and the returned action, `spec_action`, is what
    /// the driver must now perform on the transport. The queue is not
    /// touched; on an unmatched pair the event is discarded.
    pub fn handle_event(&mut self, event: Event) -> (r: Action)
        ensures
            final(self).state == spec_next_state(old(self).state, event),
            r == spec_action(old(self).state, event),
            final(self).event_queue@ == old(self).event_queue@,
            final(self).tcp_connection == old(self).tcp_connection,
            final(self).config == old(self).config,
    {
        match self.state {
            State::Idle => match event {
                Event::ManualStart => {
                    self.state = State::Connect;
                    Action::EstablishTransport
                },
                _ => Action::NoAction,
            },
            State::Connect => match event {
                Event::TcpConnectionConfirmed => {
                    self.state = State::OpenSent;
                    Action::SendOpen
                },
                _ => Action::NoAction,
            },
            State::OpenSent => match event {
                Event::BgpOpen(_) => {
                    self.state = State::OpenConfirm;
                    Action::SendKeepAlive
                },
                _ => Action::NoAction,
            },
            State::OpenConfirm => match event {
                Event::KeepAliveMsg(_) => {
                    self.state = State::Established;
                    Action::NoAction
                },
                _ => Action::NoAction,
            },
            State::Established => Action::NoAction,
        }
    }

    /// The driver reports that the transport came up: the session gains a
    /// framer with an empty buffer and queues `TcpConnectionConfirmed`.
    pub fn transport_established(&mut self)
        ensures
            final(self).tcp_connection matches Some(c) && c.buffered() == Seq::<u8>::empty(),
            final(self).event_queue@ == old(self).event_queue@.push(Event::TcpConnectionConfirmed),
            final(self).state == old(self).state,
            final(self).config == old(self).config,
    {
        self.tcp_connection = Some(Connection::new());
        self.event_queue.enqueue(Event::TcpConnectionConfirmed)
    }

    /// Queues the event an incoming message translates to; it is never
    /// handled in the step that produced it.
    pub fn handle_message(&mut self, message: Message)
        ensures
            final(self).event_queue@ == old(self).event_queue@.push(
                spec_event_of_message(message),
            ),
            final(self).state == old(self).state,
            final(self).tcp_connection == old(self).tcp_connection,
            final(self).config == old(self).config,
    {
        match message {
            Message::Open(open) => self.event_queue.enqueue(Event::BgpOpen(open)),
            Message::KeepAlive(keepalive) => self.event_queue.enqueue(
                Event::KeepAliveMsg(keepalive),
            ),
        }
    }

    /// Appends bytes the driver drained from the socket to the framer's
    /// buffer; without a transport nothing moves.
    pub fn feed_received(&mut self, data: &Vec<u8>)
        ensures
            old(self).tcp_connection is None ==> final(self).tcp_connection is None,
            old(self).tcp_connection matches Some(c) ==> final(self).tcp_connection matches Some(
                c2,
            ) && c2.buffered() == c.buffered() + data@,
            final(self).event_queue@ == old(self).event_queue@,
            final(self).state == old(self).state,
            final(self).config == old(self).config,
    {
        match &mut self.tcp_connection {
            Some(conn) => conn.feed(data),
            None => {},
        }
    }

    /// Polls the framer once: if a complete frame is buffered, it is
    /// removed, and if it decodes, the message's event is queued after
    /// everything already queued — a malformed frame is discarded and
    /// queues nothing. Without a transport or a complete frame nothing
    /// moves. The state never changes here; only a later step handles the
    /// queued event.
    pub fn poll_message(&mut self)
        ensures
            old(self).tcp_connection is None ==> final(self).tcp_connection is None && final(self).event_queue@ == old(self).event_queue@,
            old(self).tcp_connection matches Some(c) ==> final(self).tcp_connection matches Some(
                c2,
            ) && {
                let buf = c.buffered();
                &&& !spec_has_frame(buf) ==> c2.buffered() == buf && final(self).event_queue@
                    == old(self).event_queue@
                &&& spec_has_frame(buf) ==> c2.buffered() == buf.subrange(
                    spec_frame_len(buf),
                    buf.len() as int,
                ) && (match spec_parse_message(buf.subrange(0, spec_frame_len(buf))) {
                    Some(m) => final(self).event_queue@ == old(self).event_queue@.push(
                        spec_event_of_message(m),
                    ),
                    None => final(self).event_queue@ == old(self).event_queue@,
                })
            },
            final(self).state == old(self).state,
            final(self).config == old(self).config,
    {
        let message = match &mut self.tcp_connection {
            Some(conn) => conn.get_message(),
            None => None,
        };
        match message {
            Some(m) => self.handle_message(m),
            None => {},
        }
    }
}

/// The handshake path through the transition table: from Idle, handling
/// ManualStart, TcpConnectionConfirmed, any received OPEN, and any received
/// KEEPALIVE, in that order, drives a session through Connect, OpenSent,
/// and OpenConfirm to Established — and asks the driver for exactly the
/// transport, the OPEN send, and the KEEPALIVE send along the way.
pub proof fn lemma_handshake_progression(open: OpenMessage, keepalive: KeepAliveMessage)
    ensures
        spec_next_state(State::Idle, Event::ManualStart) == State::Connect,
        spec_action(State::Idle, Event::ManualStart) == Action::EstablishTransport,
        spec_next_state(State::Connect, Event::TcpConnectionConfirmed) == State::OpenSent,
        spec_action(State::Connect, Event::TcpConnectionConfirmed) == Action::SendOpen,
        spec_next_state(State::OpenSent, Event::BgpOpen(open)) == State::OpenConfirm,
        spec_action(State::OpenSent, Event::BgpOpen(open)) == Action::SendKeepAlive,
        spec_next_state(State::OpenConfirm, Event::KeepAliveMsg(keepalive)) == State::Established,
        spec_action(State::OpenConfirm, Event::KeepAliveMsg(keepalive)) == Action::NoAction,
{
}

} // verus!
