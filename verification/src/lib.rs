//! A minimal BGP speaker's verified core: the bit-exact wire codec for the
//! OPEN/KEEPALIVE handshake, the framer that carves a chunked byte stream
//! into length-delimited messages, the FIFO event queue, and the
//! event-driven session state machine. The task that owns the sockets
//! drives a `Peer` from outside: it performs the transport actions
//! `handle_event` returns, feeds received bytes in, and polls for framed
//! messages.

pub mod bgp_type;
pub mod byte_buffer;
pub mod config;
pub mod connection;
pub mod error;
pub mod event;
pub mod event_queue;
pub mod header;
pub mod keepalive;
pub mod message;
pub mod open;
pub mod peer;
pub mod routing;
pub mod state;

pub use bgp_type::AutonomousSystemNumber;
pub use bgp_type::HoldTime;
pub use bgp_type::Ipv4Address;
pub use bgp_type::Version;
pub use config::Config;
pub use config::Mode;
pub use connection::Connection;
pub use error::ConvertBytesToBgpMessageError;
pub use event::Event;
pub use event_queue::EventQueue;
pub use header::Header;
pub use header::MessageType;
pub use keepalive::KeepAliveMessage;
pub use message::Message;
pub use open::OpenMessage;
pub use peer::Action;
pub use peer::Peer;
pub use routing::Ipv4Network;
pub use routing::routes_matching;
pub use state::State;
