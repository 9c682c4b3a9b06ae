use vstd::prelude::*;

use crate::bgp_type::AutonomousSystemNumber;
use crate::bgp_type::HoldTime;
use crate::bgp_type::Ipv4Address;
use crate::bgp_type::Version;
use crate::error::ConvertBytesToBgpMessageError;
use crate::header::MessageType;
use crate::header::spec_parse_header;
use crate::header::spec_type_from_code;
use crate::keepalive::KeepAliveMessage;
use crate::keepalive::spec_encode_keepalive;
use crate::keepalive::spec_keepalive_decode_error;
use crate::keepalive::spec_parse_keepalive;
use crate::open::OpenMessage;
use crate::open::spec_encode_open;
use crate::open::spec_open_decode_error;
use crate::open::spec_parse_open;

verus! {

/// The bytes of an encoded message, by its variant's own encoder.
pub open spec fn spec_encode_message(m: Message) -> Seq<u8> {
    match m {
        Message::Open(open) => spec_encode_open(open),
        Message::KeepAlive(keepalive) => spec_encode_keepalive(keepalive),
    }
}

/// What message a byte buffer holds: the header the buffer begins with
/// picks the variant, and the matching parser reads the whole buffer.
pub open spec fn spec_parse_message(s: Seq<u8>) -> Option<Message> {
    match spec_parse_header(s) {
        None => None,
        Some(h) => match h.type_ {
            MessageType::Open => match spec_parse_open(s) {
                Some(open) => Some(Message::Open(open)),
                None => None,
            },
            MessageType::KeepAlive => match spec_parse_keepalive(s) {
                Some(keepalive) => Some(Message::KeepAlive(keepalive)),
                None => None,
            },
        },
    }
}

/// The error message decoding fails with, meaningful on the buffers on
/// which it fails: too few bytes for a header, an unrecognized type byte,
/// or whatever the dispatched variant's decoder fails with.
pub open spec fn spec_message_decode_error(s: Seq<u8>) -> ConvertBytesToBgpMessageError {
    if s.len() < 19 {
        ConvertBytesToBgpMessageError::TooShort
    } else {
        match spec_type_from_code(s[18]) {
            None => ConvertBytesToBgpMessageError::UnknownMessageType,
            Some(MessageType::Open) => spec_open_decode_error(s),
            Some(MessageType::KeepAlive) => spec_keepalive_decode_error(s),
        }
    }
}

/// A message this subset exchanges: OPEN or KEEPALIVE. This is the
/// in-memory value passed between the codec, the framer, and the state
/// machine.
#[derive(PartialEq, Eq, Structural, Debug, Clone, Copy)]
pub enum Message {
    Open(OpenMessage),
    KeepAlive(KeepAliveMessage),
}

impl Message {
    /// A well-formed message decodes back from its encoding: an OPEN must
    /// be well-formed itself, a KEEPALIVE must carry a KeepAlive header.
    pub open spec fn wf(self) -> bool {
        match self {
            Message::Open(open) => open.wf(),
            Message::KeepAlive(keepalive) => keepalive.header.type_ == MessageType::KeepAlive,
        }
    }

    pub fn new_open(my_as_number: AutonomousSystemNumber, my_ip_addr: Ipv4Address) -> (r: Self)
        ensures
            r matches Message::Open(open) && open == (OpenMessage {
                version: Version(4),
                my_as_number,
                hold_time: HoldTime(0),
                bgp_identifier: my_ip_addr,
            }),
            r.wf(),
    {
        Message::Open(OpenMessage::new(my_as_number, my_ip_addr))
    }

    pub fn new_keepalive() -> (r: Self)
        ensures
            r matches Message::KeepAlive(keepalive) && keepalive.header.length == 19
                && keepalive.header.type_ == MessageType::KeepAlive,
            r.wf(),
    {
        Message::KeepAlive(KeepAliveMessage::new())
    }

    /// Emits the bytes of the variant's own encoder: 29 bytes for an OPEN,
    /// 19 for a KEEPALIVE.
    pub fn encode(&self) -> (r: Vec<u8>)
        ensures
            r@ == spec_encode_message(*self),
    {
        match self {
            Message::Open(open) => open.encode(),
            Message::KeepAlive(keepalive) => keepalive.encode(),
        }
    }

    /// Returns the message the buffer holds, or the error
    /// `spec_message_decode_error` names on exactly the buffers on which
    /// `spec_parse_message` is `None`.
    pub fn decode(bytes: &Vec<u8>) -> (r: Result<Self, ConvertBytesToBgpMessageError>)
        ensures
            r is Ok <==> spec_parse_message(bytes@) is Some,
            r matches Ok(m) ==> spec_parse_message(bytes@) == Some(m),
            r is Err ==> r == Err::<Message, ConvertBytesToBgpMessageError>(
                spec_message_decode_error(bytes@),
            ),
    {
        if bytes.len() < 19 {
            return Err(ConvertBytesToBgpMessageError::TooShort);
        }
        let header = match crate::header::Header::decode(bytes) {
            Ok(h) => h,
            Err(e) => {
                return Err(e);
            },
        };
        match header.type_ {
            MessageType::Open => match OpenMessage::decode(bytes) {
                Ok(open) => Ok(Message::Open(open)),
                Err(e) => Err(e),
            },
            MessageType::KeepAlive => match KeepAliveMessage::decode(bytes) {
                Ok(keepalive) => Ok(Message::KeepAlive(keepalive)),
                Err(e) => Err(e),
            },
        }
    }
}

/// Decoding an encoded message gives the message back: the round trip is
/// the identity on well-formed messages of either variant.
pub proof fn lemma_message_round_trip(m: Message)
    requires
        m.wf(),
    ensures
        spec_parse_message(spec_encode_message(m)) == Some(m),
{
    match m {
        Message::Open(open) => {
            crate::open::lemma_open_round_trip(open);
            assert(spec_parse_header(spec_encode_open(open)) matches Some(h) && h.type_
                == MessageType::Open);
        },
        Message::KeepAlive(keepalive) => {
            crate::keepalive::lemma_keepalive_round_trip(keepalive);
            assert(spec_parse_header(spec_encode_keepalive(keepalive)) matches Some(h) && h.type_
                == MessageType::KeepAlive);
        },
    }
}

} // verus!
