use vstd::prelude::*;

use crate::error::ConvertBytesToBgpMessageError;
use crate::header::Header;
use crate::header::MessageType;
use crate::header::spec_encode_header;
use crate::header::spec_parse_header;
use crate::header::spec_type_from_code;

verus! {

/// The bytes of an encoded KEEPALIVE message: its header and nothing more.
pub open spec fn spec_encode_keepalive(m: KeepAliveMessage) -> Seq<u8> {
    spec_encode_header(m.header)
}

/// What KEEPALIVE message a byte buffer holds: `None` unless the buffer
/// begins with a header of type KeepAlive; the decoded message keeps that
/// header, length field included.
pub open spec fn spec_parse_keepalive(s: Seq<u8>) -> Option<KeepAliveMessage> {
    match spec_parse_header(s) {
        None => None,
        Some(h) => if h.type_ == MessageType::KeepAlive {
            Some(KeepAliveMessage { header: h })
        } else {
            None
        },
    }
}

/// The error KEEPALIVE decoding fails with, meaningful on the buffers on
/// which it fails: too few bytes for a header, an unrecognized type byte,
/// or a type other than KeepAlive, checked in that order.
pub open spec fn spec_keepalive_decode_error(s: Seq<u8>) -> ConvertBytesToBgpMessageError {
    if s.len() < 19 {
        ConvertBytesToBgpMessageError::TooShort
    } else if spec_type_from_code(s[18]) is None {
        ConvertBytesToBgpMessageError::UnknownMessageType
    } else {
        ConvertBytesToBgpMessageError::UnexpectedMessageType
    }
}

/// A KEEPALIVE message is its header alone: the body is empty, and the
/// whole message is the minimum legal 19 bytes.
#[derive(PartialEq, Eq, Structural, Debug, Clone, Copy)]
pub struct KeepAliveMessage {
    pub header: Header,
}

impl KeepAliveMessage {
    pub fn new() -> (r: Self)
        ensures
            r == (KeepAliveMessage {
                header: Header { length: 19, type_: MessageType::KeepAlive },
            }),
    {
        let header = Header::new(19, MessageType::KeepAlive);
        KeepAliveMessage { header }
    }

    /// Always emits exactly the 19 header bytes with no body.
    pub fn encode(&self) -> (r: Vec<u8>)
        ensures
            r@ == spec_encode_keepalive(*self),
            r@.len() == 19,
    {
        self.header.encode()
    }

    /// Returns the KEEPALIVE message the buffer holds, or the error
    /// `spec_keepalive_decode_error` names on exactly the buffers on which
    /// `spec_parse_keepalive` is `None`.
    pub fn decode(bytes: &Vec<u8>) -> (r: Result<Self, ConvertBytesToBgpMessageError>)
        ensures
            r is Ok <==> spec_parse_keepalive(bytes@) is Some,
            r matches Ok(m) ==> spec_parse_keepalive(bytes@) == Some(m),
            r is Err ==> r == Err::<KeepAliveMessage, ConvertBytesToBgpMessageError>(
                spec_keepalive_decode_error(bytes@),
            ),
    {
        let header = match Header::decode(bytes) {
            Ok(h) => h,
            Err(e) => {
                return Err(e);
            },
        };
        match header.type_ {
            MessageType::KeepAlive => Ok(KeepAliveMessage { header }),
            _ => Err(ConvertBytesToBgpMessageError::UnexpectedMessageType),
        }
    }
}

impl Default for KeepAliveMessage {
    fn default() -> (r: Self)
        ensures
            r == (KeepAliveMessage {
                header: Header { length: 19, type_: MessageType::KeepAlive },
            }),
    {
        KeepAliveMessage::new()
    }
}

/// Decoding an encoded KEEPALIVE message gives the message back: the round
/// trip is the identity on every message whose header has type KeepAlive,
/// whatever its length field holds.
pub proof fn lemma_keepalive_round_trip(m: KeepAliveMessage)
    requires
        m.header.type_ == MessageType::KeepAlive,
    ensures
        spec_parse_keepalive(spec_encode_keepalive(m)) == Some(m),
{
    crate::header::lemma_header_round_trip(m.header);
}

/// The other direction of the round trip: a valid encoded KEEPALIVE —
/// exactly the 19 header bytes beginning with the all-ones marker, from
/// which a KEEPALIVE parses — encodes back to the very same bytes.
pub proof fn lemma_keepalive_parse_then_encode(s: Seq<u8>, m: KeepAliveMessage)
    requires
        s.len() == 19,
        forall|i: int| 0 <= i < 16 ==> s[i] == 255u8,
        spec_parse_keepalive(s) == Some(m),
    ensures
        spec_encode_keepalive(m) == s,
{
    crate::header::lemma_header_parse_then_encode(s, m.header);
}

} // verus!
