use vstd::prelude::*;

use crate::error::ConvertBytesToBgpMessageError;

verus! {

/// The code a message type carries in the type byte of the header.
pub open spec fn spec_type_code(t: MessageType) -> u8 {
    match t {
        MessageType::Open => 1,
        MessageType::KeepAlive => 4,
    }
}

/// The message type a type byte stands for, if it is a recognized code.
pub open spec fn spec_type_from_code(code: u8) -> Option<MessageType> {
    if code == 1 {
        Some(MessageType::Open)
    } else if code == 4 {
        Some(MessageType::KeepAlive)
    } else {
        None
    }
}

/// The value of a 16-bit big-endian field given its two bytes.
pub open spec fn spec_u16_from_be(hi: u8, lo: u8) -> u16 {
    (hi * 256 + lo) as u16
}

/// The two bytes of a 16-bit field in big-endian order.
pub open spec fn spec_u16_to_be(v: u16) -> Seq<u8> {
    seq![(v / 256) as u8, (v % 256) as u8]
}

/// The fixed all-ones 16-byte marker every encoded header begins with.
pub open spec fn spec_marker() -> Seq<u8> {
    Seq::new(16, |i: int| 255u8)
}

/// The 19 bytes of an encoded header: marker, big-endian length, type byte.
pub open spec fn spec_encode_header(h: Header) -> Seq<u8> {
    spec_marker() + spec_u16_to_be(h.length) + seq![spec_type_code(h.type_)]
}

/// What header a byte buffer begins with: `None` if fewer than 19 bytes are
/// supplied or the type byte is unrecognized; otherwise the header whose
/// length is the big-endian field at offsets 16 and 17 and whose type the
/// byte at offset 18 stands for. The marker bytes are not inspected.
pub open spec fn spec_parse_header(s: Seq<u8>) -> Option<Header> {
    if s.len() < 19 {
        None
    } else {
        match spec_type_from_code(s[18]) {
            Some(t) => Some(Header { length: spec_u16_from_be(s[16], s[17]), type_: t }),
            None => None,
        }
    }
}

/// The two message types this subset speaks; every other type byte is
/// rejected when decoding.
#[derive(PartialEq, Eq, Structural, Debug, Clone, Copy)]
pub enum MessageType {
    Open,
    KeepAlive,
}

impl MessageType {
    /// Accepts exactly the two recognized type codes, 1 and 4.
    pub fn try_from_u8(code: u8) -> (r: Result<Self, ConvertBytesToBgpMessageError>)
        ensures
            r matches Ok(t) ==> spec_type_from_code(code) == Some(t),
            r is Err <==> spec_type_from_code(code) is None,
            r is Err ==> r == Err::<MessageType, ConvertBytesToBgpMessageError>(
                ConvertBytesToBgpMessageError::UnknownMessageType,
            ),
    {
        if code == 1 {
            Ok(MessageType::Open)
        } else if code == 4 {
            Ok(MessageType::KeepAlive)
        } else {
            Err(ConvertBytesToBgpMessageError::UnknownMessageType)
        }
    }

    pub fn to_u8(self) -> (r: u8)
        ensures
            r == spec_type_code(self),
    {
        match self {
            MessageType::Open => 1,
            MessageType::KeepAlive => 4,
        }
    }
}

/// The fixed 19-byte prefix of every message: a 16-byte marker, the total
/// message length (header and body) as a big-endian 16-bit field, and a
/// type byte.
#[derive(PartialEq, Eq, Structural, Debug, Clone, Copy)]
pub struct Header {
    pub length: u16,
    pub type_: MessageType,
}

impl Header {
    pub fn new(length: u16, type_: MessageType) -> (r: Self)
        ensures
            r == (Header { length, type_ }),
    {
        Header { length, type_ }
    }

    /// Writes the all-ones marker, the length in big-endian order, and the
    /// type code: always exactly 19 bytes.
    pub fn encode(&self) -> (r: Vec<u8>)
        ensures
            r@ == spec_encode_header(*self),
            r@.len() == 19,
    {
        let mut buf: Vec<u8> = Vec::new();
        let mut i: usize = 0;
        while i < 16
            invariant
                i <= 16,
                buf@.len() == i,
                forall|j: int| 0 <= j < i ==> buf@[j] == 255u8,
            decreases 16 - i,
        {
            buf.push(255);
            i = i + 1;
        }
        buf.push((self.length / 256) as u8);
        buf.push((self.length % 256) as u8);
        buf.push(self.type_.to_u8());
        proof {
            assert(buf@ =~= spec_encode_header(*self));
        }
        buf
    }

    /// Fails with `TooShort` on fewer than 19 bytes and with
    /// `UnknownMessageType` on an unrecognized type byte; otherwise returns
    /// the header the buffer begins with.
    pub fn decode(bytes: &Vec<u8>) -> (r: Result<Self, ConvertBytesToBgpMessageError>)
        ensures
            r matches Ok(h) ==> spec_parse_header(bytes@) == Some(h),
            r is Ok <==> spec_parse_header(bytes@) is Some,
            bytes@.len() < 19 ==> r == Err::<Header, ConvertBytesToBgpMessageError>(
                ConvertBytesToBgpMessageError::TooShort,
            ),
            bytes@.len() >= 19 && spec_type_from_code(bytes@[18]) is None ==> r
                == Err::<Header, ConvertBytesToBgpMessageError>(
                ConvertBytesToBgpMessageError::UnknownMessageType,
            ),
    {
        if bytes.len() < 19 {
            return Err(ConvertBytesToBgpMessageError::TooShort);
        }
        let hi = bytes[16];
        let lo = bytes[17];
        let length: u16 = (hi as u16) * 256 + (lo as u16);
        let type_ = match MessageType::try_from_u8(bytes[18]) {
            Ok(t) => t,
            Err(e) => {
                return Err(e);
            },
        };
        Ok(Header { length, type_ })
    }
}

/// Decoding an encoded header gives the header back, whatever its length
/// field holds: the round trip is the identity on headers.
pub proof fn lemma_header_round_trip(h: Header)
    ensures
        spec_parse_header(spec_encode_header(h)) == Some(h),
{
    let s = spec_encode_header(h);
    assert(s.len() == 19);
    assert(s[16] == (h.length / 256) as u8);
    assert(s[17] == (h.length % 256) as u8);
    assert(s[18] == spec_type_code(h.type_));
    assert(spec_u16_from_be(s[16], s[17]) == h.length);
}

/// The other direction of the round trip: a valid encoded header — exactly
/// 19 bytes beginning with the all-ones marker, from which a header parses
/// — encodes back to the very same bytes.
pub proof fn lemma_header_parse_then_encode(s: Seq<u8>, h: Header)
    requires
        s.len() == 19,
        forall|i: int| 0 <= i < 16 ==> s[i] == 255u8,
        spec_parse_header(s) == Some(h),
    ensures
        spec_encode_header(h) == s,
{
    let e = spec_encode_header(h);
    assert(h.length == spec_u16_from_be(s[16], s[17]));
    assert(h.length == s[16] * 256 + s[17]);
    assert(e[16] == (h.length / 256) as u8);
    assert(e[17] == (h.length % 256) as u8);
    assert(h.length / 256 == s[16] as int && h.length % 256 == s[17] as int) by {
        assert(s[16] * 256 + s[17] < 65536);
    }
    assert(spec_type_from_code(s[18]) == Some(h.type_));
    assert(e[18] == spec_type_code(h.type_));
    assert(e[18] == s[18]);
    assert(e =~= s);
}

} // verus!
