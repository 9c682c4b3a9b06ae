use vstd::prelude::*;

use crate::bgp_type::AutonomousSystemNumber;
use crate::bgp_type::HoldTime;
use crate::bgp_type::Ipv4Address;
use crate::bgp_type::Version;
use crate::error::ConvertBytesToBgpMessageError;
use crate::header::Header;
use crate::header::MessageType;
use crate::header::spec_encode_header;
use crate::header::spec_parse_header;
use crate::header::spec_type_from_code;
use crate::header::spec_u16_from_be;
use crate::header::spec_u16_to_be;

verus! {

/// The 29 bytes of an encoded OPEN message: a header carrying length 29 and
/// type Open, then the version byte, the big-endian sender AS number, the
/// big-endian hold time, the four BGP-identifier octets, and a zero
/// optional-parameters length.
pub open spec fn spec_encode_open(m: OpenMessage) -> Seq<u8> {
    spec_encode_header(Header { length: 29, type_: MessageType::Open }) + seq![m.version.0]
        + spec_u16_to_be(m.my_as_number.0) + spec_u16_to_be(m.hold_time.0) + seq![
        m.bgp_identifier.o0,
        m.bgp_identifier.o1,
        m.bgp_identifier.o2,
        m.bgp_identifier.o3,
    ] + seq![0u8]
}

/// What OPEN message a byte buffer holds: `None` unless the buffer begins
/// with a header of type Open, holds at least the 29 bytes of a full OPEN
/// message, carries a version byte of at most 4, and carries a zero
/// optional-parameters length. The header's length field is not checked
/// against the buffer, and bytes past the 29th are ignored.
pub open spec fn spec_parse_open(s: Seq<u8>) -> Option<OpenMessage> {
    match spec_parse_header(s) {
        None => None,
        Some(h) => if h.type_ != MessageType::Open {
            None
        } else if s.len() < 29 {
            None
        } else if s[19] > 4 {
            None
        } else if s[28] != 0 {
            None
        } else {
            Some(
                OpenMessage {
                    version: Version(s[19]),
                    my_as_number: AutonomousSystemNumber(spec_u16_from_be(s[20], s[21])),
                    hold_time: HoldTime(spec_u16_from_be(s[22], s[23])),
                    bgp_identifier: Ipv4Address { o0: s[24], o1: s[25], o2: s[26], o3: s[27] },
                },
            )
        },
    }
}

/// The error OPEN decoding fails with, meaningful on the buffers on which it
/// fails: too few bytes for a header, an unrecognized type byte, a type
/// other than Open, too few bytes for the body, a version above 4, or a
/// non-zero optional-parameters length, checked in that order.
pub open spec fn spec_open_decode_error(s: Seq<u8>) -> ConvertBytesToBgpMessageError {
    if s.len() < 19 {
        ConvertBytesToBgpMessageError::TooShort
    } else if spec_type_from_code(s[18]) is None {
        ConvertBytesToBgpMessageError::UnknownMessageType
    } else if spec_type_from_code(s[18]) != Some(MessageType::Open) {
        ConvertBytesToBgpMessageError::UnexpectedMessageType
    } else if s.len() < 29 {
        ConvertBytesToBgpMessageError::TooShort
    } else if s[19] > 4 {
        ConvertBytesToBgpMessageError::BadVersion
    } else {
        ConvertBytesToBgpMessageError::UnsupportedOptionalParameters
    }
}

/// The body of an OPEN message: protocol version, sender AS number,
/// proposed hold time, and the sender's BGP identifier (its IPv4 address).
/// The optional-parameters field is always empty in this subset, so it has
/// no representation here.
#[derive(PartialEq, Eq, Structural, Debug, Clone, Copy)]
pub struct OpenMessage {
    pub version: Version,
    pub my_as_number: AutonomousSystemNumber,
    pub hold_time: HoldTime,
    pub bgp_identifier: Ipv4Address,
}

impl OpenMessage {
    /// A well-formed OPEN message carries a version of at most 4, the only
    /// versions its encoding decodes back to.
    pub open spec fn wf(self) -> bool {
        self.version.wf()
    }

    /// An OPEN message proposing the default version and hold time, sent
    /// from the given AS with the given address as BGP identifier.
    pub fn new(my_as_number: AutonomousSystemNumber, my_ip_addr: Ipv4Address) -> (r: Self)
        ensures
            r == (OpenMessage {
                version: Version(4),
                my_as_number,
                hold_time: HoldTime(0),
                bgp_identifier: my_ip_addr,
            }),
            r.wf(),
    {
        OpenMessage {
            version: Version::new(),
            my_as_number,
            hold_time: HoldTime::new(),
            bgp_identifier: my_ip_addr,
        }
    }

    /// Always emits exactly the 29 bytes of the message with an empty
    /// optional-parameters section.
    pub fn encode(&self) -> (r: Vec<u8>)
        ensures
            r@ == spec_encode_open(*self),
            r@.len() == 29,
    {
        let header = Header::new(29, MessageType::Open);
        let mut buf = header.encode();
        buf.push(self.version.0);
        buf.push((self.my_as_number.0 / 256) as u8);
        buf.push((self.my_as_number.0 % 256) as u8);
        buf.push((self.hold_time.0 / 256) as u8);
        buf.push((self.hold_time.0 % 256) as u8);
        buf.push(self.bgp_identifier.o0);
        buf.push(self.bgp_identifier.o1);
        buf.push(self.bgp_identifier.o2);
        buf.push(self.bgp_identifier.o3);
        buf.push(0);
        proof {
            assert(buf@ =~= spec_encode_open(*self));
        }
        buf
    }

    /// Returns the OPEN message the buffer holds, or the error
    /// `spec_open_decode_error` names on exactly the buffers on which
    /// `spec_parse_open` is `None`.
    pub fn decode(bytes: &Vec<u8>) -> (r: Result<Self, ConvertBytesToBgpMessageError>)
        ensures
            r is Ok <==> spec_parse_open(bytes@) is Some,
            r matches Ok(m) ==> spec_parse_open(bytes@) == Some(m),
            r is Err ==> r == Err::<OpenMessage, ConvertBytesToBgpMessageError>(
                spec_open_decode_error(bytes@),
            ),
    {
        let header = match Header::decode(bytes) {
            Ok(h) => h,
            Err(e) => {
                return Err(e);
            },
        };
        match header.type_ {
            MessageType::Open => {},
            _ => {
                return Err(ConvertBytesToBgpMessageError::UnexpectedMessageType);
            },
        }
        if bytes.len() < 29 {
            return Err(ConvertBytesToBgpMessageError::TooShort);
        }
        let version = match Version::try_from_u8(bytes[19]) {
            Ok(v) => v,
            Err(e) => {
                return Err(e);
            },
        };
        let my_as_number = AutonomousSystemNumber((bytes[20] as u16) * 256 + (bytes[21] as u16));
        let hold_time = HoldTime((bytes[22] as u16) * 256 + (bytes[23] as u16));
        let bgp_identifier = Ipv4Address {
            o0: bytes[24],
            o1: bytes[25],
            o2: bytes[26],
            o3: bytes[27],
        };
        if bytes[28] != 0 {
            return Err(ConvertBytesToBgpMessageError::UnsupportedOptionalParameters);
        }
        Ok(OpenMessage { version, my_as_number, hold_time, bgp_identifier })
    }
}

/// Decoding an encoded OPEN message gives the message back: the round trip
/// is the identity on well-formed OPEN messages, whatever AS number, hold
/// time, and BGP identifier they carry.
pub proof fn lemma_open_round_trip(m: OpenMessage)
    requires
        m.wf(),
    ensures
        spec_parse_open(spec_encode_open(m)) == Some(m),
{
    let s = spec_encode_open(m);
    assert(s.len() == 29);
    assert(s[16] == (29u16 / 256) as u8);
    assert(s[17] == (29u16 % 256) as u8);
    assert(s[18] == 1u8);
    assert(spec_parse_header(s) == Some(Header { length: 29, type_: MessageType::Open }));
    assert(s[19] == m.version.0);
    assert(s[20] == (m.my_as_number.0 / 256) as u8);
    assert(s[21] == (m.my_as_number.0 % 256) as u8);
    assert(spec_u16_from_be(s[20], s[21]) == m.my_as_number.0);
    assert(s[22] == (m.hold_time.0 / 256) as u8);
    assert(s[23] == (m.hold_time.0 % 256) as u8);
    assert(spec_u16_from_be(s[22], s[23]) == m.hold_time.0);
    assert(s[24] == m.bgp_identifier.o0);
    assert(s[25] == m.bgp_identifier.o1);
    assert(s[26] == m.bgp_identifier.o2);
    assert(s[27] == m.bgp_identifier.o3);
    assert(s[28] == 0u8);
}

/// The other direction of the round trip: a valid encoded OPEN — exactly
/// 29 bytes beginning with the all-ones marker, carrying 29 in the length
/// field, from which an OPEN parses — encodes back to the very same bytes.
pub proof fn lemma_open_parse_then_encode(s: Seq<u8>, m: OpenMessage)
    requires
        s.len() == 29,
        forall|i: int| 0 <= i < 16 ==> s[i] == 255u8,
        s[16] == 0u8,
        s[17] == 29u8,
        spec_parse_open(s) == Some(m),
    ensures
        spec_encode_open(m) == s,
{
    let e = spec_encode_open(m);
    assert(spec_type_from_code(s[18]) == Some(MessageType::Open));
    assert(e[16] == (29u16 / 256) as u8 && e[17] == (29u16 % 256) as u8);
    assert(e[18] == 1u8 && s[18] == 1u8);
    assert(e[19] == m.version.0 && m.version.0 == s[19]);
    assert(m.my_as_number.0 == s[20] * 256 + s[21]);
    assert(e[20] == (m.my_as_number.0 / 256) as u8 && e[21] == (m.my_as_number.0 % 256) as u8);
    assert(m.my_as_number.0 / 256 == s[20] as int && m.my_as_number.0 % 256 == s[21] as int) by {
        assert(s[20] * 256 + s[21] < 65536);
    }
    assert(m.hold_time.0 == s[22] * 256 + s[23]);
    assert(e[22] == (m.hold_time.0 / 256) as u8 && e[23] == (m.hold_time.0 % 256) as u8);
    assert(m.hold_time.0 / 256 == s[22] as int && m.hold_time.0 % 256 == s[23] as int) by {
        assert(s[22] * 256 + s[23] < 65536);
    }
    assert(e[24] == s[24] && e[25] == s[25] && e[26] == s[26] && e[27] == s[27]);
    assert(e[28] == 0u8 && s[28] == 0u8);
    assert(e =~= s);
}

} // verus!
