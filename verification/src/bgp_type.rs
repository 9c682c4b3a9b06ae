use vstd::prelude::*;

use crate::error::ConvertBytesToBgpMessageError;

verus! {

/// A 16-bit identifier of a routing domain (an autonomous system).
#[derive(PartialEq, Eq, Structural, Debug, Clone, Copy)]
pub struct AutonomousSystemNumber(pub u16);

impl AutonomousSystemNumber {
    pub fn from_u16(v: u16) -> (r: Self)
        ensures
            r.0 == v,
    {
        AutonomousSystemNumber(v)
    }

    pub fn to_u16(self) -> (r: u16)
        ensures
            r == self.0,
    {
        self.0
    }
}

/// Hold time in seconds proposed in an OPEN message; 0 means that no
/// keepalive interval is negotiated in this subset.
#[derive(PartialEq, Eq, Structural, Debug, Clone, Copy)]
pub struct HoldTime(pub u16);

impl HoldTime {
    pub fn new() -> (r: Self)
        ensures
            r.0 == 0,
    {
        HoldTime(0)
    }

    pub fn from_u16(v: u16) -> (r: Self)
        ensures
            r.0 == v,
    {
        HoldTime(v)
    }

    pub fn to_u16(self) -> (r: u16)
        ensures
            r == self.0,
    {
        self.0
    }
}

impl Default for HoldTime {
    fn default() -> (r: Self)
        ensures
            r.0 == 0,
    {
        HoldTime(0)
    }
}

/// BGP protocol version. A well-formed value is at most 4; decoding a byte
/// above 4 fails with a conversion error.
#[derive(PartialEq, Eq, Structural, Debug, Clone, Copy)]
pub struct Version(pub u8);

impl Version {
    /// Every version this codec constructs or accepts is at most 4.
    pub open spec fn wf(self) -> bool {
        self.0 <= 4
    }

    pub fn new() -> (r: Self)
        ensures
            r.0 == 4,
            r.wf(),
    {
        Version(4)
    }

    /// Accepts exactly the bytes 0 through 4.
    pub fn try_from_u8(v: u8) -> (r: Result<Self, ConvertBytesToBgpMessageError>)
        ensures
            v <= 4 <==> r is Ok,
            v <= 4 ==> r == Ok::<Version, ConvertBytesToBgpMessageError>(Version(v)),
            v > 4 ==> r == Err::<Version, ConvertBytesToBgpMessageError>(
                ConvertBytesToBgpMessageError::BadVersion,
            ),
    {
        if v <= 4 {
            Ok(Version(v))
        } else {
            Err(ConvertBytesToBgpMessageError::BadVersion)
        }
    }

    pub fn to_u8(self) -> (r: u8)
        ensures
            r == self.0,
    {
        self.0
    }
}

impl Default for Version {
    fn default() -> (r: Self)
        ensures
            r.0 == 4,
    {
        Version(4)
    }
}

/// An IPv4 address as its four octets, most significant first; on the wire
/// it appears in this order as the 4-byte BGP identifier of an OPEN message.
#[derive(PartialEq, Eq, Structural, Debug, Clone, Copy)]
pub struct Ipv4Address {
    pub o0: u8,
    pub o1: u8,
    pub o2: u8,
    pub o3: u8,
}

impl Ipv4Address {
    pub fn new(o0: u8, o1: u8, o2: u8, o3: u8) -> (r: Self)
        ensures
            r == (Ipv4Address { o0, o1, o2, o3 }),
    {
        Ipv4Address { o0, o1, o2, o3 }
    }
}

} // verus!
