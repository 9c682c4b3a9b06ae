use vstd::prelude::*;

use crate::bgp_type::AutonomousSystemNumber;
use crate::bgp_type::Ipv4Address;

verus! {

/// Whether this side initiates the TCP connection or waits for one.
#[derive(PartialEq, Eq, Structural, Debug, Clone, Copy)]
pub enum Mode {
    Passive,
    Active,
}

/// What one session is told about itself and its peer: the local and remote
/// AS numbers and IPv4 addresses, and the mode. Immutable once built; owned
/// exclusively by its peer.
#[derive(PartialEq, Eq, Structural, Debug, Clone, Copy)]
pub struct Config {
    pub local_as: AutonomousSystemNumber,
    pub local_ip: Ipv4Address,
    pub remote_as: AutonomousSystemNumber,
    pub remote_ip: Ipv4Address,
    pub mode: Mode,
}

impl Config {
    pub fn new(
        local_as: AutonomousSystemNumber,
        local_ip: Ipv4Address,
        remote_as: AutonomousSystemNumber,
        remote_ip: Ipv4Address,
        mode: Mode,
    ) -> (r: Self)
        ensures
            r == (Config { local_as, local_ip, remote_as, remote_ip, mode }),
    {
        Config { local_as, local_ip, remote_as, remote_ip, mode }
    }
}

} // verus!
