use vstd::prelude::*;

use crate::bgp_type::Ipv4Address;

verus! {

/// An IPv4 network: an address and a prefix length of at most 32 bits.
/// This is what the session would hand a kernel-routing collaborator; that
/// collaborator owns the actual route programming.
#[derive(PartialEq, Eq, Structural, Debug, Clone, Copy)]
pub struct Ipv4Network {
    pub addr: Ipv4Address,
    pub prefix: u8,
}

impl Ipv4Network {
    /// A meaningful prefix length fits in an address: at most 32 bits.
    pub open spec fn wf(self) -> bool {
        self.prefix <= 32
    }

    /// Accepts exactly the prefix lengths up to 32.
    pub fn new(addr: Ipv4Address, prefix: u8) -> (r: Option<Self>)
        ensures
            prefix <= 32 <==> r is Some,
            r matches Some(n) ==> n == (Ipv4Network { addr, prefix }) && n.wf(),
    {
        if prefix <= 32 {
            Some(Ipv4Network { addr, prefix })
        } else {
            None
        }
    }
}

/// Keeps, in order, exactly the routes of a routing-table dump that equal
/// the network being looked up.
pub fn routes_matching(routes: &Vec<Ipv4Network>, target: &Ipv4Network) -> (r: Vec<Ipv4Network>)
    ensures
        r@ == routes@.filter(|n: Ipv4Network| n == *target),
{
    let mut results: Vec<Ipv4Network> = Vec::new();
    let mut i: usize = 0;
    while i < routes.len()
        invariant
            i <= routes@.len(),
            results@ == routes@.subrange(0, i as int).filter(|n: Ipv4Network| n == *target),
        decreases routes@.len() - i,
    {
        let route = routes[i];
        proof {
            reveal(Seq::filter);
            assert(routes@.subrange(0, i + 1 as int).drop_last() =~= routes@.subrange(
                0,
                i as int,
            ));
            assert(routes@.subrange(0, i + 1 as int).last() == routes@[i as int]);
        }
        if route == *target {
            results.push(route);
        }
        i = i + 1;
    }
    proof {
        assert(routes@.subrange(0, routes@.len() as int) =~= routes@);
    }
    results
}

} // verus!
