use vstd::prelude::*;

verus! {

/// Where a session stands in the handshake. `Idle` is initial;
/// `Established` is terminal in this subset.
#[derive(PartialEq, Eq, Structural, Debug, Clone, Copy)]
pub enum State {
    Idle,
    Connect,
    OpenSent,
    OpenConfirm,
    Established,
}

} // verus!
