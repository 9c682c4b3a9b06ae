use vstd::prelude::*;

use crate::keepalive::KeepAliveMessage;
use crate::open::OpenMessage;

verus! {

/// An occurrence a session reacts to: the operator starting it, the
/// transport coming up, a decoded incoming message, or the locally
/// synthesized completion of the handshake. Immutable once created.
#[derive(PartialEq, Eq, Structural, Debug, Clone, Copy)]
pub enum Event {
    ManualStart,
    TcpConnectionConfirmed,
    BgpOpen(OpenMessage),
    KeepAliveMsg(KeepAliveMessage),
    Established,
}

} // verus!
