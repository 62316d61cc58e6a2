use vstd::prelude::*;

use bytes::Bytes;

use crate::ops::Ops;
use crate::transport::udt::{SocketAddress, UdtKey};

verus! {

/// An event that a channel leaves in the loop's scratch buffer while it is
/// processed; the loop turns each into poller changes and outbound triggers.
#[derive(Debug)]
pub enum RWEvent {
    Registration(RegistrationEvent),
    Read(ReadEvent),
    State(StateEvent),
    Error,
}

#[derive(Debug)]
pub enum ReadEvent {
    /// An acceptor produced a new peer, with the peer's address.
    NewPeer(UdtKey, SocketAddress),
    /// A connector received these bytes.
    Data(Bytes),
}

#[derive(Debug, Copy, Clone, PartialEq, Eq, Structural)]
pub enum RegistrationEvent {
    /// The poller flags of the socket must follow this interest.
    Update(i32, Ops),
}

#[derive(Debug, Copy, Clone, PartialEq, Eq, Structural)]
pub enum StateEvent {
    /// The socket finished connecting to the peer at the address.
    ConnectedPeer(i32, SocketAddress),
}

} // verus!
