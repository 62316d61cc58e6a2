use vstd::prelude::*;

use bytes::Bytes;

use crate::transport::udt::SocketAddress;

verus! {

#[derive(Debug, Copy, Clone, PartialEq, Eq, Structural)]
pub enum StateEvent {
    /// The socket is connected to the peer at the address.
    Connected(i32, SocketAddress),
    /// A connect to the address failed at once.
    ConnectionError(SocketAddress),
    /// The peer at the address went away.
    Disconnected(SocketAddress),
}

#[derive(Debug)]
pub enum ReadEvent {
    Data(Bytes),
}

#[derive(Debug, Copy, Clone, PartialEq, Eq, Structural)]
pub struct WriteEvent;

#[derive(Debug, Copy, Clone, PartialEq, Eq, Structural)]
pub struct ErrorEvent;

} // verus!
