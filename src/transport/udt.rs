use vstd::prelude::*;

use std::collections::{HashMap, HashSet};

use bytes::BytesMut;

use crate::buffer::{
    buffer_freeze, buffer_resize, buffer_truncate, buffer_with_capacity, bytes_content,
    bytes_mut_content,
};
use crate::channel::{RWEvent, ReadEvent, StateEvent};
use crate::ops::{lemma_ops_algebra, Ops};

use vstd::std_specs::iter::IteratorSpec;

verus! {

broadcast use vstd::std_specs::hash::group_hash_axioms;

/// Size of the buffer that one receive on a connector fills at most.
pub const DEFAULT_UDT_BUF_CAPACITY: usize = 10000;

/// An IPv4 socket address: the address as a big-endian integer and a port.
#[derive(Debug, Copy, Clone, PartialEq, Eq, Structural)]
pub struct SocketAddress {
    pub ip: u32,
    pub port: u16,
}

/// The role of a channel: a listening socket that accepts peers, or a socket
/// that carries bytes to and from `remote`.
#[derive(Debug, Copy, Clone, PartialEq, Eq, Structural)]
pub enum ChannelKind {
    Acceptor,
    Connector { remote: SocketAddress },
}

#[derive(Debug, Copy, Clone, PartialEq, Eq, Structural)]
pub enum ChannelState {
    Idle,
    Connected,
    Connecting,
}

/// The status that the native library reports for a socket.
#[derive(Debug, Copy, Clone, PartialEq, Eq, Structural)]
pub enum SocketStatus {
    Init,
    Opened,
    Listening,
    Connecting,
    Connected,
    Broken,
    Closing,
    Closed,
    NonExist,
}

impl SocketStatus {
    pub fn is_opened(&self) -> (r: bool)
        ensures
            r == (*self == SocketStatus::Opened),
    {
        matches!(self, SocketStatus::Opened)
    }

    pub fn is_listening(&self) -> (r: bool)
        ensures
            r == (*self == SocketStatus::Listening),
    {
        matches!(self, SocketStatus::Listening)
    }

    pub fn is_broken(&self) -> (r: bool)
        ensures
            r == (*self == SocketStatus::Broken),
    {
        matches!(self, SocketStatus::Broken)
    }

    pub fn is_closing(&self) -> (r: bool)
        ensures
            r == (*self == SocketStatus::Closing),
    {
        matches!(self, SocketStatus::Closing)
    }

    pub fn is_closed(&self) -> (r: bool)
        ensures
            r == (*self == SocketStatus::Closed),
    {
        matches!(self, SocketStatus::Closed)
    }

    pub fn is_connecting(&self) -> (r: bool)
        ensures
            r == (*self == SocketStatus::Connecting),
    {
        matches!(self, SocketStatus::Connecting)
    }

    pub fn is_connected(&self) -> (r: bool)
        ensures
            r == (*self == SocketStatus::Connected),
    {
        matches!(self, SocketStatus::Connected)
    }
}

/// A native socket handle, with the number of bytes sent through it.
#[derive(Debug, Copy, Clone, PartialEq, Eq, Structural)]
pub struct SocketIo {
    pub socket: i32,
    pub bytes_sent: u64,
}

/// The byte count of a native send result: a count of zero or more.
pub open spec fn sent_count(sent: Option<i32>) -> Option<usize> {
    match sent {
        Some(n) => if n >= 0 {
            Some(n as usize)
        } else {
            None::<usize>
        },
        None => None::<usize>,
    }
}

impl SocketIo {
    /// The counters once a native send returned `sent`.
    pub open spec fn after_send(self, sent: Option<i32>) -> SocketIo {
        match sent_count(sent) {
            Some(n) => SocketIo {
                socket: self.socket,
                bytes_sent: if self.bytes_sent + n <= u64::MAX {
                    (self.bytes_sent + n) as u64
                } else {
                    u64::MAX
                },
            },
            None => self,
        }
    }

    pub fn new(socket: i32) -> (r: Self)
        ensures
            r.socket == socket,
            r.bytes_sent == 0,
    {
        SocketIo { socket, bytes_sent: 0 }
    }

    /// Records the result of a native send of a buffer: a count of bytes
    /// sent is added to `bytes_sent` (saturating), and the count is returned;
    /// a failed or negative send is returned as `None` and records nothing.
    pub fn write(&mut self, sent: Option<i32>) -> (r: Option<usize>)
        ensures
            *final(self) == old(self).after_send(sent),
            r == sent_count(sent),
    {
        match sent {
            Some(n) => {
                if n >= 0 {
                    self.bytes_sent = self.bytes_sent.saturating_add(n as u64);
                    Some(n as usize)
                } else {
                    None
                }
            },
            None => None,
        }
    }

    /// Sending is unbuffered at this layer: there is nothing to flush.
    pub fn flush(&mut self)
        ensures
            *final(self) == *old(self),
    {
    }
}

/// A socket with its role and its connection state.
#[derive(Debug, Copy, Clone, PartialEq, Eq, Structural)]
pub struct UdtChannel {
    pub io: SocketIo,
    pub kind: ChannelKind,
    pub state: ChannelState,
}

impl UdtChannel {
    /// A new channel starts `Idle`. The caller has already put the native
    /// socket in non-blocking send and receive mode.
    pub fn new(socket: i32, kind: ChannelKind) -> (r: Self)
        ensures
            r.io.socket == socket,
            r.io.bytes_sent == 0,
            r.kind == kind,
            r.state == ChannelState::Idle,
    {
        let io = SocketIo::new(socket);
        UdtChannel { io, kind, state: ChannelState::Idle }
    }

    /// Moves to `Connected` when the native status says so; returns the
    /// state that results.
    pub fn finish_connect(&mut self, status: SocketStatus) -> (r: ChannelState)
        ensures
            final(self).io == old(self).io,
            final(self).kind == old(self).kind,
            final(self).state == if status == SocketStatus::Connected {
                ChannelState::Connected
            } else {
                old(self).state
            },
            r == final(self).state,
    {
        if status.is_connected() {
            self.state = ChannelState::Connected;
        }
        self.state
    }

    pub fn state(&self) -> (r: ChannelState)
        ensures
            r == self.state,
    {
        self.state
    }

    pub fn socket(&self) -> (r: i32)
        ensures
            r == self.io.socket,
    {
        self.io.socket
    }
}

/// The native operation that a readable channel performs.
#[derive(Debug, Copy, Clone, PartialEq, Eq, Structural)]
pub enum ReadOp {
    /// Accept one peer (an acceptor).
    Accept,
    /// Receive into a fresh buffer (a connector).
    Recv,
}

/// What the native operation of a read produced.
#[derive(Debug)]
pub enum ReadOutcome {
    /// An accepted peer socket, with its address.
    Accepted(i32, SocketAddress),
    /// The buffer handed to the receive, with the count it returned, or
    /// `None` where the receive failed.
    Received(BytesMut, Option<i32>),
}

/// The scratch buffer `new_events` after a channel of role `kind` read
/// with `outcome`, from `old_events`. An accepted peer on an acceptor gives
/// `NewPeer` with a fresh connector key towards the peer's address; a receive
/// of `n > 0` bytes on a connector gives `Data` with the first `n` bytes of
/// the buffer; anything else adds nothing.
pub open spec fn read_events(
    kind: ChannelKind,
    outcome: ReadOutcome,
    old_events: Seq<RWEvent>,
    new_events: Seq<RWEvent>,
) -> bool {
    match (kind, outcome) {
        (ChannelKind::Acceptor, ReadOutcome::Accepted(peer, addr)) => {
            let ch = UdtChannel {
                io: SocketIo { socket: peer, bytes_sent: 0 },
                kind: ChannelKind::Connector { remote: addr },
                state: ChannelState::Idle,
            };
            new_events == old_events.push(
                RWEvent::Read(
                    ReadEvent::NewPeer(
                        UdtKey {
                            ch,
                            readiness: Ops(0),
                            interest: Ops(0).with(Ops::CONNECT),
                        },
                        addr,
                    ),
                ),
            )
        },
        (ChannelKind::Connector { .. }, ReadOutcome::Received(buf, Some(n))) if n > 0 => {
            &&& new_events.len() == old_events.len() + 1
            &&& new_events.drop_last() == old_events
            &&& match new_events.last() {
                RWEvent::Read(ReadEvent::Data(b)) => bytes_content(b) == if n
                    <= bytes_mut_content(buf).len() {
                    bytes_mut_content(buf).take(n as int)
                } else {
                    bytes_mut_content(buf)
                },
                _ => false,
            }
        },
        _ => new_events == old_events,
    }
}

impl UdtChannel {
    /// The native read a selected channel performs, by its role.
    pub fn read_op(&self) -> (r: ReadOp)
        ensures
            r == match self.kind {
                ChannelKind::Acceptor => ReadOp::Accept,
                ChannelKind::Connector { .. } => ReadOp::Recv,
            },
    {
        match self.kind {
            ChannelKind::Acceptor => ReadOp::Accept,
            ChannelKind::Connector { .. } => ReadOp::Recv,
        }
    }

    /// A zero-filled buffer of `DEFAULT_UDT_BUF_CAPACITY` bytes for one receive.
    pub fn recv_buffer() -> (r: BytesMut)
        ensures
            bytes_mut_content(r) == Seq::new(DEFAULT_UDT_BUF_CAPACITY as nat, |i: int| 0u8),
    {
        let mut buf = buffer_with_capacity(DEFAULT_UDT_BUF_CAPACITY);
        buffer_resize(&mut buf, DEFAULT_UDT_BUF_CAPACITY, 0u8);
        assert(bytes_mut_content(buf) =~= Seq::new(DEFAULT_UDT_BUF_CAPACITY as nat, |i: int| 0u8));
        buf
    }

    /// Turns the outcome of the native read into an event. An acceptor's
    /// accepted peer becomes `NewPeer`, with a new connector key towards the
    /// peer's address. A connector's receive of `n > 0` bytes becomes `Data`
    /// holding the first `n` bytes of the buffer. A failed or empty receive,
    /// or an outcome that does not fit the role, adds nothing.
    pub fn read(&mut self, outcome: ReadOutcome, collector: &mut Vec<RWEvent>)
        ensures
            *final(self) == *old(self),
            read_events(old(self).kind, outcome, old(collector)@, final(collector)@),
    {
        match self.kind {
            ChannelKind::Acceptor => {
                if let ReadOutcome::Accepted(peer, addr) = outcome {
                    let ch = UdtChannel::new(peer, ChannelKind::Connector { remote: addr });
                    let key = UdtKey::new(ch);
                    collector.push(RWEvent::Read(ReadEvent::NewPeer(key, addr)));
                }
            },
            ChannelKind::Connector { .. } => {
                if let ReadOutcome::Received(mut buf, Some(n)) = outcome {
                    if n > 0 {
                        buffer_truncate(&mut buf, n as usize);
                        let data = buffer_freeze(buf);
                        collector.push(RWEvent::Read(ReadEvent::Data(data)));
                        proof {
                            assert(final(collector)@.drop_last() =~= old(collector)@);
                        }
                    }
                }
            },
        }
    }

    /// Completes a connect: the channel becomes `Connected` when the native
    /// status says so, and the socket's peer is announced as connected.
    pub fn complete_connect(
        &mut self,
        status: SocketStatus,
        peer: SocketAddress,
        collector: &mut Vec<RWEvent>,
    )
        ensures
            final(self).io == old(self).io,
            final(self).kind == old(self).kind,
            final(self).state == if status == SocketStatus::Connected {
                ChannelState::Connected
            } else {
                old(self).state
            },
            final(collector)@ == old(collector)@.push(
                RWEvent::State(StateEvent::ConnectedPeer(old(self).io.socket, peer)),
            ),
    {
        self.finish_connect(status);
        collector.push(RWEvent::State(StateEvent::ConnectedPeer(self.io.socket, peer)));
    }

    /// Sending is unbuffered at this layer: flushing does nothing.
    pub fn flush(&mut self, collector: &mut Vec<RWEvent>)
        ensures
            *final(self) == *old(self),
            final(collector)@ == old(collector)@,
    {
    }
}

/// The registry entry of one socket: its channel, what has been reported
/// ready, and what the user is interested in.
#[derive(Debug)]
pub struct UdtKey {
    pub ch: UdtChannel,
    pub readiness: Ops,
    pub interest: Ops,
}

impl UdtKey {
    pub open spec fn handle(self) -> i32 {
        self.ch.io.socket
    }

    /// The flag that a readable socket sets: `ACCEPT` on an acceptor,
    /// `READ` on a connector.
    pub open spec fn read_flag(self) -> usize {
        match self.ch.kind {
            ChannelKind::Acceptor => Ops::ACCEPT,
            ChannelKind::Connector { .. } => Ops::READ,
        }
    }

    /// The flag that a writable socket sets: none on an acceptor, `WRITE`
    /// on a connected connector, `CONNECT` on any other connector.
    pub open spec fn write_flag(self) -> Option<usize> {
        match self.ch.kind {
            ChannelKind::Acceptor => None,
            ChannelKind::Connector { .. } => if self.ch.state == ChannelState::Connected {
                Some(Ops::WRITE)
            } else {
                Some(Ops::CONNECT)
            },
        }
    }

    /// A readable socket selects the key.
    pub open spec fn read_selects(self) -> bool {
        self.interest.has(self.read_flag())
    }

    /// The key once a readable socket has been reported.
    pub open spec fn after_read(self) -> UdtKey {
        if self.read_selects() {
            UdtKey {
                ch: self.ch,
                readiness: self.readiness.with(self.read_flag()),
                interest: self.interest,
            }
        } else {
            self
        }
    }

    /// A writable socket selects the key.
    pub open spec fn write_selects(self) -> bool {
        match self.write_flag() {
            Some(f) => self.interest.has(f),
            None => false,
        }
    }

    /// The key once a writable socket has been reported.
    pub open spec fn after_write(self) -> UdtKey {
        if self.write_selects() {
            UdtKey {
                ch: self.ch,
                readiness: self.readiness.with(self.write_flag().unwrap()),
                interest: self.interest,
            }
        } else {
            self
        }
    }

    /// The interest a key starts with: `ACCEPT` for an acceptor, `CONNECT`
    /// for a connector.
    pub open spec fn initial_interest(kind: ChannelKind) -> usize {
        match kind {
            ChannelKind::Acceptor => Ops::ACCEPT,
            ChannelKind::Connector { .. } => Ops::CONNECT,
        }
    }

    pub fn new(ch: UdtChannel) -> (r: Self)
        ensures
            r.ch == ch,
            r.readiness == Ops(0),
            r.interest == Ops(0).with(Self::initial_interest(ch.kind)),
            ch.kind is Acceptor ==> r.interest.has(Ops::ACCEPT),
            ch.kind is Connector ==> r.interest.has(Ops::CONNECT),
    {
        proof {
            lemma_ops_algebra(Ops(0), Self::initial_interest(ch.kind));
        }
        let mut interest = Ops::empty();
        let readiness = Ops::empty();
        match ch.kind {
            ChannelKind::Acceptor => {
                interest.apply(Ops::ACCEPT);
            },
            ChannelKind::Connector { .. } => {
                interest.apply(Ops::CONNECT);
            },
        }
        UdtKey { ch, readiness, interest }
    }

    pub fn socket_ref(&self) -> (r: &i32)
        ensures
            *r == self.handle(),
    {
        &self.ch.io.socket
    }

    pub fn socket_clone(&self) -> (r: i32)
        ensures
            r == self.handle(),
    {
        self.ch.io.socket
    }

    pub fn ready_ops(&self) -> (r: Ops)
        ensures
            r == self.readiness,
    {
        self.readiness
    }

    pub fn set_readiness(&mut self, ops: Ops)
        ensures
            final(self).readiness == ops,
            final(self).interest == old(self).interest,
            final(self).ch == old(self).ch,
    {
        self.readiness = ops;
    }

    pub fn set_interest(&mut self, ops: Ops)
        ensures
            final(self).interest == ops,
            final(self).readiness == old(self).readiness,
            final(self).ch == old(self).ch,
    {
        self.interest = ops;
    }

    pub fn resource(&self) -> (r: i32)
        ensures
            r == self.handle(),
    {
        self.socket_clone()
    }

    /// A readable socket selects the key when the interest holds the role's
    /// read flag, which is then added to the readiness.
    pub fn apply_read(&mut self) -> (r: bool)
        ensures
            r == old(self).read_selects(),
            *final(self) == old(self).after_read(),
    {
        match self.ch.kind {
            ChannelKind::Acceptor => {
                if self.interest.has_accept() {
                    self.readiness.apply(Ops::ACCEPT);
                } else {
                    return false;
                }
            },
            ChannelKind::Connector { .. } => {
                if self.interest.has_read() {
                    self.readiness.apply(Ops::READ);
                } else {
                    return false;
                }
            },
        }
        true
    }

    /// A writable socket never selects an acceptor; it selects a connector
    /// when the interest holds its write flag, which is then added to the
    /// readiness.
    pub fn apply_write(&mut self) -> (r: bool)
        ensures
            r == old(self).write_selects(),
            *final(self) == old(self).after_write(),
            old(self).ch.kind is Acceptor ==> !r,
    {
        match self.ch.kind {
            ChannelKind::Acceptor => false,
            ChannelKind::Connector { .. } => {
                if self.ch.state() == ChannelState::Connected {
                    if self.interest.has_write() {
                        self.readiness.apply(Ops::WRITE);
                        true
                    } else {
                        false
                    }
                } else {
                    if self.interest.has_connect() {
                        self.readiness.apply(Ops::CONNECT);
                        true
                    } else {
                        false
                    }
                }
            },
        }
    }
}

/// The native poller's event bits: input, output, and errors.
pub const EPOLL_IN: i32 = 0x1;
pub const EPOLL_OUT: i32 = 0x4;
pub const EPOLL_ERR: i32 = 0x8;

/// The native poller flags for an interest: `ACCEPT` or `READ` ask for
/// input, `CONNECT` or `WRITE` for output, `ERROR` for errors.
pub open spec fn poll_flags(interest: Ops) -> i32 {
    ((if interest.has(Ops::READ) || interest.has(Ops::ACCEPT) {
        EPOLL_IN
    } else {
        0i32
    }) + (if interest.has(Ops::WRITE) || interest.has(Ops::CONNECT) {
        EPOLL_OUT
    } else {
        0i32
    }) + (if interest.has(Ops::ERROR) {
        EPOLL_ERR
    } else {
        0i32
    })) as i32
}

pub fn poll_events(interest: Ops) -> (r: i32)
    ensures
        r == poll_flags(interest),
{
    let mut events: i32 = 0;
    if interest.has_read() || interest.has_accept() {
        events = events + EPOLL_IN;
    }
    if interest.has_write() || interest.has_connect() {
        events = events + EPOLL_OUT;
    }
    if interest.has_error() {
        events = events + EPOLL_ERR;
    }
    events
}

/// A change that the native poller must make for a socket.
#[derive(Debug, Copy, Clone, PartialEq, Eq, Structural)]
pub enum PollChange {
    /// Add the socket with these flags.
    Add(i32, i32),
    /// Remove the socket, then add it again with these flags.
    Replace(i32, i32),
}

/// The native poller's flags per socket after it makes change `c`. Adding a
/// socket that is already there adds flags to those it has; removing it
/// first drops them.
pub open spec fn poller_apply(m: Map<i32, i32>, c: PollChange) -> Map<i32, i32> {
    match c {
        PollChange::Add(h, f) => if m.contains_key(h) {
            m.insert(h, m[h] | f)
        } else {
            m.insert(h, f)
        },
        PollChange::Replace(h, f) => m.remove(h).insert(h, f),
    }
}

/// The poller change that registering `h` with `interest` calls for: an add
/// for a handle the registry does not hold, else a replacement.
pub open spec fn register_change(reg: Map<i32, UdtKey>, h: i32, interest: Ops) -> PollChange {
    if reg.contains_key(h) {
        PollChange::Replace(h, poll_flags(interest))
    } else {
        PollChange::Add(h, poll_flags(interest))
    }
}

/// Registering a key and then updating its registration leaves the native
/// poller with exactly the flags of the second interest for that handle, and
/// nothing else changed: the update finds the handle registered, and its
/// replacement overrides whatever the registration added.
pub proof fn lemma_update_after_register(
    m: Map<i32, i32>,
    reg: Map<i32, UdtKey>,
    key: UdtKey,
    interest: Ops,
    updated: Ops,
)
    ensures
        reg.insert(
            key.handle(),
            UdtKey { ch: key.ch, readiness: key.readiness, interest },
        ).contains_key(key.handle()),
        ({
            let h = key.handle();
            let first = register_change(reg, h, interest);
            let after = poller_apply(
                poller_apply(m, first),
                PollChange::Replace(h, poll_flags(updated)),
            );
            &&& after == m.insert(h, poll_flags(updated))
            &&& after[h] == poll_flags(updated)
        }),
{
    let h = key.handle();
    let first = register_change(reg, h, interest);
    assert(poller_apply(poller_apply(m, first), PollChange::Replace(h, poll_flags(updated)))
        =~= m.insert(h, poll_flags(updated)));
}

/// Registering the same handle twice keeps the second registration: the
/// registry holds the second key with the second interest, and the native
/// poller the flags of the second interest alone.
pub proof fn lemma_register_twice(
    m: Map<i32, i32>,
    reg: Map<i32, UdtKey>,
    first: UdtKey,
    first_interest: Ops,
    second: UdtKey,
    second_interest: Ops,
)
    requires
        first.handle() == second.handle(),
    ensures
        ({
            let h = first.handle();
            let reg1 = reg.insert(
                h,
                UdtKey { ch: first.ch, readiness: first.readiness, interest: first_interest },
            );
            let reg2 = reg1.insert(
                h,
                UdtKey { ch: second.ch, readiness: second.readiness, interest: second_interest },
            );
            let c1 = register_change(reg, h, first_interest);
            let c2 = register_change(reg1, h, second_interest);
            &&& reg2[h].interest == second_interest
            &&& reg2[h].ch == second.ch
            &&& reg2 == reg.insert(h, reg2[h])
            &&& poller_apply(poller_apply(m, c1), c2) == m.insert(h, poll_flags(second_interest))
        }),
{
    let h = first.handle();
    let reg1 = reg.insert(
        h,
        UdtKey { ch: first.ch, readiness: first.readiness, interest: first_interest },
    );
    let reg2 = reg1.insert(
        h,
        UdtKey { ch: second.ch, readiness: second.readiness, interest: second_interest },
    );
    let c1 = register_change(reg, h, first_interest);
    assert(reg2 =~= reg.insert(h, reg2[h]));
    assert(poller_apply(poller_apply(m, c1), PollChange::Replace(h, poll_flags(second_interest)))
        =~= m.insert(h, poll_flags(second_interest)));
}

/// The registry after a socket `h` is reported ready: a readable one when
/// `readable`, else a writable one. The key's handle joins `sel` when the
/// report selects it; an unregistered handle changes nothing.
pub open spec fn select_one(
    reg: Map<i32, UdtKey>,
    sel: Set<i32>,
    h: i32,
    readable: bool,
) -> (Map<i32, UdtKey>, Set<i32>) {
    if reg.contains_key(h) {
        let k = reg[h];
        if readable {
            (reg.insert(h, k.after_read()), if k.read_selects() {
                sel.insert(h)
            } else {
                sel
            })
        } else {
            (reg.insert(h, k.after_write()), if k.write_selects() {
                sel.insert(h)
            } else {
                sel
            })
        }
    } else {
        (reg, sel)
    }
}

/// `select_one` over the handles of `hs`, in order.
pub open spec fn select_all(
    reg: Map<i32, UdtKey>,
    sel: Set<i32>,
    hs: Seq<i32>,
    readable: bool,
) -> (Map<i32, UdtKey>, Set<i32>)
    decreases hs.len(),
{
    if hs.len() == 0 {
        (reg, sel)
    } else {
        let p = select_all(reg, sel, hs.drop_last(), readable);
        select_one(p.0, p.1, hs.last(), readable)
    }
}

/// The registry of keys by socket handle, with the handles that the last
/// `select` marked ready.
#[derive(Debug)]
pub struct UdtSelector {
    pub selected: HashSet<i32>,
    pub registered: HashMap<i32, UdtKey>,
}

impl UdtSelector {
    pub const DEFAULT_TIMEOUT_MS: i64 = 1000;

    /// Each key is stored under its own handle, and every selected handle
    /// is registered.
    pub open spec fn wf(&self) -> bool {
        &&& self.selected@.subset_of(self.registered@.dom())
        &&& forall|h: i32| #[trigger]
            self.registered@.contains_key(h) ==> self.registered@[h].handle() == h
    }

    pub fn new() -> (r: Self)
        ensures
            r.wf(),
            r.selected@ == Set::<i32>::empty(),
            r.registered@ == Map::<i32, UdtKey>::empty(),
    {
        UdtSelector { selected: HashSet::new(), registered: HashMap::new() }
    }

    /// Stores `key` with `interest` under its handle, replacing any earlier
    /// registration, and returns the change the native poller must make:
    /// an add for a new handle, a replacement for a known one.
    pub fn register(&mut self, key: UdtKey, interest: Ops) -> (r: PollChange)
        requires
            old(self).wf(),
        ensures
            final(self).wf(),
            final(self).selected@ == old(self).selected@,
            final(self).registered@ == old(self).registered@.insert(
                key.handle(),
                UdtKey { ch: key.ch, readiness: key.readiness, interest },
            ),
            r == register_change(old(self).registered@, key.handle(), interest),
    {
        let mut key = key;
        key.set_interest(interest);
        let events = poll_events(interest);
        let h = key.socket_clone();
        let change = if self.registered.contains_key(&h) {
            PollChange::Replace(h, events)
        } else {
            PollChange::Add(h, events)
        };
        self.registered.insert(h, key);
        change
    }

    /// For a registered handle, the replacement of its poller flags by those
    /// of `interest`; nothing for an unknown one. The registry is unchanged.
    pub fn update_registration(&mut self, key: i32, interest: Ops) -> (r: Option<PollChange>)
        ensures
            *final(self) == *old(self),
            r == if old(self).registered@.contains_key(key) {
                Some(PollChange::Replace(key, poll_flags(interest)))
            } else {
                None::<PollChange>
            },
    {
        if self.registered.contains_key(&key) {
            let events = poll_events(interest);
            Some(PollChange::Replace(key, events))
        } else {
            None
        }
    }

    fn select_handle(&mut self, h: i32, readable: bool)
        requires
            old(self).wf(),
        ensures
            final(self).wf(),
            (final(self).registered@, final(self).selected@) == select_one(
                old(self).registered@,
                old(self).selected@,
                h,
                readable,
            ),
    {
        if let Some(mut key) = self.registered.remove(&h) {
            let ready = if readable {
                key.apply_read()
            } else {
                key.apply_write()
            };
            self.registered.insert(h, key);
            if ready {
                self.selected.insert(h);
            }
            proof {
                assert(self.registered@ =~= old(self).registered@.insert(h, key));
            }
        }
    }

    /// Projects the poller's report through the keys: first each readable
    /// handle of `readers`, then each writable handle of `writers`, in order.
    /// Handles that are not registered are skipped.
    pub fn select(&mut self, readers: &Vec<i32>, writers: &Vec<i32>)
        requires
            old(self).wf(),
        ensures
            final(self).wf(),
            final(self).selected@.subset_of(final(self).registered@.dom()),
            ({
                let p = select_all(old(self).registered@, old(self).selected@, readers@, true);
                let q = select_all(p.0, p.1, writers@, false);
                final(self).registered@ == q.0 && final(self).selected@ == q.1
            }),
    {
        let ghost reg0 = self.registered@;
        let ghost sel0 = self.selected@;
        let mut i: usize = 0;
        while i < readers.len()
            invariant
                self.wf(),
                0 <= i <= readers.len(),
                (self.registered@, self.selected@) == select_all(
                    reg0,
                    sel0,
                    readers@.take(i as int),
                    true,
                ),
            decreases readers.len() - i,
        {
            self.select_handle(readers[i], true);
            proof {
                assert(readers@.take(i + 1).drop_last() =~= readers@.take(i as int));
            }
            i = i + 1;
        }
        proof {
            assert(readers@.take(readers.len() as int) =~= readers@);
        }
        let ghost reg1 = self.registered@;
        let ghost sel1 = self.selected@;
        let mut j: usize = 0;
        while j < writers.len()
            invariant
                self.wf(),
                0 <= j <= writers.len(),
                (self.registered@, self.selected@) == select_all(
                    reg1,
                    sel1,
                    writers@.take(j as int),
                    false,
                ),
            decreases writers.len() - j,
        {
            self.select_handle(writers[j], false);
            proof {
                assert(writers@.take(j + 1).drop_last() =~= writers@.take(j as int));
            }
            j = j + 1;
        }
        proof {
            assert(writers@.take(writers.len() as int) =~= writers@);
        }
    }

    /// Takes out the selected handles, leaving none selected, and returns
    /// each of them once. The registry is unchanged.
    pub fn on_selected(&mut self) -> (r: Vec<i32>)
        requires
            old(self).wf(),
        ensures
            final(self).wf(),
            final(self).selected@ == Set::<i32>::empty(),
            final(self).registered@ == old(self).registered@,
            r@.to_set() == old(self).selected@,
            r@.no_duplicates(),
    {
        let mut taken: HashSet<i32> = HashSet::new();
        std::mem::swap(&mut taken, &mut self.selected);
        let ghost keys = vstd::std_specs::hash::spec_hash_keys_iter(&taken).remaining();
        proof {
            assert(keys.unref().to_set() == taken@);
        }
        let mut out: Vec<i32> = Vec::new();
        for h in it: taken.iter()
            invariant
                it.seq() == keys,
                out@ == keys.unref().take(it.index()),
        {
            out.push(*h);
            proof {
                assert(out@ =~= keys.unref().take(it.index() + 1));
            }
        }
        proof {
            assert(out@ =~= keys.unref());
            assert forall|i: int, j: int|
                0 <= i < out@.len() && 0 <= j < out@.len() && i != j implies out@[i] != out@[j] by {
                assert(keys[i] != keys[j]);
            }
        }
        out
    }

    /// The key registered under `resource`, if any.
    pub fn on_resource(&self, resource: i32) -> (r: Option<&UdtKey>)
        ensures
            r == if self.registered@.contains_key(resource) {
                Some(&self.registered@[resource])
            } else {
                None::<&UdtKey>
            },
    {
        self.registered.get(&resource)
    }
}

} // verus!
