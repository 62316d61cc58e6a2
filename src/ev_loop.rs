use vstd::prelude::*;

use bytes::Bytes;

use crate::channel::{RWEvent, ReadEvent, RegistrationEvent, StateEvent};
use crate::ops::{lemma_ops_algebra, Ops};
use crate::transport::udt::{
    poll_flags, read_events, register_change, sent_count, ChannelKind, ChannelState, PollChange, ReadOp, ReadOutcome,
    SocketAddress, SocketIo, SocketStatus, UdtChannel, UdtKey, UdtSelector,
};

pub mod events;

verus! {

broadcast use vstd::std_specs::hash::group_hash_axioms;

/// An event handed out of the loop to its user.
#[derive(Debug)]
pub enum Trigger {
    State(events::StateEvent),
    Read(events::ReadEvent),
    Write(events::WriteEvent),
    Error(events::ErrorEvent),
}

/// Work submitted to the loop from outside.
#[derive(Debug)]
pub enum IoTask {
    /// Open a connector towards the address.
    Connect(SocketAddress),
    Write(i32, Bytes),
    Flush(i32),
    WriteAndFlush(i32, Bytes),
    /// Make the socket's interest this set.
    UpdateInterest(i32, Ops),
    /// Stop the loop; work queued behind it is not run.
    Shutdown,
}

/// What the loop asks its driver to do: hand a trigger to the user, or make
/// a change in the native poller.
#[derive(Debug)]
pub enum LoopAction {
    Emit(Trigger),
    Poll(PollChange),
}

/// What the driver does for a task: open a socket and connect it, send the
/// bytes on a socket, change the poller, or nothing.
#[derive(Debug)]
pub enum TaskAction {
    Connect(SocketAddress),
    Send(i32, Bytes),
    Poll(PollChange),
    Nothing,
    Stop,
}

/// The native work that a selected key needs: finishing a connect, and the
/// read of its role.
#[derive(Debug, Copy, Clone)]
pub struct ReadyKey {
    pub handle: i32,
    pub finish_connect: bool,
    pub read: Option<ReadOp>,
}

/// The key once its readiness has been processed: a `CONNECT` readiness is
/// cleared, and readiness and interest both become what is left.
pub open spec fn processed_key(k: UdtKey) -> UdtKey {
    if k.readiness.has(Ops::CONNECT) {
        UdtKey {
            ch: k.ch,
            readiness: k.readiness.without(Ops::CONNECT),
            interest: k.readiness.without(Ops::CONNECT),
        }
    } else {
        k
    }
}

/// Once `CONNECT` readiness is processed, neither the key's readiness nor
/// its interest holds `CONNECT`.
pub proof fn lemma_connect_cleared(k: UdtKey)
    requires
        k.readiness.has(Ops::CONNECT),
    ensures
        !processed_key(k).readiness.has(Ops::CONNECT),
        !processed_key(k).interest.has(Ops::CONNECT),
{
    lemma_ops_algebra(k.readiness, Ops::CONNECT);
}

/// The events that processing the key leaves: the poller update that a
/// cleared `CONNECT` calls for.
pub open spec fn processed_events(k: UdtKey) -> Seq<RWEvent> {
    if k.readiness.has(Ops::CONNECT) {
        seq![
            RWEvent::Registration(
                RegistrationEvent::Update(k.handle(), k.readiness.without(Ops::CONNECT)),
            ),
        ]
    } else {
        Seq::empty()
    }
}

pub open spec fn role_read_op(kind: ChannelKind) -> ReadOp {
    match kind {
        ChannelKind::Acceptor => ReadOp::Accept,
        ChannelKind::Connector { .. } => ReadOp::Recv,
    }
}

/// The native work for a key with its readiness before processing.
pub open spec fn ready_key(k: UdtKey) -> ReadyKey {
    ReadyKey {
        handle: k.handle(),
        finish_connect: k.readiness.has(Ops::CONNECT),
        read: if k.readiness.has(Ops::READ) || k.readiness.has(Ops::ACCEPT) {
            Some(role_read_op(k.ch.kind))
        } else {
            None::<ReadOp>
        },
    }
}

/// The events that processing the keys of `hs` leaves, in order.
pub open spec fn processed_events_all(reg: Map<i32, UdtKey>, hs: Seq<i32>) -> Seq<RWEvent>
    decreases hs.len(),
{
    if hs.len() == 0 {
        Seq::empty()
    } else {
        processed_events_all(reg, hs.drop_last()) + processed_events(reg[hs.last()])
    }
}

/// The interest a newly accepted peer is registered with.
pub open spec fn peer_interest() -> Ops {
    Ops(0).with(Ops::READ).with(Ops::ERROR)
}

pub open spec fn with_interest(k: UdtKey, interest: Ops) -> UdtKey {
    UdtKey { ch: k.ch, readiness: k.readiness, interest }
}

/// The registry and the actions after one scratch event is handled.
pub open spec fn translate(reg: Map<i32, UdtKey>, ev: RWEvent) -> (Map<i32, UdtKey>, Seq<LoopAction>) {
    match ev {
        RWEvent::Read(ReadEvent::NewPeer(key, addr)) => (
            reg.insert(key.handle(), with_interest(key, peer_interest())),
            seq![
                LoopAction::Poll(register_change(reg, key.handle(), peer_interest())),
                LoopAction::Emit(
                    Trigger::State(events::StateEvent::Connected(key.handle(), addr)),
                ),
            ],
        ),
        RWEvent::Read(ReadEvent::Data(b)) => (
            reg,
            seq![LoopAction::Emit(Trigger::Read(events::ReadEvent::Data(b)))],
        ),
        RWEvent::Registration(RegistrationEvent::Update(h, ops)) => (
            reg,
            if reg.contains_key(h) {
                seq![LoopAction::Poll(PollChange::Replace(h, poll_flags(ops)))]
            } else {
                Seq::empty()
            },
        ),
        RWEvent::State(StateEvent::ConnectedPeer(h, addr)) => (
            reg,
            seq![LoopAction::Emit(Trigger::State(events::StateEvent::Connected(h, addr)))],
        ),
        RWEvent::Error => (reg, Seq::empty()),
    }
}

/// `translate` over the events of `evs`, in order, with the actions joined.
pub open spec fn translate_all(reg: Map<i32, UdtKey>, evs: Seq<RWEvent>) -> (
    Map<i32, UdtKey>,
    Seq<LoopAction>,
)
    decreases evs.len(),
{
    if evs.len() == 0 {
        (reg, Seq::empty())
    } else {
        let p = translate_all(reg, evs.drop_last());
        let q = translate(p.0, evs.last());
        (q.0, p.1 + q.1)
    }
}

/// The key after a connect completed with the native `status`.
pub open spec fn connect_finished(k: UdtKey, status: SocketStatus) -> UdtKey {
    UdtKey {
        ch: UdtChannel {
            io: k.ch.io,
            kind: k.ch.kind,
            state: if status == SocketStatus::Connected {
                ChannelState::Connected
            } else {
                k.ch.state
            },
        },
        readiness: k.readiness,
        interest: k.interest,
    }
}

/// The key of a connector that has just started to connect to `remote`;
/// `connected` when the native status already says so.
pub open spec fn connecting_key(socket: i32, remote: SocketAddress, connected: bool) -> UdtKey {
    UdtKey {
        ch: UdtChannel {
            io: SocketIo { socket, bytes_sent: 0 },
            kind: ChannelKind::Connector { remote },
            state: if connected {
                ChannelState::Connected
            } else {
                ChannelState::Connecting
            },
        },
        readiness: Ops(0),
        interest: if connected {
            Ops(Ops::ERROR)
        } else {
            Ops(Ops::ERROR).with(Ops::CONNECT)
        },
    }
}

/// The key once a native send on it returned `sent`.
pub open spec fn key_after_send(k: UdtKey, sent: Option<i32>) -> UdtKey {
    UdtKey {
        ch: UdtChannel { io: k.ch.io.after_send(sent), kind: k.ch.kind, state: k.ch.state },
        readiness: k.readiness,
        interest: k.interest,
    }
}

/// The loop's state: the selector it owns and the scratch buffer of channel
/// events, which is reused from one cycle to the next.
#[derive(Debug)]
pub struct SelectorEventLoop {
    pub selector: UdtSelector,
    pub events_buf: Vec<RWEvent>,
}

impl SelectorEventLoop {
    pub fn new(selector: UdtSelector) -> (r: Self)
        ensures
            r.selector == selector,
            r.events_buf@ == Seq::<RWEvent>::empty(),
    {
        SelectorEventLoop { selector, events_buf: Vec::new() }
    }

    pub fn register(&mut self, key: UdtKey, ops: Ops) -> (r: PollChange)
        requires
            old(self).selector.wf(),
        ensures
            final(self).selector.wf(),
            final(self).events_buf == old(self).events_buf,
            final(self).selector.selected@ == old(self).selector.selected@,
            final(self).selector.registered@ == old(self).selector.registered@.insert(
                key.handle(),
                with_interest(key, ops),
            ),
            r == register_change(old(self).selector.registered@, key.handle(), ops),
    {
        self.selector.register(key, ops)
    }

    fn process_key(&mut self, h: i32) -> (r: ReadyKey)
        requires
            old(self).selector.wf(),
            old(self).selector.registered@.contains_key(h),
        ensures
            final(self).selector.wf(),
            final(self).selector.selected@ == old(self).selector.selected@,
            final(self).selector.registered@ == old(self).selector.registered@.insert(
                h,
                processed_key(old(self).selector.registered@[h]),
            ),
            final(self).events_buf@ == old(self).events_buf@ + processed_events(
                old(self).selector.registered@[h],
            ),
            r == ready_key(old(self).selector.registered@[h]),
    {
        let ghost k0 = self.selector.registered@[h];
        let mut key = self.selector.registered.remove(&h).unwrap();
        let ready_ops = key.ready_ops();
        let connect = ready_ops.has_connect();
        if connect {
            let mut updated_ops = ready_ops;
            updated_ops.remove(Ops::CONNECT);
            key.set_readiness(updated_ops);
            key.set_interest(updated_ops);
            self.events_buf.push(
                RWEvent::Registration(RegistrationEvent::Update(key.resource(), updated_ops)),
            );
        }
        let read = if ready_ops.has_read() || ready_ops.has_accept() {
            Some(key.ch.read_op())
        } else {
            None
        };
        if ready_ops.has_write() {
            key.ch.flush(&mut self.events_buf);
        }
        self.selector.registered.insert(h, key);
        proof {
            assert(self.events_buf@ =~= old(self).events_buf@ + processed_events(k0));
            assert(self.selector.registered@ =~= old(self).selector.registered@.insert(
                h,
                processed_key(k0),
            ));
        }
        ReadyKey { handle: h, finish_connect: connect, read }
    }

    /// Walks the keys that the last `select` marked ready, once each, and
    /// leaves none selected. A key with `CONNECT` ready has that flag cleared
    /// from its readiness, its interest set to what is left, and a poller
    /// update queued. The result says, per key, which native work it needs.
    pub fn process_selected(&mut self) -> (r: Vec<ReadyKey>)
        requires
            old(self).selector.wf(),
        ensures
            final(self).selector.wf(),
            final(self).selector.selected@ == Set::<i32>::empty(),
            ({
                let reg0 = old(self).selector.registered@;
                let sel0 = old(self).selector.selected@;
                let hs = r@.map_values(|k: ReadyKey| k.handle);
                &&& hs.to_set() == sel0
                &&& hs.no_duplicates()
                &&& forall|i: int| 0 <= i < r@.len() ==> #[trigger] r@[i] == ready_key(reg0[hs[i]])
                &&& final(self).selector.registered@ == Map::new(
                    |h: i32| reg0.contains_key(h),
                    |h: i32|
                        if sel0.contains(h) {
                            processed_key(reg0[h])
                        } else {
                            reg0[h]
                        },
                )
                &&& final(self).events_buf@ == old(self).events_buf@ + processed_events_all(reg0, hs)
            }),
            forall|h: i32|
                old(self).selector.selected@.contains(h) && #[trigger] old(
                    self,
                ).selector.registered@[h].readiness.has(Ops::CONNECT) ==> {
                    &&& !final(self).selector.registered@[h].readiness.has(Ops::CONNECT)
                    &&& !final(self).selector.registered@[h].interest.has(Ops::CONNECT)
                },
    {
        let ghost reg0 = self.selector.registered@;
        let ghost sel0 = self.selector.selected@;
        let ghost buf0 = self.events_buf@;
        let hs = self.selector.on_selected();
        let mut out: Vec<ReadyKey> = Vec::new();
        let mut i: usize = 0;
        while i < hs.len()
            invariant
                self.selector.wf(),
                self.selector.selected@ == Set::<i32>::empty(),
                hs@.to_set() == sel0,
                hs@.no_duplicates(),
                sel0.subset_of(reg0.dom()),
                forall|h: i32| #[trigger] reg0.contains_key(h) ==> reg0[h].handle() == h,
                0 <= i <= hs.len(),
                out@.len() == i,
                forall|j: int| 0 <= j < i ==> (#[trigger] out@[j]).handle == hs@[j],
                forall|j: int| 0 <= j < i ==> #[trigger] out@[j] == ready_key(reg0[hs@[j]]),
                forall|h: i32| #[trigger]
                    self.selector.registered@.contains_key(h) == reg0.contains_key(h),
                forall|h: i32| #[trigger]
                    self.selector.registered@.contains_key(h) ==> self.selector.registered@[h] == if hs@.take(
                        i as int,
                    ).contains(h) {
                        processed_key(reg0[h])
                    } else {
                        reg0[h]
                    },
                self.events_buf@ == buf0 + processed_events_all(reg0, hs@.take(i as int)),
            decreases hs.len() - i,
        {
            let h = hs[i];
            proof {
                assert(hs@.to_set().contains(h));
                assert(!hs@.take(i as int).contains(h)) by {
                    if hs@.take(i as int).contains(h) {
                        let j = choose|j: int| 0 <= j < i && #[trigger] hs@.take(i as int)[j] == h;
                        assert(hs@[j] == hs@[i as int]);
                    }
                }
                assert(hs@.take(i + 1).drop_last() =~= hs@.take(i as int));
                assert(hs@.take(i + 1).last() == h);
            }
            let ghost before = self.selector.registered@;
            let ghost ebefore = self.events_buf@;
            proof {
                assert(before.contains_key(h));
                assert(before[h] == reg0[h]);
            }
            let rk = self.process_key(h);
            out.push(rk);
            proof {
                assert(processed_events_all(reg0, hs@.take(i + 1)) == processed_events_all(
                    reg0,
                    hs@.take(i as int),
                ) + processed_events(reg0[h]));
                assert forall|g: i32| #[trigger]
                    self.selector.registered@.contains_key(g) implies self.selector.registered@[g]
                    == if hs@.take(i + 1).contains(g) {
                    processed_key(reg0[g])
                } else {
                    reg0[g]
                } by {
                    if g != h {
                        assert(before.contains_key(g));
                        assert(hs@.take(i + 1).contains(g) == hs@.take(i as int).contains(g)) by {
                            if hs@.take(i + 1).contains(g) {
                                let j = choose|j: int| 0 <= j < i + 1 && #[trigger] hs@.take(i + 1)[j] == g;
                                assert(hs@.take(i as int)[j] == g);
                            }
                        }
                    } else {
                        assert(hs@.take(i + 1)[i as int] == h);
                    }
                }
                assert(self.events_buf@ =~= buf0 + processed_events_all(reg0, hs@.take(i + 1)));
            }
            i = i + 1;
        }
        proof {
            assert(hs@.take(hs.len() as int) =~= hs@);
            assert(out@.map_values(|k: ReadyKey| k.handle) =~= hs@);
            assert(self.selector.registered@ =~= Map::new(
                |h: i32| reg0.contains_key(h),
                |h: i32|
                    if sel0.contains(h) {
                        processed_key(reg0[h])
                    } else {
                        reg0[h]
                    },
            )) by {
                assert forall|h: i32| hs@.contains(h) == sel0.contains(h) by {
                    assert(hs@.to_set().contains(h) == hs@.contains(h));
                }
            }
            assert forall|h: i32|
                sel0.contains(h) && #[trigger] reg0[h].readiness.has(Ops::CONNECT) implies {
                    &&& !self.selector.registered@[h].readiness.has(Ops::CONNECT)
                    &&& !self.selector.registered@[h].interest.has(Ops::CONNECT)
                } by {
                lemma_connect_cleared(reg0[h]);
            }
        }
        out
    }
    /// Completes the connect of a selected key with the native status and
    /// the peer's address: the channel becomes `Connected` when the status
    /// says so, and `ConnectedPeer` is queued. An unknown handle changes
    /// nothing.
    pub fn finish_connect(&mut self, resource: i32, status: SocketStatus, peer: SocketAddress)
        requires
            old(self).selector.wf(),
        ensures
            final(self).selector.wf(),
            final(self).selector.selected@ == old(self).selector.selected@,
            if old(self).selector.registered@.contains_key(resource) {
                &&& final(self).selector.registered@ == old(self).selector.registered@.insert(
                    resource,
                    connect_finished(old(self).selector.registered@[resource], status),
                )
                &&& final(self).events_buf@ == old(self).events_buf@.push(
                    RWEvent::State(StateEvent::ConnectedPeer(resource, peer)),
                )
            } else {
                &&& final(self).selector.registered@ == old(self).selector.registered@
                &&& final(self).events_buf@ == old(self).events_buf@
            },
    {
        if self.selector.registered.contains_key(&resource) {
            let mut key = self.selector.registered.remove(&resource).unwrap();
            key.ch.complete_connect(status, peer, &mut self.events_buf);
            self.selector.registered.insert(resource, key);
            proof {
                assert(self.selector.registered@ =~= old(self).selector.registered@.insert(
                    resource,
                    connect_finished(old(self).selector.registered@[resource], status),
                ));
            }
        }
    }

    /// Hands the outcome of a selected key's native read to its channel,
    /// which queues the event that `read_events` gives. An unknown handle
    /// changes nothing.
    pub fn read(&mut self, resource: i32, outcome: ReadOutcome)
        requires
            old(self).selector.wf(),
        ensures
            final(self).selector.wf(),
            final(self).selector.selected@ == old(self).selector.selected@,
            final(self).selector.registered@ == old(self).selector.registered@,
            if old(self).selector.registered@.contains_key(resource) {
                read_events(
                    old(self).selector.registered@[resource].ch.kind,
                    outcome,
                    old(self).events_buf@,
                    final(self).events_buf@,
                )
            } else {
                final(self).events_buf@ == old(self).events_buf@
            },
    {
        if self.selector.registered.contains_key(&resource) {
            let mut key = self.selector.registered.remove(&resource).unwrap();
            key.ch.read(outcome, &mut self.events_buf);
            self.selector.registered.insert(resource, key);
            proof {
                assert(self.selector.registered@ =~= old(self).selector.registered@);
            }
        }
    }

    /// Empties the scratch buffer, handling its events in order: a new peer
    /// is registered with `READ` and `ERROR` interest and announced as
    /// connected; received data is handed out; a registration update of a
    /// known socket becomes a poller replacement; a finished connect is
    /// announced; an error event is dropped.
    pub fn drain_events(&mut self) -> (r: Vec<LoopAction>)
        requires
            old(self).selector.wf(),
        ensures
            final(self).selector.wf(),
            final(self).selector.selected@ == old(self).selector.selected@,
            final(self).events_buf@ == Seq::<RWEvent>::empty(),
            (final(self).selector.registered@, r@) == translate_all(
                old(self).selector.registered@,
                old(self).events_buf@,
            ),
    {
        let mut evs: Vec<RWEvent> = Vec::new();
        std::mem::swap(&mut evs, &mut self.events_buf);
        let ghost all = evs@;
        let ghost reg0 = self.selector.registered@;
        let ghost sel0 = self.selector.selected@;
        let mut actions: Vec<LoopAction> = Vec::new();
        let ghost mut n: int = 0;
        while evs.len() > 0
            invariant
                self.selector.wf(),
                self.selector.selected@ == sel0,
                self.events_buf@ == Seq::<RWEvent>::empty(),
                0 <= n <= all.len(),
                evs@ == all.subrange(n, all.len() as int),
                (self.selector.registered@, actions@) == translate_all(reg0, all.take(n)),
            decreases evs.len(),
        {
            let ghost reg_before = self.selector.registered@;
            let ghost actions_before = actions@;
            let ev = evs.remove(0);
            proof {
                assert(all.take(n + 1).drop_last() =~= all.take(n));
                assert(all.take(n + 1).last() == ev);
            }
            match ev {
                RWEvent::Read(ReadEvent::NewPeer(key, addr)) => {
                    let mut ops = Ops::empty();
                    ops.apply(Ops::READ);
                    ops.apply(Ops::ERROR);
                    let resource = key.resource();
                    let change = self.selector.register(key, ops);
                    actions.push(LoopAction::Poll(change));
                    actions.push(
                        LoopAction::Emit(
                            Trigger::State(events::StateEvent::Connected(resource, addr)),
                        ),
                    );
                },
                RWEvent::Read(ReadEvent::Data(bytes)) => {
                    actions.push(LoopAction::Emit(Trigger::Read(events::ReadEvent::Data(bytes))));
                },
                RWEvent::Registration(RegistrationEvent::Update(resource, ops)) => {
                    if let Some(change) = self.selector.update_registration(resource, ops) {
                        actions.push(LoopAction::Poll(change));
                    }
                },
                RWEvent::State(StateEvent::ConnectedPeer(resource, addr)) => {
                    actions.push(
                        LoopAction::Emit(
                            Trigger::State(events::StateEvent::Connected(resource, addr)),
                        ),
                    );
                },
                RWEvent::Error => {},
            }
            proof {
                let q = translate(reg_before, ev);
                assert(actions@ =~= actions_before + q.1);
                n = n + 1;
                assert(evs@ =~= all.subrange(n, all.len() as int));
            }
        }
        proof {
            assert(all.take(all.len() as int) =~= all);
        }
        std::mem::swap(&mut evs, &mut self.events_buf);
        actions
    }

    /// Decides what a task asks for. A connect, a write of a registered
    /// socket, a flush and a shutdown change nothing here; an interest update of a
    /// registered socket sets its interest and replaces its poller flags.
    /// A task on an unknown socket does nothing.
    pub fn handle_task(&mut self, task: IoTask) -> (r: TaskAction)
        requires
            old(self).selector.wf(),
        ensures
            final(self).selector.wf(),
            match task {
                IoTask::Connect(a) => r == TaskAction::Connect(a) && *final(self) == *old(self),
                IoTask::Write(h, b) => *final(self) == *old(self) && r == if old(
                    self,
                ).selector.registered@.contains_key(h) {
                    TaskAction::Send(h, b)
                } else {
                    TaskAction::Nothing
                },
                IoTask::WriteAndFlush(h, b) => *final(self) == *old(self) && r == if old(
                    self,
                ).selector.registered@.contains_key(h) {
                    TaskAction::Send(h, b)
                } else {
                    TaskAction::Nothing
                },
                IoTask::Flush(_) => r == TaskAction::Nothing && *final(self) == *old(self),
                IoTask::Shutdown => r == TaskAction::Stop && *final(self) == *old(self),
                IoTask::UpdateInterest(h, ops) => if old(self).selector.registered@.contains_key(
                    h,
                ) {
                    &&& final(self).selector.registered@ == old(self).selector.registered@.insert(
                        h,
                        with_interest(old(self).selector.registered@[h], ops),
                    )
                    &&& final(self).selector.selected@ == old(self).selector.selected@
                    &&& final(self).events_buf == old(self).events_buf
                    &&& r == TaskAction::Poll(PollChange::Replace(h, poll_flags(ops)))
                } else {
                    r == TaskAction::Nothing && *final(self) == *old(self)
                },
            },
    {
        match task {
            IoTask::Connect(addr) => TaskAction::Connect(addr),
            IoTask::Write(h, bytes) => {
                if self.selector.registered.contains_key(&h) {
                    TaskAction::Send(h, bytes)
                } else {
                    TaskAction::Nothing
                }
            },
            IoTask::WriteAndFlush(h, bytes) => {
                if self.selector.registered.contains_key(&h) {
                    TaskAction::Send(h, bytes)
                } else {
                    TaskAction::Nothing
                }
            },
            IoTask::Flush(_) => TaskAction::Nothing,
            IoTask::Shutdown => TaskAction::Stop,
            IoTask::UpdateInterest(h, ops) => {
                if self.selector.registered.contains_key(&h) {
                    let mut key = self.selector.registered.remove(&h).unwrap();
                    key.set_interest(ops);
                    self.selector.registered.insert(h, key);
                    proof {
                        assert(self.selector.registered@ =~= old(self).selector.registered@.insert(
                            h,
                            with_interest(old(self).selector.registered@[h], ops),
                        ));
                    }
                    match self.selector.update_registration(h, ops) {
                        Some(change) => TaskAction::Poll(change),
                        None => TaskAction::Nothing,
                    }
                } else {
                    TaskAction::Nothing
                }
            },
        }
    }

    /// Takes the outcome of a connect that a task started on `socket`
    /// towards `remote`: `None` where the native connect failed, else the
    /// native status right after it. A failed connect is reported as a
    /// connection error and registers nothing. A socket already connected
    /// is registered with `ERROR` interest and reported connected at once;
    /// any other is registered as connecting, with `ERROR` and `CONNECT`
    /// interest, and reported when the poller finds it writable.
    pub fn on_connect(
        &mut self,
        socket: i32,
        remote: SocketAddress,
        status: Option<SocketStatus>,
    ) -> (r: Vec<LoopAction>)
        requires
            old(self).selector.wf(),
        ensures
            final(self).selector.wf(),
            final(self).selector.selected@ == old(self).selector.selected@,
            final(self).events_buf == old(self).events_buf,
            match status {
                None => {
                    &&& r@ == seq![
                        LoopAction::Emit(
                            Trigger::State(events::StateEvent::ConnectionError(remote)),
                        ),
                    ]
                    &&& final(self).selector.registered@ == old(self).selector.registered@
                },
                Some(st) => {
                    let connected = st == SocketStatus::Connected;
                    let key = connecting_key(socket, remote, connected);
                    let change = register_change(
                        old(self).selector.registered@,
                        socket,
                        key.interest,
                    );
                    &&& final(self).selector.registered@ == old(
                        self,
                    ).selector.registered@.insert(socket, key)
                    &&& r@ == if connected {
                        seq![
                            LoopAction::Poll(change),
                            LoopAction::Emit(
                                Trigger::State(events::StateEvent::Connected(socket, remote)),
                            ),
                        ]
                    } else {
                        seq![LoopAction::Poll(change)]
                    }
                },
            },
    {
        let mut out: Vec<LoopAction> = Vec::new();
        match status {
            None => {
                out.push(
                    LoopAction::Emit(Trigger::State(events::StateEvent::ConnectionError(remote))),
                );
                proof {
                    assert(out@ =~= seq![
                        LoopAction::Emit(
                            Trigger::State(events::StateEvent::ConnectionError(remote)),
                        ),
                    ]);
                }
            },
            Some(st) => {
                let mut ch = UdtChannel::new(socket, ChannelKind::Connector { remote });
                if st.is_connected() {
                    ch.finish_connect(st);
                    let key = UdtKey::new(ch);
                    let change = self.selector.register(key, Ops::with_error());
                    out.push(LoopAction::Poll(change));
                    out.push(
                        LoopAction::Emit(
                            Trigger::State(events::StateEvent::Connected(socket, remote)),
                        ),
                    );
                } else {
                    ch.state = ChannelState::Connecting;
                    let key = UdtKey::new(ch);
                    let mut ops = Ops::with_error();
                    ops.apply(Ops::CONNECT);
                    let change = self.selector.register(key, ops);
                    out.push(LoopAction::Poll(change));
                }
                proof {
                    let key = connecting_key(socket, remote, st == SocketStatus::Connected);
                    let change = register_change(
                        old(self).selector.registered@,
                        socket,
                        key.interest,
                    );
                    if st == SocketStatus::Connected {
                        assert(out@ =~= seq![
                            LoopAction::Poll(change),
                            LoopAction::Emit(
                                Trigger::State(events::StateEvent::Connected(socket, remote)),
                            ),
                        ]);
                    } else {
                        assert(out@ =~= seq![LoopAction::Poll(change)]);
                    }
                }
            },
        }
        out
    }

    /// Records the result of a native send on a registered socket in its
    /// byte counter, and returns the count sent; nothing for an unknown
    /// socket.
    pub fn on_sent(&mut self, resource: i32, sent: Option<i32>) -> (r: Option<usize>)
        requires
            old(self).selector.wf(),
        ensures
            final(self).selector.wf(),
            final(self).selector.selected@ == old(self).selector.selected@,
            final(self).events_buf == old(self).events_buf,
            if old(self).selector.registered@.contains_key(resource) {
                &&& final(self).selector.registered@ == old(self).selector.registered@.insert(
                    resource,
                    key_after_send(old(self).selector.registered@[resource], sent),
                )
                &&& r == sent_count(sent)
            } else {
                &&& final(self).selector.registered@ == old(self).selector.registered@
                &&& r is None
            },
    {
        if self.selector.registered.contains_key(&resource) {
            let mut key = self.selector.registered.remove(&resource).unwrap();
            let n = key.ch.io.write(sent);
            self.selector.registered.insert(resource, key);
            proof {
                assert(self.selector.registered@ =~= old(self).selector.registered@.insert(
                    resource,
                    key_after_send(old(self).selector.registered@[resource], sent),
                ));
            }
            n
        } else {
            None
        }
    }
}

} // verus!
