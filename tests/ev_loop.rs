use bytes::Bytes;
use petty::channel::RWEvent;
use petty::ev_loop::events::{ReadEvent, StateEvent};
use petty::ev_loop::{IoTask, LoopAction, SelectorEventLoop, TaskAction, Trigger};
use petty::transport::udt::{
    ChannelKind, ChannelState, PollChange, ReadOp, ReadOutcome, SocketAddress, SocketStatus,
    UdtChannel, UdtKey, UdtSelector, EPOLL_ERR, EPOLL_IN, EPOLL_OUT,
};
use petty::Ops;

const SERVER: SocketAddress = SocketAddress { ip: 0x7f00_0001, port: 8080 };
const CLIENT: SocketAddress = SocketAddress { ip: 0x7f00_0001, port: 40000 };
const CLOSED: SocketAddress = SocketAddress { ip: 0x7f00_0001, port: 1 };

fn server_loop(listener: i32) -> SelectorEventLoop {
    let mut lp = SelectorEventLoop::new(UdtSelector::new());
    let key = UdtKey::new(UdtChannel::new(listener, ChannelKind::Acceptor));
    assert_eq!(lp.register(key, Ops::with_accept()), PollChange::Add(listener, EPOLL_IN));
    lp
}

fn received(lp: &mut SelectorEventLoop, h: i32, payload: &[u8]) {
    let mut buf = UdtChannel::recv_buffer();
    buf[..payload.len()].copy_from_slice(payload);
    lp.read(h, ReadOutcome::Received(buf, Some(payload.len() as i32)));
}

fn data_of(actions: &[LoopAction]) -> Vec<u8> {
    let mut out = Vec::new();
    for a in actions {
        if let LoopAction::Emit(Trigger::Read(ReadEvent::Data(b))) = a {
            out.extend_from_slice(b.as_ref());
        }
    }
    out
}

/// Accepts `peer` on the server's listener and returns the actions.
fn accept(lp: &mut SelectorEventLoop, listener: i32, peer: i32) -> Vec<LoopAction> {
    lp.selector.select(&vec![listener], &vec![]);
    let ready = lp.process_selected();
    assert_eq!(ready.len(), 1);
    assert_eq!(ready[0].handle, listener);
    assert_eq!(ready[0].read, Some(ReadOp::Accept));
    assert!(!ready[0].finish_connect);
    lp.read(listener, ReadOutcome::Accepted(peer, CLIENT));
    lp.drain_events()
}

#[test]
fn accept_then_data() {
    let mut server = server_loop(1);
    let actions = accept(&mut server, 1, 10);
    assert_eq!(actions.len(), 2);
    assert!(matches!(actions[0], LoopAction::Poll(PollChange::Add(10, f)) if f == EPOLL_IN | EPOLL_ERR));
    assert!(matches!(
        actions[1],
        LoopAction::Emit(Trigger::State(StateEvent::Connected(10, a))) if a == CLIENT
    ));
    let peer = &server.selector.registered[&10];
    assert_eq!(peer.interest.0, Ops::READ | Ops::ERROR);
    assert_eq!(peer.ch.kind, ChannelKind::Connector { remote: CLIENT });

    let m1 = [0x6D, 0x73, 0x67, 0x20, 0x31];
    server.selector.select(&vec![10], &vec![]);
    let ready = server.process_selected();
    assert_eq!(ready.len(), 1);
    assert_eq!(ready[0].read, Some(ReadOp::Recv));
    received(&mut server, 10, &m1);
    let actions = server.drain_events();
    assert_eq!(actions.len(), 1);
    assert_eq!(data_of(&actions), m1.to_vec());
    assert!(server.events_buf.is_empty());

    let mut client = SelectorEventLoop::new(UdtSelector::new());
    let actions = client.on_connect(20, SERVER, Some(SocketStatus::Connected));
    assert_eq!(actions.len(), 2);
    assert!(matches!(actions[0], LoopAction::Poll(PollChange::Add(20, f)) if f == EPOLL_ERR));
    assert!(matches!(
        actions[1],
        LoopAction::Emit(Trigger::State(StateEvent::Connected(20, a))) if a == SERVER
    ));
    assert_eq!(client.selector.registered[&20].ch.state, ChannelState::Connected);
}

#[test]
fn connect_failure_registers_nothing() {
    let mut client = SelectorEventLoop::new(UdtSelector::new());
    let actions = client.on_connect(21, CLOSED, None);
    assert_eq!(actions.len(), 1);
    assert!(matches!(
        actions[0],
        LoopAction::Emit(Trigger::State(StateEvent::ConnectionError(a))) if a == CLOSED
    ));
    assert!(client.selector.registered.is_empty());
}

#[test]
fn connect_then_write_transition() {
    let mut client = SelectorEventLoop::new(UdtSelector::new());
    let actions = client.on_connect(22, SERVER, Some(SocketStatus::Connecting));
    assert_eq!(actions.len(), 1);
    assert!(matches!(actions[0], LoopAction::Poll(PollChange::Add(22, f)) if f == EPOLL_OUT | EPOLL_ERR));
    assert_eq!(client.selector.registered[&22].ch.state, ChannelState::Connecting);
    assert_eq!(client.selector.registered[&22].interest.0, Ops::ERROR | Ops::CONNECT);

    client.selector.select(&vec![], &vec![22]);
    let ready = client.process_selected();
    assert_eq!(ready.len(), 1);
    assert!(ready[0].finish_connect);
    assert_eq!(ready[0].read, None);
    let key = &client.selector.registered[&22];
    assert!(!key.readiness.has_connect());
    assert!(!key.interest.has_connect());
    client.finish_connect(22, SocketStatus::Connected, SERVER);
    let actions = client.drain_events();
    assert_eq!(actions.len(), 2);
    assert!(matches!(actions[0], LoopAction::Poll(PollChange::Replace(22, 0))));
    assert!(matches!(
        actions[1],
        LoopAction::Emit(Trigger::State(StateEvent::Connected(22, a))) if a == SERVER
    ));
    assert_eq!(client.selector.registered[&22].ch.state, ChannelState::Connected);

    let action = client.handle_task(IoTask::UpdateInterest(22, Ops::with_write()));
    assert!(matches!(action, TaskAction::Poll(PollChange::Replace(22, f)) if f == EPOLL_OUT));
    client.selector.select(&vec![], &vec![22]);
    let key = &client.selector.registered[&22];
    assert!(key.readiness.has_write());
    assert!(!key.readiness.has_connect());
    let ready = client.process_selected();
    assert_eq!(ready.len(), 1);
    assert!(!ready[0].finish_connect);
    assert!(client.drain_events().is_empty());
}

#[test]
fn writes_keep_their_order() {
    let mut client = SelectorEventLoop::new(UdtSelector::new());
    client.on_connect(30, SERVER, Some(SocketStatus::Connected));
    let mut sent = Vec::new();
    for p in ["a", "b", "c"].iter() {
        match client.handle_task(IoTask::Write(30, Bytes::from(p.as_bytes().to_vec()))) {
            TaskAction::Send(30, b) => {
                assert_eq!(client.on_sent(30, Some(b.len() as i32)), Some(1));
                sent.extend_from_slice(b.as_ref());
            }
            other => panic!("unexpected {:?}", other),
        }
    }
    assert_eq!(sent, b"abc".to_vec());
    assert_eq!(client.selector.registered[&30].ch.io.bytes_sent, 3);

    let mut server = server_loop(1);
    accept(&mut server, 1, 31);
    let mut got = Vec::new();
    for chunk in [&b"a"[..], &b"bc"[..]].iter() {
        server.selector.select(&vec![31], &vec![]);
        server.process_selected();
        received(&mut server, 31, chunk);
        got.extend(data_of(&server.drain_events()));
    }
    assert_eq!(got, b"abc".to_vec());
}

#[test]
fn idle_tasks_change_nothing() {
    let mut lp = server_loop(1);
    let before: Vec<(i32, usize, usize, UdtChannel)> = lp
        .selector
        .registered
        .iter()
        .map(|(h, k)| (*h, k.interest.0, k.readiness.0, k.ch))
        .collect();
    assert!(matches!(lp.handle_task(IoTask::Flush(1)), TaskAction::Nothing));
    assert!(matches!(lp.handle_task(IoTask::Write(5, Bytes::from(vec![1u8]))), TaskAction::Nothing));
    assert!(matches!(lp.handle_task(IoTask::UpdateInterest(5, Ops::with_read())), TaskAction::Nothing));
    assert!(matches!(lp.handle_task(IoTask::Connect(SERVER)), TaskAction::Connect(a) if a == SERVER));
    let after: Vec<(i32, usize, usize, UdtChannel)> = lp
        .selector
        .registered
        .iter()
        .map(|(h, k)| (*h, k.interest.0, k.readiness.0, k.ch))
        .collect();
    assert_eq!(before, after);
    assert!(lp.selector.selected.is_empty());
    assert!(lp.events_buf.is_empty());
    assert_eq!(lp.on_sent(5, Some(3)), None);
}

#[test]
fn empty_or_failed_receive_emits_nothing() {
    let mut server = server_loop(1);
    accept(&mut server, 1, 40);
    server.read(40, ReadOutcome::Received(UdtChannel::recv_buffer(), Some(0)));
    server.read(40, ReadOutcome::Received(UdtChannel::recv_buffer(), None));
    server.read(41, ReadOutcome::Received(UdtChannel::recv_buffer(), Some(4)));
    assert!(server.events_buf.is_empty());
    received(&mut server, 40, b"xyz");
    assert_eq!(server.events_buf.len(), 1);
    match &server.events_buf[0] {
        RWEvent::Read(petty::channel::ReadEvent::Data(b)) => assert_eq!(b.as_ref(), b"xyz"),
        other => panic!("unexpected {:?}", other),
    }
}

#[test]
fn error_events_are_dropped() {
    let mut lp = server_loop(1);
    lp.events_buf.push(RWEvent::Error);
    assert!(lp.drain_events().is_empty());
    assert!(lp.events_buf.is_empty());
}

#[test]
fn update_of_unknown_socket_is_skipped() {
    let mut lp = server_loop(1);
    lp.events_buf.push(RWEvent::Registration(petty::channel::RegistrationEvent::Update(
        77,
        Ops::with_read(),
    )));
    assert!(lp.drain_events().is_empty());
}
