use petty::transport::udt::{
    poll_events, ChannelKind, ChannelState, PollChange, SocketAddress, SocketIo, SocketStatus,
    UdtChannel, UdtKey, UdtSelector, DEFAULT_UDT_BUF_CAPACITY, EPOLL_ERR, EPOLL_IN, EPOLL_OUT,
};
use petty::Ops;

fn addr(port: u16) -> SocketAddress {
    SocketAddress { ip: 0x7f00_0001, port }
}

fn connector(h: i32) -> UdtKey {
    UdtKey::new(UdtChannel::new(h, ChannelKind::Connector { remote: addr(8080) }))
}

fn acceptor(h: i32) -> UdtKey {
    UdtKey::new(UdtChannel::new(h, ChannelKind::Acceptor))
}

fn ops(flags: &[usize]) -> Ops {
    let mut o = Ops::empty();
    for &f in flags {
        o.apply(f);
    }
    o
}

#[test]
fn new_key_interest_follows_role() {
    let a = acceptor(3);
    assert_eq!(a.interest.0, Ops::ACCEPT);
    assert_eq!(a.readiness.0, 0);
    let c = connector(4);
    assert_eq!(c.interest.0, Ops::CONNECT);
    assert_eq!(c.readiness.0, 0);
    assert_eq!(c.resource(), 4);
    assert_eq!(*c.socket_ref(), 4);
    assert_eq!(c.ch.state(), ChannelState::Idle);
}

#[test]
fn socket_io_counts_sent_bytes() {
    let mut io = SocketIo::new(9);
    assert_eq!(io.bytes_sent, 0);
    assert_eq!(io.write(Some(5)), Some(5));
    assert_eq!(io.write(Some(7)), Some(7));
    assert_eq!(io.bytes_sent, 12);
    assert_eq!(io.write(Some(-1)), None);
    assert_eq!(io.write(None), None);
    assert_eq!(io.bytes_sent, 12);
    io.flush();
    assert_eq!(io.bytes_sent, 12);
    let mut full = SocketIo { socket: 9, bytes_sent: u64::MAX - 1 };
    assert_eq!(full.write(Some(10)), Some(10));
    assert_eq!(full.bytes_sent, u64::MAX);
}

#[test]
fn status_predicates() {
    assert!(SocketStatus::Connected.is_connected());
    assert!(!SocketStatus::Connecting.is_connected());
    assert!(SocketStatus::Connecting.is_connecting());
    assert!(SocketStatus::Opened.is_opened());
    assert!(SocketStatus::Listening.is_listening());
    assert!(SocketStatus::Broken.is_broken());
    assert!(SocketStatus::Closing.is_closing());
    assert!(SocketStatus::Closed.is_closed());
    assert!(!SocketStatus::NonExist.is_closed());
}

#[test]
fn finish_connect_follows_status() {
    let mut ch = UdtChannel::new(5, ChannelKind::Connector { remote: addr(1) });
    assert_eq!(ch.finish_connect(SocketStatus::Connecting), ChannelState::Idle);
    assert_eq!(ch.finish_connect(SocketStatus::Connected), ChannelState::Connected);
    assert_eq!(ch.state, ChannelState::Connected);
}

#[test]
fn poll_events_translate_interest() {
    assert_eq!(poll_events(Ops::empty()), 0);
    assert_eq!(poll_events(Ops::with_accept()), EPOLL_IN);
    assert_eq!(poll_events(Ops::with_read()), EPOLL_IN);
    assert_eq!(poll_events(Ops::with_connect()), EPOLL_OUT);
    assert_eq!(poll_events(Ops::with_write()), EPOLL_OUT);
    assert_eq!(poll_events(Ops::with_error()), EPOLL_ERR);
    assert_eq!(poll_events(ops(&[Ops::READ, Ops::ERROR])), 0x9);
    assert_eq!(poll_events(ops(&[Ops::ERROR, Ops::CONNECT])), 0xC);
    assert_eq!(poll_events(ops(&[Ops::ACCEPT, Ops::READ, Ops::WRITE, Ops::CONNECT, Ops::ERROR])), 0xD);
}

#[test]
fn acceptor_never_writes() {
    for bits in 0..32usize {
        let mut k = acceptor(1);
        k.set_interest(Ops(bits));
        assert!(!k.apply_write());
        assert_eq!(k.readiness.0, 0);
    }
}

#[test]
fn apply_read_by_role() {
    let mut a = acceptor(1);
    assert!(a.apply_read());
    assert_eq!(a.ready_ops().0, Ops::ACCEPT);
    let mut c = connector(2);
    assert!(!c.apply_read());
    c.set_interest(Ops::with_read());
    assert!(c.apply_read());
    assert_eq!(c.ready_ops().0, Ops::READ);
}

#[test]
fn apply_write_by_state() {
    let mut c = connector(2);
    assert!(c.apply_write());
    assert_eq!(c.readiness.0, Ops::CONNECT);
    c.set_readiness(Ops::empty());
    c.ch.state = ChannelState::Connected;
    assert!(!c.apply_write());
    c.set_interest(Ops::with_write());
    assert!(c.apply_write());
    assert_eq!(c.readiness.0, Ops::WRITE);
}

#[test]
fn interest_mask_gates_readiness() {
    let mut sel = UdtSelector::new();
    let change = sel.register(connector(7), Ops::with_error());
    assert_eq!(change, PollChange::Add(7, EPOLL_ERR));
    sel.select(&vec![], &vec![7]);
    assert!(!sel.selected.contains(&7));
    assert_eq!(sel.registered[&7].readiness.0, 0);
    assert!(sel.on_selected().is_empty());
}

#[test]
fn select_marks_registered_keys_only() {
    let mut sel = UdtSelector::new();
    sel.register(acceptor(1), Ops::with_accept());
    sel.register(connector(2), ops(&[Ops::CONNECT, Ops::ERROR]));
    sel.select(&vec![1, 99], &vec![2, 1, 98]);
    assert_eq!(sel.selected.len(), 2);
    for h in sel.selected.iter() {
        assert!(sel.registered.contains_key(h));
    }
    assert_eq!(sel.registered[&1].readiness.0, Ops::ACCEPT);
    assert_eq!(sel.registered[&2].readiness.0, Ops::CONNECT);
    let mut taken = sel.on_selected();
    taken.sort();
    assert_eq!(taken, vec![1, 2]);
    assert!(sel.selected.is_empty());
    assert_eq!(sel.registered.len(), 2);
    assert!(sel.on_resource(2).is_some());
    assert!(sel.on_resource(99).is_none());
}

#[test]
fn register_twice_keeps_second_interest() {
    let mut sel = UdtSelector::new();
    assert_eq!(sel.register(connector(4), Ops::with_read()), PollChange::Add(4, EPOLL_IN));
    assert_eq!(sel.register(connector(4), Ops::with_write()), PollChange::Replace(4, EPOLL_OUT));
    assert_eq!(sel.registered.len(), 1);
    assert_eq!(sel.registered[&4].interest.0, Ops::WRITE);
}

#[test]
fn update_after_register_replaces_flags() {
    let mut sel = UdtSelector::new();
    assert_eq!(
        sel.register(connector(6), ops(&[Ops::CONNECT, Ops::ERROR])),
        PollChange::Add(6, EPOLL_OUT | EPOLL_ERR)
    );
    assert_eq!(
        sel.update_registration(6, Ops::with_read()),
        Some(PollChange::Replace(6, EPOLL_IN))
    );
    assert_eq!(sel.update_registration(8, Ops::with_read()), None);
    assert_eq!(sel.registered.len(), 1);
}

#[test]
fn recv_buffer_is_zero_filled() {
    let buf = UdtChannel::recv_buffer();
    assert_eq!(buf.len(), DEFAULT_UDT_BUF_CAPACITY);
    assert!(buf.iter().all(|&b| b == 0));
}
