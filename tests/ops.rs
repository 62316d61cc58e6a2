use petty::Ops;

#[test]
fn sanity() {
    assert_eq!(1, 1);
}

#[test]
fn flag_values_are_stable() {
    assert_eq!(Ops::ACCEPT, 1);
    assert_eq!(Ops::CONNECT, 2);
    assert_eq!(Ops::READ, 4);
    assert_eq!(Ops::WRITE, 8);
    assert_eq!(Ops::ERROR, 16);
}

#[test]
fn empty_has_no_flag() {
    let e = Ops::empty();
    assert_eq!(e.0, 0);
    assert!(!e.has_accept());
    assert!(!e.has_connect());
    assert!(!e.has_read());
    assert!(!e.has_write());
    assert!(!e.has_error());
}

#[test]
fn apply_then_has_then_remove() {
    let flags = [Ops::ACCEPT, Ops::CONNECT, Ops::READ, Ops::WRITE, Ops::ERROR];
    for &f in flags.iter() {
        let mut x = Ops::empty();
        x.apply(f);
        assert_eq!(x.0, f);
        let has = |o: &Ops| match f {
            1 => o.has_accept(),
            2 => o.has_connect(),
            4 => o.has_read(),
            8 => o.has_write(),
            _ => o.has_error(),
        };
        assert!(has(&x));
        x.remove(f);
        assert!(!has(&x));
        assert_eq!(x.0, 0);
    }
}

#[test]
fn apply_keeps_other_flags() {
    let mut x = Ops::with_read();
    x.apply(Ops::ERROR);
    assert_eq!(x.0, 0b1_0100);
    assert!(x.has_read());
    assert!(x.has_error());
    assert!(!x.has_write());
    x.remove(Ops::READ);
    assert_eq!(x.0, Ops::ERROR);
    assert!(!x.has_read());
    assert!(x.has_error());
}

#[test]
fn constructors_hold_one_flag() {
    assert_eq!(Ops::with_read().0, Ops::READ);
    assert_eq!(Ops::with_write().0, Ops::WRITE);
    assert_eq!(Ops::with_accept().0, Ops::ACCEPT);
    assert_eq!(Ops::with_connect().0, Ops::CONNECT);
    assert_eq!(Ops::with_error().0, Ops::ERROR);
    assert!(Ops::with_error().has_error());
    assert!(!Ops::with_error().has_connect());
}
