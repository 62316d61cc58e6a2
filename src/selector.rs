use vstd::prelude::*;

use crate::ops::Ops;
use crate::transport::udt::UdtKey;

verus! {

/// A registry entry as the selector sees it: a readiness set, an interest
/// set, the handle it is stored under, and the role rules that decide
/// whether a poller report selects it.
pub trait SelectorKey: Sized {
    spec fn key_readiness(&self) -> Ops;

    spec fn key_interest(&self) -> Ops;

    spec fn key_resource(&self) -> i32;

    fn ready_ops(&self) -> (r: Ops)
        ensures
            r == self.key_readiness(),
    ;

    fn set_readiness(&mut self, ops: Ops)
        ensures
            final(self).key_readiness() == ops,
            final(self).key_interest() == old(self).key_interest(),
            final(self).key_resource() == old(self).key_resource(),
    ;

    fn set_interest(&mut self, ops: Ops)
        ensures
            final(self).key_interest() == ops,
            final(self).key_readiness() == old(self).key_readiness(),
            final(self).key_resource() == old(self).key_resource(),
    ;

    fn resource(&self) -> (r: i32)
        ensures
            r == self.key_resource(),
    ;

    /// A readable report: selects the key or leaves it as it was.
    fn apply_read(&mut self) -> (r: bool)
        ensures
            final(self).key_interest() == old(self).key_interest(),
            final(self).key_resource() == old(self).key_resource(),
            !r ==> final(self).key_readiness() == old(self).key_readiness(),
    ;

    /// A writable report: selects the key or leaves it as it was.
    fn apply_write(&mut self) -> (r: bool)
        ensures
            final(self).key_interest() == old(self).key_interest(),
            final(self).key_resource() == old(self).key_resource(),
            !r ==> final(self).key_readiness() == old(self).key_readiness(),
    ;
}

impl SelectorKey for UdtKey {
    open spec fn key_readiness(&self) -> Ops {
        self.readiness
    }

    open spec fn key_interest(&self) -> Ops {
        self.interest
    }

    open spec fn key_resource(&self) -> i32 {
        self.handle()
    }

    fn ready_ops(&self) -> (r: Ops) {
        UdtKey::ready_ops(self)
    }

    fn set_readiness(&mut self, ops: Ops) {
        UdtKey::set_readiness(self, ops)
    }

    fn set_interest(&mut self, ops: Ops) {
        UdtKey::set_interest(self, ops)
    }

    fn resource(&self) -> (r: i32) {
        UdtKey::resource(self)
    }

    fn apply_read(&mut self) -> (r: bool) {
        UdtKey::apply_read(self)
    }

    fn apply_write(&mut self) -> (r: bool) {
        UdtKey::apply_write(self)
    }
}

} // verus!
