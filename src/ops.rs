use vstd::prelude::*;

verus! {

/// A set of operation flags, used both as interest (what the user wants to
/// hear about) and as readiness (what the poller has reported).
#[derive(Debug, Copy, Clone, PartialEq, Eq, PartialOrd, Ord, Structural)]
pub struct Ops(pub usize);

impl Ops {
    pub const ACCEPT: usize = 0b0000_0001;
    pub const CONNECT: usize = 0b0000_0010;
    pub const READ: usize = 0b0000_0100;
    pub const WRITE: usize = 0b0000_1000;
    pub const ERROR: usize = 0b0001_0000;

    /// Every bit of `flag` is set.
    pub open spec fn has(self, flag: usize) -> bool {
        self.0 & flag == flag
    }

    /// The set with the bits of `flag` added.
    pub open spec fn with(self, flag: usize) -> Ops {
        Ops(self.0 | flag)
    }

    /// The set with the bits of `flag` taken out.
    pub open spec fn without(self, flag: usize) -> Ops {
        Ops(self.0 & !flag)
    }

    pub fn empty() -> (r: Self)
        ensures
            r.0 == 0,
    {
        Ops(0)
    }

    pub fn apply(&mut self, state: usize)
        ensures
            *final(self) == old(self).with(state),
    {
        self.0 = self.0 | state;
    }

    pub fn remove(&mut self, state: usize)
        ensures
            *final(self) == old(self).without(state),
    {
        self.0 = self.0 & !state;
    }

    pub fn with_read() -> (r: Self)
        ensures
            r.0 == Ops::READ,
    {
        Ops(Ops::READ)
    }

    pub fn with_write() -> (r: Self)
        ensures
            r.0 == Ops::WRITE,
    {
        Ops(Ops::WRITE)
    }

    pub fn with_accept() -> (r: Self)
        ensures
            r.0 == Ops::ACCEPT,
    {
        Ops(Ops::ACCEPT)
    }

    pub fn with_connect() -> (r: Self)
        ensures
            r.0 == Ops::CONNECT,
    {
        Ops(Ops::CONNECT)
    }

    pub fn with_error() -> (r: Self)
        ensures
            r.0 == Ops::ERROR,
    {
        Ops(Ops::ERROR)
    }

    pub fn has_accept(&self) -> (r: bool)
        ensures
            r == self.has(Ops::ACCEPT),
    {
        (self.0 & Ops::ACCEPT) == Ops::ACCEPT
    }

    pub fn has_connect(&self) -> (r: bool)
        ensures
            r == self.has(Ops::CONNECT),
    {
        (self.0 & Ops::CONNECT) == Ops::CONNECT
    }

    pub fn has_read(&self) -> (r: bool)
        ensures
            r == self.has(Ops::READ),
    {
        (self.0 & Ops::READ) == Ops::READ
    }

    pub fn has_write(&self) -> (r: bool)
        ensures
            r == self.has(Ops::WRITE),
    {
        (self.0 & Ops::WRITE) == Ops::WRITE
    }

    pub fn has_error(&self) -> (r: bool)
        ensures
            r == self.has(Ops::ERROR),
    {
        (self.0 & Ops::ERROR) == Ops::ERROR
    }
}

/// Applying a flag makes it present, removing it makes it absent, and the
/// empty set holds none of the five operation flags.
pub proof fn lemma_ops_algebra(x: Ops, f: usize)
    ensures
        x.with(f).has(f),
        f != 0 ==> !x.with(f).without(f).has(f),
        f != 0 ==> !x.without(f).has(f),
        !Ops(0).has(Ops::ACCEPT),
        !Ops(0).has(Ops::CONNECT),
        !Ops(0).has(Ops::READ),
        !Ops(0).has(Ops::WRITE),
        !Ops(0).has(Ops::ERROR),
{
    let b = x.0;
    assert((b | f) & f == f) by (bit_vector);
    assert(((b | f) & !f) & f == f ==> f == 0) by (bit_vector);
    assert((b & !f) & f == f ==> f == 0) by (bit_vector);
    assert(0usize & 1usize != 1usize) by (bit_vector);
    assert(0usize & 2usize != 2usize) by (bit_vector);
    assert(0usize & 4usize != 4usize) by (bit_vector);
    assert(0usize & 8usize != 8usize) by (bit_vector);
    assert(0usize & 16usize != 16usize) by (bit_vector);
}

} // verus!
