//! The bound on the connections that may be out at one time.

use crate::errors::Error;
use vstd::prelude::*;
use vstd::string::*;

verus! {

/// The text with which an exhausted pool refuses an acquisition.
pub const POOL_EXHAUSTED: &'static str =
    "Timeout occurred while waiting for a slot to become available";

/// A bounded pool of connections: how many there are and how many of them
/// are out.
#[derive(Debug, Clone, Copy, PartialEq, Eq)]
pub struct ConnectionPool {
    max_size: usize,
    in_use: usize,
}

impl ConnectionPool {
    /// The largest number of connections that may be out at one time.
    pub closed spec fn spec_max_size(&self) -> nat {
        self.max_size as nat
    }

    /// The number of connections that are out.
    pub closed spec fn spec_in_use(&self) -> nat {
        self.in_use as nat
    }

    /// No more connections are out than the pool has.
    pub open spec fn wf(&self) -> bool {
        self.spec_in_use() <= self.spec_max_size()
    }

    /// Every connection is out.
    pub open spec fn spec_exhausted(&self) -> bool {
        self.spec_in_use() == self.spec_max_size()
    }

    /// Two pools of one size with as many connections out are the same.
    pub proof fn lemma_same_counts_same_pool(&self, other: &ConnectionPool)
        requires
            self.spec_max_size() == other.spec_max_size(),
            self.spec_in_use() == other.spec_in_use(),
        ensures
            *self == *other,
    {
    }

    /// A pool of `max_size` connections, none of them out.
    pub fn new(max_size: usize) -> (pool: Self)
        ensures
            pool.wf(),
            pool.spec_max_size() == max_size,
            pool.spec_in_use() == 0,
    {
        ConnectionPool { max_size, in_use: 0 }
    }

    /// The largest number of connections that may be out at one time.
    pub fn max_size(&self) -> (n: usize)
        ensures
            n == self.spec_max_size(),
    {
        self.max_size
    }

    /// The number of connections that are out.
    pub fn in_use(&self) -> (n: usize)
        ensures
            n == self.spec_in_use(),
    {
        self.in_use
    }

    /// The number of connections that can still be taken.
    pub fn available(&self) -> (n: usize)
        requires
            self.wf(),
        ensures
            n == self.spec_max_size() - self.spec_in_use(),
    {
        self.max_size - self.in_use
    }

    /// Takes one connection out. An exhausted pool refuses with a
    /// `PoolError` and stays as it is.
    pub fn acquire(&mut self) -> (taken: Result<(), Error>)
        requires
            old(self).wf(),
        ensures
            final(self).wf(),
            final(self).spec_max_size() == old(self).spec_max_size(),
            if old(self).spec_exhausted() {
                &&& taken matches Err(Error::PoolError(_))
                &&& final(self).spec_in_use() == old(self).spec_in_use()
            } else {
                &&& taken is Ok
                &&& final(self).spec_in_use() == old(self).spec_in_use() + 1
            },
    {
        if self.in_use == self.max_size {
            Err(Error::PoolError(String::from_str(POOL_EXHAUSTED)))
        } else {
            self.in_use = self.in_use + 1;
            Ok(())
        }
    }

    /// Puts one connection back. With none out nothing happens.
    pub fn release(&mut self)
        requires
            old(self).wf(),
        ensures
            final(self).wf(),
            final(self).spec_max_size() == old(self).spec_max_size(),
            final(self).spec_in_use() == if old(self).spec_in_use() > 0 {
                old(self).spec_in_use() - 1
            } else {
                0
            },
    {
        if self.in_use > 0 {
            self.in_use = self.in_use - 1;
        }
    }
}

} // verus!
