//! The pooled connection: one butane connection, reached through the wrapper.

use vstd::prelude::*;

verus! {

/// One butane connection, owned by the pool while it is idle and by the
/// borrower while it is checked out. The wrapper adds nothing to the
/// connection: whoever holds the wrapper reaches the connection itself.
#[derive(Debug)]
pub struct ConnectionWrapper {
    inner: butane::db::Connection,
}

impl View for ConnectionWrapper {
    type V = butane::db::Connection;

    /// The connection that the wrapper holds.
    closed spec fn view(&self) -> butane::db::Connection {
        self.inner
    }
}

impl ConnectionWrapper {
    /// The wrapper that holds `inner`.
    pub closed spec fn wrapping(inner: butane::db::Connection) -> ConnectionWrapper {
        ConnectionWrapper { inner }
    }

    /// Wraps a connection.
    pub fn new(inner: butane::db::Connection) -> (wrapper: ConnectionWrapper)
        ensures
            wrapper == Self::wrapping(inner),
            wrapper@ == inner,
    {
        ConnectionWrapper { inner }
    }

    /// Gives the connection back and drops the wrapper.
    pub fn into_inner(self) -> (inner: butane::db::Connection)
        ensures
            inner == self@,
    {
        self.inner
    }
}

impl std::ops::Deref for ConnectionWrapper {
    type Target = butane::db::Connection;

    /// The connection that the wrapper holds.
    fn deref(&self) -> (inner: &butane::db::Connection)
        ensures
            *inner == self@,
    {
        &self.inner
    }
}

impl std::ops::DerefMut for ConnectionWrapper {
    /// The connection that the wrapper holds, for a caller that changes it:
    /// the wrapper then holds the connection as the caller leaves it.
    fn deref_mut(&mut self) -> (inner: &mut butane::db::Connection)
        ensures
            *inner == old(self)@,
            final(self)@ == *final(inner),
    {
        &mut self.inner
    }
}

/// Wrapping a connection and reading the wrapper gives the connection that
/// went in.
pub proof fn lemma_wrap_then_unwrap(inner: butane::db::Connection)
    ensures
        ConnectionWrapper::wrapping(inner)@ == inner,
{
}

/// Wrapping what a wrapper holds gives that wrapper again: the wrapper is
/// nothing beside its connection.
pub proof fn lemma_unwrap_then_wrap(wrapper: ConnectionWrapper)
    ensures
        ConnectionWrapper::wrapping(wrapper@) == wrapper,
{
}

} // verus!
