//! The connection manager that the pool asks for connections.

use crate::bindings::{manager_has_broken, manager_of};
use crate::connection::ConnectionWrapper;
use std::ops::DerefMut;
use vstd::prelude::*;

verus! {

/// One butane connection manager, which keeps the connection specification
/// it was made from. It does not change once made, and the pool's threads
/// share it.
#[derive(Debug)]
pub struct ManagerWrapper {
    inner: butane::db::ConnectionManager,
}

impl View for ManagerWrapper {
    type V = butane::db::ConnectionManager;

    /// The butane manager that the wrapper holds.
    closed spec fn view(&self) -> butane::db::ConnectionManager {
        self.inner
    }
}

impl ManagerWrapper {
    /// Makes the manager for a connection specification: it holds the butane
    /// manager of the specification's backend name and connection string.
    pub fn new(spec: butane::db::ConnectionSpec) -> (manager: ManagerWrapper)
        ensures
            manager@ == manager_of(spec.backend_name@, spec.conn_str@),
    {
        ManagerWrapper { inner: butane::db::ConnectionManager::new(spec) }
    }

    /// The butane manager, for the caller that opens or checks a connection
    /// with it.
    pub fn inner(&self) -> (inner: &butane::db::ConnectionManager)
        ensures
            *inner == self@,
    {
        &self.inner
    }

    /// What `connect` answers once butane has tried to open a connection: the
    /// new connection in its wrapper, or butane's error as it came.
    pub fn connected(opened: Result<butane::db::Connection, butane::Error>) -> (answer: Result<
        ConnectionWrapper,
        butane::Error,
    >)
        ensures
            opened matches Ok(conn) ==> answer == Ok::<ConnectionWrapper, butane::Error>(
                ConnectionWrapper::wrapping(conn),
            ),
            opened matches Err(error) ==> answer == Err::<ConnectionWrapper, butane::Error>(error),
    {
        match opened {
            Ok(conn) => Ok(ConnectionWrapper::new(conn)),
            Err(error) => Err(error),
        }
    }

    /// Asks the butane manager whether `conn` is broken, which the pool does
    /// when a connection comes back to it. The answer is butane's; the
    /// wrapper holds the same connection afterwards.
    pub fn has_broken(&self, conn: &mut ConnectionWrapper) -> (broken: bool)
        ensures
            final(conn)@ == old(conn)@,
    {
        manager_has_broken(&self.inner, conn.deref_mut())
    }
}

} // verus!
