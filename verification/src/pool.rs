//! What a pool for one database is built from.

use crate::bindings::{entries, manager_of};
use crate::config::{block_of, workers_of, ConfigError, DBConfig, Field, Settings};
use crate::connection::ConnectionWrapper;
use crate::manager::ManagerWrapper;
use rocket_sync_db_pools::rocket::figment;
use vstd::prelude::*;

verus! {

/// Why no pool is built for a database.
#[derive(Debug, PartialEq)]
pub enum PoolError {
    /// The database's configuration does not resolve.
    Config(ConfigError),
    /// The resolved pool size is zero: a pool holds at least one connection.
    InvalidSize,
}

/// What a pool is built from: the manager that opens its connections and
/// the most connections it may hold, which is never zero.
#[derive(Debug)]
pub struct PoolSetup {
    manager: ManagerWrapper,
    max_size: u32,
}

impl DBConfig {
    /// The connection specification of the configuration: its backend name,
    /// and its url as the connection string.
    pub fn connection_spec(self) -> (spec: butane::db::ConnectionSpec)
        ensures
            spec.backend_name == self.backend_name,
            spec.conn_str == self.url,
    {
        butane::db::ConnectionSpec { backend_name: self.backend_name, conn_str: self.url }
    }
}

impl PoolSetup {
    #[verifier::type_invariant]
    spec fn holds_a_connection(self) -> bool {
        self.max_size > 0
    }

    /// The manager that opens the pool's connections.
    pub closed spec fn spec_manager(self) -> ManagerWrapper {
        self.manager
    }

    /// The most connections that the pool may hold.
    pub closed spec fn spec_max_size(self) -> u32 {
        self.max_size
    }

    /// The error, if any, for which no pool is built from a resolution: the
    /// configuration's own error where it did not resolve, and
    /// [`PoolError::InvalidSize`] where it resolved to a pool of no
    /// connections.
    pub open spec fn failure(resolution: Result<DBConfig, ConfigError>) -> Option<PoolError> {
        match resolution {
            Err(error) => Some(PoolError::Config(error)),
            Ok(config) => if config.pool_size == 0 {
                Some(PoolError::InvalidSize)
            } else {
                None
            },
        }
    }

    /// Whether the setup is the one for `config`: its manager is butane's
    /// manager for the configuration's backend name and url, and its bound
    /// is the configuration's pool size.
    pub open spec fn is_for(self, config: DBConfig) -> bool {
        &&& self.spec_manager()@ == manager_of(config.backend_name@, config.url@)
        &&& self.spec_max_size() == config.pool_size
    }

    /// Whether `setup` is the plan for a resolution: the error for which no
    /// pool is built, or the setup for the resolved configuration.
    pub open spec fn is_plan(
        setup: Result<PoolSetup, PoolError>,
        resolution: Result<DBConfig, ConfigError>,
    ) -> bool {
        match Self::failure(resolution) {
            Some(error) => setup == Err::<PoolSetup, PoolError>(error),
            None => setup is Ok && setup->Ok_0.is_for(resolution->Ok_0),
        }
    }

    /// Prepares the pool of a resolved configuration.
    pub fn for_config(config: DBConfig) -> (setup: Result<PoolSetup, PoolError>)
        ensures
            Self::failure(Ok(config)) matches Some(error) ==> setup == Err::<PoolSetup, PoolError>(
                error,
            ),
            Self::failure(Ok(config)) is None ==> setup is Ok && setup->Ok_0.is_for(config),
    {
        let max_size = config.pool_size;
        if max_size == 0 {
            Err(PoolError::InvalidSize)
        } else {
            Ok(PoolSetup { manager: ManagerWrapper::new(config.connection_spec()), max_size })
        }
    }

    /// Prepares the pool of a resolution: where the configuration did not
    /// resolve, its error is passed on and nothing is prepared.
    pub fn plan(resolution: Result<DBConfig, ConfigError>) -> (setup: Result<PoolSetup, PoolError>)
        ensures
            Self::failure(resolution) matches Some(error) ==> setup == Err::<PoolSetup, PoolError>(
                error,
            ),
            Self::failure(resolution) is None ==> setup is Ok && setup->Ok_0.is_for(
                resolution->Ok_0,
            ),
    {
        match resolution {
            Err(error) => Err(PoolError::Config(error)),
            Ok(config) => Self::for_config(config),
        }
    }

    /// The most connections that the pool may hold.
    pub fn max_size(&self) -> (max_size: u32)
        ensures
            max_size == self.spec_max_size(),
            max_size > 0,
    {
        proof {
            use_type_invariant(self);
        }
        self.max_size
    }

    /// The manager and the bound, for the caller that builds the pool.
    pub fn into_parts(self) -> (parts: (ManagerWrapper, u32))
        ensures
            parts.0 == self.spec_manager(),
            parts.1 == self.spec_max_size(),
            parts.1 > 0,
    {
        proof {
            use_type_invariant(&self);
        }
        (self.manager, self.max_size)
    }
}

impl ConnectionWrapper {
    /// Prepares the pool of the database `db_name` from Rocket's figment:
    /// the setup is the plan for what the database's block in the figment
    /// resolves to under the figment's number of worker threads.
    pub fn pool(db_name: &str, figment: &figment::Figment) -> (setup: Result<PoolSetup, PoolError>)
        ensures
            exists|resolution: Result<DBConfig, ConfigError>| #[trigger]
                DBConfig::is_resolution(
                    resolution,
                    block_of(*figment, db_name@),
                    workers_of(entries(*figment)),
                ) && PoolSetup::is_plan(setup, resolution),
            setup != Err::<PoolSetup, PoolError>(
                PoolError::Config(ConfigError::Missing(Field::Timeout)),
            ),
    {
        PoolSetup::plan(DBConfig::from(db_name, figment))
    }
}

/// No pool is prepared for a block without a backend name or without a
/// connection string: the plan fails with the configuration's error.
pub proof fn lemma_no_pool_without_backend_and_url(explicit: Settings, workers: Option<u32>)
    requires
        explicit.backend_name is Absent || explicit.url is Absent,
    ensures
        PoolSetup::failure(DBConfig::resolved(explicit, workers)) matches Some(
            PoolError::Config(_),
        ),
{
}

/// No pool is prepared where the block names no pool size and the number of
/// worker threads is not known.
pub proof fn lemma_no_pool_without_size(explicit: Settings)
    requires
        explicit.pool_size is Absent,
    ensures
        PoolSetup::failure(DBConfig::resolved(explicit, None)) matches Some(PoolError::Config(_)),
{
}

} // verus!
