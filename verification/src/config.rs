//! The configuration of one database: what its block names, the defaults
//! layered beneath, and the typed record that comes out.

use crate::bindings::{blocks, entries, lookup_text, lookup_u32, lookup_u8, lookup_workers, Held};
use rocket_sync_db_pools::rocket::figment;
use vstd::prelude::*;
use vstd::string::StringExecFns;

verus! {

/// Seconds to wait for a connection where the block names no `timeout`.
pub const DEFAULT_TIMEOUT: u8 = 5;

/// Connections that the pool holds for each of Rocket's worker threads where
/// the block names no `pool_size`.
pub const CONNECTIONS_PER_WORKER: u32 = 4;

/// The keys of a database's block.
#[derive(Clone, Copy, Debug, PartialEq, Eq)]
pub enum Field {
    BackendName,
    Url,
    PoolSize,
    Timeout,
}

impl Field {
    /// The key as it is written in the configuration.
    pub open spec fn key_view(self) -> Seq<char> {
        match self {
            Field::BackendName => "backend_name"@,
            Field::Url => "url"@,
            Field::PoolSize => "pool_size"@,
            Field::Timeout => "timeout"@,
        }
    }

    /// The key as it is written in the configuration.
    pub fn key(self) -> (key: &'static str)
        ensures
            key@ == self.key_view(),
    {
        match self {
            Field::BackendName => "backend_name",
            Field::Url => "url",
            Field::PoolSize => "pool_size",
            Field::Timeout => "timeout",
        }
    }
}

/// What a block holds under one key.
#[derive(Debug, PartialEq)]
pub enum Entry<T> {
    /// The key is not there.
    Absent,
    /// The key is there, but its value is not of the field's type; figment's
    /// error says why.
    Invalid(figment::Error),
    /// The key is there with this value.
    Present(T),
}

impl<T> Entry<T> {
    /// The entry with `fallback` layered beneath it: the fallback shows only
    /// where the key is absent. A value of the wrong type is not replaced.
    pub open spec fn joined(self, fallback: Option<T>) -> Entry<T> {
        match (self, fallback) {
            (Entry::Absent, Some(value)) => Entry::Present(value),
            _ => self,
        }
    }

    /// Layers `fallback` beneath the entry.
    pub fn join(self, fallback: Option<T>) -> (layered: Entry<T>)
        ensures
            layered == self.joined(fallback),
    {
        match (self, fallback) {
            (Entry::Absent, Some(value)) => Entry::Present(value),
            (entry, _) => entry,
        }
    }
}

impl<T: View> Entry<T> {
    /// Whether the entry is what a lookup gives for a key that the figment
    /// holds or not (`held`) and whose value, where it is held, reads as
    /// `value` or cannot be read at the entry's type.
    pub open spec fn reads(self, held: bool, value: Option<T::V>) -> bool {
        match self {
            Entry::Absent => !held,
            Entry::Invalid(_) => held && value is None,
            Entry::Present(found) => held && value == Some(found@),
        }
    }
}

/// Why a block does not give a [`DBConfig`].
#[derive(Debug, PartialEq)]
pub enum ConfigError {
    /// A key that has no default is absent.
    Missing(Field),
    /// A key holds a value that is not of its field's type.
    Invalid(Field, figment::Error),
}

/// The pool size that `workers` worker threads give where the block names
/// none: four connections for each. There is none where the number of
/// workers is not known, or where four times that number is no `u32`.
pub open spec fn default_pool_size(workers: Option<u32>) -> Option<u32> {
    match workers {
        Some(count) => if count * CONNECTIONS_PER_WORKER <= u32::MAX {
            Some((count * CONNECTIONS_PER_WORKER) as u32)
        } else {
            None
        },
        None => None,
    }
}

/// Computes [`default_pool_size`].
pub fn pool_size_for(workers: Option<u32>) -> (size: Option<u32>)
    ensures
        size == default_pool_size(workers),
{
    match workers {
        Some(count) => count.checked_mul(CONNECTIONS_PER_WORKER),
        None => None,
    }
}

/// The four entries of a database's block.
#[derive(Debug, PartialEq)]
pub struct Settings {
    pub backend_name: Entry<String>,
    pub url: Entry<String>,
    pub pool_size: Entry<u32>,
    pub timeout: Entry<u8>,
}

/// The settings of one database, every one of them resolved.
#[derive(Debug, PartialEq)]
pub struct DBConfig {
    /// Name of the butane backend.
    pub backend_name: String,
    /// Connection string for that backend.
    pub url: String,
    /// Most connections that the pool holds.
    pub pool_size: u32,
    /// Seconds to wait for a connection.
    pub timeout: u8,
}

impl Settings {
    /// Whether the settings are what a block with these entries reads as:
    /// the backend name and the url as texts, the pool size as a `u32`, the
    /// timeout as a `u8`.
    pub open spec fn reads(self, block: Map<Seq<char>, Held>) -> bool {
        &&& self.backend_name.reads(
            block.contains_key(Field::BackendName.key_view()),
            block[Field::BackendName.key_view()].text,
        )
        &&& self.url.reads(block.contains_key(Field::Url.key_view()), block[Field::Url.key_view()].text)
        &&& self.pool_size.reads(
            block.contains_key(Field::PoolSize.key_view()),
            block[Field::PoolSize.key_view()].number,
        )
        &&& self.timeout.reads(
            block.contains_key(Field::Timeout.key_view()),
            block[Field::Timeout.key_view()].small,
        )
    }

    /// The settings with the defaults layered beneath them, the default
    /// timeout first and the default pool size, where `workers` gives one,
    /// beneath that. What the block names itself stays as it is.
    pub open spec fn layered(self, workers: Option<u32>) -> Settings {
        Settings {
            backend_name: self.backend_name,
            url: self.url,
            pool_size: self.pool_size.joined(default_pool_size(workers)),
            timeout: self.timeout.joined(Some(DEFAULT_TIMEOUT)),
        }
    }

    /// Layers the defaults beneath the settings.
    pub fn layer(self, workers: Option<u32>) -> (layered: Settings)
        ensures
            layered == self.layered(workers),
    {
        Settings {
            backend_name: self.backend_name,
            url: self.url,
            pool_size: self.pool_size.join(pool_size_for(workers)),
            timeout: self.timeout.join(Some(DEFAULT_TIMEOUT)),
        }
    }

    /// The first entry of the wrong type, going through the keys in
    /// alphabetical order, with figment's error for it.
    pub open spec fn first_invalid(self) -> Option<(Field, figment::Error)> {
        if self.backend_name is Invalid {
            Some((Field::BackendName, self.backend_name->Invalid_0))
        } else if self.pool_size is Invalid {
            Some((Field::PoolSize, self.pool_size->Invalid_0))
        } else if self.timeout is Invalid {
            Some((Field::Timeout, self.timeout->Invalid_0))
        } else if self.url is Invalid {
            Some((Field::Url, self.url->Invalid_0))
        } else {
            None
        }
    }

    /// The first absent entry, going through the fields in the order in
    /// which [`DBConfig`] declares them.
    pub open spec fn first_missing(self) -> Option<Field> {
        if self.backend_name is Absent {
            Some(Field::BackendName)
        } else if self.url is Absent {
            Some(Field::Url)
        } else if self.pool_size is Absent {
            Some(Field::PoolSize)
        } else if self.timeout is Absent {
            Some(Field::Timeout)
        } else {
            None
        }
    }

    /// The typed record that the settings give. An entry of the wrong type
    /// is reported before an absent one; where all four are present, the
    /// record holds their values.
    pub open spec fn extracted(self) -> Result<DBConfig, ConfigError> {
        match self.first_invalid() {
            Some((field, error)) => Err(ConfigError::Invalid(field, error)),
            None => match self.first_missing() {
                Some(field) => Err(ConfigError::Missing(field)),
                None => Ok(
                    DBConfig {
                        backend_name: self.backend_name->Present_0,
                        url: self.url->Present_0,
                        pool_size: self.pool_size->Present_0,
                        timeout: self.timeout->Present_0,
                    },
                ),
            },
        }
    }

    /// Turns the settings into the typed record.
    pub fn extract(self) -> (config: Result<DBConfig, ConfigError>)
        ensures
            config == self.extracted(),
    {
        match (self.backend_name, self.pool_size, self.timeout, self.url) {
            (Entry::Invalid(error), _, _, _) => Err(ConfigError::Invalid(Field::BackendName, error)),
            (_, Entry::Invalid(error), _, _) => Err(ConfigError::Invalid(Field::PoolSize, error)),
            (_, _, Entry::Invalid(error), _) => Err(ConfigError::Invalid(Field::Timeout, error)),
            (_, _, _, Entry::Invalid(error)) => Err(ConfigError::Invalid(Field::Url, error)),
            (Entry::Absent, _, _, _) => Err(ConfigError::Missing(Field::BackendName)),
            (_, _, _, Entry::Absent) => Err(ConfigError::Missing(Field::Url)),
            (_, Entry::Absent, _, _) => Err(ConfigError::Missing(Field::PoolSize)),
            (_, _, Entry::Absent, _) => Err(ConfigError::Missing(Field::Timeout)),
            (
                Entry::Present(backend_name),
                Entry::Present(pool_size),
                Entry::Present(timeout),
                Entry::Present(url),
            ) => Ok(DBConfig { backend_name, url, pool_size, timeout }),
        }
    }
}

/// The path of the block of the database `db_name`: `databases.` and the name.
pub open spec fn database_key_view(db_name: Seq<char>) -> Seq<char> {
    "databases."@ + db_name
}

/// Builds the path of the block of the database `db_name`.
pub fn database_key(db_name: &str) -> (key: String)
    ensures
        key@ == database_key_view(db_name@),
{
    String::from_str("databases.").concat(db_name)
}

/// Rocket's number of worker threads as a figment with these entries gives
/// it: the `u32` under the key `workers`, and none where the key is not held
/// or holds no `u32`.
pub open spec fn workers_of(held: Map<Seq<char>, Held>) -> Option<u32> {
    if held.contains_key("workers"@) {
        held["workers"@].number
    } else {
        None
    }
}

/// Reads Rocket's number of worker threads. A number that cannot be read,
/// for whatever reason, counts as not known.
fn worker_count(figment: &figment::Figment) -> (workers: Option<u32>)
    ensures
        workers == workers_of(entries(*figment)),
{
    lookup_workers(figment).ok()
}

/// Reads the four entries of the block of the database `db_name`, as the
/// block names them: the backend name and the url as texts, the pool size as
/// a `u32`, the timeout as a `u8`.
fn read_block(db_name: &str, figment: &figment::Figment) -> (explicit: Settings)
    ensures
        explicit.reads(block_of(*figment, db_name@)),
{
    let key = database_key(db_name);
    let block = figment.focus(key.as_str());
    Settings {
        backend_name: lookup_text(&block, Field::BackendName.key()),
        url: lookup_text(&block, Field::Url.key()),
        pool_size: lookup_u32(&block, Field::PoolSize.key()),
        timeout: lookup_u8(&block, Field::Timeout.key()),
    }
}

/// What the figment holds in the block of the database `db_name`.
pub open spec fn block_of(figment: figment::Figment, db_name: Seq<char>) -> Map<Seq<char>, Held> {
    blocks(figment)[database_key_view(db_name)]
}

impl DBConfig {
    /// The record that the block `explicit` gives under `workers` worker
    /// threads: the defaults are layered beneath the block, and the result is
    /// extracted.
    pub open spec fn resolved(explicit: Settings, workers: Option<u32>) -> Result<
        DBConfig,
        ConfigError,
    > {
        explicit.layered(workers).extracted()
    }

    /// Resolves the block `explicit` under `workers` worker threads.
    pub fn resolve(explicit: Settings, workers: Option<u32>) -> (config: Result<
        DBConfig,
        ConfigError,
    >)
        ensures
            config == Self::resolved(explicit, workers),
    {
        explicit.layer(workers).extract()
    }

    /// Whether `settings` is the block `block` of a figment as it is read,
    /// with the defaults for `workers` worker threads layered beneath. The
    /// block fixes every entry but the error that an invalid one carries.
    pub open spec fn is_layered(settings: Settings, block: Map<Seq<char>, Held>, workers: Option<u32>) -> bool {
        exists|explicit: Settings| #[trigger]
            explicit.reads(block) && settings == explicit.layered(workers)
    }

    /// Whether `config` is what the block `block` of a figment resolves to
    /// under `workers` worker threads. The block fixes the result but for
    /// the error that an invalid entry carries.
    pub open spec fn is_resolution(
        config: Result<DBConfig, ConfigError>,
        block: Map<Seq<char>, Held>,
        workers: Option<u32>,
    ) -> bool {
        exists|explicit: Settings| #[trigger]
            explicit.reads(block) && config == Self::resolved(explicit, workers)
    }

    /// Reads the block of the database `db_name` from Rocket's figment and
    /// layers the defaults beneath it, the default pool size from the
    /// figment's number of worker threads.
    pub fn figment(db_name: &str, figment: &figment::Figment) -> (settings: Settings)
        ensures
            Self::is_layered(settings, block_of(*figment, db_name@), workers_of(entries(*figment))),
            !(settings.timeout is Absent),
    {
        let workers = worker_count(figment);
        read_block(db_name, figment).layer(workers)
    }

    /// Reads and resolves the configuration of the database `db_name`: the
    /// result is what the database's block in the figment resolves to under
    /// the figment's number of worker threads.
    pub fn from(db_name: &str, figment: &figment::Figment) -> (config: Result<DBConfig, ConfigError>)
        ensures
            Self::is_resolution(config, block_of(*figment, db_name@), workers_of(entries(*figment))),
            config != Err::<DBConfig, ConfigError>(ConfigError::Missing(Field::Timeout)),
    {
        Self::figment(db_name, figment).extract()
    }
}

/// A block is well formed where it names a backend and a connection string
/// and holds no value of the wrong type.
pub open spec fn names_a_database(explicit: Settings) -> bool {
    &&& explicit.backend_name is Present
    &&& explicit.url is Present
    &&& !(explicit.pool_size is Invalid)
    &&& !(explicit.timeout is Invalid)
}

/// A pool size that the block names is the resolved pool size, whatever the
/// number of worker threads.
pub proof fn lemma_explicit_pool_size_wins(explicit: Settings, workers: Option<u32>)
    requires
        names_a_database(explicit),
        explicit.pool_size is Present,
    ensures
        DBConfig::resolved(explicit, workers) is Ok,
        DBConfig::resolved(explicit, workers)->Ok_0.pool_size == explicit.pool_size->Present_0,
{
}

/// Where the block names no pool size and Rocket runs `count` worker
/// threads, the resolved pool size is four times `count`, as far as that is
/// a `u32`.
pub proof fn lemma_pool_size_from_workers(explicit: Settings, count: u32)
    requires
        names_a_database(explicit),
        explicit.pool_size is Absent,
        4 * count <= u32::MAX,
    ensures
        DBConfig::resolved(explicit, Some(count)) is Ok,
        DBConfig::resolved(explicit, Some(count))->Ok_0.pool_size == 4 * count,
{
}

/// Where the block names no pool size and the number of worker threads is
/// not known, resolution fails; in a block that is otherwise well formed,
/// for want of the pool size.
pub proof fn lemma_no_pool_size_without_workers(explicit: Settings)
    requires
        explicit.pool_size is Absent,
    ensures
        DBConfig::resolved(explicit, None) is Err,
        names_a_database(explicit) ==> DBConfig::resolved(explicit, None) == Err::<
            DBConfig,
            ConfigError,
        >(ConfigError::Missing(Field::PoolSize)),
{
}

/// Where the block names no timeout, a resolved configuration waits five
/// seconds, and resolution never fails for want of a timeout.
pub proof fn lemma_default_timeout(explicit: Settings, workers: Option<u32>)
    requires
        explicit.timeout is Absent,
    ensures
        DBConfig::resolved(explicit, workers) matches Ok(config) ==> config.timeout == 5,
        DBConfig::resolved(explicit, workers) != Err::<DBConfig, ConfigError>(
            ConfigError::Missing(Field::Timeout),
        ),
{
}

/// A block without a backend name or without a connection string resolves to
/// an error, whatever else it holds.
pub proof fn lemma_backend_and_url_required(explicit: Settings, workers: Option<u32>)
    requires
        explicit.backend_name is Absent || explicit.url is Absent,
    ensures
        DBConfig::resolved(explicit, workers) is Err,
{
}

} // verus!
