//! What this crate takes on trust from butane, figment and r2d2.
//!
//! Verus does not look into these crates. Each item below either makes one
//! of their types known or states what one of their functions is believed to
//! do; everything else in the crate is proved from these statements.

use crate::config::{workers_of, Entry};
use r2d2::ManageConnection;
use vstd::prelude::*;

verus! {

/// butane's connection to a database: a boxed backend connection, opaque here.
#[verifier::external_type_specification]
#[verifier::external_body]
pub struct ExConnection(butane::db::Connection);

/// butane's connection manager, which keeps the specification it was made
/// from and opens connections to it. Its field is private to butane.
#[verifier::external_type_specification]
#[verifier::external_body]
pub struct ExConnectionManager(butane::db::ConnectionManager);

/// butane's connection specification: the name of a backend and the
/// connection string for it, both public fields.
#[verifier::external_type_specification]
pub struct ExConnectionSpec(butane::db::ConnectionSpec);

/// butane's error type. It is only passed on.
#[verifier::external_type_specification]
#[verifier::external_body]
pub struct ExButaneError(butane::Error);

/// figment's merged configuration, as Rocket hands it out.
#[verifier::external_type_specification]
#[verifier::external_body]
pub struct ExFigment(rocket_sync_db_pools::rocket::figment::Figment);

/// figment's error type. It is only passed on, and asked whether it reports
/// a missing key.
#[verifier::external_type_specification]
#[verifier::external_body]
pub struct ExFigmentError(rocket_sync_db_pools::rocket::figment::Error);

/// The manager that `butane::db::ConnectionManager::new` makes from a
/// specification with this backend name and this connection string.
pub uninterp spec fn manager_of(backend_name: Seq<char>, conn_str: Seq<char>) -> butane::db::ConnectionManager;

/// `butane::db::ConnectionManager::new` stores the specification and does
/// nothing else, so the manager is a function of the two strings alone.
pub assume_specification[ butane::db::ConnectionManager::new ](
    spec: butane::db::ConnectionSpec,
) -> (manager: butane::db::ConnectionManager)
    ensures
        manager == manager_of(spec.backend_name@, spec.conn_str@),
;

/// What a figment holds under one key, as far as this crate asks: the
/// value read as a text, as a `u32` and as a `u8`, each where the value can
/// be read so.
pub struct Held {
    pub text: Option<Seq<char>>,
    pub number: Option<u32>,
    pub small: Option<u8>,
}

/// The keys under which a figment holds a value, each with what the value
/// reads as. A key is held where a lookup does not report it missing. figment
/// finds the value before it reads it, and reading a value as a text or as a
/// number reports no missing field, so whether a key is held does not depend
/// on the type that is asked for.
pub uninterp spec fn entries(figment: rocket_sync_db_pools::rocket::figment::Figment) -> Map<Seq<char>, Held>;

/// Under each key, the entries of the figment that `Figment::focus` gives
/// at that key.
pub uninterp spec fn blocks(figment: rocket_sync_db_pools::rocket::figment::Figment) -> Map<Seq<char>, Map<Seq<char>, Held>>;

/// `Figment::focus` gives the figment nested at `key`; an empty one where
/// `key` leads to no dictionary. What it holds is named by [`blocks`];
/// nothing else is claimed of it.
pub assume_specification[ rocket_sync_db_pools::rocket::figment::Figment::focus ](
    figment: &rocket_sync_db_pools::rocket::figment::Figment,
    key: &str,
) -> (focused: rocket_sync_db_pools::rocket::figment::Figment)
    ensures
        entries(focused) == blocks(*figment)[key@],
;

/// `Figment::extract_inner::<String>` at `key`. An error that
/// `figment::Error::missing` calls a missing field means that the key is not
/// held; any other error is kept, and the value is no text.
#[verifier::external_body]
pub(crate) fn lookup_text(
    figment: &rocket_sync_db_pools::rocket::figment::Figment,
    key: &str,
) -> (entry: Entry<String>)
    ensures
        entry.reads(entries(*figment).contains_key(key@), entries(*figment)[key@].text),
{
    match figment.extract_inner::<String>(key) {
        Ok(value) => Entry::Present(value),
        Err(error) if error.missing() => Entry::Absent,
        Err(error) => Entry::Invalid(error),
    }
}

/// `Figment::extract_inner::<u32>` at `key`. An error that
/// `figment::Error::missing` calls a missing field means that the key is not
/// held; any other error is kept, and the value is no `u32`.
#[verifier::external_body]
pub(crate) fn lookup_u32(
    figment: &rocket_sync_db_pools::rocket::figment::Figment,
    key: &str,
) -> (entry: Entry<u32>)
    ensures
        entry.reads(entries(*figment).contains_key(key@), entries(*figment)[key@].number),
{
    match figment.extract_inner::<u32>(key) {
        Ok(value) => Entry::Present(value),
        Err(error) if error.missing() => Entry::Absent,
        Err(error) => Entry::Invalid(error),
    }
}

/// `Figment::extract_inner::<u8>` at `key`. An error that
/// `figment::Error::missing` calls a missing field means that the key is not
/// held; any other error is kept, and the value is no `u8`.
#[verifier::external_body]
pub(crate) fn lookup_u8(
    figment: &rocket_sync_db_pools::rocket::figment::Figment,
    key: &str,
) -> (entry: Entry<u8>)
    ensures
        entry.reads(entries(*figment).contains_key(key@), entries(*figment)[key@].small),
{
    match figment.extract_inner::<u8>(key) {
        Ok(value) => Entry::Present(value),
        Err(error) if error.missing() => Entry::Absent,
        Err(error) => Entry::Invalid(error),
    }
}

/// `Figment::extract_inner::<u32>` at `rocket::Config::WORKERS`, which is
/// the key `workers`: the number held there, or figment's error where the
/// key is not held or holds no `u32`.
#[verifier::external_body]
pub(crate) fn lookup_workers(
    figment: &rocket_sync_db_pools::rocket::figment::Figment,
) -> (found: Result<u32, rocket_sync_db_pools::rocket::figment::Error>)
    ensures
        found matches Ok(count) ==> workers_of(entries(*figment)) == Some(count),
        found is Err ==> workers_of(entries(*figment)) is None,
{
    figment.extract_inner::<u32>(rocket_sync_db_pools::rocket::Config::WORKERS)
}

/// `r2d2::ManageConnection::has_broken` of butane's manager, which asks the
/// connection whether it is closed. butane only reads the connection there
/// (`is_closed` takes `&self`), so the connection is the one that went in.
#[verifier::external_body]
pub(crate) fn manager_has_broken(
    manager: &butane::db::ConnectionManager,
    conn: &mut butane::db::Connection,
) -> (broken: bool)
    ensures
        *final(conn) == *old(conn),
{
    manager.has_broken(conn)
}

} // verus!
