use butane_rocket_pool::{
    ConfigError, ConnectionWrapper, DBConfig, Field, ManagerWrapper, PoolError, PoolSetup,
};
use r2d2::ManageConnection;
use rocket_sync_db_pools::rocket::figment::Figment;

fn config(backend_name: &str, url: &str, pool_size: u32) -> DBConfig {
    DBConfig {
        backend_name: String::from(backend_name),
        url: String::from(url),
        pool_size,
        timeout: 5,
    }
}

fn unknown_backend(manager: &ManagerWrapper) -> String {
    match manager.inner().connect() {
        Err(butane::Error::UnknownBackend(name)) => name,
        other => panic!("unexpected answer: {:?}", other.map(|_| ())),
    }
}

#[test]
fn connection_spec_takes_backend_name_and_url() {
    let spec = config("sqlite", "test.db", 8).connection_spec();
    assert_eq!(spec.backend_name, "sqlite");
    assert_eq!(spec.conn_str, "test.db");
}

#[test]
fn manager_opens_connections_to_its_specification() {
    let spec = butane::db::ConnectionSpec::new("no-such-backend", "somewhere");
    let manager = ManagerWrapper::new(spec);
    assert_eq!(unknown_backend(&manager), "no-such-backend");
}

#[test]
fn setup_holds_the_pool_size_and_the_manager_of_the_configuration() {
    let setup = PoolSetup::for_config(config("no-such-backend", "test.db", 8)).unwrap();
    assert_eq!(setup.max_size(), 8);
    let (manager, max_size) = setup.into_parts();
    assert_eq!(max_size, 8);
    assert_eq!(unknown_backend(&manager), "no-such-backend");
}

#[test]
fn setup_of_no_connections_is_refused() {
    match PoolSetup::for_config(config("sqlite", "test.db", 0)) {
        Err(error) => assert_eq!(error, PoolError::InvalidSize),
        Ok(setup) => panic!("unexpected setup: {:?}", setup),
    }
}

#[test]
fn plan_passes_the_configuration_error_on() {
    match PoolSetup::plan(Err(ConfigError::Missing(Field::Url))) {
        Err(error) => assert_eq!(error, PoolError::Config(ConfigError::Missing(Field::Url))),
        Ok(setup) => panic!("unexpected setup: {:?}", setup),
    }
}

#[test]
fn plan_of_a_resolved_configuration_is_its_setup() {
    let setup = PoolSetup::plan(Ok(config("no-such-backend", "test.db", 3))).unwrap();
    assert_eq!(setup.max_size(), 3);
}

#[test]
fn plan_of_no_connections_is_refused() {
    match PoolSetup::plan(Ok(config("sqlite", "test.db", 0))) {
        Err(error) => assert_eq!(error, PoolError::InvalidSize),
        Ok(setup) => panic!("unexpected setup: {:?}", setup),
    }
}

#[test]
fn pool_is_planned_from_the_figment() {
    let figment = Figment::new()
        .merge(("workers", 2))
        .merge(("databases.test.backend_name", "no-such-backend"))
        .merge(("databases.test.url", "test.db"));
    let setup = ConnectionWrapper::pool("test", &figment).unwrap();
    assert_eq!(setup.max_size(), 8);
    let (manager, _) = setup.into_parts();
    assert_eq!(unknown_backend(&manager), "no-such-backend");
}

#[test]
fn pool_without_url_is_not_planned() {
    let figment = Figment::new()
        .merge(("workers", 2))
        .merge(("databases.test.backend_name", "sqlite"));
    match ConnectionWrapper::pool("test", &figment) {
        Err(error) => assert_eq!(error, PoolError::Config(ConfigError::Missing(Field::Url))),
        Ok(setup) => panic!("unexpected setup: {:?}", setup),
    }
}

#[test]
fn pool_of_no_workers_is_refused() {
    let figment = Figment::new()
        .merge(("workers", 0))
        .merge(("databases.test.backend_name", "sqlite"))
        .merge(("databases.test.url", "test.db"));
    match ConnectionWrapper::pool("test", &figment) {
        Err(error) => assert_eq!(error, PoolError::InvalidSize),
        Ok(setup) => panic!("unexpected setup: {:?}", setup),
    }
}
