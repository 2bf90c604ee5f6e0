[package]
name = "butane_rocket_pool"
version = "0.1.0"
edition = "2021"
publish = false

[dependencies]
butane = { version = "*", features = ["r2d2"] }
r2d2 = "0.8"
rocket_sync_db_pools = "*"
serde = { version = "1", features = ["derive"] }
