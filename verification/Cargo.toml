[package]
name = "migration_startup"
version = "0.1.0"
edition = "2021"
publish = false

[dependencies]
refinery = { version = "=0.10.0", features = ["tokio-postgres"] }
tokio = { version = "=1.53.2", features = ["macros", "rt-multi-thread"] }
tokio-postgres = "=0.7.18"
warp = { version = "=0.4.3", features = ["server"] }
