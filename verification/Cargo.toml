[package]
name = "nodeget"
version = "0.1.0"
edition = "2021"
publish = false

[dependencies]
uuid = { version = "1", features = ["v4"] }
cron = "*"
chrono = "0.4"
serde = { version = "1", features = ["derive"] }
serde_json = "1"
anyhow = "1"
tracing = "0.1"
log = "0.4"
tokio = { version = "1", features = ["rt-multi-thread", "macros", "sync", "time"] }
futures = "0.3"
async-trait = "0.1"
jsonrpsee = { version = "*", features = ["server", "macros"] }
sea-orm = { version = "1", default-features = false, features = ["macros", "with-json", "with-uuid", "with-chrono"] }
sea-orm-migration = { version = "1", default-features = false }
palc = "*"
