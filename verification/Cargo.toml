[package]
name = "update_agent"
version = "0.1.0"
edition = "2021"
publish = false

[dependencies]
chrono = "*"
deadpool-postgres = "*"
dotenvy = "*"
env_logger = "*"
isahc = "*"
log = "*"
native-tls = "*"
postgres-native-tls = "*"
self_update = "*"
tokio = { version = "*", features = ["rt-multi-thread", "macros", "time"] }
tokio-postgres = "*"
