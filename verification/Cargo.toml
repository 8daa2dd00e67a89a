[package]
name = "supers"
version = "0.1.0"
edition = "2021"
publish = false

[dependencies]
actix-web = "4"
anyhow = "1"
config = "0.14"
crossbeam = "0.8"
dirs = "5"
globwalk = "0.9"
serde = { version = "1", features = ["derive"] }
serde_derive = "1"
thiserror = "1"
toml = "0.8"
tracing = "0.1"
tracing-actix-web = "0.7"
tracing-log = "0.2"
tracing-subscriber = { version = "0.3", features = ["env-filter", "json"] }
