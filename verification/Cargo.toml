[package]
name = "tokio-graceful-shutdown"
version = "0.1.0"
edition = "2021"
publish = false

[dependencies]
tokio = { version = "1", default-features = false, features = ["rt", "macros", "sync", "time", "signal"] }
tokio-util = { version = "0.7", default-features = false }
tracing = "0.1"
log = "0.4"
miette = "7"
thiserror = "2"
futures = "0.3"
async-trait = "0.1"
pin-project-lite = "0.2"
