[package]
name = "dispatching"
version = "0.1.0"
edition = "2021"
publish = false

[dependencies]
dptree = "0.3"
futures = "0.3"
log = "0.4"
tokio = { version = "1", features = ["macros", "rt", "signal", "sync", "time"] }
tokio-stream = "0.1"
