[package]
name = "cell_engine"
version = "0.1.0"
edition = "2021"
publish = false

[dependencies]
futures = "0.3"
holochain_serialized_bytes = "*"
parking_lot = "0.11"
rkv = "0.10"
rusqlite = "0.24"
serde = { version = "1", features = ["derive"] }
tempdir = "0.3"
tokio = { version = "1", features = ["rt"] }
tracing = "0.1"
