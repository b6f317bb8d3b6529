[package]
name = "lib_shared"
version = "0.1.0"
edition = "2021"
publish = false

[dependencies]
anyhow = "1"
serde = { version = "1", features = ["derive"] }
protobuf = "2.25"
mio = "0.8"
crossbeam-utils = "0.8"
once_cell = "1"
log = "0.4"
fern = { version = "0.6", features = ["date-based"] }
chrono = "0.4"
