[package]
name = "firo_logger"
version = "0.1.0"
edition = "2021"
publish = false

[dependencies]
atty = "*"
chrono = "0.4"
crossbeam-channel = "*"
log = "*"
once_cell = "*"
parking_lot = "*"
serde = { version = "*", features = ["derive"] }
serde_json = "*"
thiserror = "*"
