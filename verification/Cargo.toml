[package]
name = "emusim"
version = "0.1.0"
edition = "2021"
publish = false

[dependencies]
glam = { version = "=0.27.0", features = ["serde"] }
serde = { version = "=1.0.229", features = ["derive"] }
thiserror = "=1.0.69"
tracing = "=0.1.44"
tracing-subscriber = "=0.3.23"
parking_lot = "=0.12.5"
crossbeam-channel = "=0.5.17"
libloading = "=0.8.9"
bytemuck = { version = "=1.25.2", features = ["derive"] }
