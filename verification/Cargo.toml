[package]
name = "meshcorrode"
version = "0.1.0"
edition = "2021"
publish = false

[dependencies]
bytes = "1"
hex = "0.4"
tokio = { version = "1", features = ["sync", "rt", "time", "macros"] }
btleplug = "0.11"
futures = "0.3"
log = "0.4"
uuid = "1"
thiserror = "2"
