[package]
name = "catcam"
version = "0.1.0"
edition = "2021"
publish = false

[dependencies]
chrono = { version = "0.4", default-features = false, features = ["clock", "std"] }
env_logger = "0.10"
log = "0.4"
reqwest = { version = "0.11", features = ["blocking", "multipart"] }
rppal = "0.14"
thiserror = "1"
