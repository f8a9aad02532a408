[package]
name = "capture_client"
version = "0.1.0"
edition = "2021"
publish = false

[dependencies]
chrono = "0.4"
clap = { version = "4", features = ["derive"] }
fern = "0.7"
log = "0.4"
