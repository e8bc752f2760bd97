[package]
name = "gkr_service"
version = "0.1.0"
edition = "2021"
publish = false

[dependencies]
bytes = "1"
chrono = "0.4"
log = "0.4"
tokio = { version = "1", features = ["full"] }
warp = "0.3"
