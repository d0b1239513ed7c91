[package]
name = "dtu_at_http"
version = "0.1.0"
edition = "2021"
publish = false

[dependencies]
embassy-time = "*"
embedded-io-async = "*"
esp-hal = { version = "*", features = ["esp32c3", "unstable"] }
