[package]
name = "buzzer"
version = "0.1.0"
edition = "2021"
publish = false

[dependencies]
embassy-executor = "0.9.1"
embassy-net = { version = "0.9.1", features = ["dhcpv4", "tcp", "medium-ethernet"] }
embassy-sync = "0.7.2"
embassy-time = { version = "=0.5.1", features = ["tick-hz-1_000_000"] }
embedded-io-async = "0.7.0"
picoserve = { version = "=0.20.1", features = ["embassy", "ws", "json"] }
serde = { version = "1", default-features = false, features = ["derive"] }
static_cell = "2.1.1"
