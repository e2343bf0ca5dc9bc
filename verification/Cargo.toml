[package]
name = "zinput"
version = "0.1.0"
edition = "2021"
publish = false

[dependencies]
uuid = { version = "1", features = ["v4"] }
anyhow = "1"
log = "0.4"
parking_lot = "0.12"
crossbeam-channel = "0.5"
dashmap = "5"
rusb = "0.9"
hidapi = "1"
input-linux = "0.6"
simple_logger = "4"
serde = { version = "1", features = ["derive"] }
serde_json = "1"
libm = "0.2"
paste = "1"
