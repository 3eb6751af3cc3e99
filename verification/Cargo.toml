[package]
name = "asterix"
version = "0.1.0"
edition = "2021"
publish = false

[dependencies]
socketcan = { version = "=4.0.0", default-features = false }
spacepackets = "=0.18.0"
arbitrary-int = "=2.2.0"
serde = { version = "1", features = ["derive"] }
serde_json = "1"
log = "=0.4.34"
tokio = { version = "=1.54.1", features = ["rt-multi-thread", "sync", "time", "macros"] }
zbus = "=5.19.0"
rustdds = "=0.14.3"
zenoh = { version = "1", default-features = false, features = ["transport_tcp"] }
