[package]
name = "ibc_monitor"
version = "0.1.0"
edition = "2021"
publish = false

[dependencies]
abscissa_core = "=0.5.2"
chrono = "=0.4.45"
gumdrop = "=0.7.0"
prost = "=0.7.0"
prost-types = "=0.7.0"
serde = { version = "=1.0.229", features = ["derive"] }
serde_derive = "=1.0.229"
tendermint-proto = "=0.18.1"

[dev-dependencies]
serde_json = "=1.0.154"
