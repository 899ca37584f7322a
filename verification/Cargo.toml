[package]
name = "sc2"
version = "0.1.0"
edition = "2021"
publish = false

[dependencies]
rustc-hash = "=2.1.3"
protobuf = "=1.7.5"
sc2-proto = "=0.1.8"
tungstenite = "=0.30.0"
regex = "=1.13.1"
syn = { version = "=2.0.119", features = ["full"] }
quote = "=1.0.47"
proc-macro2 = "=1.0.107"
