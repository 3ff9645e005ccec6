[package]
name = "update-watcher"
version = "0.1.0"
edition = "2021"
publish = false

[dependencies]
clap = "2"
prost = "0.13"
regex = "1"
serde_json = "1"
tokio = { version = "1", features = ["rt-multi-thread", "time"] }
tonic = "0.12"
