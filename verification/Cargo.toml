[package]
name = "pond"
version = "0.1.0"
edition = "2021"
publish = false

[dependencies]
dashmap = "=5.5.3"
hex = "=0.4.3"
serde_json = "=1.0.154"
serde = { version = "=1.0.229", features = ["derive"] }
tokio = { version = "=1.54.1", features = ["rt-multi-thread", "macros", "sync", "time", "net", "io-util"] }
prost = "=0.12.6"
clap = { version = "=4.6.7", features = ["derive"] }
anyhow = "=1.0.104"
async-trait = "0.1"
reqwest = { version = "0.12", default-features = false, features = ["json"] }
