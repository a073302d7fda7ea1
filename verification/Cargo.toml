[package]
name = "geyser_sink"
version = "0.1.0"
edition = "2021"
publish = false

[dependencies]
agave-geyser-plugin-interface = "=3.1.14"
bs58 = "=0.5.1"
postgrest = "=1.6.0"
serde = { version = "=1.0.229", features = ["derive"] }
serde_json = "=1.0.154"
tokio = { version = "=1.54.1", features = ["rt", "rt-multi-thread", "time"] }
