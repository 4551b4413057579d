[package]
name = "alcom"
version = "0.1.0"
edition = "2021"
publish = false

[dependencies]
dirs-next = "=2.0.0"
log = "=0.4.35"
serde = { version = "=1.0.229", features = ["derive"] }
serde_json = "=1.0.154"
clap = { version = "=4.6.7", features = ["derive"] }
tokio = { version = "=1.54.1", features = ["fs", "sync", "time", "rt"] }
futures = "=0.3.34"
reqwest = { version = "=0.12.28", default-features = false }
yoke = "=0.7.5"
stable_deref_trait = "=1.2.1"
