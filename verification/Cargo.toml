[package]
name = "ddragon"
version = "0.1.0"
edition = "2021"
publish = false

[dependencies]
cacache = "=13.1.0"
serde = { version = "=1.0.229", features = ["derive"] }
serde_json = "=1.0.154"
thiserror = "=1.0.69"
ureq = { version = "=2.12.1", features = ["json"] }
url = "=2.5.8"
