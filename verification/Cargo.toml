[package]
name = "mod_oud"
version = "0.1.0"
edition = "2021"
publish = false

[dependencies]
chrono = "=0.4.45"
duration-str = "=0.21.0"
humantime = "=2.4.0"
rand = "=0.9.5"
serde = { version = "=1.0.229", features = ["derive"] }
serde_json = "=1.0.154"
uuid = { version = "1", features = ["serde", "v4"] }
