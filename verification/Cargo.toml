[package]
name = "notifyd"
version = "0.1.0"
edition = "2021"
publish = false

[dependencies]
async-std = { version = "1", features = ["attributes"] }
chrono = { version = "0.4", default-features = false, features = ["clock", "std"] }
log = "0.4"
pretty_env_logger = "0.5"
serde = { version = "1", features = ["derive"] }
serde_repr = "0.1"
zbus = "3"
zvariant = "3"
