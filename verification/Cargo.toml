[package]
name = "crate_change_monitor"
version = "0.1.0"
edition = "2021"
publish = false

[dependencies]
chrono = { version = "0.4", features = ["serde"] }
dirs = "2.0"
lazy_static = "1.4"
lettre = "0.9"
lettre_email = "0.9"
reqwest = "0.9"
semver = { version = "0.9", features = ["serde"] }
serde = { version = "1", features = ["derive"] }
serde_json = "1"
tera = "1"
toml = "0.5"
