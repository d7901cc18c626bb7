[package]
name = "unsafe_space"
version = "0.1.0"
edition = "2021"
publish = false

[dependencies]
actix-web = "3"
chrono = "0.4"
env_logger = "0.8"
handlebars = "3"
log = "0.4"
rusqlite = { version = "0.25", features = ["bundled"] }
serde = { version = "1", features = ["derive"] }
serde_json = "1"
time = "0.2"
toml = "0.5"
