[package]
name = "atmos"
version = "0.1.0"
edition = "2021"
publish = false

[dependencies]
time = "*"
tokio = { version = "*", features = ["rt-multi-thread", "macros", "time", "signal", "sync"] }
actix-web = "*"
rppal = "*"
rusqlite = { version = "*", features = ["bundled"] }
serde = { version = "*", features = ["derive"] }
serde_json = "*"
config = "*"
dotenv = "*"
log = "*"
env_logger = "*"
