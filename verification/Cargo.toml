[package]
name = "session_service"
version = "0.1.0"
edition = "2021"
publish = false

[dependencies]
dotenv = "0.15"
log = "0.4"
reqwest = { version = "0.11", features = ["json"] }
serde = { version = "1", features = ["derive"] }
tokio = { version = "1", features = ["full"] }
tokio-postgres = "0.7"
warp = "0.3"
