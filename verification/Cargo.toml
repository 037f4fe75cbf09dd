[package]
name = "person_service"
version = "0.1.0"
edition = "2021"
publish = false

[dependencies]
actix-rt = "=1.1.1"
actix-web = { version = "=2.0.0", default-features = false }
chrono = "=0.4.19"
diesel = { version = "=1.4.8", features = ["sqlite", "r2d2"] }
dotenv = "=0.15.0"
env_logger = "=0.7.1"
listenfd = "=0.3.5"
log = "=0.4.34"
serde = { version = "=1.0.229", features = ["derive"] }
