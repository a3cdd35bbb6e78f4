[package]
name = "mycelia_backend"
version = "0.1.0"
edition = "2021"
publish = false

[dependencies]
neo4rs = "=0.8.0"
actix-web = { version = "=4.18.1", default-features = false, features = ["macros"] }
actix-cors = "=0.7.2"
dotenv = "=0.15.0"
env_logger = "=0.11.11"
log = "=0.4.34"
serde = { version = "=1.0.229", features = ["derive"] }

[dev-dependencies]
chrono = { version = "=0.4.45", default-features = false }
