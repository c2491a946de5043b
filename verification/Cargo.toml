[package]
name = "table_api"
version = "0.1.0"
edition = "2021"
publish = false

[dependencies]
chrono = "0.4"
uuid = "1"
actix-web = "4"
deadpool-postgres = "*"
tokio-postgres = { version = "0.7", features = ["with-chrono-0_4", "with-uuid-1", "with-serde_json-1"] }
serde = { version = "1", features = ["derive"] }
serde_json = "1"
dotenv = "*"
env_logger = "*"
log = "0.4"
url = "2"
