[package]
name = "portfolio_api"
version = "0.1.0"
edition = "2021"
publish = false

[dependencies]
actix-cors = "0.7"
actix-files = "0.6"
actix-multipart = "0.6"
actix-web = "4"
chrono = "0.4"
deadpool-postgres = "0.12"
dotenv = "0.15"
env_logger = "0.10"
futures-util = "0.3"
reqwest = { version = "0.11", default-features = false, features = ["json", "multipart", "rustls-tls"] }
sanitize-filename = "0.5"
serde = { version = "1", features = ["derive"] }
serde_json = "1"
tokio-postgres = { version = "0.7", features = ["with-uuid-1"] }
uuid = { version = "1", features = ["v4", "serde"] }
