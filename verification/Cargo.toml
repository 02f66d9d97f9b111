[package]
name = "media-savant-api"
version = "0.1.0"
edition = "2021"
publish = false

[dependencies]
actix-cors = "0.7"
actix-governor = "*"
actix-web = { version = "4", default-features = false, features = ["macros", "cookies"] }
bytes = "1"
dotenvy = "0.15"
env_logger = { version = "*", default-features = false }
futures-util = { version = "0.3", default-features = false }
log = "0.4"
redis = { version = "*", default-features = false, features = ["aio", "tokio-comp"] }
reqwest = { version = "0.12", default-features = false, features = ["json", "stream", "rustls-tls"] }
serde = { version = "1", features = ["derive"] }
serde_json = "1"
tokio = { version = "1", features = ["sync"] }
uuid = { version = "1", features = ["v4", "serde"] }
