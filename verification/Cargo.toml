[package]
name = "livechess"
version = "0.1.0"
edition = "2021"
publish = false

[dependencies]
shakmaty = "=0.29.4"
serde_json = "=1.0.151"
uuid = { version = "=1.27.0", features = ["v4"] }
sha2 = "=0.10.9"
poem = { version = "=3.1.12", features = ["websocket"] }
poem-openapi = "=5.1.16"
tokio = { version = "=1.53.2", features = ["rt-multi-thread", "macros", "sync"] }
futures-util = "=0.3.34"
hmac = "=0.12.1"
jwt = "=0.16.0"
serde = { version = "=1.0.229", features = ["derive"] }
sqlx = { version = "=0.8.6", features = ["sqlite", "runtime-tokio"] }
