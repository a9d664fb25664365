[package]
name = "csmlinterpreter"
version = "0.1.0"
edition = "2021"
publish = false

[dependencies]
base64 = "=0.13.1"
bincode = "=1.3.3"
serde = { version = "=1.0.229", features = ["derive"] }
serde_json = "=1.0.154"
serde_dynamodb = "=0.9.0"
rusoto_dynamodb = { version = "=0.47.0", default-features = false, features = ["rustls"] }
reqwest = { version = "=0.11.27", default-features = false, features = ["rustls-tls"] }
tokio = { version = "=1.54.1", features = ["rt"] }
uuid = { version = "=1.29.0", features = ["v4"] }
