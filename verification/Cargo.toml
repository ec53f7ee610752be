[package]
name = "auth"
version = "0.1.0"
edition = "2021"
publish = false

[dependencies]
alcoholic_jwt = "*"
serde_json = "*"
serde = { version = "*", features = ["derive"] }
http = "0.2"
lambda_http = "0.3"
reqwest = { version = "0.11", default-features = false, features = ["blocking", "rustls-tls", "json"] }
tokio = { version = "1", features = ["macros", "rt-multi-thread"] }
rusoto_core = { version = "0.47", default-features = false, features = ["rustls"] }
rusoto_dynamodb = { version = "0.47", default-features = false, features = ["rustls"] }
chrono = { version = "0.4", features = ["serde"] }
uuid = { version = "1", features = ["v4"] }
lazy_static = "1"
