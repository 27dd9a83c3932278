[package]
name = "hello_events"
version = "0.1.0"
edition = "2021"
publish = false

[dependencies]
rusoto_core = { version = "*", default-features = false, features = ["rustls"] }
rusoto_dynamodb = { version = "*", default-features = false, features = ["rustls"] }
rusoto_credential = "*"
lambda_runtime = "*"
log = "*"
env_logger = "*"
serde = { version = "*", features = ["derive"] }
tokio = { version = "*", features = ["macros", "rt"] }
