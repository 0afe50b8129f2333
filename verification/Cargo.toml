[package]
name = "cost_notifier"
version = "0.1.0"
edition = "2021"
publish = false

[dependencies]
chrono = "0.4"
lambda_runtime = "*"
log = "0.4"
reqwest = { version = "*", default-features = false }
rusoto_cloudwatch = { version = "*", default-features = false, features = ["rustls"] }
rusoto_core = { version = "*", default-features = false, features = ["rustls"] }
serde_json = "1"
simplelog = "*"
tokio = { version = "1", features = ["macros", "rt-multi-thread"] }
