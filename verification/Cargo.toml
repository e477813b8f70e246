[package]
name = "token_exchange"
version = "0.1.0"
edition = "2021"
publish = false

[dependencies]
jsonwebtoken = "8"
jsonwebkey = { version = "0.3", features = ["pkcs-convert"] }
serde = { version = "1", features = ["derive"] }
serde_json = "1"
time = "0.3"
cached = "*"
tokio = { version = "1", features = ["macros", "rt-multi-thread", "sync"] }
tracing = "0.1"
tracing-subscriber = { version = "0.3", features = ["env-filter", "json"] }
aws-config = "*"
aws-sdk-secretsmanager = "*"
lambda_http = "*"
metrics = "*"
metrics_cloudwatch_embedded = "*"
reqwest = { version = "*", features = ["json"] }
reqwest-middleware = "*"
reqwest-retry = "*"
