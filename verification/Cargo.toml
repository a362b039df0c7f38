[package]
name = "sqs_provider"
version = "0.1.0"
edition = "2021"
publish = false

[dependencies]
aws-config = "*"
aws-sdk-sqs = "*"
serde = { version = "*", features = ["derive"] }
tracing = "*"
