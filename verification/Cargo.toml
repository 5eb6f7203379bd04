[package]
name = "rootcause_opentelemetry"
version = "0.1.0"
edition = "2021"
publish = false

[dependencies]
opentelemetry = "*"
opentelemetry_sdk = "*"
opentelemetry-semantic-conventions = "*"
opentelemetry-stdout = "*"
rootcause = "*"
rootcause-backtrace = "*"
serde = { version = "*", features = ["derive"] }
serde_json = "*"
tokio = { version = "*", features = ["macros", "rt-multi-thread"] }
