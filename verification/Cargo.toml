[package]
name = "model_derive"
version = "0.1.0"
edition = "2021"
publish = false

[dependencies]
aws-sdk-dynamodb = { version = "=1.134.0", default-features = false }
quote = "=1.0.47"
serde = "=1.0.229"
serde_dynamo = { version = "=4.3.0", features = ["aws-sdk-dynamodb+1"] }
syn = { version = "=2.0.119", features = ["extra-traits"] }
