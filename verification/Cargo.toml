[package]
name = "reflex_bench"
version = "0.1.0"
edition = "2021"
publish = false

[dependencies]
rand = "0.8"
tokio = { version = "1", features = ["full"] }
serde = { version = "1", features = ["derive"] }
serde_json = "1"
getopts = "0.2"
netlify_lambda = "*"
aws_lambda_events = "*"
