[package]
name = "fastrace-poem"
version = "0.1.0"
edition = "2021"
publish = false

[dependencies]
fastrace = "*"
opentelemetry-semantic-conventions = "*"
poem = "*"

[dev-dependencies]
fastrace = { version = "*", features = ["enable"] }
