[package]
name = "ethereal_waves"
version = "0.1.0"
edition = "2021"
publish = false

[dependencies]
tokio = { version = "=1.54.1", features = ["sync"] }
zbus = "=5.19.0"

[dev-dependencies]
tokio = { version = "=1.54.1", features = ["rt"] }
