[package]
name = "rudder"
version = "0.1.0"
edition = "2021"
publish = false

[dependencies]
colored = "1"
futures = "0.1"
md-5 = "0.9"
serde = { version = "1", features = ["derive"] }
structopt = "0.3"
tokio = "0.1"
tokio-threadpool = "0.1"
toml = "0.5"
tracing = "0.1"
