[package]
name = "tren"
version = "0.1.0"
edition = "2021"
publish = false

[dependencies]
anyhow = "=1.0.104"
async-trait = "=0.1.92"
clap = { version = "=4.6.7", features = ["cargo"] }
csv-async = "=1.3.1"
futures = "=0.3.34"
futures-util = "=0.3.34"
rust_decimal = "=1.43.0"
serde = { version = "=1.0.229", features = ["derive"] }
thiserror = "=1.0.69"
tokio = { version = "=1.54.1", features = ["full"] }
tokio-util = { version = "=0.7.20", features = ["compat"] }

[dev-dependencies]
rand = "=0.9.5"
