[package]
name = "proxy_rs"
version = "0.1.0"
edition = "2021"
publish = false

[dependencies]
bytes = "1"
futures = "0.3"
tokio = { version = "1", features = ["rt-multi-thread", "net", "io-util", "sync"] }
parking_lot = "0.12"
log = "0.4"
pretty_env_logger = "0.5"
num_cpus = "1"
failure = "0.1"
