[package]
name = "log_metrics"
version = "0.1.0"
edition = "2021"
publish = false

[dependencies]
amqp = { version = "*", default-features = false }
chrono = { version = "0.4", default-features = false, features = ["std"] }
env_logger = "0.11"
glob = "0.3"
hyper = "0.10"
log = "0.4"
regex = "1"
rustc-serialize = "0.3"
