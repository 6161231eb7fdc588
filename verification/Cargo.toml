[package]
name = "webservice"
version = "0.1.0"
edition = "2021"
publish = false

[dependencies]
clap = { version = "=4.6.7", features = ["derive"] }
ctrlc = "=3.5.2"
env_logger = "=0.11.11"
futures = "0.3"
hyper = { version = "0.14", features = ["full"] }
log = "=0.4.34"
threadpool = "=1.8.1"
tokio = { version = "1", features = ["full"] }
