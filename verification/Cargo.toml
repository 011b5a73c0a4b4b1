[package]
name = "http_llm_proxy_stream"
version = "0.1.0"
edition = "2021"
publish = false

[dependencies]
actix-web = "4"
bytes = "1"
clap = { version = "4", features = ["derive"] }
env_logger = "0.11"
flate2 = "1"
futures-util = "0.3"
log = "0.4"
reqwest = { version = "0.12", features = ["stream"] }
