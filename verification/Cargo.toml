[package]
name = "tx_listener"
version = "0.1.0"
edition = "2021"
publish = false

[dependencies]
ethers = { version = "1.0", features = ["ws"] }
futures = "0.3"
thiserror = "1.0"
tokio = { version = "1", features = ["macros", "rt-multi-thread"] }
tracing = "0.1"
tracing-subscriber = "0.3"
