[package]
name = "azos_keeper"
version = "0.1.0"
edition = "2021"
publish = false

[dependencies]
anyhow = "1"
dotenv = "0.15"
env_logger = { version = "0.10", default-features = false }
ethers = { version = "2.0", default-features = false, features = ["abigen"] }
log = "0.4"
rust_decimal = { version = "1", features = ["maths"] }
tokio = { version = "1", features = ["macros", "rt-multi-thread"] }
