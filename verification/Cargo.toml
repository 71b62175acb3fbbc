[package]
name = "sweeper"
version = "0.1.0"
edition = "2021"
publish = false

[dependencies]
alloy = { version = "=1.0.42", default-features = false, features = ["std", "network", "signer-local", "rpc-types-eth"] }
dotenv = "=0.15.0"
futures-util = { version = "*", default-features = false, features = ["std"] }
tokio = { version = "*", features = ["rt-multi-thread", "macros", "time"] }
