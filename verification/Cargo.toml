[package]
name = "loadgen"
version = "0.1.0"
edition = "2021"
publish = false

[dependencies]
argparse = "*"
hyper = { version = "0.14", default-features = false, features = ["client", "http1", "tcp"] }
tokio = { version = "1", features = ["macros", "rt-multi-thread", "signal", "time"] }
