[package]
name = "xwire"
version = "0.1.0"
edition = "2021"
publish = false

[dependencies]
ascii = "*"
bytes = "*"
clap = { version = "*", features = ["cargo"] }
colored = "*"
tokio = { version = "*", features = ["io-util", "macros", "net", "rt", "sync", "time"] }
