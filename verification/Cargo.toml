[package]
name = "fizz"
version = "0.1.0"
edition = "2021"
publish = false

[dependencies]
tokio = { version = "*", default-features = false, features = ["net", "time", "fs", "io-util"] }
futures = "*"
reqwest = { version = "*", default-features = false, features = ["rustls-tls", "stream"] }

[dev-dependencies]
tokio = { version = "*", default-features = false, features = ["rt-multi-thread", "net", "time", "io-util"] }
