[package]
name = "asynchronous-codec"
version = "0.7.0"
edition = "2021"
publish = false

[dependencies]
bytes = "1"
futures-util = { version = "0.3", features = ["io", "sink"] }

[dev-dependencies]
futures = "0.3"
futures_ringbuf = "*"
