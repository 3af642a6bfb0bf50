[package]
name = "record_view"
version = "0.1.0"
edition = "2021"
publish = false

[dependencies]
bytes = "1"
zerocopy = "0.6"
tower-service = "0.3"
futures-util = { version = "0.3", default-features = false }
