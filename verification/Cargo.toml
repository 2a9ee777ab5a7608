[package]
name = "kvload"
version = "0.1.0"
edition = "2021"
publish = false

[dependencies]
rand = "0.8"
reqwest = { version = "0.12", default-features = false, features = ["json"] }
sonic-rs = "*"
tikv-jemallocator = "*"
tokio = { version = "1", features = ["macros", "rt-multi-thread", "time"] }
