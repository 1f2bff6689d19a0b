[package]
name = "simpleblog"
version = "0.1.0"
edition = "2021"
publish = false

[dependencies]
http = "*"
markdown = "0.3"
poem = { version = "*", features = ["static-files"] }
serde = { version = "1", features = ["derive"] }
serde_yml = "*"
tokio = { version = "1", features = ["rt-multi-thread", "macros"] }
