[package]
name = "avsg"
version = "0.1.0"
edition = "2021"
publish = false

[dependencies]
aes = "0.8"
anyhow = "1"
cbc = { version = "0.1", features = ["alloc", "block-padding"] }
clap = "2"
serde = { version = "1", features = ["derive"] }
serde-xml-rs = "0.6"
