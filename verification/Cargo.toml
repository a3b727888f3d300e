[package]
name = "cinstall"
version = "0.1.0"
edition = "2021"
publish = false

[dependencies]
rand = "0.8"
colored = "*"
serde = { version = "*", features = ["derive"] }
serde_json = "*"
text_io = "*"
url = "*"
