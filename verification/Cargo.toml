[package]
name = "explora"
version = "0.1.0"
edition = "2021"
publish = false

[dependencies]
uuid = { version = "1", features = ["v4", "v5"] }
glob = "0.3"
russh-config = "*"
serde = { version = "1", features = ["derive"] }
serde_json = "1"
tempfile = "3"
trash = "*"
rustix = { version = "*", features = ["fs"] }
