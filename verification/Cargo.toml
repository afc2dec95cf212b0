[package]
name = "dsh_desktop"
version = "0.1.0"
edition = "2021"
publish = false

[dependencies]
regex = "1"
serde = { version = "1", features = ["derive"] }
serde_json = "1"
dunce = "1"
junction = "1"
