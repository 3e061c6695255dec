[package]
name = "selenium"
version = "0.1.0"
edition = "2021"
publish = false

[dependencies]
serde = { version = "1", features = ["derive"] }
serde_json = "1"
ureq = { version = "3", default-features = false }
minreq = "2"
timeout-readwrite = "*"
zip = { version = "*", default-features = false }
