[package]
name = "aghpb"
version = "0.1.0"
edition = "2021"
publish = false

[dependencies]
bytes = "=1.12.1"
chrono = { version = "=0.4.45", default-features = false, features = ["std"] }
image = { version = "=0.25.10", default-features = false, features = ["png", "jpeg"] }
reqwest = { version = "=0.13.5", default-features = false, features = ["query"] }
serde_json = "=1.0.151"
urlencoding = "=2.1.3"
