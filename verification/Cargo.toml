[package]
name = "eprinty"
version = "0.1.0"
edition = "2021"
publish = false

[dependencies]
serde = { version = "1", features = ["derive"] }
serde_json = "1"
sha2 = "0.10"
url = "2"
encoding_rs = "0.8"
chrono = { version = "0.4", default-features = false, features = ["clock", "std"] }
walkdir = "2"
reqwest = { version = "0.12", default-features = false, features = ["blocking"] }
