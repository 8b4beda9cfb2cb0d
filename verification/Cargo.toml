[package]
name = "csaf"
version = "0.4.0"
edition = "2021"
publish = false

[dependencies]
chrono = { version = "0.4", default-features = false, features = ["clock", "serde", "std"] }
crates-index = { version = "*", default-features = false, features = ["sparse"] }
rustsec = { version = "*", default-features = false }
serde = { version = "1", features = ["derive"] }
serde_json = "1"
serde_with = "3"
url = { version = "2", features = ["serde"] }
