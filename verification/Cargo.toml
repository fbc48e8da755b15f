[package]
name = "dikta"
version = "0.1.0"
edition = "2021"
publish = false

[dependencies]
anyhow = "1"
bzip2 = "*"
chrono = "*"
dirs = "*"
rusqlite = { version = "*", features = ["bundled"] }
serde = { version = "1", features = ["derive"] }
serde_json = "1"
tar = "*"
ureq = { version = "2", features = ["json"] }
