[package]
name = "rustio_admin"
version = "0.1.0"
edition = "2021"
publish = false

[dependencies]
chrono = { version = "0.4", default-features = false, features = ["alloc"] }
dashmap = "6"
urlencoding = "2"
serde = { version = "1", features = ["derive"] }
serde_json = "1"
clap = { version = "4", features = ["derive"] }
pulldown-cmark = { version = "0.12", default-features = false, features = ["html"] }
