[package]
name = "file_listing"
version = "0.1.0"
edition = "2021"
publish = false

[dependencies]
actix-web = { version = "4", default-features = false, features = ["macros"] }
clap = { version = "4", features = ["derive"] }
regex = "1"
walkdir = "2"

[dev-dependencies]
serde_json = "1"
