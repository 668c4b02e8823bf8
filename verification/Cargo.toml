[package]
name = "gtfs_translations"
version = "0.1.0"
edition = "2021"
publish = false

[dependencies]
csv = "1"
derivative = "2"
language-tags = "0.3"
serde = { version = "1", features = ["derive"] }
