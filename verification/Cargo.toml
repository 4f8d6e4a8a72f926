[package]
name = "indexer"
version = "0.1.0"
edition = "2021"
publish = false

[dependencies]
git2 = { version = "*", default-features = false }
zip = { version = "0.6", default-features = false, features = ["deflate"] }
serde_json = "1"
clap = { version = "4", features = ["derive"] }
colored = "2"
