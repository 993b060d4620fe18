[package]
name = "scaffolder"
version = "0.1.0"
edition = "2021"
publish = false

[dependencies]
anyhow = "*"
clap = { version = "*", features = ["derive"] }
open = "*"
reqwest = { version = "*", default-features = false, features = ["blocking"] }
semver = "*"
serde_yaml = "*"
url = "*"
zip = { version = "*", default-features = false, features = ["deflate"] }
